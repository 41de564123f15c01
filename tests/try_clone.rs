use puchiprop::try_clone::try_clone_wrap;

#[test]
fn try_clone() {
    struct A;
    let a = A;
    let wrap = try_clone_wrap(&a);
    let v = wrap.try_clone_inner();
    assert!(v.is_none());

    #[derive(Clone)]
    struct B;
    let b = B;
    let wrap = try_clone_wrap(&b);
    let v = wrap.try_clone_inner();
    assert!(v.is_some());
}
