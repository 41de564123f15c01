use vstd::prelude::*;

verus! {

/// Wraps a reference so that `try_clone_inner` duplicates the value where its
/// type is `Clone` and yields `None` where it is not.
///
/// On a `TryCloneWrap<T>` with `T: Clone`, method lookup finds the inherent
/// `try_clone_inner` of `TryCloneWrap`; for any other `T` it goes on, through
/// `Deref`, to the one of `TryCloneWrapInner`.
pub struct TryCloneWrap<'a, T>(TryCloneWrapInner<'a, T>);

/// The fallback of `TryCloneWrap`, reached through `Deref`.
pub struct TryCloneWrapInner<'a, T>(&'a T);

impl<'a, T> TryCloneWrapInner<'a, T> {
    /// The wrapped value.
    pub closed spec fn value(&self) -> T {
        *self.0
    }
}

impl<'a, T> TryCloneWrap<'a, T> {
    /// The wrapped value.
    pub closed spec fn value(&self) -> T {
        *self.0.0
    }

    pub closed spec fn inner(&self) -> TryCloneWrapInner<'a, T> {
        self.0
    }
}

/// Wraps `r` for a best-effort duplication.
pub fn try_clone_wrap<'a, T>(r: &'a T) -> (w: TryCloneWrap<'a, T>)
    ensures
        w.value() == *r,
{
    TryCloneWrap(TryCloneWrapInner(r))
}

impl<'a, T> TryCloneWrapInner<'a, T> {
    /// No duplicate: the type offers none.
    pub fn try_clone_inner(&self) -> (r: Option<T>)
        ensures
            r is None,
    {
        None
    }
}

impl<'a, T: Clone> TryCloneWrap<'a, T> {
    /// A duplicate of the wrapped value.
    pub fn try_clone_inner(&self) -> (r: Option<T>)
        ensures
            r matches Some(c) && cloned(self.value(), c),
    {
        Some(self.0.0.clone())
    }
}

impl<'a, T> std::ops::Deref for TryCloneWrap<'a, T> {
    type Target = TryCloneWrapInner<'a, T>;

    fn deref(&self) -> (r: &TryCloneWrapInner<'a, T>)
        ensures
            *r == self.inner(),
            r.value() == self.value(),
    {
        &self.0
    }
}

} // verus!
