use puchiprop::generator::TestCaseGenerator;
use puchiprop::generators;
use puchiprop::generators::{array, choice, constant, range, zip, GeneratorError};
use puchiprop::source::RandomSource;

fn source() -> RandomSource {
    RandomSource::from_seed(0x5eed_1234_abcd_0042)
}

#[test]
fn test_range() {
    let mut rng = source();
    let p = 0..10;
    let g = range(p.clone()).unwrap();
    for _ in 0..100 {
        let r: i32 = g.generate(&mut rng);
        assert!(p.contains(&r))
    }
}

#[test]
fn test_constant() {
    let mut rng = source();
    for p in [0, 1, 2, 3, 4, 5, 6, 7, 8, 9, 10] {
        let g = constant(p);
        for _ in 0..100 {
            let case = g.generate(&mut rng);
            assert_eq!(case, p);
        }
    }
}

#[test]
fn test_array() {
    let mut rng = source();
    fn check<const N: usize>(rng: &mut RandomSource, p: [usize; N]) {
        let g = array(p.map(|e: usize| constant(e)));
        for _ in 0..100 {
            let case = g.generate(rng);
            assert_eq!(case, p)
        }
    }
    check(&mut rng, []);
    check(&mut rng, [0]);
    check(&mut rng, [0, 0]);
    check(&mut rng, [0, 0, 0]);
    check(&mut rng, [0, 0, 0, 0]);
    check(&mut rng, [0, 0, 0, 0, 0, 0, 0, 0]);
    check(&mut rng, [0, 0, 0, 0, 0, 0, 0, 0, 0, 0, 0, 0, 0, 0, 0, 0]);
}

#[test]
fn test_vec() {
    let mut rng = source();
    for p in [0..10, 5..10] {
        let g = generators::vec(constant(0), p.clone()).unwrap();
        for _ in 0..100 {
            let case = g.generate(&mut rng);
            assert!(p.contains(&case.len()));
        }
    }
    let p = 10..=10;
    let g = generators::vec(constant(0), p.clone()).unwrap();
    for _ in 0..100 {
        let case = g.generate(&mut rng);
        assert!(p.contains(&case.len()));
    }
}

#[test]
fn test_choice() {
    let mut rng = source();
    for p in [1, 2, 3, 4, 5, 6, 7, 8, 9, 10] {
        let choices: Vec<_> = (0..p).into_iter().map(constant).collect();
        let g = choice(choices).unwrap();
        for _ in 0..100 {
            let case = g.generate(&mut rng);
            assert!(case < p);
        }
    }
}

#[test]
fn test_zip() {
    let mut rng = source();
    for p in [1, 2, 3, 4, 5, 6, 7, 8, 9, 10] {
        let g = zip(constant(p), constant(p));
        for _ in 0..100 {
            let case = g.generate(&mut rng);
            assert_eq!(case, (p, p))
        }
    }
}

#[test]
fn test_tuple() {
    let mut rng = source();
    let g = zip(
        constant(0),
        zip(
            constant(1),
            zip(
                constant(2),
                zip(
                    constant(3),
                    zip(
                        constant(4),
                        zip(
                            constant(5),
                            zip(
                                constant(6),
                                zip(
                                    constant(7),
                                    zip(constant(8), zip(constant(9), zip(constant(10), constant(11)))),
                                ),
                            ),
                        ),
                    ),
                ),
            ),
        ),
    );
    for _ in 0..10 {
        let case = g.generate(&mut rng);
        assert_eq!(case, (0, (1, (2, (3, (4, (5, (6, (7, (8, (9, (10, 11))))))))))));
    }
    let g = zip(constant(9), zip(constant(10), constant(11)));
    for _ in 0..10 {
        let case = g.generate(&mut rng);
        assert_eq!(case, (9, (10, 11)));
    }
    let g = zip(constant(10), constant(11));
    for _ in 0..10 {
        let case = g.generate(&mut rng);
        assert_eq!(case, (10, 11));
    }
    let g = constant(11);
    for _ in 0..10 {
        let case = g.generate(&mut rng);
        assert_eq!(case, 11);
    }
    let g = constant(());
    for _ in 0..10 {
        let case = g.generate(&mut rng);
        assert_eq!(case, ());
    }
}

#[test]
fn range_draws_every_value_within_bounds() {
    let mut rng = source();
    let g = range(0u64..=3).unwrap();
    let mut seen = [false; 4];
    for _ in 0..400 {
        let v = g.generate(&mut rng);
        assert!(v <= 3);
        seen[v as usize] = true;
    }
    assert!(seen.iter().all(|s| *s));
    let g = range(-5i64..-2).unwrap();
    for _ in 0..100 {
        let v = g.generate(&mut rng);
        assert!((-5..-2).contains(&v));
    }
}

#[test]
fn range_of_one_value() {
    let mut rng = source();
    let g = range(7u32..8).unwrap();
    for _ in 0..20 {
        assert_eq!(g.generate(&mut rng), 7);
    }
    let g = range(i32::MIN..=i32::MIN).unwrap();
    assert_eq!(g.generate(&mut rng), i32::MIN);
}

#[test]
fn empty_range_fails_at_construction() {
    assert!(matches!(range(5usize..5), Err(GeneratorError::EmptyRange)));
    assert!(matches!(range(3i32..=2), Err(GeneratorError::EmptyRange)));
    assert!(matches!(generators::vec(constant(0u8), 4usize..=3), Err(GeneratorError::EmptyRange)));
}

#[test]
fn empty_choice_fails_at_construction() {
    let cases: Vec<puchiprop::generators::Constant<u8>> = Vec::new();
    assert!(matches!(choice(cases), Err(GeneratorError::NoCases)));
}

#[test]
fn vec_may_be_empty_when_zero_is_allowed() {
    let mut rng = source();
    let g = generators::vec(constant(1u8), 0usize..=0).unwrap();
    for _ in 0..10 {
        assert!(g.generate(&mut rng).is_empty());
    }
    let g = generators::vec(constant(1u8), 0usize..2).unwrap();
    let mut lens = [0usize; 2];
    for _ in 0..200 {
        let case = g.generate(&mut rng);
        assert!(case.iter().all(|x| *x == 1));
        lens[case.len()] += 1;
    }
    assert!(lens[0] > 0 && lens[1] > 0);
}

#[test]
fn same_seed_same_draws() {
    let mut a = RandomSource::from_seed(99);
    let mut b = RandomSource::from_seed(99);
    let g = zip(range(0usize..1000).unwrap(), generators::vec(range(0u64..50).unwrap(), 0usize..5).unwrap());
    for _ in 0..50 {
        assert_eq!(g.generate(&mut a), g.generate(&mut b));
    }
    assert_eq!(a.seed(), 99);
}

#[test]
fn draws_vary_with_the_seed() {
    let g = generators::vec(range(0u64..u64::MAX).unwrap(), 8usize..=8).unwrap();
    let x = g.generate(&mut RandomSource::from_seed(1));
    let y = g.generate(&mut RandomSource::from_seed(2));
    assert_ne!(x, y);
    assert!(x.iter().any(|v| *v != x[0]));
}

#[test]
fn every_integer_type_draws_varied_values() {
    let mut rng = source();
    let g = range(0u32..1000).unwrap();
    let v: Vec<u32> = (0..50).map(|_| g.generate(&mut rng)).collect();
    assert!(v.iter().all(|x| *x < 1000) && v.iter().any(|x| *x != v[0]));
    let g = range(0u64..1000).unwrap();
    let v: Vec<u64> = (0..50).map(|_| g.generate(&mut rng)).collect();
    assert!(v.iter().all(|x| *x < 1000) && v.iter().any(|x| *x != v[0]));
    let g = range(0usize..1000).unwrap();
    let v: Vec<usize> = (0..50).map(|_| g.generate(&mut rng)).collect();
    assert!(v.iter().all(|x| *x < 1000) && v.iter().any(|x| *x != v[0]));
    let g = range(-500i32..=500).unwrap();
    let v: Vec<i32> = (0..50).map(|_| g.generate(&mut rng)).collect();
    assert!(v.iter().all(|x| (-500..=500).contains(x)) && v.iter().any(|x| *x != v[0]));
    let g = range(-500i64..500).unwrap();
    let v: Vec<i64> = (0..50).map(|_| g.generate(&mut rng)).collect();
    assert!(v.iter().all(|x| (-500..500).contains(x)) && v.iter().any(|x| *x != v[0]));
}

#[test]
fn choice_reaches_every_option() {
    let mut rng = source();
    let g = choice(vec![constant(0usize), constant(1), constant(2)]).unwrap();
    let mut seen = [false; 3];
    for _ in 0..300 {
        seen[g.generate(&mut rng)] = true;
    }
    assert!(seen.iter().all(|s| *s));
}

#[test]
fn constant_of_a_string() {
    let mut rng = source();
    let g = constant(String::from("abc"));
    for _ in 0..10 {
        assert_eq!(g.generate(&mut rng), "abc");
    }
    let g = constant((Some('x'), "y"));
    assert_eq!(g.generate(&mut rng), (Some('x'), "y"));
}

#[test]
fn narrow_and_wide_integer_types() {
    let mut rng = source();
    let g = range(250u8..=255).unwrap();
    let v: Vec<u8> = (0..50).map(|_| g.generate(&mut rng)).collect();
    assert!(v.iter().all(|x| *x >= 250) && v.iter().any(|x| *x != v[0]));
    let g = range(-3i8..3).unwrap();
    let v: Vec<i8> = (0..50).map(|_| g.generate(&mut rng)).collect();
    assert!(v.iter().all(|x| (-3..3).contains(x)) && v.iter().any(|x| *x != v[0]));
    let g = range(1000u16..2000).unwrap();
    assert!((1000..2000).contains(&g.generate(&mut rng)));
    let g = range(-1000i16..=-900).unwrap();
    assert!((-1000..=-900).contains(&g.generate(&mut rng)));
    let g = range(-10isize..10).unwrap();
    assert!((-10..10).contains(&g.generate(&mut rng)));
    let g = range(0u128..u128::MAX).unwrap();
    let v: Vec<u128> = (0..10).map(|_| g.generate(&mut rng)).collect();
    assert!(v.iter().any(|x| *x > u64::MAX as u128));
    let g = range(i128::MIN..=i128::MAX).unwrap();
    let v: Vec<i128> = (0..10).map(|_| g.generate(&mut rng)).collect();
    assert!(v.iter().any(|x| *x != v[0]));
}
