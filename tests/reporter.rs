use puchiprop::defaults::DefaultTestPlanState;
use puchiprop::reporter::{decimal_string, Reporter};

#[test]
fn decimal_numerals() {
    assert_eq!(decimal_string(0), "0");
    assert_eq!(decimal_string(7), "7");
    assert_eq!(decimal_string(10), "10");
    assert_eq!(decimal_string(8274166976581544106), "8274166976581544106");
    assert_eq!(decimal_string(u64::MAX), "18446744073709551615");
}

#[test]
fn empty_reporter_renders_nothing() {
    assert_eq!(Reporter::new().render(), "");
}

#[test]
fn names_are_aligned_in_insertion_order() {
    let mut r = Reporter::new();
    r.report("b", "1".to_string());
    r.report("longer", "two".to_string());
    r.report("", "x".to_string());
    assert_eq!(r.render(), "b      = 1\nlonger = two\n       = x\n");
}

#[test]
fn state_renders_seed_and_index() {
    let mut r = Reporter::new();
    DefaultTestPlanState { seed: 8274166976581544106, index: Some(6) }.report(&mut r);
    assert_eq!(r.render(), "seed  = 8274166976581544106\nindex = 6\n");
    let mut r = Reporter::new();
    DefaultTestPlanState { seed: 3, index: None }.report(&mut r);
    assert_eq!(r.render(), "seed  = 3\nindex = not started\n");
}
