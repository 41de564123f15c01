use puchiprop::add;
use puchiprop::defaults::{DefaultTestPlanState, DefaultTestPlanner, DefaultTestPlannerOptions};
use puchiprop::generators::{constant, range, zip, Range, Zip};
use puchiprop::run::{Execution, TestOptions, TestPlan, TestPlanner, UNDISPLAYABLE_CASE};

const SEED: u64 = 8274166976581544106;

fn pairs() -> Zip<Range<usize>, Range<usize>> {
    zip(range(0usize..100).unwrap(), range(0usize..100).unwrap())
}

fn options(seed: u64, skip: Option<usize>, count: Option<usize>) -> DefaultTestPlannerOptions {
    let mut o = DefaultTestPlanner.default_options();
    o.seed(seed);
    if let Some(k) = skip {
        o.skip(k);
    }
    if let Some(n) = count {
        o.sample_count(n);
    }
    o
}

fn drain<P: TestPlan<T>, T>(mut p: P) -> Vec<T> {
    let mut out = Vec::new();
    while let Some(c) = p.next() {
        out.push(c);
    }
    out
}

#[test]
fn two_runs_yield_the_same_cases() {
    let g = pairs();
    let o = options(42, Some(3), Some(40));
    let a = drain(DefaultTestPlanner.plan(&o, &g));
    let b = drain(DefaultTestPlanner.plan(&o, &g));
    assert_eq!(a.len(), 40);
    assert_eq!(a, b);
}

#[test]
fn default_count_is_one_hundred() {
    let g = pairs();
    let o = options(7, None, None);
    assert_eq!(drain(DefaultTestPlanner.plan(&o, &g)).len(), 100);
    let mut o = DefaultTestPlannerOptions::default();
    o.sample_count(0);
    assert_eq!(drain(DefaultTestPlanner.plan(&o, &g)).len(), 0);
}

#[test]
fn skip_then_count_is_a_suffix() {
    let g = pairs();
    let skipped = drain(DefaultTestPlanner.plan(&options(SEED, Some(6), Some(20)), &g));
    let whole = drain(DefaultTestPlanner.plan(&options(SEED, Some(0), Some(26)), &g));
    assert_eq!(skipped.len(), 20);
    assert_eq!(&whole[6..], &skipped[..]);
}

#[test]
fn index_follows_the_pulls() {
    let g = constant(1u8);
    let o = options(5, Some(4), Some(3));
    let mut p = DefaultTestPlanner.plan(&o, &g);
    assert_eq!(p.state(), DefaultTestPlanState { seed: 5, index: None });
    for m in 1..=3usize {
        assert_eq!(p.next(), Some(1));
        assert_eq!(p.state(), DefaultTestPlanState { seed: 5, index: Some(4 + m - 1) });
    }
    assert_eq!(p.next(), None);
    assert_eq!(p.next(), None);
    assert_eq!(p.state().index, Some(6));
}

#[test]
fn plan_without_seed_keeps_the_seed_it_drew() {
    let g = pairs();
    let mut o = DefaultTestPlannerOptions::new();
    o.sample_count(10);
    let mut p = DefaultTestPlanner.plan(&o, &g);
    let first = p.next().unwrap();
    let seed = p.state().seed;
    let replay = drain(DefaultTestPlanner.plan(&options(seed, Some(0), Some(1)), &g));
    assert_eq!(replay, vec![first]);
    let fixed = DefaultTestPlanner.plan_with_seed(&o, &g, 31);
    assert_eq!(fixed.state().seed, 31);
    let fixed = DefaultTestPlanner.plan_with_seed(&options(8, None, None), &g, 31);
    assert_eq!(fixed.state().seed, 8);
}

#[test]
fn sum_below_150_fails_and_replays() {
    let g = pairs();
    let o = options(SEED, Some(6), None);
    let mut run = Execution::new(DefaultTestPlanner.plan(&o, &g));
    let mut failure = None;
    while let Some((a, b)) = run.next_case() {
        run.record_case(Some(format!("{:?}", (a, b))));
        if add(a, b) >= 150 {
            failure = Some((a, b));
            break;
        }
    }
    let (a, b) = failure.expect("some pair sums to 150 or more");
    let report = run.fail("assertion failed: result < 150");
    assert_eq!(report.case, format!("{:?}", (a, b)));
    assert_eq!(report.state.seed, SEED);
    let index = report.state.index.unwrap();
    assert_eq!((a, b), (66, 92));
    assert_eq!(index, 6);
    assert_eq!(report.error, "assertion failed: result < 150");
    let replay = drain(DefaultTestPlanner.plan(&options(report.state.seed, Some(index), Some(1)), &g));
    assert_eq!(replay, vec![(a, b)]);
}

#[test]
fn case_that_cannot_be_displayed_gets_the_placeholder() {
    let g = constant(3u8);
    let o = options(1, None, Some(5));
    let mut run = Execution::new(DefaultTestPlanner.plan(&o, &g));
    assert_eq!(run.next_case(), Some(3));
    run.record_case(None);
    let report = run.fail(17u32);
    assert_eq!(report.case, UNDISPLAYABLE_CASE);
    assert_eq!(report.case, "the case could not be displayed");
    assert_eq!(report.state, DefaultTestPlanState { seed: 1, index: Some(0) });
    assert_eq!(report.error, 17);
}

#[test]
fn exhausted_run_passes() {
    let g = constant(0u8);
    let o = options(1, Some(2), Some(2));
    let mut run = Execution::new(DefaultTestPlanner.plan(&o, &g));
    assert_eq!(run.next_case(), Some(0));
    assert_eq!(run.next_case(), Some(0));
    assert_eq!(run.next_case(), None);
}

#[test]
fn test_options_builders() {
    let o = TestOptions::default();
    assert!(o.dependencies().is_empty());
    assert!(!o.should_panic());
    let o = o.with_dependencies(&["setup", "load"]).with_should_panic(true);
    assert_eq!(o.dependencies(), &["setup", "load"]);
    assert!(o.should_panic());
}

#[test]
fn add_sums() {
    assert_eq!(add(2, 3), 5);
    assert_eq!(add(0, 0), 0);
}
