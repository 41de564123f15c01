use crate::defaults::{lemma_state_replays, planned, DefaultTestPlan, DefaultTestPlanState};
use crate::generator::TestCaseGenerator;
use vstd::prelude::*;

verus! {

/// A finite, forward-only sequence of test cases that can report where it
/// stands, so that a case can be regenerated.
pub trait TestPlan<T> {
    /// What the plan reports of where it stands.
    type State;

    /// The plan's own consistency.
    spec fn wf(&self) -> bool;

    /// The next case, or `None` once the plan is exhausted.
    fn next(&mut self) -> (r: Option<T>)
        requires
            old(self).wf(),
        ensures
            final(self).wf(),
    ;

    /// Where the plan stands, for reproduction.
    fn state(&self) -> (r: Self::State)
        requires
            self.wf(),
    ;
}

/// Turns options and a generator into a plan.
pub trait TestPlanner<'a, G: TestCaseGenerator + 'a> {
    type PlanOptions;

    type Plan: TestPlan<G::TestCase>;

    /// Whether a plan can be made of `options`.
    spec fn plannable(&self, options: &Self::PlanOptions) -> bool;

    /// The plan of `options` over `generator`, before its first case.
    fn plan(&self, options: &Self::PlanOptions, generator: &'a G) -> (r: Self::Plan)
        requires
            self.plannable(options),
        ensures
            r.wf(),
    ;
}

/// What a report holds in place of a case that could not be rendered.
pub const UNDISPLAYABLE_CASE: &'static str = "the case could not be displayed";

/// Everything needed to regenerate a failing case, and why it failed.
pub struct TestErrorReport<S, E> {
    /// The failing case as text, or the placeholder where it could not be rendered.
    pub case: String,
    /// Where the plan stood when the case failed.
    pub state: S,
    /// What the test body failed with, handed on unchanged.
    pub error: E,
}

/// The outcome of running a test over a plan.
pub type TestResult<S, E> = Result<(), TestErrorReport<S, E>>;

/// The text a report holds for a case rendered as `rendering`.
pub open spec fn reported_case(rendering: Option<String>) -> Seq<char> {
    match rendering {
        Some(s) => s@,
        None => "the case could not be displayed"@,
    }
}

/// The course of one test over one plan: pull a case, record how it renders,
/// run the body on it; the first failure ends the run with a report.
pub struct Execution<'a, G: TestCaseGenerator> {
    plan: DefaultTestPlan<'a, G>,
    rendering: Option<String>,
}

impl<'a, G: TestCaseGenerator> Execution<'a, G> {
    pub closed spec fn plan(&self) -> DefaultTestPlan<'a, G> {
        self.plan
    }

    /// How the case about to run renders, where it could be rendered.
    pub closed spec fn rendering(&self) -> Option<String> {
        self.rendering
    }

    pub open spec fn wf(&self) -> bool {
        self.plan().wf()
    }

    /// A run over `plan`, before its first case.
    pub fn new(plan: DefaultTestPlan<'a, G>) -> (r: Execution<'a, G>)
        requires
            plan.wf(),
        ensures
            r.wf(),
            r.plan() == plan,
            r.rendering() is None,
    {
        Execution { plan, rendering: None }
    }

    /// The next case to run, or `None` when the plan is exhausted and the test
    /// has passed. Forgets the rendering of the case before.
    pub fn next_case(&mut self) -> (r: Option<G::TestCase>)
        requires
            old(self).wf(),
        ensures
            final(self).wf(),
            final(self).rendering() is None,
            final(self).plan().generator() == old(self).plan().generator(),
            final(self).plan().seed_spec() == old(self).plan().seed_spec(),
            final(self).plan().skip_spec() == old(self).plan().skip_spec(),
            final(self).plan().sample_count_spec() == old(self).plan().sample_count_spec(),
            old(self).plan().pulled() < old(self).plan().sample_count_spec() ==> {
                &&& r matches Some(c) && G::case_view(c) == old(self).plan().cases()[old(
                    self,
                ).plan().pulled() as int]
                &&& final(self).plan().pulled() == old(self).plan().pulled() + 1
            },
            old(self).plan().pulled() == old(self).plan().sample_count_spec() ==> {
                &&& r is None
                &&& final(self).plan().pulled() == old(self).plan().pulled()
            },
    {
        self.rendering = None;
        self.plan.next()
    }

    /// Records how the case about to run renders; `None` where it cannot be.
    pub fn record_case(&mut self, rendering: Option<String>)
        ensures
            final(self).plan() == old(self).plan(),
            final(self).rendering() == rendering,
    {
        self.rendering = rendering;
    }

    /// Ends the run on a failure of the body: the report holds the recorded
    /// rendering, or the placeholder, the plan's state, and `error` unchanged.
    pub fn fail<E>(self, error: E) -> (r: TestErrorReport<DefaultTestPlanState, E>)
        requires
            self.wf(),
        ensures
            r.case@ == reported_case(self.rendering()),
            r.state == self.plan().state_spec(),
            r.error == error,
    {
        let state = self.plan.state();
        let case = match self.rendering {
            Some(s) => s,
            None => "the case could not be displayed".to_owned(),
        };
        TestErrorReport { case, state, error }
    }
}

/// The state in a failure report regenerates the failing case: once a case
/// has been pulled, a plan with the state's seed that skips the state's index
/// (and so fits in a `usize` with one case to yield) yields, first, the case
/// the run pulled last, the one `fail` reports.
pub proof fn lemma_failure_replays<'a, G: TestCaseGenerator>(e: Execution<'a, G>)
    requires
        e.wf(),
        e.plan().pulled() > 0,
    ensures
        e.plan().state_spec().index matches Some(i) && i + 1 <= usize::MAX && planned(
            &e.plan().generator(),
            e.plan().state_spec().seed,
            i as nat,
            1,
        )[0] == e.plan().cases()[e.plan().pulled() - 1],
{
    lemma_state_replays(e.plan());
}

/// Options that a test front end keeps with each test.
pub struct TestOptions {
    dependencies: &'static [&'static str],
    should_panic: bool,
}

impl TestOptions {
    pub closed spec fn dependencies_spec(&self) -> Seq<&'static str> {
        self.dependencies@
    }

    pub closed spec fn should_panic_spec(&self) -> bool {
        self.should_panic
    }

    pub fn with_dependencies(self, deps: &'static [&'static str]) -> (r: TestOptions)
        ensures
            r.dependencies_spec() == deps@,
            r.should_panic_spec() == self.should_panic_spec(),
    {
        TestOptions { dependencies: deps, should_panic: self.should_panic }
    }

    pub fn with_should_panic(self, should_panic: bool) -> (r: TestOptions)
        ensures
            r.dependencies_spec() == self.dependencies_spec(),
            r.should_panic_spec() == should_panic,
    {
        TestOptions { dependencies: self.dependencies, should_panic }
    }

    pub fn dependencies(&self) -> (r: &'static [&'static str])
        ensures
            r@ == self.dependencies_spec(),
    {
        self.dependencies
    }

    pub fn should_panic(&self) -> (r: bool)
        ensures
            r == self.should_panic_spec(),
    {
        self.should_panic
    }
}

impl Default for TestOptions {
    fn default() -> (r: TestOptions)
        ensures
            r.dependencies_spec() == Seq::<&'static str>::empty(),
            !r.should_panic_spec(),
    {
        TestOptions { dependencies: &[], should_panic: false }
    }
}

} // verus!
