use crate::generator::{lemma_repeated_len, repeated, TestCaseGenerator};
use crate::reporter::{decimal, decimal_string, Reporter};
use crate::run::{TestPlan, TestPlanner};
use crate::source::{Draw, RandomSource};
use vstd::prelude::*;

verus! {

/// The number of cases a plan yields when its options leave it open.
pub const DEFAULT_SAMPLE_COUNT: usize = 100;

/// The `k`-th case (from 0) of the unbounded stream that `g` produces from a
/// source seeded with `seed`.
pub open spec fn stream<G: TestCaseGenerator>(g: &G, seed: u64, k: nat) -> G::CaseView {
    repeated(g, seed, Seq::empty(), k + 1).0[k as int]
}

/// The cases of a plan: the stream from `seed`, less its first `skip` cases,
/// cut to `count` cases.
pub open spec fn planned<G: TestCaseGenerator>(g: &G, seed: u64, skip: nat, count: nat) -> Seq<
    G::CaseView,
> {
    Seq::new(count, |m: int| stream(g, seed, skip + m as nat))
}

/// Relies on `rand::random::<u64>`: any value may come.
#[verifier::external_body]
fn entropy_seed() -> (r: u64) {
    rand::random::<u64>()
}

/// The planner that draws cases from rand's small generator, seeded by the
/// options or, failing that, from entropy.
#[derive(Debug, Clone, Copy, Default)]
pub struct DefaultTestPlanner;

/// Options of a plan: how many cases, from which seed, after how many skipped.
#[derive(Debug, Clone, Copy)]
pub struct DefaultTestPlannerOptions {
    sample_count: Option<usize>,
    seed: Option<u64>,
    skip: Option<usize>,
}

impl DefaultTestPlannerOptions {
    pub closed spec fn sample_count_spec(&self) -> Option<usize> {
        self.sample_count
    }

    pub closed spec fn seed_spec(&self) -> Option<u64> {
        self.seed
    }

    pub closed spec fn skip_spec(&self) -> Option<usize> {
        self.skip
    }

    /// The number of cases a plan with these options yields.
    pub open spec fn count_or_default(&self) -> nat {
        match self.sample_count_spec() {
            Some(n) => n as nat,
            None => DEFAULT_SAMPLE_COUNT as nat,
        }
    }

    /// The number of cases a plan with these options passes over first.
    pub open spec fn skip_or_default(&self) -> nat {
        match self.skip_spec() {
            Some(n) => n as nat,
            None => 0,
        }
    }

    /// Whether the cases these options ask for can be counted in a `usize`:
    /// the skipped ones and the yielded ones together.
    pub fn is_plannable(&self) -> (r: bool)
        ensures
            r == (self.skip_or_default() + self.count_or_default() <= usize::MAX),
    {
        let skip = match self.skip {
            Some(n) => n,
            None => 0,
        };
        let count = match self.sample_count {
            Some(n) => n,
            None => DEFAULT_SAMPLE_COUNT,
        };
        skip <= usize::MAX - count
    }

    /// Options with nothing set.
    pub fn new() -> (r: DefaultTestPlannerOptions)
        ensures
            r.sample_count_spec() is None,
            r.seed_spec() is None,
            r.skip_spec() is None,
    {
        DefaultTestPlannerOptions { sample_count: None, seed: None, skip: None }
    }

    /// Bounds the plan to `limit` cases.
    pub fn sample_count(&mut self, limit: usize)
        ensures
            final(self).sample_count_spec() == Some(limit),
            final(self).seed_spec() == old(self).seed_spec(),
            final(self).skip_spec() == old(self).skip_spec(),
    {
        self.sample_count = Some(limit);
    }

    /// Fixes the seed of the plan.
    pub fn seed(&mut self, seed: u64)
        ensures
            final(self).seed_spec() == Some(seed),
            final(self).sample_count_spec() == old(self).sample_count_spec(),
            final(self).skip_spec() == old(self).skip_spec(),
    {
        self.seed = Some(seed);
    }

    /// Passes over the first `skip` cases of the stream.
    pub fn skip(&mut self, skip: usize)
        ensures
            final(self).skip_spec() == Some(skip),
            final(self).sample_count_spec() == old(self).sample_count_spec(),
            final(self).seed_spec() == old(self).seed_spec(),
    {
        self.skip = Some(skip);
    }
}

impl Default for DefaultTestPlannerOptions {
    fn default() -> (r: DefaultTestPlannerOptions)
        ensures
            r.sample_count_spec() is None,
            r.seed_spec() is None,
            r.skip_spec() is None,
    {
        DefaultTestPlannerOptions::new()
    }
}

/// Where a plan stands, enough to regenerate its latest case.
#[derive(Debug, Clone, Copy, PartialEq, Eq, Structural)]
pub struct DefaultTestPlanState {
    pub seed: u64,
    /// The position in the stream of the latest case yielded, skipped cases
    /// included; `None` before the first case.
    pub index: Option<usize>,
}

/// What a state reports under `index`.
pub open spec fn index_text(index: Option<usize>) -> Seq<char> {
    match index {
        Some(i) => decimal(i as nat),
        None => "not started"@,
    }
}

impl DefaultTestPlanState {
    /// Reports the seed, then the index, to `reporter`.
    pub fn report(&self, reporter: &mut Reporter)
        ensures
            final(reporter).entries() == old(reporter).entries().push(
                ("seed"@, decimal(self.seed as nat)),
            ).push(("index"@, index_text(self.index))),
    {
        reporter.report("seed", decimal_string(self.seed));
        let index = match self.index {
            Some(i) => decimal_string(i as u64),
            None => "not started".to_owned(),
        };
        reporter.report("index", index);
    }
}

/// A finite, forward-only sequence of cases of one generator.
pub struct DefaultTestPlan<'a, G: TestCaseGenerator> {
    generator: &'a G,
    source: RandomSource,
    seed: u64,
    skip: usize,
    sample_count: usize,
    pulled: usize,
    executed_test_count: usize,
}

impl<'a, G: TestCaseGenerator> DefaultTestPlan<'a, G> {
    pub closed spec fn generator(&self) -> G {
        *self.generator
    }

    pub closed spec fn seed_spec(&self) -> u64 {
        self.seed
    }

    pub closed spec fn skip_spec(&self) -> nat {
        self.skip as nat
    }

    pub closed spec fn sample_count_spec(&self) -> nat {
        self.sample_count as nat
    }

    /// How many cases the plan has yielded.
    pub closed spec fn pulled(&self) -> nat {
        self.pulled as nat
    }

    /// The number of cases of the stream used up: those skipped and those yielded.
    pub closed spec fn executed_test_count(&self) -> nat {
        self.executed_test_count as nat
    }

    /// All the cases the plan yields, from the first.
    pub open spec fn cases(&self) -> Seq<G::CaseView> {
        planned(&self.generator(), self.seed_spec(), self.skip_spec(), self.sample_count_spec())
    }

    /// What `state` reports.
    pub open spec fn state_spec(&self) -> DefaultTestPlanState {
        DefaultTestPlanState {
            seed: self.seed_spec(),
            index: if self.pulled() == 0 {
                None
            } else {
                Some((self.skip_spec() + self.pulled() - 1) as usize)
            },
        }
    }
}

impl<'a, G: TestCaseGenerator> TestPlan<G::TestCase> for DefaultTestPlan<'a, G> {
    type State = DefaultTestPlanState;

    closed spec fn wf(&self) -> bool {
        &&& self.pulled <= self.sample_count
        &&& self.skip + self.sample_count <= usize::MAX
        &&& self.executed_test_count == self.skip + self.pulled
        &&& self.source.seed_spec() == self.seed
        &&& if self.pulled == 0 {
            self.source.past() == Seq::<Draw>::empty()
        } else {
            self.source.past() == repeated(
                self.generator,
                self.seed,
                Seq::empty(),
                (self.skip + self.pulled) as nat,
            ).1
        }
    }

    /// The next case, or `None` once the plan has yielded all its cases.
    fn next(&mut self) -> (r: Option<G::TestCase>)
        ensures
            final(self).generator() == old(self).generator(),
            final(self).seed_spec() == old(self).seed_spec(),
            final(self).skip_spec() == old(self).skip_spec(),
            final(self).sample_count_spec() == old(self).sample_count_spec(),
            old(self).pulled() < old(self).sample_count_spec() ==> {
                &&& r matches Some(c) && G::case_view(c) == old(self).cases()[old(
                    self,
                ).pulled() as int]
                &&& final(self).pulled() == old(self).pulled() + 1
            },
            old(self).pulled() == old(self).sample_count_spec() ==> {
                &&& r is None
                &&& final(self).pulled() == old(self).pulled()
            },
            final(self).executed_test_count() == final(self).skip_spec() + final(self).pulled(),
    {
        if self.pulled == self.sample_count {
            return None;
        }
        if self.pulled == 0 {
            let mut i: usize = 0;
            while i < self.skip
                invariant
                    i <= self.skip,
                    self.generator == old(self).generator,
                    self.seed == old(self).seed,
                    self.skip == old(self).skip,
                    self.sample_count == old(self).sample_count,
                    self.pulled == old(self).pulled,
                    self.executed_test_count == old(self).executed_test_count,
                    self.source.seed_spec() == self.seed,
                    self.source.past() == repeated(self.generator, self.seed, Seq::empty(), i as nat).1,
                decreases self.skip - i,
            {
                let _ = self.generator.generate(&mut self.source);
                i = i + 1;
            }
        }
        let case = self.generator.generate(&mut self.source);
        proof {
            lemma_repeated_len(self.generator, self.seed, Seq::empty(), (self.skip + self.pulled) as nat);
        }
        self.pulled = self.pulled + 1;
        self.executed_test_count = self.executed_test_count + 1;
        Some(case)
    }

    /// The seed and the position of the latest case yielded.
    fn state(&self) -> (r: DefaultTestPlanState)
        ensures
            r == self.state_spec(),
    {
        if self.pulled == 0 {
            DefaultTestPlanState { seed: self.seed, index: None }
        } else {
            DefaultTestPlanState { seed: self.seed, index: Some(self.executed_test_count - 1) }
        }
    }
}

impl DefaultTestPlanner {
    /// Options with nothing set.
    pub fn default_options(&self) -> (r: DefaultTestPlannerOptions)
        ensures
            r.sample_count_spec() is None,
            r.seed_spec() is None,
            r.skip_spec() is None,
    {
        DefaultTestPlannerOptions::new()
    }

    /// The plan of `options` over `generator`, seeded by the options' seed or,
    /// where they set none, by `fallback_seed`.
    pub fn plan_with_seed<'a, G: TestCaseGenerator>(
        &self,
        options: &DefaultTestPlannerOptions,
        generator: &'a G,
        fallback_seed: u64,
    ) -> (r: DefaultTestPlan<'a, G>)
        requires
            options.skip_or_default() + options.count_or_default() <= usize::MAX,
        ensures
            r.wf(),
            r.generator() == *generator,
            r.seed_spec() == match options.seed_spec() {
                Some(s) => s,
                None => fallback_seed,
            },
            r.skip_spec() == options.skip_or_default(),
            r.sample_count_spec() == options.count_or_default(),
            r.pulled() == 0,
            r.executed_test_count() == options.skip_or_default(),
    {
        let seed = match options.seed {
            Some(s) => s,
            None => fallback_seed,
        };
        let skip = match options.skip {
            Some(n) => n,
            None => 0,
        };
        let sample_count = match options.sample_count {
            Some(n) => n,
            None => DEFAULT_SAMPLE_COUNT,
        };
        DefaultTestPlan {
            generator,
            source: RandomSource::from_seed(seed),
            seed,
            skip,
            sample_count,
            pulled: 0,
            executed_test_count: skip,
        }
    }
}

impl<'a, G: TestCaseGenerator + 'a> TestPlanner<'a, G> for DefaultTestPlanner {
    type PlanOptions = DefaultTestPlannerOptions;

    type Plan = DefaultTestPlan<'a, G>;

    /// The skipped and the yielded cases can be counted in a `usize`.
    open spec fn plannable(&self, options: &DefaultTestPlannerOptions) -> bool {
        options.skip_or_default() + options.count_or_default() <= usize::MAX
    }

    /// The plan of `options` over `generator`, seeded by the options' seed or,
    /// where they set none, by a seed drawn from entropy and kept in the plan.
    fn plan(&self, options: &DefaultTestPlannerOptions, generator: &'a G) -> (r: DefaultTestPlan<
        'a,
        G,
    >)
        ensures
            r.generator() == *generator,
            options.seed_spec() matches Some(s) ==> r.seed_spec() == s,
            r.skip_spec() == options.skip_or_default(),
            r.sample_count_spec() == options.count_or_default(),
            r.pulled() == 0,
            r.executed_test_count() == options.skip_or_default(),
    {
        let fallback_seed = match options.seed {
            Some(s) => s,
            None => entropy_seed(),
        };
        self.plan_with_seed(options, generator, fallback_seed)
    }
}

/// Two plans over one generator with one seed, one skip and one sample count
/// yield the same cases, in the same order.
pub proof fn lemma_plan_deterministic<'a, 'b, G: TestCaseGenerator>(
    p: DefaultTestPlan<'a, G>,
    q: DefaultTestPlan<'b, G>,
)
    requires
        p.generator() == q.generator(),
        p.seed_spec() == q.seed_spec(),
        p.skip_spec() == q.skip_spec(),
        p.sample_count_spec() == q.sample_count_spec(),
    ensures
        p.cases() == q.cases(),
{
}

/// Skipping `k` cases and taking `n` yields the cases that taking `k + n`
/// without skipping yields, less the first `k`.
pub proof fn lemma_skip_count<G: TestCaseGenerator>(g: &G, seed: u64, k: nat, n: nat)
    ensures
        planned(g, seed, k, n) == planned(g, seed, 0, k + n).subrange(k as int, (k + n) as int),
{
    assert(planned(g, seed, k, n) =~= planned(g, seed, 0, k + n).subrange(k as int, (k + n) as int));
}

/// After `m` cases have been pulled, the plan has used up `skip + m` cases of
/// the stream, and, from the first pull on, reports index `skip + m - 1`. No
/// more cases are pulled than the sample count, and the skipped and sampled
/// cases together fit in a `usize`.
pub proof fn lemma_index_after_pulls<'a, G: TestCaseGenerator>(p: DefaultTestPlan<'a, G>)
    requires
        p.wf(),
    ensures
        p.pulled() <= p.sample_count_spec(),
        p.skip_spec() + p.sample_count_spec() <= usize::MAX,
        p.executed_test_count() == p.skip_spec() + p.pulled(),
        p.pulled() == 0 ==> p.state_spec().index is None,
        p.pulled() > 0 ==> p.state_spec().index == Some((p.skip_spec() + p.pulled() - 1) as usize),
{
}

/// The state a plan reports regenerates its latest case: a plan with the
/// reported seed that skips the reported index yields that case first, and
/// such a plan of one case fits in a `usize`.
pub proof fn lemma_state_replays<'a, G: TestCaseGenerator>(p: DefaultTestPlan<'a, G>)
    requires
        p.wf(),
        p.pulled() > 0,
    ensures
        p.state_spec().index matches Some(i) && i + 1 <= usize::MAX && planned(
            &p.generator(),
            p.state_spec().seed,
            i as nat,
            1,
        )[0] == p.cases()[p.pulled() - 1],
{
}

} // verus!
