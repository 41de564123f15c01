use crate::source::{Draw, RandomSource};
use vstd::prelude::*;

verus! {

/// Something that produces one test case from a random source.
///
/// A generator takes all of its randomness from the source it is handed, so
/// the case it produces, and the draws it makes, depend only on the source's
/// seed and on the draws the source answered before.
pub trait TestCaseGenerator {
    type TestCase;

    /// What a case is as a mathematical value: two cases with one view are
    /// the same case.
    type CaseView;

    spec fn case_view(case: Self::TestCase) -> Self::CaseView;

    /// The case produced from a source seeded with `seed` that has answered
    /// the requests `past`, paired with the source's requests afterwards.
    spec fn outcome(&self, seed: u64, past: Seq<Draw>) -> (Self::CaseView, Seq<Draw>);

    fn generate(&self, source: &mut RandomSource) -> (r: Self::TestCase)
        ensures
            final(source).seed_spec() == old(source).seed_spec(),
            (Self::case_view(r), final(source).past()) == self.outcome(
                old(source).seed_spec(),
                old(source).past(),
            ),
    ;
}

/// The views of a sequence of cases.
pub open spec fn case_views<G: TestCaseGenerator>(cases: Seq<G::TestCase>) -> Seq<G::CaseView> {
    cases.map_values(|c: G::TestCase| G::case_view(c))
}

/// The cases of `n` generations in a row with `g`, from a source seeded with
/// `seed` that has answered `past`, paired with the source's requests afterwards.
pub open spec fn repeated<G: TestCaseGenerator>(g: &G, seed: u64, past: Seq<Draw>, n: nat) -> (
    Seq<G::CaseView>,
    Seq<Draw>,
)
    decreases n,
{
    if n == 0 {
        (Seq::empty(), past)
    } else {
        let (prev, mid) = repeated(g, seed, past, (n - 1) as nat);
        let (x, after) = g.outcome(seed, mid);
        (prev.push(x), after)
    }
}

/// `n` generations in a row give `n` cases.
pub proof fn lemma_repeated_len<G: TestCaseGenerator>(g: &G, seed: u64, past: Seq<Draw>, n: nat)
    ensures
        repeated(g, seed, past, n).0.len() == n,
    decreases n,
{
    if n > 0 {
        lemma_repeated_len(g, seed, past, (n - 1) as nat);
    }
}

/// The cases of one generation with each generator of `gens` in turn.
pub open spec fn each_in_turn<G: TestCaseGenerator>(
    gens: Seq<G>,
    seed: u64,
    past: Seq<Draw>,
    n: nat,
) -> (Seq<G::CaseView>, Seq<Draw>)
    decreases n,
{
    if n == 0 {
        (Seq::empty(), past)
    } else {
        let (prev, mid) = each_in_turn(gens, seed, past, (n - 1) as nat);
        let (x, after) = gens[n - 1].outcome(seed, mid);
        (prev.push(x), after)
    }
}

/// One generation with each of the first `n` generators gives `n` cases.
pub proof fn lemma_each_in_turn_len<G: TestCaseGenerator>(
    gens: Seq<G>,
    seed: u64,
    past: Seq<Draw>,
    n: nat,
)
    ensures
        each_in_turn(gens, seed, past, n).0.len() == n,
    decreases n,
{
    if n > 0 {
        lemma_each_in_turn_len(gens, seed, past, (n - 1) as nat);
    }
}

/// In one generation with each of the first `n` generators in turn, case `i`
/// is generator `i`'s, from the source as the generators before it left it.
pub proof fn lemma_each_in_turn_index<G: TestCaseGenerator>(
    gens: Seq<G>,
    seed: u64,
    past: Seq<Draw>,
    n: nat,
    i: nat,
)
    requires
        i < n,
    ensures
        each_in_turn(gens, seed, past, n).0[i as int] == gens[i as int].outcome(
            seed,
            each_in_turn(gens, seed, past, i).1,
        ).0,
    decreases n,
{
    lemma_each_in_turn_len(gens, seed, past, (n - 1) as nat);
    if i < n - 1 {
        lemma_each_in_turn_index(gens, seed, past, (n - 1) as nat, i);
    }
}

/// Generates `n` cases in a row with `g`.
pub(crate) fn generate_many<G: TestCaseGenerator>(g: &G, source: &mut RandomSource, n: usize) -> (r: Vec<
    G::TestCase,
>)
    ensures
        final(source).seed_spec() == old(source).seed_spec(),
        r@.len() == n,
        (case_views::<G>(r@), final(source).past()) == repeated(
            g,
            old(source).seed_spec(),
            old(source).past(),
            n as nat,
        ),
{
    let mut out: Vec<G::TestCase> = Vec::new();
    let mut i: usize = 0;
    while i < n
        invariant
            i <= n,
            source.seed_spec() == old(source).seed_spec(),
            out@.len() == i,
            (case_views::<G>(out@), source.past()) == repeated(
                g,
                old(source).seed_spec(),
                old(source).past(),
                i as nat,
            ),
        decreases n - i,
    {
        let x = g.generate(source);
        let ghost before = out@;
        out.push(x);
        proof {
            assert(case_views::<G>(out@) =~= case_views::<G>(before).push(G::case_view(x)));
        }
        i = i + 1;
    }
    out
}

} // verus!
