use crate::generator::{
    case_views, each_in_turn, generate_many, lemma_each_in_turn_len, repeated, TestCaseGenerator,
};
use crate::duplicate::Duplicate;
use crate::source::{drawn, Draw, RandomSource, SampleKind, UniformInt};
use vstd::prelude::*;

verus! {

/// Why a generator could not be built.
#[derive(Debug, Clone, Copy, PartialEq, Eq, Structural)]
pub enum GeneratorError {
    /// The interval to draw from holds no value.
    EmptyRange,
    /// `choice` was given no generator to choose from.
    NoCases,
}

/// An interval of integers, with its own convention on whether the end is
/// included.
pub trait Interval<T: UniformInt> {
    /// The least value in the interval.
    spec fn low(&self) -> int;

    /// The greatest value in the interval; below `low` when it is empty.
    spec fn high(&self) -> int;

    /// The least and the greatest value, or `None` when the interval is empty.
    fn bounds(&self) -> (r: Option<(T, T)>)
        ensures
            r is None <==> self.low() > self.high(),
            r matches Some((l, h)) ==> l.value() == self.low() && h.value() == self.high(),
    ;
}

impl<T: UniformInt> Interval<T> for std::ops::Range<T> {
    open spec fn low(&self) -> int {
        self.start.value()
    }

    open spec fn high(&self) -> int {
        self.end.value() - 1
    }

    fn bounds(&self) -> (r: Option<(T, T)>) {
        proof {
            T::lemma_value(self.start);
        }
        if self.end.le(self.start) {
            None
        } else {
            Some((self.start, self.end.pred()))
        }
    }
}

/// Relies on `RangeInclusive::start`: it returns the lower bound.
pub assume_specification<Idx>[ core::ops::RangeInclusive::<Idx>::start ](
    r: &core::ops::RangeInclusive<Idx>,
) -> (s: &Idx)
    ensures
        *s == r@.start,
;

/// Relies on `RangeInclusive::end`: it returns the upper bound.
pub assume_specification<Idx>[ core::ops::RangeInclusive::<Idx>::end ](
    r: &core::ops::RangeInclusive<Idx>,
) -> (s: &Idx)
    ensures
        *s == r@.end,
;

impl<T: UniformInt> Interval<T> for std::ops::RangeInclusive<T> {
    open spec fn low(&self) -> int {
        self@.start.value()
    }

    open spec fn high(&self) -> int {
        self@.end.value()
    }

    fn bounds(&self) -> (r: Option<(T, T)>) {
        let low = *self.start();
        let high = *self.end();
        if low.le(high) {
            Some((low, high))
        } else {
            None
        }
    }
}

/// Draws uniformly from an interval of integers.
pub struct Range<T: UniformInt> {
    low: T,
    high: T,
}

impl<T: UniformInt> Range<T> {
    #[verifier::type_invariant]
    spec fn inv(&self) -> bool {
        self.low.value() <= self.high.value()
    }

    /// The least value drawn.
    pub closed spec fn low_spec(&self) -> int {
        self.low.value()
    }

    /// The greatest value drawn.
    pub closed spec fn high_spec(&self) -> int {
        self.high.value()
    }

    /// The request this generator makes of a source.
    pub open spec fn request(&self) -> Draw {
        Draw { kind: T::kind(), low: self.low_spec(), high: self.high_spec() }
    }
}

/// A generator that draws uniformly from `bounds`, or `EmptyRange` when the
/// interval holds no value.
pub fn range<T: UniformInt, R: Interval<T>>(bounds: R) -> (r: Result<Range<T>, GeneratorError>)
    ensures
        bounds.low() > bounds.high() <==> r is Err,
        r matches Err(e) ==> e == GeneratorError::EmptyRange,
        r matches Ok(g) ==> g.low_spec() == bounds.low() && g.high_spec() == bounds.high()
            && g.request() == (Draw { kind: T::kind(), low: bounds.low(), high: bounds.high() }),
{
    match bounds.bounds() {
        Some((low, high)) => Ok(Range { low, high }),
        None => Err(GeneratorError::EmptyRange),
    }
}

impl<T: UniformInt> TestCaseGenerator for Range<T> {
    type TestCase = T;

    type CaseView = T;

    open spec fn case_view(case: T) -> T {
        case
    }

    /// One draw of the interval.
    open spec fn outcome(&self, seed: u64, past: Seq<Draw>) -> (T, Seq<Draw>) {
        (T::of_value(drawn(seed, past, self.request())), past.push(self.request()))
    }

    fn generate(&self, source: &mut RandomSource) -> (r: T)
        ensures
            self.low_spec() <= r.value() <= self.high_spec(),
            self.low_spec() <= drawn(old(source).seed_spec(), old(source).past(), self.request())
                <= self.high_spec(),
    {
        proof {
            use_type_invariant(self);
        }
        T::sample_inclusive(source, self.low, self.high)
    }
}

/// Always produces the same value, whatever the source holds.
pub struct Constant<T: Duplicate>(T);

impl<T: Duplicate> Constant<T> {
    /// The value produced.
    pub closed spec fn item(&self) -> T {
        self.0
    }
}

/// A generator that always produces `item`.
pub fn constant<T: Duplicate>(item: T) -> (r: Constant<T>)
    ensures
        r.item() == item,
{
    Constant(item)
}

impl<T: Duplicate> TestCaseGenerator for Constant<T> {
    type TestCase = T;

    type CaseView = T;

    open spec fn case_view(case: T) -> T {
        case
    }

    /// The value, with no draw.
    open spec fn outcome(&self, seed: u64, past: Seq<Draw>) -> (T, Seq<Draw>) {
        (self.item(), past)
    }

    fn generate(&self, source: &mut RandomSource) -> (r: T)
        ensures
            r == self.item(),
    {
        self.0.duplicate()
    }
}

/// A constant generator produces its value and draws nothing, for every seed
/// and every history of the source.
pub proof fn lemma_constant_stable<T: Duplicate>(g: Constant<T>, seed: u64, past: Seq<Draw>)
    ensures
        g.outcome(seed, past) == (g.item(), past),
{
}

/// Produces a pair: first a case of the left generator, then one of the right,
/// from the same source.
pub struct Zip<G0: TestCaseGenerator, G1: TestCaseGenerator>(G0, G1);

impl<G0: TestCaseGenerator, G1: TestCaseGenerator> Zip<G0, G1> {
    pub closed spec fn left(&self) -> G0 {
        self.0
    }

    pub closed spec fn right(&self) -> G1 {
        self.1
    }
}

/// A generator of pairs from `generator0` then `generator1`.
pub fn zip<G0: TestCaseGenerator, G1: TestCaseGenerator>(generator0: G0, generator1: G1) -> (r: Zip<
    G0,
    G1,
>)
    ensures
        r.left() == generator0,
        r.right() == generator1,
{
    Zip(generator0, generator1)
}

impl<G0: TestCaseGenerator, G1: TestCaseGenerator> TestCaseGenerator for Zip<G0, G1> {
    type TestCase = (G0::TestCase, G1::TestCase);

    type CaseView = (G0::CaseView, G1::CaseView);

    open spec fn case_view(case: (G0::TestCase, G1::TestCase)) -> (G0::CaseView, G1::CaseView) {
        (G0::case_view(case.0), G1::case_view(case.1))
    }

    /// The left generator's case, then the right one's from the source as
    /// the left one left it.
    open spec fn outcome(&self, seed: u64, past: Seq<Draw>) -> (
        (G0::CaseView, G1::CaseView),
        Seq<Draw>,
    ) {
        let (a, mid) = self.left().outcome(seed, past);
        let (b, after) = self.right().outcome(seed, mid);
        ((a, b), after)
    }

    fn generate(&self, source: &mut RandomSource) -> (r: (G0::TestCase, G1::TestCase)) {
        let a = self.0.generate(source);
        let b = self.1.generate(source);
        (a, b)
    }
}

/// A pair generator draws its left component before its right one: its
/// outcome is the left generator's from the source as it is, then the right
/// generator's from the source as the left one left it.
pub proof fn lemma_zip_order<G0: TestCaseGenerator, G1: TestCaseGenerator>(
    g: Zip<G0, G1>,
    seed: u64,
    past: Seq<Draw>,
)
    ensures
        ({
            let (a, mid) = g.left().outcome(seed, past);
            let (b, after) = g.right().outcome(seed, mid);
            g.outcome(seed, past) == ((a, b), after)
        }),
{
}

/// Produces a sequence: first a length drawn uniformly from an interval, then
/// that many cases of one generator, in order.
pub struct Vec<G: TestCaseGenerator> {
    generator: G,
    min_len: usize,
    max_len: usize,
}

impl<G: TestCaseGenerator> Vec<G> {
    #[verifier::type_invariant]
    spec fn inv(&self) -> bool {
        self.min_len <= self.max_len
    }

    pub closed spec fn element(&self) -> G {
        self.generator
    }

    /// The least length produced.
    pub closed spec fn min_len_spec(&self) -> int {
        self.min_len as int
    }

    /// The greatest length produced.
    pub closed spec fn max_len_spec(&self) -> int {
        self.max_len as int
    }

    /// The request for the length.
    pub open spec fn length_request(&self) -> Draw {
        Draw { kind: SampleKind::Usize, low: self.min_len_spec(), high: self.max_len_spec() }
    }
}

/// A generator of sequences of `generator`'s cases whose length is drawn from
/// `len`, or `EmptyRange` when `len` holds no length.
pub fn vec<G: TestCaseGenerator, R: Interval<usize>>(generator: G, len: R) -> (r: Result<
    Vec<G>,
    GeneratorError,
>)
    ensures
        len.low() > len.high() <==> r is Err,
        r matches Err(e) ==> e == GeneratorError::EmptyRange,
        r matches Ok(g) ==> g.element() == generator && g.min_len_spec() == len.low()
            && g.max_len_spec() == len.high(),
{
    match len.bounds() {
        Some((min_len, max_len)) => Ok(Vec { generator, min_len, max_len }),
        None => Err(GeneratorError::EmptyRange),
    }
}

impl<G: TestCaseGenerator> TestCaseGenerator for Vec<G> {
    type TestCase = std::vec::Vec<G::TestCase>;

    type CaseView = Seq<G::CaseView>;

    open spec fn case_view(case: std::vec::Vec<G::TestCase>) -> Seq<G::CaseView> {
        case_views::<G>(case@)
    }

    /// A length drawn first, then that many cases of the element generator,
    /// in order.
    open spec fn outcome(&self, seed: u64, past: Seq<Draw>) -> (Seq<G::CaseView>, Seq<Draw>) {
        let d = self.length_request();
        let n = drawn(seed, past, d) as usize;
        repeated(&self.element(), seed, past.push(d), n as nat)
    }

    fn generate(&self, source: &mut RandomSource) -> (r: std::vec::Vec<G::TestCase>)
        ensures
            self.min_len_spec() <= r@.len() <= self.max_len_spec(),
            self.min_len_spec() <= drawn(
                old(source).seed_spec(),
                old(source).past(),
                self.length_request(),
            ) <= self.max_len_spec(),
            r@.len() == drawn(old(source).seed_spec(), old(source).past(), self.length_request()),
    {
        proof {
            use_type_invariant(self);
        }
        let n = usize::sample_inclusive(source, self.min_len, self.max_len);
        generate_many(&self.generator, source, n)
    }
}

/// Draws one of its generators uniformly and produces that generator's case.
pub struct Choice<G: TestCaseGenerator> {
    cases: std::vec::Vec<G>,
}

impl<G: TestCaseGenerator> Choice<G> {
    #[verifier::type_invariant]
    spec fn inv(&self) -> bool {
        self.cases@.len() > 0
    }

    /// The generators chosen from.
    pub closed spec fn options(&self) -> Seq<G> {
        self.cases@
    }

    /// The request for the index of the generator used.
    pub open spec fn index_request(&self) -> Draw {
        Draw { kind: SampleKind::Usize, low: 0, high: self.options().len() - 1 }
    }
}

/// A generator that picks one of `cases` uniformly at each draw, or `NoCases`
/// when `cases` is empty: an empty choice fails here, never when drawing.
pub fn choice<G: TestCaseGenerator>(cases: std::vec::Vec<G>) -> (r: Result<Choice<G>, GeneratorError>)
    ensures
        cases@.len() == 0 <==> r is Err,
        r matches Err(e) ==> e == GeneratorError::NoCases,
        r matches Ok(g) ==> g.options() == cases@,
{
    if cases.len() == 0 {
        Err(GeneratorError::NoCases)
    } else {
        Ok(Choice { cases })
    }
}

impl<G: TestCaseGenerator> TestCaseGenerator for Choice<G> {
    type TestCase = G::TestCase;

    type CaseView = G::CaseView;

    open spec fn case_view(case: G::TestCase) -> G::CaseView {
        G::case_view(case)
    }

    /// An index drawn first, then the case of the option at that index, from
    /// the source as the draw left it.
    open spec fn outcome(&self, seed: u64, past: Seq<Draw>) -> (G::CaseView, Seq<Draw>) {
        let d = self.index_request();
        let i = drawn(seed, past, d) as usize;
        self.options()[i as int].outcome(seed, past.push(d))
    }

    fn generate(&self, source: &mut RandomSource) -> (r: G::TestCase)
        ensures
            0 <= drawn(old(source).seed_spec(), old(source).past(), self.index_request())
                < self.options().len(),
    {
        proof {
            use_type_invariant(self);
        }
        let i = usize::sample_inclusive(source, 0, self.cases.len() - 1);
        self.cases[i].generate(source)
    }
}

/// Relies on `TryFrom<Vec<T>>` for `[T; N]`: a vector of length `N` becomes
/// the array of its elements, in order.
#[verifier::external_body]
fn array_from_vec<T, const N: usize>(v: std::vec::Vec<T>) -> (r: [T; N])
    requires
        v@.len() == N,
    ensures
        r@ == v@,
{
    <[T; N]>::try_from(v).ok().unwrap()
}

/// Produces an array: one case of each of its generators, in index order.
pub struct Array<G: TestCaseGenerator, const N: usize> {
    generators: [G; N],
}

impl<G: TestCaseGenerator, const N: usize> Array<G, N> {
    pub closed spec fn members(&self) -> Seq<G> {
        self.generators@
    }
}

/// A generator of arrays of `N` cases, the `i`-th from `generators[i]`.
pub fn array<G: TestCaseGenerator, const N: usize>(generators: [G; N]) -> (r: Array<G, N>)
    ensures
        r.members() == generators@,
{
    Array { generators }
}

impl<G: TestCaseGenerator, const N: usize> TestCaseGenerator for Array<G, N> {
    type TestCase = [G::TestCase; N];

    type CaseView = Seq<G::CaseView>;

    open spec fn case_view(case: [G::TestCase; N]) -> Seq<G::CaseView> {
        case_views::<G>(case@)
    }

    /// One case of each member, in index order, each from the source as the
    /// member before left it.
    open spec fn outcome(&self, seed: u64, past: Seq<Draw>) -> (Seq<G::CaseView>, Seq<Draw>) {
        each_in_turn(self.members(), seed, past, N as nat)
    }

    fn generate(&self, source: &mut RandomSource) -> (r: [G::TestCase; N]) {
        let mut out: std::vec::Vec<G::TestCase> = std::vec::Vec::new();
        let mut i: usize = 0;
        while i < N
            invariant
                i <= N,
                self.generators@.len() == N,
                out@.len() == i,
                source.seed_spec() == old(source).seed_spec(),
                (case_views::<G>(out@), source.past()) == each_in_turn(
                    self.generators@,
                    old(source).seed_spec(),
                    old(source).past(),
                    i as nat,
                ),
            decreases N - i,
        {
            let x = self.generators[i].generate(source);
            let ghost before = out@;
            out.push(x);
            proof {
                assert(case_views::<G>(out@) =~= case_views::<G>(before).push(G::case_view(x)));
            }
            i = i + 1;
        }
        array_from_vec(out)
    }
}

/// An array generator of size `N` yields exactly `N` cases, whatever the source.
pub proof fn lemma_array_shape<G: TestCaseGenerator, const N: usize>(
    g: Array<G, N>,
    seed: u64,
    past: Seq<Draw>,
)
    ensures
        g.outcome(seed, past).0.len() == N,
{
    lemma_each_in_turn_len(g.members(), seed, past, N as nat);
}

/// An array of constant generators produces their values, in index order,
/// and draws nothing, whatever the source.
pub proof fn lemma_array_of_constants<T: Duplicate, const N: usize>(
    g: Array<Constant<T>, N>,
    seed: u64,
    past: Seq<Draw>,
)
    ensures
        g.outcome(seed, past) == (g.members().map_values(|c: Constant<T>| c.item()), past),
{
    lemma_constants_in_turn(g.members(), seed, past, N as nat);
    assert(g.members().map_values(|c: Constant<T>| c.item()).take(N as int)
        =~= g.members().map_values(|c: Constant<T>| c.item()));
}

proof fn lemma_constants_in_turn<T: Duplicate>(
    gens: Seq<Constant<T>>,
    seed: u64,
    past: Seq<Draw>,
    n: nat,
)
    requires
        n <= gens.len(),
    ensures
        each_in_turn(gens, seed, past, n) == (
            gens.map_values(|c: Constant<T>| c.item()).take(n as int),
            past,
        ),
    decreases n,
{
    if n > 0 {
        lemma_constants_in_turn(gens, seed, past, (n - 1) as nat);
        let items = gens.map_values(|c: Constant<T>| c.item());
        assert(items.take(n - 1).push(gens[n - 1].item()) =~= items.take(n as int));
    } else {
        assert(gens.map_values(|c: Constant<T>| c.item()).take(0) =~= Seq::<T>::empty());
    }
}

} // verus!
