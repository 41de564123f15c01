use rand::{Rng, SeedableRng};
use vstd::prelude::*;

verus! {

/// The integer types that a random source draws from.
pub enum SampleKind {
    U8,
    U16,
    U32,
    U64,
    U128,
    Usize,
    I8,
    I16,
    I32,
    I64,
    I128,
    Isize,
}

/// One request made of a random source: a uniform draw of `kind` from `low..=high`.
pub ghost struct Draw {
    pub kind: SampleKind,
    pub low: int,
    pub high: int,
}

/// What a source seeded with `seed` hands out for the request `next`, after
/// it has answered the requests `past`, in order.
///
/// rand's `SmallRng` is one algorithm on every target of one pointer width
/// (Xoshiro256++ where pointers are 64 bits wide), so this holds for builds of
/// one rand version on targets of one pointer width.
pub uninterp spec fn drawn(seed: u64, past: Seq<Draw>, next: Draw) -> int;

/// rand's small, fast generator, held opaque.
#[verifier::external_type_specification]
#[verifier::external_body]
pub struct ExSmallRng(rand::rngs::SmallRng);

/// A seeded random source. Every value it hands out is determined by its seed
/// and by the requests it has answered before.
pub struct RandomSource {
    rng: rand::rngs::SmallRng,
    seed: u64,
    past: Ghost<Seq<Draw>>,
}

/// Relies on `rand::SeedableRng::seed_from_u64` for `SmallRng`: the new
/// generator's state is a function of `seed` alone, and no draw has been made.
#[verifier::external_body]
fn seeded_source(seed: u64) -> (r: RandomSource)
    ensures
        r.seed_spec() == seed,
        r.past() == Seq::<Draw>::empty(),
{
    RandomSource { rng: rand::rngs::SmallRng::seed_from_u64(seed), seed, past: Ghost(Seq::empty()) }
}

impl RandomSource {
    /// The seed the source was made from.
    pub closed spec fn seed_spec(&self) -> u64 {
        self.seed
    }

    /// The requests the source has answered, oldest first.
    pub closed spec fn past(&self) -> Seq<Draw> {
        self.past@
    }

    /// A source seeded with `seed`, before any draw.
    pub fn from_seed(seed: u64) -> (r: RandomSource)
        ensures
            r.seed_spec() == seed,
            r.past() == Seq::<Draw>::empty(),
    {
        seeded_source(seed)
    }

    /// The seed the source was made from.
    pub fn seed(&self) -> (r: u64)
        ensures
            r == self.seed_spec(),
    {
        self.seed
    }
}

/// Relies on `rand::Rng::gen_range` on `SmallRng` with a `u8` range
/// `low..=high`: the value lies in the range, and the generator's state, hence
/// the value, is determined by the seed and the draws made before.
#[verifier::external_body]
fn draw_u8(source: &mut RandomSource, low: u8, high: u8) -> (r: u8)
    requires
        low <= high,
    ensures
        final(source).seed_spec() == old(source).seed_spec(),
        final(source).past() == old(source).past().push(
            Draw { kind: SampleKind::U8, low: low as int, high: high as int },
        ),
        r as int == drawn(
            old(source).seed_spec(),
            old(source).past(),
            Draw { kind: SampleKind::U8, low: low as int, high: high as int },
        ),
        low <= r <= high,
{
    source.rng.gen_range(low..=high)
}

/// Relies on `rand::Rng::gen_range` on `SmallRng` with a `u16` range
/// `low..=high`: the value lies in the range, and the generator's state, hence
/// the value, is determined by the seed and the draws made before.
#[verifier::external_body]
fn draw_u16(source: &mut RandomSource, low: u16, high: u16) -> (r: u16)
    requires
        low <= high,
    ensures
        final(source).seed_spec() == old(source).seed_spec(),
        final(source).past() == old(source).past().push(
            Draw { kind: SampleKind::U16, low: low as int, high: high as int },
        ),
        r as int == drawn(
            old(source).seed_spec(),
            old(source).past(),
            Draw { kind: SampleKind::U16, low: low as int, high: high as int },
        ),
        low <= r <= high,
{
    source.rng.gen_range(low..=high)
}

/// Relies on `rand::Rng::gen_range` on `SmallRng` with a `u32` range
/// `low..=high`: the value lies in the range, and the generator's state, hence
/// the value, is determined by the seed and the draws made before.
#[verifier::external_body]
fn draw_u32(source: &mut RandomSource, low: u32, high: u32) -> (r: u32)
    requires
        low <= high,
    ensures
        final(source).seed_spec() == old(source).seed_spec(),
        final(source).past() == old(source).past().push(
            Draw { kind: SampleKind::U32, low: low as int, high: high as int },
        ),
        r as int == drawn(
            old(source).seed_spec(),
            old(source).past(),
            Draw { kind: SampleKind::U32, low: low as int, high: high as int },
        ),
        low <= r <= high,
{
    source.rng.gen_range(low..=high)
}

/// Relies on `rand::Rng::gen_range` on `SmallRng` with a `u64` range
/// `low..=high`: the value lies in the range, and the generator's state, hence
/// the value, is determined by the seed and the draws made before.
#[verifier::external_body]
fn draw_u64(source: &mut RandomSource, low: u64, high: u64) -> (r: u64)
    requires
        low <= high,
    ensures
        final(source).seed_spec() == old(source).seed_spec(),
        final(source).past() == old(source).past().push(
            Draw { kind: SampleKind::U64, low: low as int, high: high as int },
        ),
        r as int == drawn(
            old(source).seed_spec(),
            old(source).past(),
            Draw { kind: SampleKind::U64, low: low as int, high: high as int },
        ),
        low <= r <= high,
{
    source.rng.gen_range(low..=high)
}

/// Relies on `rand::Rng::gen_range` on `SmallRng` with a `u128` range
/// `low..=high`: the value lies in the range, and the generator's state, hence
/// the value, is determined by the seed and the draws made before.
#[verifier::external_body]
fn draw_u128(source: &mut RandomSource, low: u128, high: u128) -> (r: u128)
    requires
        low <= high,
    ensures
        final(source).seed_spec() == old(source).seed_spec(),
        final(source).past() == old(source).past().push(
            Draw { kind: SampleKind::U128, low: low as int, high: high as int },
        ),
        r as int == drawn(
            old(source).seed_spec(),
            old(source).past(),
            Draw { kind: SampleKind::U128, low: low as int, high: high as int },
        ),
        low <= r <= high,
{
    source.rng.gen_range(low..=high)
}

/// Relies on `rand::Rng::gen_range` on `SmallRng` with a `usize` range
/// `low..=high`: the value lies in the range, and the generator's state, hence
/// the value, is determined by the seed and the draws made before.
#[verifier::external_body]
fn draw_usize(source: &mut RandomSource, low: usize, high: usize) -> (r: usize)
    requires
        low <= high,
    ensures
        final(source).seed_spec() == old(source).seed_spec(),
        final(source).past() == old(source).past().push(
            Draw { kind: SampleKind::Usize, low: low as int, high: high as int },
        ),
        r as int == drawn(
            old(source).seed_spec(),
            old(source).past(),
            Draw { kind: SampleKind::Usize, low: low as int, high: high as int },
        ),
        low <= r <= high,
{
    source.rng.gen_range(low..=high)
}

/// Relies on `rand::Rng::gen_range` on `SmallRng` with a `i8` range
/// `low..=high`: the value lies in the range, and the generator's state, hence
/// the value, is determined by the seed and the draws made before.
#[verifier::external_body]
fn draw_i8(source: &mut RandomSource, low: i8, high: i8) -> (r: i8)
    requires
        low <= high,
    ensures
        final(source).seed_spec() == old(source).seed_spec(),
        final(source).past() == old(source).past().push(
            Draw { kind: SampleKind::I8, low: low as int, high: high as int },
        ),
        r as int == drawn(
            old(source).seed_spec(),
            old(source).past(),
            Draw { kind: SampleKind::I8, low: low as int, high: high as int },
        ),
        low <= r <= high,
{
    source.rng.gen_range(low..=high)
}

/// Relies on `rand::Rng::gen_range` on `SmallRng` with a `i16` range
/// `low..=high`: the value lies in the range, and the generator's state, hence
/// the value, is determined by the seed and the draws made before.
#[verifier::external_body]
fn draw_i16(source: &mut RandomSource, low: i16, high: i16) -> (r: i16)
    requires
        low <= high,
    ensures
        final(source).seed_spec() == old(source).seed_spec(),
        final(source).past() == old(source).past().push(
            Draw { kind: SampleKind::I16, low: low as int, high: high as int },
        ),
        r as int == drawn(
            old(source).seed_spec(),
            old(source).past(),
            Draw { kind: SampleKind::I16, low: low as int, high: high as int },
        ),
        low <= r <= high,
{
    source.rng.gen_range(low..=high)
}

/// Relies on `rand::Rng::gen_range` on `SmallRng` with a `i32` range
/// `low..=high`: the value lies in the range, and the generator's state, hence
/// the value, is determined by the seed and the draws made before.
#[verifier::external_body]
fn draw_i32(source: &mut RandomSource, low: i32, high: i32) -> (r: i32)
    requires
        low <= high,
    ensures
        final(source).seed_spec() == old(source).seed_spec(),
        final(source).past() == old(source).past().push(
            Draw { kind: SampleKind::I32, low: low as int, high: high as int },
        ),
        r as int == drawn(
            old(source).seed_spec(),
            old(source).past(),
            Draw { kind: SampleKind::I32, low: low as int, high: high as int },
        ),
        low <= r <= high,
{
    source.rng.gen_range(low..=high)
}

/// Relies on `rand::Rng::gen_range` on `SmallRng` with a `i64` range
/// `low..=high`: the value lies in the range, and the generator's state, hence
/// the value, is determined by the seed and the draws made before.
#[verifier::external_body]
fn draw_i64(source: &mut RandomSource, low: i64, high: i64) -> (r: i64)
    requires
        low <= high,
    ensures
        final(source).seed_spec() == old(source).seed_spec(),
        final(source).past() == old(source).past().push(
            Draw { kind: SampleKind::I64, low: low as int, high: high as int },
        ),
        r as int == drawn(
            old(source).seed_spec(),
            old(source).past(),
            Draw { kind: SampleKind::I64, low: low as int, high: high as int },
        ),
        low <= r <= high,
{
    source.rng.gen_range(low..=high)
}

/// Relies on `rand::Rng::gen_range` on `SmallRng` with a `i128` range
/// `low..=high`: the value lies in the range, and the generator's state, hence
/// the value, is determined by the seed and the draws made before.
#[verifier::external_body]
fn draw_i128(source: &mut RandomSource, low: i128, high: i128) -> (r: i128)
    requires
        low <= high,
    ensures
        final(source).seed_spec() == old(source).seed_spec(),
        final(source).past() == old(source).past().push(
            Draw { kind: SampleKind::I128, low: low as int, high: high as int },
        ),
        r as int == drawn(
            old(source).seed_spec(),
            old(source).past(),
            Draw { kind: SampleKind::I128, low: low as int, high: high as int },
        ),
        low <= r <= high,
{
    source.rng.gen_range(low..=high)
}

/// Relies on `rand::Rng::gen_range` on `SmallRng` with a `isize` range
/// `low..=high`: the value lies in the range, and the generator's state, hence
/// the value, is determined by the seed and the draws made before.
#[verifier::external_body]
fn draw_isize(source: &mut RandomSource, low: isize, high: isize) -> (r: isize)
    requires
        low <= high,
    ensures
        final(source).seed_spec() == old(source).seed_spec(),
        final(source).past() == old(source).past().push(
            Draw { kind: SampleKind::Isize, low: low as int, high: high as int },
        ),
        r as int == drawn(
            old(source).seed_spec(),
            old(source).past(),
            Draw { kind: SampleKind::Isize, low: low as int, high: high as int },
        ),
        low <= r <= high,
{
    source.rng.gen_range(low..=high)
}

/// An integer type that a random source draws uniformly from an interval.
pub trait UniformInt: Sized + Copy {
    /// How a draw of this type is recorded.
    spec fn kind() -> SampleKind;

    /// The value as a mathematical integer.
    spec fn value(self) -> int;

    /// The value of this type that stands for the integer `v`.
    spec fn of_value(v: int) -> Self;

    /// The least value of the type.
    spec fn min_value() -> int;

    /// The greatest value of the type.
    spec fn max_value() -> int;

    /// Every value lies between the type's bounds, and stands for its integer.
    proof fn lemma_value(x: Self)
        ensures
            Self::min_value() <= x.value() <= Self::max_value(),
            Self::of_value(x.value()) == x,
    ;

    /// Whether `self` is at most `other`.
    fn le(self, other: Self) -> (r: bool)
        ensures
            r == (self.value() <= other.value()),
    ;

    /// The value just below `self`.
    fn pred(self) -> (r: Self)
        requires
            self.value() > Self::min_value(),
        ensures
            r.value() == self.value() - 1,
    ;

    /// A uniform draw from `low..=high`.
    fn sample_inclusive(source: &mut RandomSource, low: Self, high: Self) -> (r: Self)
        requires
            low.value() <= high.value(),
        ensures
            final(source).seed_spec() == old(source).seed_spec(),
            final(source).past() == old(source).past().push(
                Draw { kind: Self::kind(), low: low.value(), high: high.value() },
            ),
            r == Self::of_value(
                drawn(
                    old(source).seed_spec(),
                    old(source).past(),
                    Draw { kind: Self::kind(), low: low.value(), high: high.value() },
                ),
            ),
            r.value() == drawn(
                old(source).seed_spec(),
                old(source).past(),
                Draw { kind: Self::kind(), low: low.value(), high: high.value() },
            ),
            low.value() <= r.value() <= high.value(),
    ;
}

impl UniformInt for u8 {
    open spec fn kind() -> SampleKind {
        SampleKind::U8
    }

    open spec fn value(self) -> int {
        self as int
    }

    open spec fn of_value(v: int) -> Self {
        v as u8
    }

    open spec fn min_value() -> int {
        u8::MIN as int
    }

    open spec fn max_value() -> int {
        u8::MAX as int
    }

    proof fn lemma_value(x: Self) {
    }

    fn le(self, other: Self) -> (r: bool) {
        self <= other
    }

    fn pred(self) -> (r: Self) {
        self - 1
    }

    fn sample_inclusive(source: &mut RandomSource, low: Self, high: Self) -> (r: Self) {
        draw_u8(source, low, high)
    }
}

impl UniformInt for u16 {
    open spec fn kind() -> SampleKind {
        SampleKind::U16
    }

    open spec fn value(self) -> int {
        self as int
    }

    open spec fn of_value(v: int) -> Self {
        v as u16
    }

    open spec fn min_value() -> int {
        u16::MIN as int
    }

    open spec fn max_value() -> int {
        u16::MAX as int
    }

    proof fn lemma_value(x: Self) {
    }

    fn le(self, other: Self) -> (r: bool) {
        self <= other
    }

    fn pred(self) -> (r: Self) {
        self - 1
    }

    fn sample_inclusive(source: &mut RandomSource, low: Self, high: Self) -> (r: Self) {
        draw_u16(source, low, high)
    }
}

impl UniformInt for u32 {
    open spec fn kind() -> SampleKind {
        SampleKind::U32
    }

    open spec fn value(self) -> int {
        self as int
    }

    open spec fn of_value(v: int) -> Self {
        v as u32
    }

    open spec fn min_value() -> int {
        u32::MIN as int
    }

    open spec fn max_value() -> int {
        u32::MAX as int
    }

    proof fn lemma_value(x: Self) {
    }

    fn le(self, other: Self) -> (r: bool) {
        self <= other
    }

    fn pred(self) -> (r: Self) {
        self - 1
    }

    fn sample_inclusive(source: &mut RandomSource, low: Self, high: Self) -> (r: Self) {
        draw_u32(source, low, high)
    }
}

impl UniformInt for u64 {
    open spec fn kind() -> SampleKind {
        SampleKind::U64
    }

    open spec fn value(self) -> int {
        self as int
    }

    open spec fn of_value(v: int) -> Self {
        v as u64
    }

    open spec fn min_value() -> int {
        u64::MIN as int
    }

    open spec fn max_value() -> int {
        u64::MAX as int
    }

    proof fn lemma_value(x: Self) {
    }

    fn le(self, other: Self) -> (r: bool) {
        self <= other
    }

    fn pred(self) -> (r: Self) {
        self - 1
    }

    fn sample_inclusive(source: &mut RandomSource, low: Self, high: Self) -> (r: Self) {
        draw_u64(source, low, high)
    }
}

impl UniformInt for u128 {
    open spec fn kind() -> SampleKind {
        SampleKind::U128
    }

    open spec fn value(self) -> int {
        self as int
    }

    open spec fn of_value(v: int) -> Self {
        v as u128
    }

    open spec fn min_value() -> int {
        u128::MIN as int
    }

    open spec fn max_value() -> int {
        u128::MAX as int
    }

    proof fn lemma_value(x: Self) {
    }

    fn le(self, other: Self) -> (r: bool) {
        self <= other
    }

    fn pred(self) -> (r: Self) {
        self - 1
    }

    fn sample_inclusive(source: &mut RandomSource, low: Self, high: Self) -> (r: Self) {
        draw_u128(source, low, high)
    }
}

impl UniformInt for usize {
    open spec fn kind() -> SampleKind {
        SampleKind::Usize
    }

    open spec fn value(self) -> int {
        self as int
    }

    open spec fn of_value(v: int) -> Self {
        v as usize
    }

    open spec fn min_value() -> int {
        usize::MIN as int
    }

    open spec fn max_value() -> int {
        usize::MAX as int
    }

    proof fn lemma_value(x: Self) {
    }

    fn le(self, other: Self) -> (r: bool) {
        self <= other
    }

    fn pred(self) -> (r: Self) {
        self - 1
    }

    fn sample_inclusive(source: &mut RandomSource, low: Self, high: Self) -> (r: Self) {
        draw_usize(source, low, high)
    }
}

impl UniformInt for i8 {
    open spec fn kind() -> SampleKind {
        SampleKind::I8
    }

    open spec fn value(self) -> int {
        self as int
    }

    open spec fn of_value(v: int) -> Self {
        v as i8
    }

    open spec fn min_value() -> int {
        i8::MIN as int
    }

    open spec fn max_value() -> int {
        i8::MAX as int
    }

    proof fn lemma_value(x: Self) {
    }

    fn le(self, other: Self) -> (r: bool) {
        self <= other
    }

    fn pred(self) -> (r: Self) {
        self - 1
    }

    fn sample_inclusive(source: &mut RandomSource, low: Self, high: Self) -> (r: Self) {
        draw_i8(source, low, high)
    }
}

impl UniformInt for i16 {
    open spec fn kind() -> SampleKind {
        SampleKind::I16
    }

    open spec fn value(self) -> int {
        self as int
    }

    open spec fn of_value(v: int) -> Self {
        v as i16
    }

    open spec fn min_value() -> int {
        i16::MIN as int
    }

    open spec fn max_value() -> int {
        i16::MAX as int
    }

    proof fn lemma_value(x: Self) {
    }

    fn le(self, other: Self) -> (r: bool) {
        self <= other
    }

    fn pred(self) -> (r: Self) {
        self - 1
    }

    fn sample_inclusive(source: &mut RandomSource, low: Self, high: Self) -> (r: Self) {
        draw_i16(source, low, high)
    }
}

impl UniformInt for i32 {
    open spec fn kind() -> SampleKind {
        SampleKind::I32
    }

    open spec fn value(self) -> int {
        self as int
    }

    open spec fn of_value(v: int) -> Self {
        v as i32
    }

    open spec fn min_value() -> int {
        i32::MIN as int
    }

    open spec fn max_value() -> int {
        i32::MAX as int
    }

    proof fn lemma_value(x: Self) {
    }

    fn le(self, other: Self) -> (r: bool) {
        self <= other
    }

    fn pred(self) -> (r: Self) {
        self - 1
    }

    fn sample_inclusive(source: &mut RandomSource, low: Self, high: Self) -> (r: Self) {
        draw_i32(source, low, high)
    }
}

impl UniformInt for i64 {
    open spec fn kind() -> SampleKind {
        SampleKind::I64
    }

    open spec fn value(self) -> int {
        self as int
    }

    open spec fn of_value(v: int) -> Self {
        v as i64
    }

    open spec fn min_value() -> int {
        i64::MIN as int
    }

    open spec fn max_value() -> int {
        i64::MAX as int
    }

    proof fn lemma_value(x: Self) {
    }

    fn le(self, other: Self) -> (r: bool) {
        self <= other
    }

    fn pred(self) -> (r: Self) {
        self - 1
    }

    fn sample_inclusive(source: &mut RandomSource, low: Self, high: Self) -> (r: Self) {
        draw_i64(source, low, high)
    }
}

impl UniformInt for i128 {
    open spec fn kind() -> SampleKind {
        SampleKind::I128
    }

    open spec fn value(self) -> int {
        self as int
    }

    open spec fn of_value(v: int) -> Self {
        v as i128
    }

    open spec fn min_value() -> int {
        i128::MIN as int
    }

    open spec fn max_value() -> int {
        i128::MAX as int
    }

    proof fn lemma_value(x: Self) {
    }

    fn le(self, other: Self) -> (r: bool) {
        self <= other
    }

    fn pred(self) -> (r: Self) {
        self - 1
    }

    fn sample_inclusive(source: &mut RandomSource, low: Self, high: Self) -> (r: Self) {
        draw_i128(source, low, high)
    }
}

impl UniformInt for isize {
    open spec fn kind() -> SampleKind {
        SampleKind::Isize
    }

    open spec fn value(self) -> int {
        self as int
    }

    open spec fn of_value(v: int) -> Self {
        v as isize
    }

    open spec fn min_value() -> int {
        isize::MIN as int
    }

    open spec fn max_value() -> int {
        isize::MAX as int
    }

    proof fn lemma_value(x: Self) {
    }

    fn le(self, other: Self) -> (r: bool) {
        self <= other
    }

    fn pred(self) -> (r: Self) {
        self - 1
    }

    fn sample_inclusive(source: &mut RandomSource, low: Self, high: Self) -> (r: Self) {
        draw_isize(source, low, high)
    }
}

} // verus!
