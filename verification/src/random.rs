//! Random sources and the bounded random walk.
//!
//! Every stochastic rule of the pipeline is a function of raw 64-bit draws.
//! A [`RandomSource`] hands the draws out; the rules themselves take them as
//! arguments, so the same draws always give the same outcome.

use crate::fixed::{clamp_int, gap};
use vstd::prelude::*;

verus! {

/// A supplier of raw 64-bit draws. Nothing is promised about the values
/// themselves; the source only keeps count of what it has handed out.
pub trait RandomSource {
    /// Every draw handed out so far, oldest first.
    spec fn drawn(&self) -> Seq<u64>;

    /// Hands out the next draw.
    fn next_raw(&mut self) -> (raw: u64)
        ensures
            final(self).drawn() == old(self).drawn().push(raw),
    ;
}

/// Step added to the state of a [`SeededRandom`] before each draw.
pub const SEED_INCREMENT: u64 = 0x9E37_79B9_7F4A_7C15;

/// First multiplier of the output scrambler.
pub const SCRAMBLE_FIRST: u64 = 0xBF58_476D_1CE4_E5B9;

/// Second multiplier of the output scrambler.
pub const SCRAMBLE_SECOND: u64 = 0x94D0_49BB_1331_11EB;

/// The state that follows `state` in a [`SeededRandom`].
pub open spec fn next_state(state: u64) -> u64 {
    state.wrapping_add(SEED_INCREMENT)
}

/// The draw a [`SeededRandom`] hands out once its state is `state`.
pub open spec fn scramble(state: u64) -> u64 {
    let first = (state ^ (state >> 30)).wrapping_mul(SCRAMBLE_FIRST);
    let second = (first ^ (first >> 27)).wrapping_mul(SCRAMBLE_SECOND);
    second ^ (second >> 31)
}

/// A deterministic generator (SplitMix64): equal seeds give equal streams.
#[derive(Clone, Copy)]
pub struct SeededRandom {
    state: u64,
    history: Ghost<Seq<u64>>,
}

impl SeededRandom {
    /// The current internal state.
    pub closed spec fn state(&self) -> u64 {
        self.state
    }

    /// A generator that starts from `seed`.
    pub fn new(seed: u64) -> (rng: Self)
        ensures
            rng.state() == seed,
            rng.drawn() == Seq::<u64>::empty(),
    {
        SeededRandom { state: seed, history: Ghost(Seq::empty()) }
    }
}

impl RandomSource for SeededRandom {
    closed spec fn drawn(&self) -> Seq<u64> {
        self.history@
    }

    fn next_raw(&mut self) -> (raw: u64)
        ensures
            final(self).state() == next_state(old(self).state()),
            raw == scramble(final(self).state()),
    {
        self.state = self.state.wrapping_add(SEED_INCREMENT);
        let first: u64 = (self.state ^ (self.state >> 30)).wrapping_mul(SCRAMBLE_FIRST);
        let second: u64 = (first ^ (first >> 27)).wrapping_mul(SCRAMBLE_SECOND);
        let raw: u64 = second ^ (second >> 31);
        self.history = Ghost(self.history@.push(raw));
        raw
    }
}

/// Raw draws are reduced modulo this value before they are fitted to a range.
pub const RAW_MODULUS: u64 = 0x7fff_ffff_ffff_ffff;

/// The value between `lo` and `hi`, both included, that the draw `raw` selects.
pub open spec fn spec_gen_random_in_range(raw: u64, lo: int, hi: int) -> int {
    lo + ((raw % RAW_MODULUS) as int) % (hi - lo + 1)
}

/// Fits a raw draw to the closed range from `lo` to `hi`.
pub fn gen_random_in_range(raw: u64, lo: i64, hi: i64) -> (value: i64)
    requires
        lo <= hi,
        hi - lo < i64::MAX,
    ensures
        value == spec_gen_random_in_range(raw, lo as int, hi as int),
        lo <= value <= hi,
{
    let reduced: u64 = raw % RAW_MODULUS;
    let span: u64 = (hi as i128 - lo as i128 + 1) as u64;
    let offset: u64 = reduced % span;
    (lo as i128 + offset as i128) as i64
}

/// Whether the draw `roll` lets a value change that changes `change_percent`
/// times out of a hundred.
pub open spec fn spec_changes(roll: u64, change_percent: u64) -> bool {
    spec_gen_random_in_range(roll, 0, 99) < change_percent
}

/// Decides from the draw `roll` whether a value changes this step.
pub fn changes(roll: u64, change_percent: u64) -> (yes: bool)
    ensures
        yes == spec_changes(roll, change_percent),
        change_percent == 0 ==> !yes,
        change_percent >= 100 ==> yes,
{
    let rolled: i64 = gen_random_in_range(roll, 0, 99);
    (rolled as u64) < change_percent
}

/// The two raw draws one walk step consumes.
#[derive(Clone, Copy, Debug, PartialEq, Eq, Structural)]
pub struct WalkDraw {
    /// Decides whether the value changes.
    pub roll: u64,
    /// Selects the perturbation when it does.
    pub delta: u64,
}

impl WalkDraw {
    /// Takes the draws for one walk step from `rng`: the roll first, then
    /// the draw that selects the perturbation.
    pub fn draw<R: RandomSource>(rng: &mut R) -> (draw: WalkDraw)
        ensures
            final(rng).drawn() == old(rng).drawn() + draw.spec_raws(),
    {
        let roll: u64 = rng.next_raw();
        let delta: u64 = rng.next_raw();
        let draw = WalkDraw { roll, delta };
        assert(rng.drawn() =~= old(rng).drawn() + draw.spec_raws());
        draw
    }

    /// The raw draws in the order they were taken.
    pub open spec fn spec_raws(self) -> Seq<u64> {
        seq![self.roll, self.delta]
    }
}

/// Largest perturbation magnitude a [`WalkRule`] may declare.
pub const MAX_WALK_DELTA: i64 = 0x3fff_ffff_ffff_ffff;

/// The parameters of a bounded random walk.
#[derive(Clone, Copy, Debug, PartialEq, Eq, Structural)]
pub struct WalkRule {
    /// Chance, in percent, that a step changes the value.
    pub change_percent: u64,
    /// Largest magnitude of one perturbation.
    pub max_delta: i64,
    /// Lower end of the clamp range.
    pub lo: i64,
    /// Upper end of the clamp range.
    pub hi: i64,
}

impl WalkRule {
    /// The rule declares a usable perturbation and a non-empty range.
    pub open spec fn wf(&self) -> bool {
        &&& 0 <= self.max_delta <= MAX_WALK_DELTA
        &&& self.lo <= self.hi
    }

    /// Run-time form of [`WalkRule::wf`].
    pub fn is_valid(&self) -> (ok: bool)
        ensures
            ok == self.wf(),
    {
        0 <= self.max_delta && self.max_delta <= MAX_WALK_DELTA && self.lo <= self.hi
    }
}

/// What one walk step adds to the previous value, before clamping.
pub open spec fn spec_perturbation(rule: WalkRule, draw: WalkDraw) -> int {
    if spec_changes(draw.roll, rule.change_percent) {
        spec_gen_random_in_range(draw.delta, -rule.max_delta, rule.max_delta as int)
    } else {
        0
    }
}

/// The perturbation of one walk step: zero when the roll keeps the value,
/// otherwise a value between `-max_delta` and `max_delta`.
pub fn perturbation(rule: &WalkRule, draw: &WalkDraw) -> (delta: i64)
    requires
        rule.wf(),
    ensures
        delta == spec_perturbation(*rule, *draw),
        -rule.max_delta <= delta <= rule.max_delta,
{
    if changes(draw.roll, rule.change_percent) {
        gen_random_in_range(draw.delta, -rule.max_delta, rule.max_delta)
    } else {
        0
    }
}

/// The value that follows `previous` under `rule` for the draws `draw`.
pub open spec fn spec_random_walk(previous: int, rule: WalkRule, draw: WalkDraw) -> int {
    clamp_int(previous + spec_perturbation(rule, draw), rule.lo as int, rule.hi as int)
}

/// One step of the bounded random walk on a fixed-point value.
pub fn random_walk_milli(previous: i64, rule: &WalkRule, draw: &WalkDraw) -> (next: i64)
    requires
        rule.wf(),
    ensures
        next == spec_random_walk(previous as int, *rule, *draw),
        rule.lo <= next <= rule.hi,
{
    let delta: i64 = perturbation(rule, draw);
    let moved: i128 = previous as i128 + delta as i128;
    if moved < rule.lo as i128 {
        rule.lo
    } else if moved > rule.hi as i128 {
        rule.hi
    } else {
        moved as i64
    }
}

/// One step of the bounded random walk on a count.
pub fn random_walk_integer(previous: usize, rule: &WalkRule, draw: &WalkDraw) -> (next: usize)
    requires
        rule.wf(),
        0 <= rule.lo,
        rule.hi <= usize::MAX,
    ensures
        next == spec_random_walk(previous as int, *rule, *draw),
        rule.lo <= next <= rule.hi,
{
    let delta: i64 = perturbation(rule, draw);
    let moved: i128 = previous as i128 + delta as i128;
    if moved < rule.lo as i128 {
        rule.lo as usize
    } else if moved > rule.hi as i128 {
        rule.hi as usize
    } else {
        moved as usize
    }
}

/// Whatever the draws, a walk step lands in the declared range and, measured
/// from the clamped previous value, moves by at most `max_delta`.
pub proof fn lemma_walk_is_bounded(previous: int, rule: WalkRule, draw: WalkDraw)
    requires
        rule.wf(),
    ensures
        rule.lo <= spec_random_walk(previous, rule, draw) <= rule.hi,
        gap(
            spec_random_walk(previous, rule, draw),
            clamp_int(previous, rule.lo as int, rule.hi as int),
        ) <= rule.max_delta,
{
    lemma_perturbation_is_bounded(rule, draw);
}

/// A perturbation never exceeds the declared magnitude.
pub proof fn lemma_perturbation_is_bounded(rule: WalkRule, draw: WalkDraw)
    requires
        rule.wf(),
    ensures
        -rule.max_delta <= spec_perturbation(rule, draw) <= rule.max_delta,
{
    let span: int = 2 * rule.max_delta + 1;
    let reduced: int = (draw.delta % RAW_MODULUS) as int;
    assert(0 <= reduced % span < span);
}

/// A roll that keeps the value leaves a value inside the range untouched.
pub proof fn lemma_walk_keeps_value_without_change(previous: int, rule: WalkRule, draw: WalkDraw)
    requires
        rule.wf(),
        rule.lo <= previous <= rule.hi,
        !spec_changes(draw.roll, rule.change_percent),
    ensures
        spec_random_walk(previous, rule, draw) == previous,
{
}

} // verus!
