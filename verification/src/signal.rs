//! The integer side of signal generation: how many samples a preset renders,
//! the fade envelope at both ends, and the pseudo-random generator behind
//! the noise presets. Turning these into sample values is floating-point work
//! done outside the library.
use vstd::prelude::*;
use crate::presets::{SignalPreset, FADE_MS, SAMPLE_RATE};

verus! {

/// Multiplier of the noise generator.
pub const LCG_MULTIPLIER: u32 = 1_664_525;

/// Increment of the noise generator.
pub const LCG_INCREMENT: u32 = 1_013_904_223;

/// Seed of the noise generator.
pub const LCG_SEED: u32 = 0x1234_abcd;

/// Number of samples of the fade at each end: `FADE_MS` at `SAMPLE_RATE`,
/// rounded to the nearest sample (halves away from zero).
pub open spec fn spec_fade_samples() -> int {
    (2 * SAMPLE_RATE * FADE_MS + 1000) / 2000
}

/// One step of the noise generator: `(state * 1664525 + 1013904223) mod 2^32`.
pub open spec fn lcg_step(state: u32) -> u32 {
    ((state as int * LCG_MULTIPLIER as int + LCG_INCREMENT as int) % 0x1_0000_0000) as u32
}

/// The state of the noise generator after `k` steps from the seed.
pub open spec fn lcg_state(k: nat) -> u32
    decreases k,
{
    if k == 0 {
        LCG_SEED
    } else {
        lcg_step(lcg_state((k - 1) as nat))
    }
}

/// The first `n` generator outputs (the states after 1, 2, ..., n steps).
pub open spec fn noise_sequence(n: nat) -> Seq<u32> {
    Seq::new(n, |k: int| lcg_state((k + 1) as nat))
}

/// The fade envelope at sample `index` of `count`, scaled by the fade length:
/// the gain is this value divided by the fade length.
pub open spec fn fade_numerator(index: int, count: int) -> int {
    let fade_in = index + 1;
    let fade_out = count - index;
    let m = if fade_in < fade_out { fade_in } else { fade_out };
    if m < spec_fade_samples() {
        m
    } else {
        spec_fade_samples()
    }
}

/// Number of samples of the fade at each end of a generated signal.
pub fn fade_samples() -> (r: u64)
    ensures
        r == spec_fade_samples(),
        r == 221,
{
    let rate: u64 = SAMPLE_RATE as u64;
    let ms: u64 = FADE_MS as u64;
    assert(rate == 44_100 && ms == 5);
    assert(2 * rate * ms == 441_000) by (nonlinear_arith)
        requires
            rate == 44_100 && ms == 5,
    ;
    (2 * rate * ms + 1000) / 2000
}

/// Number of samples a preset renders: its duration times the sample rate.
pub fn sample_count(preset: &SignalPreset) -> (r: u64)
    ensures
        r == preset.duration_secs * SAMPLE_RATE,
{
    (preset.duration_secs as u64) * (SAMPLE_RATE as u64)
}

/// The fade envelope of sample `index` of a signal of `count` samples, as a
/// numerator over `fade_samples()`: it rises by one per sample over the first
/// samples, falls by one per sample over the last ones, and is capped at the
/// fade length (full gain).
pub fn fade_gain_numerator(index: u64, count: u64) -> (r: u64)
    requires
        index < count,
    ensures
        r == fade_numerator(index as int, count as int),
        1 <= r <= spec_fade_samples(),
{
    let fade = fade_samples();
    let fade_in = index + 1;
    let fade_out = count - index;
    let m = if fade_in < fade_out {
        fade_in
    } else {
        fade_out
    };
    if m < fade {
        m
    } else {
        fade
    }
}

/// One step of the noise generator.
pub fn next_noise_state(state: u32) -> (r: u32)
    ensures
        r == lcg_step(state),
{
    let product = state.wrapping_mul(LCG_MULTIPLIER);
    let r = product.wrapping_add(LCG_INCREMENT);
    proof {
        let m: int = 0x1_0000_0000;
        let x: int = state as int * LCG_MULTIPLIER as int;
        assert(product as int == x % m);
        vstd::arithmetic::div_mod::lemma_add_mod_noop(x, LCG_INCREMENT as int, m);
        vstd::arithmetic::div_mod::lemma_small_mod(LCG_INCREMENT as nat, m as nat);
        vstd::arithmetic::div_mod::lemma_mod_bound(x, m);
        let s: int = product as int + LCG_INCREMENT as int;
        if s >= m {
            vstd::arithmetic::div_mod::lemma_mod_sub_multiples_vanish(s, m);
            vstd::arithmetic::div_mod::lemma_small_mod((s - m) as nat, m as nat);
        } else {
            vstd::arithmetic::div_mod::lemma_small_mod(s as nat, m as nat);
        }
    }
    r
}

/// The first `count` outputs of the noise generator, each the state after one
/// more step from the seed.
pub fn noise_states(count: usize) -> (r: Vec<u32>)
    ensures
        r@ == noise_sequence(count as nat),
{
    let mut r: Vec<u32> = Vec::new();
    let mut state = LCG_SEED;
    let mut i: usize = 0;
    while i < count
        invariant
            i <= count,
            state == lcg_state(i as nat),
            r@ == noise_sequence(i as nat),
        decreases count - i,
    {
        state = next_noise_state(state);
        r.push(state);
        assert(r@ =~= noise_sequence((i + 1) as nat));
        i = i + 1;
    }
    r
}

// ---------------------------------------------------------------------------
// Laws
// ---------------------------------------------------------------------------
/// The fade is symmetric: sample `i` from the start has the gain of sample `i`
/// from the end.
pub proof fn law_fade_is_symmetric(index: int, count: int)
    requires
        0 <= index < count,
    ensures
        fade_numerator(index, count) == fade_numerator(count - 1 - index, count),
{
}

/// Outside the two fades the gain is full: a sample at least the fade length
/// away from both ends has gain one.
pub proof fn law_fade_full_gain_in_middle(index: int, count: int)
    requires
        spec_fade_samples() <= index + 1,
        spec_fade_samples() <= count - index,
    ensures
        fade_numerator(index, count) == spec_fade_samples(),
{
}

/// The noise generator is deterministic and prefix-stable: a shorter run is
/// the start of a longer one.
pub proof fn law_noise_prefix_stable(n: nat, m: nat)
    requires
        n <= m,
    ensures
        noise_sequence(n) == noise_sequence(m).take(n as int),
{
    assert(noise_sequence(n) =~= noise_sequence(m).take(n as int));
}

/// Each noise output is one generator step after the previous one.
pub proof fn law_noise_consecutive(n: nat, k: int)
    requires
        0 < k < n,
    ensures
        noise_sequence(n)[k] == lcg_step(noise_sequence(n)[k - 1]),
{
    assert(lcg_state((k + 1) as nat) == lcg_step(lcg_state(k as nat)));
}

/// The fade lasts 221 samples (5 ms at 44.1 kHz, rounded).
pub proof fn law_fade_length()
    ensures
        spec_fade_samples() == 221,
{
}

/// The fade-in rises by exactly one step per sample: sample `index` has gain
/// `(index + 1) / 221` while it is within the fade length of the start and no
/// nearer the end than the start.
pub proof fn law_fade_in_ramp(index: int, count: int)
    requires
        0 <= index,
        index + 1 <= 221,
        index + 1 <= count - index,
    ensures
        fade_numerator(index, count) == index + 1,
{
}

/// The fade-out falls by exactly one step per sample: sample `index` has gain
/// `(count - index) / 221` while it is within the fade length of the end and
/// no nearer the start than the end.
pub proof fn law_fade_out_ramp(index: int, count: int)
    requires
        0 <= index < count,
        count - index <= 221,
        count - index <= index + 1,
    ensures
        fade_numerator(index, count) == count - index,
{
}

} // verus!
