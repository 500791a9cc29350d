//! The index arithmetic of sweep analysis: FFT sizes, the search window for
//! the output impulse, the window cut around an impulse, the delay limit, and
//! the alignment of input and output once the delay is known.
use vstd::prelude::*;
use crate::error::{ErrorKind, Failure};
use crate::text::string_from;

verus! {

/// The smallest power of two, starting from `p` and doubling, that is at
/// least `n`.
pub open spec fn pow2_from(p: nat, n: nat) -> nat
    decreases n - p,
{
    if p == 0 || p >= n {
        p
    } else if 2 * p >= n {
        2 * p
    } else {
        pow2_from(2 * p, n)
    }
}

/// `usize::next_power_of_two`: the smallest power of two that is at least `n`
/// (1 for 0).
pub open spec fn next_pow2(n: nat) -> nat {
    pow2_from(1, n)
}

/// `n.next_power_of_two()`, for every `n` whose next power of two fits in a
/// `usize`.
pub fn next_power_of_two(n: usize) -> (r: usize)
    requires
        n <= usize::MAX / 2 + 1,
    ensures
        r == next_pow2(n as nat),
        r >= n,
        r >= 1,
{
    let mut p: usize = 1;
    while p < n
        invariant
            1 <= p,
            n <= usize::MAX / 2 + 1,
            p >= n ==> p <= 2 * n || p == 1,
            p <= 2 * n || p == 1,
            pow2_from(p as nat, n as nat) == next_pow2(n as nat),
        decreases 2 * n - p,
    {
        p = p * 2;
    }
    p
}

/// The FFT size for convolving a signal with a kernel: the next power of two
/// of the length of the full convolution.
pub fn convolution_fft_size(signal_len: usize, kernel_len: usize) -> (r: usize)
    requires
        signal_len >= 1,
        kernel_len >= 1,
        signal_len + kernel_len - 1 <= usize::MAX / 2 + 1,
    ensures
        r == next_pow2((signal_len + kernel_len - 1) as nat),
        r >= signal_len + kernel_len - 1,
{
    next_power_of_two(signal_len + kernel_len - 1)
}

/// The FFT size for a frequency response of two impulse windows: the next
/// power of two of the longer one, and at least 4096.
pub fn response_fft_size(input_len: usize, output_len: usize) -> (r: usize)
    requires
        input_len <= usize::MAX / 2 + 1,
        output_len <= usize::MAX / 2 + 1,
    ensures
        r == if next_pow2((if input_len >= output_len { input_len } else { output_len }) as nat) >= 4096 {
            next_pow2((if input_len >= output_len { input_len } else { output_len }) as nat)
        } else {
            4096
        },
{
    let longer = if input_len >= output_len {
        input_len
    } else {
        output_len
    };
    let p = next_power_of_two(longer);
    if p >= 4096 {
        p
    } else {
        4096
    }
}

/// The window searched for the output impulse peak: from `max_offset`
/// before `center` (or the start) to `max_offset` after it, clipped to `len`.
pub fn search_window(center: usize, max_offset: usize, len: usize) -> (r: (usize, usize))
    requires
        center + max_offset + 1 <= usize::MAX,
    ensures
        r.0 == if center >= max_offset { center - max_offset } else { 0 },
        r.1 == if center + max_offset + 1 <= len { (center + max_offset + 1) as int } else { len as int },
{
    let start = center.saturating_sub(max_offset);
    let wanted = center + max_offset + 1;
    let end = if wanted <= len {
        wanted
    } else {
        len
    };
    (start, end)
}

/// `len` samples of `samples` starting at the (possibly negative) position
/// `start`, with `fill` where the position falls outside `samples`.
pub fn window_samples<T: Copy>(samples: &[T], start: i64, len: usize, fill: T) -> (r: Vec<T>)
    requires
        samples@.len() <= i64::MAX,
        len <= i64::MAX,
        start + len <= i64::MAX,
        start >= i64::MIN + 1,
    ensures
        r@.len() == len,
        forall|k: int|
            0 <= k < len ==> #[trigger] r@[k] == if 0 <= start + k < samples@.len() {
                samples@[start + k]
            } else {
                fill
            },
{
    let mut r: Vec<T> = Vec::new();
    let mut k: usize = 0;
    while k < len
        invariant
            k <= len,
            len <= i64::MAX,
            start + len <= i64::MAX,
            start >= i64::MIN + 1,
            samples@.len() <= i64::MAX,
            r@.len() == k,
            forall|j: int|
                0 <= j < k ==> #[trigger] r@[j] == if 0 <= start + j < samples@.len() {
                    samples@[start + j]
                } else {
                    fill
                },
        decreases len - k,
    {
        let source = start + k as i64;
        if source >= 0 && source < samples.len() as i64 {
            r.push(samples[source as usize]);
        } else {
            r.push(fill);
        }
        k = k + 1;
    }
    r
}

// ---------------------------------------------------------------------------
// Converting a sample rate to `f32`
// ---------------------------------------------------------------------------
/// The spacing of `f32` values around `x`: the smallest power of two, from
/// `u` doubling, that leaves fewer than `2^24` steps below `x`.
pub open spec fn f32_spacing_from(x: nat, u: nat) -> nat
    decreases x - u,
{
    if u == 0 || 2 * u > x || x / u < 0x100_0000 {
        u
    } else {
        f32_spacing_from(x, 2 * u)
    }
}

/// `x as f32` for an integer `x` below `2^32`: the nearest value with a
/// 24-bit significand, ties to the even significand.
pub open spec fn f32_of(x: nat) -> nat {
    let u = f32_spacing_from(x, 1);
    let q = x / u;
    let r = x % u;
    if 2 * r < u || (2 * r == u && q % 2 == 0) {
        q * u
    } else {
        (q + 1) * u
    }
}

/// `x as f32`, as an integer.
pub fn u32_as_f32_value(x: u32) -> (r: u64)
    ensures
        r == f32_of(x as nat),
        r <= 0x1_0000_0000,
{
    let v = x as u64;
    let mut u: u64 = 1;
    while 2 * u <= v && v / u >= 0x100_0000
        invariant
            u == 1 || u == 2 || u == 4 || u == 8 || u == 16 || u == 32 || u == 64 || u == 128
                || u == 256,
            v < 0x1_0000_0000,
            f32_spacing_from(v as nat, u as nat) == f32_spacing_from(v as nat, 1),
        decreases v - u,
    {
        assert(u < 0x100) by (nonlinear_arith)
            requires
                v / u >= 0x100_0000,
                v < 0x1_0000_0000,
                1 <= u <= 0x100,
        {
            if u == 0x100 {
                assert(v / 0x100 < 0x100_0000);
            }
        }
        u = u * 2;
    }
    let q = v / u;
    let rem = v % u;
    assert(q * u + rem == v && rem < u) by (nonlinear_arith)
        requires
            q == v / u,
            rem == v % u,
            u >= 1,
    ;
    assert(q < 0x100_0000 || q == 0) by (nonlinear_arith)
        requires
            q == v / u,
            !(2 * u <= v && v / u >= 0x100_0000),
            u >= 1,
    ;
    assert((q + 1) * u <= 0x1_0000_0000) by (nonlinear_arith)
        requires
            q < 0x100_0000 || q == 0,
            1 <= u <= 0x100,
    ;
    if 2 * rem < u || (2 * rem == u && q % 2 == 0) {
        q * u
    } else {
        (q + 1) * u
    }
}

/// The longest delay searched for between input and output: two seconds of
/// samples, as `(2.0 * sample_rate as f32).round() as usize` computes it.
pub fn max_delay_samples(sample_rate: u32) -> (r: usize)
    ensures
        r == if 2 * f32_of(sample_rate as nat) <= usize::MAX {
            2 * f32_of(sample_rate as nat)
        } else {
            usize::MAX as nat
        },
{
    let f = u32_as_f32_value(sample_rate);
    let twice = 2 * f;
    if twice <= usize::MAX as u64 {
        twice as usize
    } else {
        usize::MAX
    }
}

// ---------------------------------------------------------------------------
// Aligning input and output
// ---------------------------------------------------------------------------
/// The aligned input and output ranges for statistics: the input range is
/// narrowed so that, moved by `delay`, it lies inside the output; `Err` when
/// nothing overlaps.
pub open spec fn aligned(input_len: int, output_len: int, delay: int, start: int, end: int) -> Result<(int, int, int, int), Seq<char>> {
    let s1 = if start + delay < 0 { start - (start + delay) } else { start };
    let e1 = if end + delay > output_len { end - (end + delay - output_len) } else { end };
    let s2 = if s1 < 0 { 0 } else { s1 };
    let e2 = if e1 > input_len { input_len } else { e1 };
    if e2 <= s2 {
        Err("Input and output do not overlap after delay compensation"@)
    } else if s2 + delay < 0 || e2 + delay > output_len || e2 + delay <= s2 + delay {
        Err("Output range is invalid after delay compensation"@)
    } else {
        Ok((s2, e2, s2 + delay, e2 + delay))
    }
}

/// The input range `[start, end)` moved into line with the output, which lags
/// the input by `delay` samples: returns the input range and the output
/// range of the same samples.
pub fn aligned_ranges(input_len: usize, output_len: usize, delay: i64, start: usize, end: usize) -> (r: Result<(usize, usize, usize, usize), Failure>)
    requires
        start <= end <= input_len,
        input_len <= 0x2000_0000_0000_0000,
        output_len <= 0x2000_0000_0000_0000,
        -0x2000_0000_0000_0000 <= delay <= 0x2000_0000_0000_0000,
    ensures
        match aligned(input_len as int, output_len as int, delay as int, start as int, end as int) {
            Ok((a, b, c, d)) => r matches Ok((ra, rb, rc, rd)) && ra == a && rb == b && rc == c && rd == d,
            Err(message) => r matches Err(f) && f.kind == ErrorKind::InvalidData && f.message@ == message,
        },
{
    let in_len = input_len as i64;
    let out_len = output_len as i64;
    let mut input_start = start as i64;
    let mut input_end = end as i64;
    let output_start = input_start + delay;
    if output_start < 0 {
        input_start = input_start - output_start;
    }
    let output_end = input_end + delay;
    if output_end > out_len {
        input_end = input_end - (output_end - out_len);
    }
    if input_start < 0 {
        input_start = 0;
    }
    if input_end > in_len {
        input_end = in_len;
    }
    if input_end <= input_start {
        return Err(Failure {
            kind: ErrorKind::InvalidData,
            message: string_from("Input and output do not overlap after delay compensation"),
        });
    }
    let output_start = input_start + delay;
    let output_end = input_end + delay;
    if output_start < 0 || output_end > out_len || output_end <= output_start {
        return Err(Failure {
            kind: ErrorKind::InvalidData,
            message: string_from("Output range is invalid after delay compensation"),
        });
    }
    Ok((input_start as usize, input_end as usize, output_start as usize, output_end as usize))
}

/// Aligned ranges lie inside both signals, have the same length, and the
/// output range is the input range moved by the delay.
pub proof fn law_aligned_ranges_match(input_len: int, output_len: int, delay: int, start: int, end: int)
    requires
        0 <= start <= end <= input_len,
        output_len >= 0,
        aligned(input_len, output_len, delay, start, end) is Ok,
    ensures
        ({
            let (a, b, c, d) = aligned(input_len, output_len, delay, start, end)->Ok_0;
            &&& 0 <= a < b <= input_len
            &&& 0 <= c < d <= output_len
            &&& d - c == b - a
            &&& c == a + delay
        }),
{
}

/// The aligned input range is the largest part of `[start, end)` whose
/// samples, moved by `delay`, lie inside the output: it starts at
/// `max(start, -delay)` and ends at `min(end, output_len - delay)`. Alignment
/// succeeds exactly when that range is not empty.
pub proof fn law_aligned_is_largest_fit(input_len: int, output_len: int, delay: int, start: int, end: int)
    requires
        0 <= start <= end <= input_len,
        output_len >= 0,
    ensures
        ({
            let a = if start >= -delay { start } else { -delay };
            let b = if end <= output_len - delay { end } else { output_len - delay };
            &&& a < b ==> aligned(input_len, output_len, delay, start, end) == Ok::<
                (int, int, int, int),
                Seq<char>,
            >((a, b, a + delay, b + delay))
            &&& b <= a ==> aligned(input_len, output_len, delay, start, end) is Err
        }),
{
}

/// When the whole range fits in the output once moved by the delay, nothing
/// is cut: the input range is `[start, end)` and the output range is the
/// same moved by `delay`.
pub proof fn law_aligned_keeps_fitting_range(input_len: int, output_len: int, delay: int, start: int, end: int)
    requires
        0 <= start < end <= input_len,
        output_len >= 0,
        start + delay >= 0,
        end + delay <= output_len,
    ensures
        aligned(input_len, output_len, delay, start, end) == Ok::<(int, int, int, int), Seq<char>>(
            (start, end, start + delay, end + delay),
        ),
{
}

} // verus!
