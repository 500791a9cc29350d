//! The block schedule of averaged spectra: blocks of `fft_size` samples taken
//! every `hop` samples while a whole block fits, and the length checks that
//! come before it.
use vstd::prelude::*;
use crate::error::{ErrorKind, Failure};
use crate::text::{decimal, push_decimal, push_str, string_from};

verus! {

/// FFT size of the third-octave band energy.
pub const BAND_FFT_SIZE: usize = 4096;

/// Hop between band energy blocks.
pub const BAND_HOP_SIZE: usize = 2048;

/// FFT size of the averaged noise spectrum.
pub const NOISE_FFT_SIZE: usize = 8192;

/// Hop between noise spectrum blocks.
pub const NOISE_HOP_SIZE: usize = 4096;

/// The start of every block: `k * hop` for each `k` whose block of
/// `fft_size` samples ends within `len`.
pub open spec fn is_block_schedule(r: Seq<usize>, len: int, fft_size: int, hop: int) -> bool {
    &&& forall|k: int| 0 <= k < r.len() ==> #[trigger] r[k] == k * hop && r[k] + fft_size <= len
    &&& r.len() * hop + fft_size > len
}

/// The starts of the blocks of `fft_size` samples taken every `hop` samples
/// from a signal of `len` samples, while a whole block fits.
pub fn fft_block_starts(len: usize, fft_size: usize, hop: usize) -> (r: Vec<usize>)
    requires
        hop >= 1,
        len + fft_size + hop <= usize::MAX,
    ensures
        is_block_schedule(r@, len as int, fft_size as int, hop as int),
{
    let mut r: Vec<usize> = Vec::new();
    let mut start: usize = 0;
    assert(r@.len() * hop == 0);
    while start + fft_size <= len
        invariant
            hop >= 1,
            len + fft_size + hop <= usize::MAX,
            start == r@.len() * hop,
            start <= len + hop,
            forall|k: int| 0 <= k < r@.len() ==> #[trigger] r@[k] == k * hop && r@[k] + fft_size <= len,
        decreases len + hop - start,
    {
        let ghost count = r@.len();
        r.push(start);
        assert((count + 1) * hop == count * hop + hop) by (nonlinear_arith);
        start = start + hop;
    }
    r
}

/// A signal as long as one block gets at least one block.
pub proof fn law_long_enough_gets_a_block(r: Seq<usize>, len: int, fft_size: int, hop: int)
    requires
        hop >= 1,
        fft_size <= len,
        is_block_schedule(r, len, fft_size, hop),
    ensures
        r.len() >= 1,
{
    if r.len() == 0 {
        assert(r.len() * hop == 0);
    }
}

/// The message when a signal is too short for band energy analysis.
pub open spec fn band_length_message(len: nat) -> Seq<char> {
    "Not enough samples for band energy analysis: got "@ + decimal(len) + ", need at least "@
        + decimal(BAND_FFT_SIZE as nat)
}

/// Band energy analysis needs at least one block of samples.
pub fn check_band_energy_length(len: usize) -> (r: Result<(), Failure>)
    ensures
        len >= BAND_FFT_SIZE ==> r is Ok,
        len < BAND_FFT_SIZE ==> (r matches Err(f) && f.kind == ErrorKind::InvalidData && f.message@
            == band_length_message(len as nat)),
{
    if len >= BAND_FFT_SIZE {
        return Ok(());
    }
    let mut message = string_from("Not enough samples for band energy analysis: got ");
    push_decimal(&mut message, len as u64);
    push_str(&mut message, ", need at least ");
    push_decimal(&mut message, BAND_FFT_SIZE as u64);
    Err(Failure { kind: ErrorKind::InvalidData, message })
}

/// The message when a signal is too short for the noise spectrum.
pub open spec fn noise_length_message(len: nat) -> Seq<char> {
    "Not enough samples for noise FFT analysis: got "@ + decimal(len) + ", need at least "@ + decimal(
        NOISE_FFT_SIZE as nat,
    )
}

/// The noise spectrum needs at least one block of samples.
pub fn check_noise_fft_length(len: usize) -> (r: Result<(), Failure>)
    ensures
        len >= NOISE_FFT_SIZE ==> r is Ok,
        len < NOISE_FFT_SIZE ==> (r matches Err(f) && f.kind == ErrorKind::InvalidData && f.message@
            == noise_length_message(len as nat)),
{
    if len >= NOISE_FFT_SIZE {
        return Ok(());
    }
    let mut message = string_from("Not enough samples for noise FFT analysis: got ");
    push_decimal(&mut message, len as u64);
    push_str(&mut message, ", need at least ");
    push_decimal(&mut message, NOISE_FFT_SIZE as u64);
    Err(Failure { kind: ErrorKind::InvalidData, message })
}

} // verus!
