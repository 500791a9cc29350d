//! Channel handling of interleaved audio.
use vstd::prelude::*;

verus! {

/// The samples of the first channel of interleaved audio: one sample per
/// complete frame of `channels` samples (a trailing incomplete frame is
/// dropped). With one channel this is every sample.
pub fn first_channel<T: Copy>(samples: &[T], channels: usize) -> (r: Vec<T>)
    requires
        channels > 0,
    ensures
        r@.len() == (samples@.len() as int) / (channels as int),
        forall|k: int| 0 <= k < r@.len() ==> #[trigger] r@[k] == samples@[k * channels],
{
    let frames = samples.len() / channels;
    let mut r: Vec<T> = Vec::new();
    let mut k: usize = 0;
    while k < frames
        invariant
            channels > 0,
            frames == (samples@.len() as int) / (channels as int),
            k <= frames,
            r@.len() == k,
            forall|j: int| 0 <= j < k ==> #[trigger] r@[j] == samples@[j * channels],
        decreases frames - k,
    {
        let len = samples.len();
        assert(k * channels + channels <= len) by (nonlinear_arith)
            requires
                channels > 0,
                k < frames,
                frames == (len as int) / (channels as int),
        {
            vstd::arithmetic::div_mod::lemma_fundamental_div_mod(len as int, channels as int);
            assert(frames * channels <= len);
            assert((k + 1) * channels <= frames * channels);
        }
        let index = k * channels;
        r.push(samples[index]);
        k = k + 1;
    }
    r
}

} // verus!
