//! WAV file metadata and the preflight checks run across several files.
use vstd::prelude::*;

verus! {

/// The metadata of a WAV file that the checks compare. (The duration shown
/// next to it is `frames / sample_rate` seconds.)
#[derive(Debug)]
pub struct WavInfo {
    pub path: String,
    pub sample_rate: u32,
    pub frames: u32,
    pub total_samples: usize,
    pub channels: usize,
    pub bits_per_sample: u16,
}

/// Whether a set of files agree on sample rate and on frame count.
#[derive(Clone, Copy, Debug, PartialEq, Eq, Structural)]
pub struct WavInfoChecks {
    pub same_sample_rate: bool,
    pub same_sample_count: bool,
}

/// Every value of `s` is the same.
pub open spec fn all_equal(s: Seq<u32>) -> bool {
    forall|i: int, j: int| 0 <= i < s.len() && 0 <= j < s.len() ==> s[i] == s[j]
}

/// The sample rates of a list of files.
pub open spec fn sample_rates(infos: Seq<WavInfo>) -> Seq<u32> {
    infos.map_values(|info: WavInfo| info.sample_rate)
}

/// The frame counts of a list of files.
pub open spec fn frame_counts(infos: Seq<WavInfo>) -> Seq<u32> {
    infos.map_values(|info: WavInfo| info.frames)
}

/// Whether every value is the one of the first.
pub fn all_same(values: &Vec<u32>) -> (r: bool)
    ensures
        r == all_equal(values@),
{
    if values.len() == 0 {
        return true;
    }
    let first = values[0];
    let mut i: usize = 1;
    while i < values.len()
        invariant
            1 <= i <= values.len(),
            first == values@[0],
            forall|k: int| 0 <= k < i ==> values@[k] == first,
        decreases values.len() - i,
    {
        if values[i] != first {
            assert(!all_equal(values@)) by {
                assert(values@[i as int] != values@[0]);
            }
            return false;
        }
        i = i + 1;
    }
    true
}

/// Checks that the files agree on sample rate and on frame count.
pub fn compare_wav_info(infos: &[WavInfo]) -> (r: WavInfoChecks)
    ensures
        r.same_sample_rate == all_equal(sample_rates(infos@)),
        r.same_sample_count == all_equal(frame_counts(infos@)),
{
    let mut rates: Vec<u32> = Vec::new();
    let mut frames: Vec<u32> = Vec::new();
    let mut i: usize = 0;
    while i < infos.len()
        invariant
            i <= infos.len(),
            rates@ == sample_rates(infos@.take(i as int)),
            frames@ == frame_counts(infos@.take(i as int)),
        decreases infos.len() - i,
    {
        rates.push(infos[i].sample_rate);
        frames.push(infos[i].frames);
        assert(infos@.take(i + 1) =~= infos@.take(i as int).push(infos@[i as int]));
        assert(rates@ =~= sample_rates(infos@.take(i + 1)));
        assert(frames@ =~= frame_counts(infos@.take(i + 1)));
        i = i + 1;
    }
    assert(infos@.take(infos.len() as int) =~= infos@);
    WavInfoChecks { same_sample_rate: all_same(&rates), same_sample_count: all_same(&frames) }
}

/// A single file, or none, always passes both checks.
pub proof fn law_single_file_passes(infos: Seq<WavInfo>)
    requires
        infos.len() <= 1,
    ensures
        all_equal(sample_rates(infos)),
        all_equal(frame_counts(infos)),
{
}

} // verus!
