use wavbench::wav_info::{all_same, compare_wav_info, WavInfo};

const SAMPLE_RATE: u32 = 44_100;

fn info(path: &str, frames: u32) -> WavInfo {
    WavInfo {
        path: path.to_string(),
        sample_rate: SAMPLE_RATE,
        frames,
        total_samples: frames as usize,
        channels: 1,
        bits_per_sample: 32,
    }
}

#[test]
fn compares_matching_files() {
    let first = info("first.wav", 1000);
    let second = info("second.wav", 1000);

    let checks = compare_wav_info(&[first, second]);

    assert!(checks.same_sample_rate);
    assert!(checks.same_sample_count);
}

#[test]
fn detects_sample_count_mismatch() {
    let first = info("first.wav", 1000);
    let second = info("second.wav", 900);

    let checks = compare_wav_info(&[first, second]);

    assert!(!checks.same_sample_count);
}

#[test]
fn detects_sample_rate_mismatch() {
    let first = info("first.wav", 1000);
    let mut second = info("second.wav", 1000);
    second.sample_rate = 48_000;
    let checks = compare_wav_info(&[first, second]);
    assert!(!checks.same_sample_rate);
    assert!(checks.same_sample_count);
}

#[test]
fn a_single_file_or_none_passes() {
    let one = compare_wav_info(&[info("only.wav", 7)]);
    assert!(one.same_sample_rate && one.same_sample_count);
    let none = compare_wav_info(&[]);
    assert!(none.same_sample_rate && none.same_sample_count);
}

#[test]
fn all_same_compares_every_value_with_the_first() {
    assert!(all_same(&vec![]));
    assert!(all_same(&vec![3, 3, 3]));
    assert!(!all_same(&vec![3, 3, 4]));
}
