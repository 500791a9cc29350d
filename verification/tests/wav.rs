use wavbench::audio::first_channel;
use wavbench::error::ErrorKind;
use wavbench::wav::{
    frame_count, int_full_scale, is_wav_path, sample_read_mode, validate_wav_path, SampleFormat,
    SampleReadMode,
};

#[test]
fn recognizes_wav_extensions_in_any_case() {
    assert!(is_wav_path(Some("wav")));
    assert!(is_wav_path(Some("WaV")));
    assert!(!is_wav_path(Some("wave")));
    assert!(!is_wav_path(None));
}

#[test]
fn validates_wav_paths() {
    assert!(validate_wav_path("a.wav", true, true, Some("wav")).is_ok());
    let missing = validate_wav_path("a.wav", false, false, Some("wav")).expect_err("missing");
    assert_eq!(missing.kind, ErrorKind::NotFound);
    assert_eq!(missing.message, "WAV file does not exist: a.wav");
    let dir = validate_wav_path("dir", true, false, None).expect_err("a directory");
    assert_eq!(dir.kind, ErrorKind::InvalidInput);
    assert_eq!(dir.message, "WAV path is not a file: dir");
    let text = validate_wav_path("notes.txt", true, true, Some("txt")).expect_err("not wav");
    assert_eq!(text.message, "Expected a .wav file: notes.txt");
}

#[test]
fn chooses_how_samples_are_read() {
    assert_eq!(sample_read_mode(SampleFormat::Float, 32).expect("float"), SampleReadMode::Float);
    assert_eq!(sample_read_mode(SampleFormat::Int, 8).expect("8 bit"), SampleReadMode::Int16);
    assert_eq!(sample_read_mode(SampleFormat::Int, 16).expect("16 bit"), SampleReadMode::Int16);
    assert_eq!(sample_read_mode(SampleFormat::Int, 24).expect("24 bit"), SampleReadMode::Int32);
    assert_eq!(sample_read_mode(SampleFormat::Int, 32).expect("32 bit"), SampleReadMode::Int32);
    let error = sample_read_mode(SampleFormat::Int, 40).expect_err("40 bit");
    assert_eq!(error.kind, ErrorKind::InvalidInput);
    assert_eq!(error.message, "Unsupported int bit depth: 40");
}

#[test]
fn computes_integer_full_scale() {
    assert_eq!(int_full_scale(1), 0);
    assert_eq!(int_full_scale(16), 32_767);
    assert_eq!(int_full_scale(24), 8_388_607);
    assert_eq!(int_full_scale(32), 2_147_483_647);
}

#[test]
fn counts_frames() {
    assert_eq!(frame_count(10, 2), 5);
    assert_eq!(frame_count(11, 2), 5);
    assert_eq!(frame_count(0x1_0000_0002, 1), 2);
}

#[test]
fn keeps_the_first_channel() {
    assert_eq!(first_channel(&[1, 2, 3, 4, 5, 6, 7], 2), vec![1, 3, 5]);
    assert_eq!(first_channel(&[1, 2, 3], 1), vec![1, 2, 3]);
    assert_eq!(first_channel(&[1.5f32, -1.0], 3), Vec::<f32>::new());
}
