use wavbench::error::ErrorKind;
use wavbench::names::{
    check_same_sample_rate, sine_frequency_token, sweep_frequency_tokens, sweep_name_error,
    twotone_frequency_tokens, twotone_name_error, FrequencyToken,
};

fn hertz(token: &FrequencyToken) -> Option<f32> {
    let value = token.number.parse::<f32>().ok()?;
    Some(if token.kilo { value * 1000.0 } else { value })
}

fn sine_frequency(name: &str) -> Option<f32> {
    hertz(&sine_frequency_token(name)?)
}

fn sweep_range(name: &str) -> Option<(f32, f32)> {
    let (start, end) = sweep_frequency_tokens(name)?;
    Some((hertz(&start)?, hertz(&end)?))
}

fn twotone_pair(name: &str) -> Option<(f32, f32)> {
    let (first, second) = twotone_frequency_tokens(name)?;
    let (a, b) = (hertz(&first)?, hertz(&second)?);
    Some(if b < a { (b, a) } else { (a, b) })
}

#[test]
fn parses_frequency_from_generated_sine_name() {
    assert_eq!(sine_frequency("sine_1000_-24.wav"), Some(1000.0));
    assert_eq!(sine_frequency("sine_5k_-24.wav"), Some(5000.0));
    assert_eq!(sine_frequency("white_noise.wav"), None);
}

#[test]
fn parses_generated_sweep_name() {
    assert_eq!(sweep_range("sweep_20_20k_-24.wav"), Some((20.0, 20_000.0)));
    assert_eq!(sweep_range("sweep_20_20000_-24.wav"), Some((20.0, 20_000.0)));
    assert_eq!(sweep_range("sine_1000_-24.wav"), None);
}

#[test]
fn parses_twotone_frequencies_from_name() {
    assert_eq!(twotone_pair("twotone_440_660_-24.wav"), Some((440.0, 660.0)));
    assert_eq!(twotone_pair("two_tone_700_1900.wav"), Some((700.0, 1900.0)));
    assert_eq!(twotone_pair("sine_1000_-24.wav"), None);
}

#[test]
fn tokens_keep_units_apart_from_numbers() {
    let token = sine_frequency_token("sine_2.5k").expect("a sine name");
    assert_eq!(token.number, "2.5");
    assert!(token.kilo);
    let (start, end) = sweep_frequency_tokens("sweep_1kHz_20000HZ_-6.WAV").expect("a sweep name");
    assert_eq!((start.number.as_str(), start.kilo), ("1", true));
    assert_eq!((end.number.as_str(), end.kilo), ("20000", false));
    assert!(sweep_frequency_tokens("sweep_20.wav").is_none());
    let (first, second) = twotone_frequency_tokens("twotone_1900_700.wav").expect("a two-tone name");
    assert_eq!((first.number.as_str(), second.number.as_str()), ("1900", "700"));
    assert!(twotone_frequency_tokens("two_tone_700.wav").is_none());
    assert!(sine_frequency_token("sine").is_none());
}

#[test]
fn sine_tokens_are_case_sensitive() {
    let token = sine_frequency_token("sine_1KHz").expect("a sine name");
    assert_eq!(token.number, "1KHz");
    assert!(!token.kilo);
}

#[test]
fn refuses_pairs_of_different_sample_rates() {
    assert!(check_same_sample_rate(44_100, 44_100).is_ok());
    let error = check_same_sample_rate(44_100, 48_000).expect_err("rates differ");
    assert_eq!(error.kind, ErrorKind::InvalidInput);
    assert_eq!(error.message, "Input and output sample rates differ: 44100Hz vs 48000Hz");
}

#[test]
fn explains_unreadable_names() {
    let sweep = sweep_name_error("riff.wav");
    assert_eq!(sweep.kind, ErrorKind::InvalidInput);
    assert_eq!(
        sweep.message,
        "Could not determine sweep range from input filename 'riff.wav'. Expected sweep_<start>_<end>_<level>.wav"
    );
    let twotone = twotone_name_error("riff.wav");
    assert_eq!(
        twotone.message,
        "Could not determine two-tone frequencies from input filename 'riff.wav'. Expected twotone_<f1>_<f2>_<level>.wav"
    );
}
