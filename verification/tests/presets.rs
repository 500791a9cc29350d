use wavbench::presets::{
    preset_at, preset_name, presets, select_presets, SignalGroup, SignalSpec, PRESET_COUNT,
};

const MINIMAL_SET: &[&str] = &[
    "sine_1000_-36.wav",
    "sine_1000_-30.wav",
    "sine_1000_-24.wav",
    "sine_1000_-18.wav",
    "sine_1000_-12.wav",
    "sine_1000_-6.wav",
    "sine_100_-24.wav",
    "sine_100_-12.wav",
    "sine_5000_-24.wav",
    "sweep_20_20k_-24.wav",
    "sweep_20_20k_-6.wav",
    "two_tone_700_1900.wav",
    "pink_noise.wav",
    "white_noise.wav",
];

#[test]
fn all_presets_match_minimal_set() {
    let all = presets();
    let files = all.iter().map(|preset| preset.file_name.as_str()).collect::<Vec<_>>();

    assert_eq!(files, MINIMAL_SET);
}

#[test]
fn selects_sine_group() {
    let presets = select_presets("sine").expect("sine target should be valid");

    assert_eq!(presets.len(), 9);
    assert!(presets.iter().all(|preset| preset.group == SignalGroup::Sine));
}

#[test]
fn selects_exact_preset_with_or_without_extension() {
    let without_extension = select_presets("sine_1000_-36").expect("preset target should be valid");
    let with_extension = select_presets("sine_1000_-36.wav").expect("preset target should be valid");

    assert_eq!(without_extension.len(), 1);
    assert_eq!(without_extension[0].file_name, "sine_1000_-36.wav");
    assert_eq!(with_extension[0].file_name, "sine_1000_-36.wav");
}

#[test]
fn selects_noise_group() {
    let presets = select_presets("noise").expect("noise target should be valid");

    assert_eq!(presets.len(), 2);
    assert!(presets.iter().all(|preset| preset.group == SignalGroup::Noise));
}

#[test]
fn selects_everything_and_the_other_groups() {
    assert_eq!(select_presets("all").expect("all").len(), PRESET_COUNT);
    assert_eq!(select_presets("all.wav.wav").expect("all with extensions").len(), PRESET_COUNT);
    let sweeps = select_presets("sweep").expect("sweep");
    assert_eq!(sweeps.len(), 2);
    assert!(sweeps.iter().all(|preset| preset.group == SignalGroup::Sweep));
    let two_tone = select_presets("two-tone").expect("two-tone");
    let two_tone_underscore = select_presets("two_tone").expect("two_tone");
    assert_eq!(two_tone.len(), 1);
    assert_eq!(two_tone_underscore.len(), 1);
    assert_eq!(two_tone[0].file_name, "two_tone_700_1900.wav");
}

#[test]
fn every_preset_is_selected_alone_by_its_name() {
    for i in 0..PRESET_COUNT {
        let preset = preset_at(i);
        let name = preset_name(&preset);
        let chosen = select_presets(&name).expect("a preset name should be valid");
        assert_eq!(chosen.len(), 1);
        assert_eq!(chosen[0].file_name, preset.file_name);
    }
}

#[test]
fn rejects_an_unknown_target() {
    let error = select_presets("square.wav").expect_err("square is no preset");
    assert_eq!(error.target(), "square");
    let message = error.message();
    assert!(message.starts_with("Unknown generator target: square\nExpected all, sine, sweep, or one of: sine_1000_-36 sine_1000_-30"));
    assert!(message.ends_with(" two_tone_700_1900 pink_noise white_noise"));
}

#[test]
fn preset_names_drop_the_extension() {
    assert_eq!(preset_name(&preset_at(9)), "sweep_20_20k_-24");
    let sweep = preset_at(9);
    assert_eq!(sweep.spec, SignalSpec::LogSweep { start_hz: 20, end_hz: 20_000 });
    assert_eq!(sweep.peak_dbfs, -24);
    assert_eq!(sweep.duration_secs, 10);
}
