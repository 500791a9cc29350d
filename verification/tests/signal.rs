use wavbench::presets::{preset_at, presets, SignalSpec, SAMPLE_RATE};
use wavbench::signal::{
    fade_gain_numerator, fade_samples, next_noise_state, noise_states, sample_count, LCG_SEED,
};

#[test]
fn fade_lasts_five_milliseconds() {
    assert_eq!(fade_samples(), 221);
    assert_eq!(fade_samples(), ((44_100f32 * 5.0) / 1000.0).round() as u64);
}

#[test]
fn fade_rises_holds_and_falls() {
    let count = 1000;
    assert_eq!(fade_gain_numerator(0, count), 1);
    assert_eq!(fade_gain_numerator(9, count), 10);
    assert_eq!(fade_gain_numerator(220, count), 221);
    assert_eq!(fade_gain_numerator(500, count), 221);
    assert_eq!(fade_gain_numerator(999, count), 1);
    for index in 0..count {
        assert_eq!(fade_gain_numerator(index, count), fade_gain_numerator(count - 1 - index, count));
    }
    assert_eq!(fade_gain_numerator(0, 1), 1);
}

#[test]
fn renders_expected_duration() {
    let all = presets();
    assert_eq!(sample_count(&all[0]), 3 * SAMPLE_RATE as u64);
}

#[test]
fn renders_sweep_duration() {
    let all = presets();
    let preset = all
        .iter()
        .find(|preset| matches!(preset.spec, SignalSpec::LogSweep { .. }))
        .expect("minimal set should include sweep");

    assert_eq!(sample_count(preset), 10 * SAMPLE_RATE as u64);
}

#[test]
fn counts_samples_from_duration() {
    assert_eq!(sample_count(&preset_at(0)), 3 * 44_100);
    assert_eq!(sample_count(&preset_at(10)), 10 * 44_100);
}

#[test]
fn noise_generator_follows_the_linear_congruence() {
    let mut state = LCG_SEED;
    let states = noise_states(5);
    for value in states.iter() {
        state = state.wrapping_mul(1_664_525).wrapping_add(1_013_904_223);
        assert_eq!(*value, state);
    }
    assert_eq!(next_noise_state(0), 1_013_904_223);
    assert_eq!(next_noise_state(u32::MAX), 1_013_904_223u32.wrapping_sub(1_664_525));
    assert_eq!(noise_states(3)[..], noise_states(5)[..3]);
    assert!(noise_states(0).is_empty());
}
