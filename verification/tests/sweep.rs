use wavbench::error::ErrorKind;
use wavbench::sweep::{
    aligned_ranges, convolution_fft_size, max_delay_samples, next_power_of_two,
    response_fft_size, search_window, u32_as_f32_value, window_samples,
};

#[test]
fn finds_the_next_power_of_two() {
    for n in [0usize, 1, 2, 3, 5, 1000, 4096, 4097, 0x4000_0001, 0x8000_0000] {
        assert_eq!(next_power_of_two(n), n.next_power_of_two());
    }
    assert_eq!(next_power_of_two(5), 8);
}

#[test]
fn sizes_fft_buffers() {
    assert_eq!(convolution_fft_size(100, 29), 128);
    assert_eq!(convolution_fft_size(1, 1), 1);
    assert_eq!(response_fft_size(100, 200), 4096);
    assert_eq!(response_fft_size(5000, 3000), 8192);
}

#[test]
fn clips_the_search_window() {
    assert_eq!(search_window(100, 30, 1000), (70, 131));
    assert_eq!(search_window(10, 30, 1000), (0, 41));
    assert_eq!(search_window(990, 30, 1000), (960, 1000));
}

#[test]
fn cuts_windows_with_fill_outside() {
    let samples = [1, 2, 3, 4];
    assert_eq!(window_samples(&samples, -2, 5, 0), vec![0, 0, 1, 2, 3]);
    assert_eq!(window_samples(&samples, 2, 4, 9), vec![3, 4, 9, 9]);
    assert_eq!(window_samples(&samples, 0, 0, 9), Vec::<i32>::new());
}

#[test]
fn converts_sample_rates_as_f32_does() {
    for x in [0u32, 1, 44_100, 48_000, 16_777_216, 16_777_217, 16_777_219, 0x7fff_ffff, u32::MAX] {
        assert_eq!(u32_as_f32_value(x), x as f32 as u64);
    }
    assert_eq!(max_delay_samples(44_100), 88_200);
    assert_eq!(max_delay_samples(48_000), (2.0 * 48_000u32 as f32).round() as usize);
}

#[test]
fn aligns_input_and_output_ranges() {
    assert_eq!(aligned_ranges(1000, 1000, 10, 100, 900).expect("overlap"), (100, 900, 110, 910));
    assert_eq!(aligned_ranges(1000, 950, 100, 0, 1000).expect("overlap"), (0, 850, 100, 950));
    assert_eq!(aligned_ranges(1000, 1000, -50, 0, 1000).expect("overlap"), (50, 1000, 0, 950));
    let error = aligned_ranges(100, 100, 200, 0, 100).expect_err("no overlap");
    assert_eq!(error.kind, ErrorKind::InvalidData);
    assert_eq!(error.message, "Input and output do not overlap after delay compensation");
}
