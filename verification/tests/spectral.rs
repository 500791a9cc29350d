use wavbench::error::ErrorKind;
use wavbench::spectral::{
    check_band_energy_length, check_noise_fft_length, fft_block_starts, BAND_FFT_SIZE,
    BAND_HOP_SIZE, NOISE_FFT_SIZE,
};

#[test]
fn schedules_fft_blocks_while_one_fits() {
    assert_eq!(fft_block_starts(10_000, BAND_FFT_SIZE, BAND_HOP_SIZE), vec![0, 2048, 4096]);
    assert_eq!(fft_block_starts(4096, 4096, 2048), vec![0]);
    assert!(fft_block_starts(4095, 4096, 2048).is_empty());
}

#[test]
fn checks_lengths_before_spectra() {
    assert!(check_band_energy_length(BAND_FFT_SIZE).is_ok());
    let band = check_band_energy_length(100).expect_err("too short");
    assert_eq!(band.kind, ErrorKind::InvalidData);
    assert_eq!(band.message, "Not enough samples for band energy analysis: got 100, need at least 4096");
    assert!(check_noise_fft_length(NOISE_FFT_SIZE).is_ok());
    let noise = check_noise_fft_length(8191).expect_err("too short");
    assert_eq!(noise.message, "Not enough samples for noise FFT analysis: got 8191, need at least 8192");
}
