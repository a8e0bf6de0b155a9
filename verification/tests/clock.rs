use daisy_audio::audio::AudioConfig;
use daisy_audio::audio::DividerError;
use daisy_audio::audio::Fs;
use daisy_audio::audio::MasterClockDivider;
use daisy_audio::audio::mclk_div_from_u8;

const ALL_RATES: [Fs; 6] = [
    Fs::Fs8000,
    Fs::Fs32000,
    Fs::Fs44100,
    Fs::Fs48000,
    Fs::Fs88200,
    Fs::Fs96000,
];

#[test]
fn exact_dividers_for_all_rates() {
    for fs in ALL_RATES {
        let rate = fs.rate_hz();
        for quot in [1u32, 2, 3, 4, 16, 63] {
            let kernel = rate * 256 * quot;
            let div = fs.into_clock_divider(kernel).expect("divider in range");
            assert_eq!(div.factor() as u32, quot);
        }
    }
}

#[test]
fn quotient_zero_fails() {
    for fs in ALL_RATES {
        let rate = fs.rate_hz();
        let kernel = rate * 256 - 1;
        assert_eq!(fs.into_clock_divider(kernel), Err(DividerError::OutOfRange));
        assert_eq!(fs.into_clock_divider(0), Err(DividerError::OutOfRange));
    }
}

#[test]
fn quotient_above_range_fails() {
    let kernel = 8000 * 256 * 64;
    assert_eq!(Fs::Fs8000.into_clock_divider(kernel), Err(DividerError::OutOfRange));
}

#[test]
fn truncated_quotient_is_used() {
    // 4 * 48000 * 256 = 49_152_000; a 49.2 MHz kernel clock leaves a
    // remainder, and the truncated quotient 4 is used.
    let div = Fs::Fs48000.into_clock_divider(49_200_000).expect("divider in range");
    assert_eq!(div, MasterClockDivider::Div4);
    assert_eq!(div.factor(), 4);
}

#[test]
fn board_kernel_clock_dividers_for_all_rates() {
    // a 49.2 MHz kernel clock, as the board's clock tree produces it
    let kernel = 49_200_000;
    let expected = [
        (Fs::Fs8000, 24u8),
        (Fs::Fs32000, 6),
        (Fs::Fs44100, 4),
        (Fs::Fs48000, 4),
        (Fs::Fs88200, 2),
        (Fs::Fs96000, 2),
    ];
    for (fs, factor) in expected {
        let div = fs.into_clock_divider(kernel).expect("divider in range");
        assert_eq!(div.factor(), factor);
    }
}

#[test]
fn divider_enumeration_matches_factor() {
    assert_eq!(mclk_div_from_u8(1), MasterClockDivider::Div1);
    assert_eq!(mclk_div_from_u8(4), MasterClockDivider::Div4);
    assert_eq!(mclk_div_from_u8(63), MasterClockDivider::Div63);
    for v in 1u8..=63 {
        assert_eq!(mclk_div_from_u8(v).factor(), v);
    }
}

#[test]
fn default_config_is_48k() {
    let config = AudioConfig::default();
    assert_eq!(config.fs, Fs::Fs48000);
}
