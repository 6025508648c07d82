use audio_engine::tts::rate::{nearest_supported_rate, SUPPORTED_RATES};

#[test]
fn supported_rates_are_kept() {
    for rate in SUPPORTED_RATES {
        assert_eq!(nearest_supported_rate(rate), rate);
    }
}

#[test]
fn other_rates_go_to_the_closest() {
    assert_eq!(nearest_supported_rate(0), 8000);
    assert_eq!(nearest_supported_rate(12001), 16000);
    assert_eq!(nearest_supported_rate(22050), 24000);
    assert_eq!(nearest_supported_rate(36001), 48000);
    assert_eq!(nearest_supported_rate(44100), 48000);
    assert_eq!(nearest_supported_rate(u32::MAX), 48000);
}

#[test]
fn ties_go_to_the_lower_rate() {
    assert_eq!(nearest_supported_rate(12000), 8000);
    assert_eq!(nearest_supported_rate(20000), 16000);
    assert_eq!(nearest_supported_rate(36000), 24000);
}

#[test]
fn a_higher_target_never_gets_a_lower_rate() {
    let mut last = 0;
    for target in (0..60000).step_by(50) {
        let rate = nearest_supported_rate(target);
        assert!(rate >= last);
        last = rate;
    }
}
