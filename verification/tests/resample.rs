use audio_engine::tts::resample::resample_linear;

fn mix(a: f32, b: f32, fraction: f32) -> f32 {
    a * (1.0 - fraction) + b * fraction
}

#[test]
fn doubling_the_rate_interpolates_between_samples() {
    let grid = [(0usize, 0.0f32), (0, 0.5), (1, 0.0), (1, 0.5)];
    let out = resample_linear(&[0.0f32, 1.0], 24000, 48000, &grid, mix);
    assert_eq!(out, vec![0.0, 0.5, 1.0, 1.0]);
}

#[test]
fn positions_past_the_end_hold_the_last_sample() {
    let grid = [(2usize, 0.25f32), (9, 0.0)];
    let out = resample_linear(&[1.0f32, 2.0, 3.0], 48000, 44100, &grid, mix);
    assert_eq!(out, vec![3.0, 3.0]);
}

#[test]
fn audio_at_the_right_rate_is_returned_as_it_is() {
    let grid = [(0usize, 0.5f32)];
    assert_eq!(resample_linear(&[0.25f32, -0.5], 48000, 48000, &grid, mix), vec![0.25, -0.5]);
}

#[test]
fn empty_audio_stays_empty() {
    let grid = [(0usize, 0.5f32)];
    assert!(resample_linear(&[], 8000, 48000, &grid, mix).is_empty());
}
