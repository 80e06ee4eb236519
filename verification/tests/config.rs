use sherpa_rs::config::{
    get_default_provider, Platform, FEATURE_DIM, MAX_ACTIVE_PATHS, RULE1_MIN_TRAILING_SILENCE,
    RULE2_MIN_TRAILING_SILENCE, RULE3_MIN_UTTERANCE_LENGTH, SAMPLE_RATE,
};

#[test]
fn the_best_provider_is_a_function_of_the_platform() {
    let name = |cuda, macos, directml| get_default_provider(Platform { cuda, macos, directml });
    assert_eq!(name(false, false, false), "cpu");
    assert_eq!(name(false, false, true), "directml");
    assert_eq!(name(false, true, false), "coreml");
    assert_eq!(name(false, true, true), "coreml");
    assert_eq!(name(true, false, false), "cuda");
    assert_eq!(name(true, false, true), "cuda");
    assert_eq!(name(true, true, false), "cuda");
    assert_eq!(name(true, true, true), "cuda");
}

#[test]
fn the_fixed_settings_are_the_numbers_they_stand_for() {
    assert_eq!(SAMPLE_RATE, 16000);
    assert_eq!(FEATURE_DIM, 80);
    assert_eq!(MAX_ACTIVE_PATHS, 4);
    assert_eq!(RULE1_MIN_TRAILING_SILENCE, 2.4f32.to_bits());
    assert_eq!(RULE2_MIN_TRAILING_SILENCE, 1.2f32.to_bits());
    assert_eq!(RULE3_MIN_UTTERANCE_LENGTH, 300f32.to_bits());
}
