use ball_drop::settings::{Settings, VisualEffectsLevel};

#[test]
fn default_settings_are_the_documented_table() {
    let s = Settings::default();
    assert_eq!(s.volume_milli, 500);
    assert!(s.sound_enabled);
    assert_eq!(s.glow_intensity_milli, 50);
    assert_eq!(s.glow_speed_milli, 200);
    assert_eq!(s.pulse_magnitude_milli, 20);
    assert_eq!(s.pulse_speed_milli, 200);
    assert_eq!(s.color_speed_milli, 150);
    assert_eq!(s.background_animation_speed_milli, 500);
    assert_eq!(s.background_strip_count, 10);
    assert_eq!(s.background_saturation_milli, 1000);
    assert_eq!(s.background_brightness_milli, 500);
    assert_eq!(s.explosion_intensity_milli, 500);
    assert_eq!(s.explosion_particle_speed_milli, 350000);
    assert_eq!(s.explosion_particle_size_milli, 4000);
    assert_eq!(s.explosion_particle_count_milli, 15000);
    assert_eq!(s.explosion_particle_lifetime_milli, 400);
    assert_eq!(s.screen_shake_intensity_milli, 500);
    assert_eq!(s.screen_shake_decay_milli, 3000);
    assert!(!s.is_fullscreen);
    assert_eq!(s.visual_effects, VisualEffectsLevel::Normal);
    assert_eq!(s.ball_bounciness_milli, 500);
    assert_eq!(s.ball_friction_milli, 500);
}

#[test]
fn low_preset_turns_the_knobs_down() {
    let mut s = Settings::default();
    s.apply_preset(VisualEffectsLevel::Low);
    assert_eq!(s.visual_effects, VisualEffectsLevel::Low);
    assert_eq!(s.glow_intensity_milli, 10);
    assert_eq!(s.pulse_magnitude_milli, 5);
    assert_eq!(s.color_speed_milli, 50);
    assert_eq!(s.background_strip_count, 5);
    assert_eq!(s.explosion_intensity_milli, 200);
    assert_eq!(s.explosion_particle_speed_milli, 150000);
    assert_eq!(s.explosion_particle_count_milli, 8000);
    assert_eq!(s.screen_shake_intensity_milli, 200);
    assert_eq!(s.screen_shake_decay_milli, 4000);
    assert_eq!(s.ball_bounciness_milli, 200);
    assert_eq!(s.ball_friction_milli, 700);
}

#[test]
fn high_preset_turns_the_loud_knobs_up() {
    let mut s = Settings::default();
    s.apply_preset(VisualEffectsLevel::High);
    assert_eq!(s.visual_effects, VisualEffectsLevel::High);
    assert_eq!(s.color_speed_milli, 2000);
    assert_eq!(s.background_strip_count, 40);
    assert_eq!(s.background_saturation_milli, 1200);
    assert_eq!(s.explosion_intensity_milli, 2000);
    assert_eq!(s.explosion_particle_size_milli, 8000);
    assert_eq!(s.explosion_particle_count_milli, 25000);
    assert_eq!(s.explosion_particle_lifetime_milli, 800);
    assert_eq!(s.screen_shake_intensity_milli, 5000);
    assert_eq!(s.screen_shake_decay_milli, 1000);
    assert_eq!(s.ball_bounciness_milli, 400);
    assert_eq!(s.ball_friction_milli, 200);
    // Glow and pulse stay subtle even on the loud preset.
    assert_eq!(s.glow_intensity_milli, 20);
    assert_eq!(s.pulse_magnitude_milli, 8);
    assert_eq!(s.background_animation_speed_milli, 100);
}

#[test]
fn normal_preset_restores_the_everyday_values() {
    let mut s = Settings::default();
    s.apply_preset(VisualEffectsLevel::High);
    s.apply_preset(VisualEffectsLevel::Normal);
    assert_eq!(s.visual_effects, VisualEffectsLevel::Normal);
    assert_eq!(s.glow_intensity_milli, 50);
    assert_eq!(s.color_speed_milli, 150);
    assert_eq!(s.background_strip_count, 10);
    assert_eq!(s.explosion_particle_count_milli, 15000);
    // The one everyday value the preset sets apart from the session default.
    assert_eq!(s.ball_bounciness_milli, 300);
}

#[test]
fn presets_leave_the_player_choices_alone() {
    let mut s = Settings::default();
    s.toggle_sound();
    s.is_fullscreen = true;
    s.volume_milli = 850;
    for level in [VisualEffectsLevel::Low, VisualEffectsLevel::Normal, VisualEffectsLevel::High] {
        s.apply_preset(level);
        assert!(!s.sound_enabled);
        assert!(s.is_fullscreen);
        assert_eq!(s.volume_milli, 850);
        assert_eq!(s.glow_speed_milli, 200);
        assert_eq!(s.pulse_speed_milli, 200);
    }
}

#[test]
fn sound_toggle_flips_and_flips_back() {
    let mut s = Settings::default();
    assert!(s.sound_enabled);
    s.toggle_sound();
    assert!(!s.sound_enabled);
    s.toggle_sound();
    assert!(s.sound_enabled);
}
