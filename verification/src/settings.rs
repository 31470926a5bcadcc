//! The session's tunable settings.
//!
//! The engine reads these as fractions and pixel measures; the rules keep
//! them as integers in milli-units (one thousandth of the engine's unit), so
//! a value of 500 stands for one half. Three presets set every cosmetic knob
//! at once; the sound switch, the volume and the fullscreen flag belong to
//! the player and are left alone by the presets.

use vstd::prelude::*;

verus! {

/// How rich the cosmetic effects are.
#[derive(Clone, Copy, PartialEq, Eq, Structural, Debug)]
pub enum VisualEffectsLevel {
    Low,
    Normal,
    High,
}

/// Every tunable of a session, in milli-units.
#[derive(Clone, Copy, PartialEq, Eq, Structural, Debug)]
pub struct Settings {
    pub volume_milli: u32,
    pub sound_enabled: bool,
    pub glow_intensity_milli: u32,
    pub glow_speed_milli: u32,
    pub pulse_magnitude_milli: u32,
    pub pulse_speed_milli: u32,
    pub color_speed_milli: u32,
    pub background_animation_speed_milli: u32,
    pub background_strip_count: u32,
    pub background_saturation_milli: u32,
    pub background_brightness_milli: u32,
    pub explosion_intensity_milli: u32,
    pub explosion_particle_speed_milli: u32,
    pub explosion_particle_size_milli: u32,
    pub explosion_particle_count_milli: u32,
    pub explosion_particle_lifetime_milli: u32,
    pub screen_shake_intensity_milli: u32,
    pub screen_shake_decay_milli: u32,
    pub is_fullscreen: bool,
    pub visual_effects: VisualEffectsLevel,
    pub ball_bounciness_milli: u32,
    pub ball_friction_milli: u32,
}

/// The settings a session starts with.
pub open spec fn default_settings_spec() -> Settings {
    Settings {
        volume_milli: 500,
        sound_enabled: true,
        glow_intensity_milli: 50,
        glow_speed_milli: 200,
        pulse_magnitude_milli: 20,
        pulse_speed_milli: 200,
        color_speed_milli: 150,
        background_animation_speed_milli: 500,
        background_strip_count: 10,
        background_saturation_milli: 1000,
        background_brightness_milli: 500,
        explosion_intensity_milli: 500,
        explosion_particle_speed_milli: 350000,
        explosion_particle_size_milli: 4000,
        explosion_particle_count_milli: 15000,
        explosion_particle_lifetime_milli: 400,
        screen_shake_intensity_milli: 500,
        screen_shake_decay_milli: 3000,
        is_fullscreen: false,
        visual_effects: VisualEffectsLevel::Normal,
        ball_bounciness_milli: 500,
        ball_friction_milli: 500,
    }
}

/// The given settings with every cosmetic knob turned down: subtle glow and
/// pulse, slow muted background, small short-lived explosions, minimal
/// shake, duller physics. The player's sound, volume and fullscreen choices
/// stay.
pub open spec fn low_preset_spec(s: Settings) -> Settings {
    Settings {
        glow_intensity_milli: 10,
        pulse_magnitude_milli: 5,
        color_speed_milli: 50,
        background_animation_speed_milli: 100,
        background_strip_count: 5,
        background_saturation_milli: 500,
        background_brightness_milli: 300,
        explosion_intensity_milli: 200,
        explosion_particle_speed_milli: 150000,
        explosion_particle_size_milli: 2000,
        explosion_particle_count_milli: 8000,
        explosion_particle_lifetime_milli: 200,
        screen_shake_intensity_milli: 200,
        screen_shake_decay_milli: 4000,
        visual_effects: VisualEffectsLevel::Low,
        ball_bounciness_milli: 200,
        ball_friction_milli: 700,
        ..s
    }
}

/// The given settings with every cosmetic knob at its everyday value.
pub open spec fn normal_preset_spec(s: Settings) -> Settings {
    Settings {
        glow_intensity_milli: 50,
        pulse_magnitude_milli: 20,
        color_speed_milli: 150,
        background_animation_speed_milli: 500,
        background_strip_count: 10,
        background_saturation_milli: 1000,
        background_brightness_milli: 500,
        explosion_intensity_milli: 500,
        explosion_particle_speed_milli: 350000,
        explosion_particle_size_milli: 4000,
        explosion_particle_count_milli: 15000,
        explosion_particle_lifetime_milli: 400,
        screen_shake_intensity_milli: 500,
        screen_shake_decay_milli: 3000,
        visual_effects: VisualEffectsLevel::Normal,
        ball_bounciness_milli: 300,
        ball_friction_milli: 500,
        ..s
    }
}

/// The given settings with the loud knobs up: fast colour cycling, many
/// strips, massive long-lived explosions, extreme slow-fading shake, bouncy
/// low-friction physics — while glow and pulse stay subtle and the
/// background slow.
pub open spec fn high_preset_spec(s: Settings) -> Settings {
    Settings {
        glow_intensity_milli: 20,
        pulse_magnitude_milli: 8,
        color_speed_milli: 2000,
        background_animation_speed_milli: 100,
        background_strip_count: 40,
        background_saturation_milli: 1200,
        background_brightness_milli: 800,
        explosion_intensity_milli: 2000,
        explosion_particle_speed_milli: 400000,
        explosion_particle_size_milli: 8000,
        explosion_particle_count_milli: 25000,
        explosion_particle_lifetime_milli: 800,
        screen_shake_intensity_milli: 5000,
        screen_shake_decay_milli: 1000,
        visual_effects: VisualEffectsLevel::High,
        ball_bounciness_milli: 400,
        ball_friction_milli: 200,
        ..s
    }
}

impl Settings {
    /// Turn every cosmetic knob down.
    pub fn apply_low_preset(&mut self)
        ensures
            *final(self) == low_preset_spec(*old(self)),
    {
        self.glow_intensity_milli = 10;
        self.pulse_magnitude_milli = 5;
        self.color_speed_milli = 50;
        self.background_animation_speed_milli = 100;
        self.background_strip_count = 5;
        self.background_saturation_milli = 500;
        self.background_brightness_milli = 300;
        self.explosion_intensity_milli = 200;
        self.explosion_particle_speed_milli = 150000;
        self.explosion_particle_size_milli = 2000;
        self.explosion_particle_count_milli = 8000;
        self.explosion_particle_lifetime_milli = 200;
        self.screen_shake_intensity_milli = 200;
        self.screen_shake_decay_milli = 4000;
        self.visual_effects = VisualEffectsLevel::Low;
        self.ball_bounciness_milli = 200;
        self.ball_friction_milli = 700;
    }

    /// Put every cosmetic knob back to its everyday value.
    pub fn apply_normal_preset(&mut self)
        ensures
            *final(self) == normal_preset_spec(*old(self)),
    {
        self.glow_intensity_milli = 50;
        self.pulse_magnitude_milli = 20;
        self.color_speed_milli = 150;
        self.background_animation_speed_milli = 500;
        self.background_strip_count = 10;
        self.background_saturation_milli = 1000;
        self.background_brightness_milli = 500;
        self.explosion_intensity_milli = 500;
        self.explosion_particle_speed_milli = 350000;
        self.explosion_particle_size_milli = 4000;
        self.explosion_particle_count_milli = 15000;
        self.explosion_particle_lifetime_milli = 400;
        self.screen_shake_intensity_milli = 500;
        self.screen_shake_decay_milli = 3000;
        self.visual_effects = VisualEffectsLevel::Normal;
        self.ball_bounciness_milli = 300;
        self.ball_friction_milli = 500;
    }

    /// Turn the loud knobs up.
    pub fn apply_high_preset(&mut self)
        ensures
            *final(self) == high_preset_spec(*old(self)),
    {
        self.glow_intensity_milli = 20;
        self.pulse_magnitude_milli = 8;
        self.color_speed_milli = 2000;
        self.background_animation_speed_milli = 100;
        self.background_strip_count = 40;
        self.background_saturation_milli = 1200;
        self.background_brightness_milli = 800;
        self.explosion_intensity_milli = 2000;
        self.explosion_particle_speed_milli = 400000;
        self.explosion_particle_size_milli = 8000;
        self.explosion_particle_count_milli = 25000;
        self.explosion_particle_lifetime_milli = 800;
        self.screen_shake_intensity_milli = 5000;
        self.screen_shake_decay_milli = 1000;
        self.visual_effects = VisualEffectsLevel::High;
        self.ball_bounciness_milli = 400;
        self.ball_friction_milli = 200;
    }

    /// Flip the sound switch; every other setting stays.
    pub fn toggle_sound(&mut self)
        ensures
            *final(self) == (Settings { sound_enabled: !old(self).sound_enabled, ..*old(self) }),
    {
        self.sound_enabled = !self.sound_enabled;
    }

    /// The presets a player can pick between, applied by name.
    pub fn apply_preset(&mut self, level: VisualEffectsLevel)
        ensures
            *final(self) == match level {
                VisualEffectsLevel::Low => low_preset_spec(*old(self)),
                VisualEffectsLevel::Normal => normal_preset_spec(*old(self)),
                VisualEffectsLevel::High => high_preset_spec(*old(self)),
            },
            final(self).visual_effects == level,
    {
        match level {
            VisualEffectsLevel::Low => self.apply_low_preset(),
            VisualEffectsLevel::Normal => self.apply_normal_preset(),
            VisualEffectsLevel::High => self.apply_high_preset(),
        }
    }
}

impl Default for Settings {
    /// The settings a session starts with.
    fn default() -> (s: Settings)
        ensures
            s == default_settings_spec(),
    {
        Settings {
            volume_milli: 500,
            sound_enabled: true,
            glow_intensity_milli: 50,
            glow_speed_milli: 200,
            pulse_magnitude_milli: 20,
            pulse_speed_milli: 200,
            color_speed_milli: 150,
            background_animation_speed_milli: 500,
            background_strip_count: 10,
            background_saturation_milli: 1000,
            background_brightness_milli: 500,
            explosion_intensity_milli: 500,
            explosion_particle_speed_milli: 350000,
            explosion_particle_size_milli: 4000,
            explosion_particle_count_milli: 15000,
            explosion_particle_lifetime_milli: 400,
            screen_shake_intensity_milli: 500,
            screen_shake_decay_milli: 3000,
            is_fullscreen: false,
            visual_effects: VisualEffectsLevel::Normal,
            ball_bounciness_milli: 500,
            ball_friction_milli: 500,
        }
    }
}

} // verus!
