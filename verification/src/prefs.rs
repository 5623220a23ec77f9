//! User interface preferences.
use vstd::prelude::*;

verus! {

#[derive(Clone, Copy, Debug, PartialEq, Eq, Hash, Structural)]
pub enum ThemeMode {
    System,
    Light,
    Dark,
}

/// `font_scale` is the bit pattern of an `f32` factor.
#[derive(Clone, Copy, Debug, PartialEq, Eq, Structural)]
pub struct UiPreferences {
    pub theme_mode: ThemeMode,
    pub font_scale: u32,
    pub reduced_motion: bool,
}

impl UiPreferences {
    /// How long an animation of `default_ms` milliseconds runs: not at all
    /// when reduced motion is asked for.
    pub fn animation_duration_ms(&self, default_ms: u64) -> (r: u64)
        ensures
            r == if self.reduced_motion {
                0
            } else {
                default_ms
            },
    {
        if self.reduced_motion {
            0
        } else {
            default_ms
        }
    }
}

impl Default for UiPreferences {
    /// System theme, unscaled fonts (`font_scale` holds the bits of `1.0`),
    /// full motion.
    fn default() -> (r: UiPreferences)
        ensures
            r == (UiPreferences {
                theme_mode: ThemeMode::System,
                font_scale: 0x3F80_0000,
                reduced_motion: false,
            }),
    {
        UiPreferences { theme_mode: ThemeMode::System, font_scale: 0x3F80_0000, reduced_motion: false }
    }
}

} // verus!
