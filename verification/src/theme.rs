//! Light and dark design tokens and the theme mode that selects them.
//!
//! The theme preference is persisted as a single byte: Light is 0, Dark is 1,
//! and any other stored value reads back as Light.

use vstd::prelude::*;

verus! {

/// The visual system in use.
#[derive(Clone, Copy, Debug, PartialEq, Eq, Structural)]
pub enum ThemeMode {
    Light,
    Dark,
}

impl Default for ThemeMode {
    fn default() -> (m: Self)
        ensures
            m == ThemeMode::Light,
    {
        ThemeMode::Light
    }
}

impl ThemeMode {
    /// The other mode.
    pub fn toggle(self) -> (m: Self)
        ensures
            m == (match self {
                ThemeMode::Light => ThemeMode::Dark,
                ThemeMode::Dark => ThemeMode::Light,
            }),
    {
        match self {
            ThemeMode::Light => ThemeMode::Dark,
            ThemeMode::Dark => ThemeMode::Light,
        }
    }

    /// Whether this is the dark mode.
    pub fn is_dark(self) -> (b: bool)
        ensures
            b == (self == ThemeMode::Dark),
    {
        match self {
            ThemeMode::Dark => true,
            ThemeMode::Light => false,
        }
    }

    /// The stored byte for this mode.
    pub fn as_u8(self) -> (v: u8)
        ensures
            v == spec_mode_byte(self),
    {
        match self {
            ThemeMode::Light => 0,
            ThemeMode::Dark => 1,
        }
    }

    /// The mode a stored byte stands for; unknown values give Light.
    pub fn from_u8(v: u8) -> (m: Self)
        ensures
            m == spec_mode_of_byte(v),
    {
        if v == 1 {
            ThemeMode::Dark
        } else {
            ThemeMode::Light
        }
    }
}

/// Light is stored as 0, Dark as 1.
pub open spec fn spec_mode_byte(m: ThemeMode) -> u8 {
    match m {
        ThemeMode::Light => 0,
        ThemeMode::Dark => 1,
    }
}

/// Byte 1 reads as Dark, every other byte as Light.
pub open spec fn spec_mode_of_byte(v: u8) -> ThemeMode {
    if v == 1 {
        ThemeMode::Dark
    } else {
        ThemeMode::Light
    }
}

/// Every mode survives being stored as a byte and read back.
pub proof fn lemma_mode_byte_round_trip(m: ThemeMode)
    ensures
        spec_mode_of_byte(spec_mode_byte(m)) == m,
{
}

/// Toggling twice gives the mode back, and toggling always changes whether
/// the mode is dark.
pub proof fn lemma_toggle_involutive(m: ThemeMode)
    ensures
        ({
            let t = match m {
                ThemeMode::Light => ThemeMode::Dark,
                ThemeMode::Dark => ThemeMode::Light,
            };
            &&& t != m
            &&& (match t {
                ThemeMode::Light => ThemeMode::Dark,
                ThemeMode::Dark => ThemeMode::Light,
            }) == m
        }),
{
}

/// An sRGB colour with 8 bits per channel.
#[derive(Clone, Copy, Debug, PartialEq, Eq, Structural)]
pub struct Rgb {
    pub r: u8,
    pub g: u8,
    pub b: u8,
}

impl Rgb {
    /// The colour with the given channels.
    pub fn from_rgb(r: u8, g: u8, b: u8) -> (c: Self)
        ensures
            c == (Rgb { r, g, b }),
    {
        Rgb { r, g, b }
    }
}

/// The colour roles shared by every screen.
#[derive(Clone, Copy, Debug, PartialEq, Eq, Structural)]
pub struct Tokens {
    pub canvas: Rgb,
    pub surface: Rgb,
    pub surface_raised: Rgb,
    pub surface_muted: Rgb,
    pub surface_sunken: Rgb,
    pub border: Rgb,
    pub border_soft: Rgb,
    pub text_primary: Rgb,
    pub text_secondary: Rgb,
    pub text_muted: Rgb,
    pub text_inverse: Rgb,
    pub accent: Rgb,
    pub accent_soft: Rgb,
    pub accent_text: Rgb,
    pub success: Rgb,
    pub success_soft: Rgb,
    pub error: Rgb,
    pub error_soft: Rgb,
    pub warning: Rgb,
    pub warning_soft: Rgb,
}

/// The warm light palette with orchid accents.
pub open spec fn spec_light_tokens() -> Tokens {
    Tokens {
        canvas: Rgb { r: 250, g: 249, b: 251 },
        surface: Rgb { r: 255, g: 255, b: 255 },
        surface_raised: Rgb { r: 255, g: 255, b: 255 },
        surface_muted: Rgb { r: 247, g: 244, b: 248 },
        surface_sunken: Rgb { r: 242, g: 239, b: 244 },
        border: Rgb { r: 224, g: 219, b: 227 },
        border_soft: Rgb { r: 234, g: 230, b: 237 },
        text_primary: Rgb { r: 28, g: 25, b: 34 },
        text_secondary: Rgb { r: 103, g: 97, b: 110 },
        text_muted: Rgb { r: 142, g: 136, b: 149 },
        text_inverse: Rgb { r: 255, g: 255, b: 255 },
        accent: Rgb { r: 139, g: 48, b: 153 },
        accent_soft: Rgb { r: 248, g: 237, b: 250 },
        accent_text: Rgb { r: 122, g: 36, b: 137 },
        success: Rgb { r: 46, g: 147, b: 75 },
        success_soft: Rgb { r: 234, g: 247, b: 236 },
        error: Rgb { r: 210, g: 70, b: 76 },
        error_soft: Rgb { r: 253, g: 238, b: 239 },
        warning: Rgb { r: 185, g: 112, b: 20 },
        warning_soft: Rgb { r: 255, g: 246, b: 229 },
    }
}

/// The cool dark palette with a violet accent.
pub open spec fn spec_dark_tokens() -> Tokens {
    Tokens {
        canvas: Rgb { r: 14, g: 16, b: 22 },
        surface: Rgb { r: 18, g: 20, b: 26 },
        surface_raised: Rgb { r: 26, g: 29, b: 36 },
        surface_muted: Rgb { r: 34, g: 38, b: 48 },
        surface_sunken: Rgb { r: 14, g: 16, b: 22 },
        border: Rgb { r: 52, g: 58, b: 70 },
        border_soft: Rgb { r: 42, g: 46, b: 56 },
        text_primary: Rgb { r: 236, g: 238, b: 244 },
        text_secondary: Rgb { r: 158, g: 166, b: 180 },
        text_muted: Rgb { r: 110, g: 118, b: 132 },
        text_inverse: Rgb { r: 18, g: 20, b: 26 },
        accent: Rgb { r: 156, g: 110, b: 220 },
        accent_soft: Rgb { r: 48, g: 36, b: 72 },
        accent_text: Rgb { r: 196, g: 168, b: 255 },
        success: Rgb { r: 72, g: 180, b: 120 },
        success_soft: Rgb { r: 28, g: 52, b: 40 },
        error: Rgb { r: 220, g: 90, b: 90 },
        error_soft: Rgb { r: 56, g: 28, b: 28 },
        warning: Rgb { r: 220, g: 170, b: 70 },
        warning_soft: Rgb { r: 56, g: 44, b: 24 },
    }
}

/// The palette a mode selects.
pub open spec fn spec_tokens_for(mode: ThemeMode) -> Tokens {
    match mode {
        ThemeMode::Light => spec_light_tokens(),
        ThemeMode::Dark => spec_dark_tokens(),
    }
}

impl Tokens {
    /// The light palette.
    pub fn light() -> (t: Self)
        ensures
            t == spec_light_tokens(),
    {
        Tokens {
            canvas: Rgb::from_rgb(250, 249, 251),
            surface: Rgb::from_rgb(255, 255, 255),
            surface_raised: Rgb::from_rgb(255, 255, 255),
            surface_muted: Rgb::from_rgb(247, 244, 248),
            surface_sunken: Rgb::from_rgb(242, 239, 244),
            border: Rgb::from_rgb(224, 219, 227),
            border_soft: Rgb::from_rgb(234, 230, 237),
            text_primary: Rgb::from_rgb(28, 25, 34),
            text_secondary: Rgb::from_rgb(103, 97, 110),
            text_muted: Rgb::from_rgb(142, 136, 149),
            text_inverse: Rgb::from_rgb(255, 255, 255),
            accent: Rgb::from_rgb(139, 48, 153),
            accent_soft: Rgb::from_rgb(248, 237, 250),
            accent_text: Rgb::from_rgb(122, 36, 137),
            success: Rgb::from_rgb(46, 147, 75),
            success_soft: Rgb::from_rgb(234, 247, 236),
            error: Rgb::from_rgb(210, 70, 76),
            error_soft: Rgb::from_rgb(253, 238, 239),
            warning: Rgb::from_rgb(185, 112, 20),
            warning_soft: Rgb::from_rgb(255, 246, 229),
        }
    }

    /// The dark palette.
    pub fn dark() -> (t: Self)
        ensures
            t == spec_dark_tokens(),
    {
        Tokens {
            canvas: Rgb::from_rgb(14, 16, 22),
            surface: Rgb::from_rgb(18, 20, 26),
            surface_raised: Rgb::from_rgb(26, 29, 36),
            surface_muted: Rgb::from_rgb(34, 38, 48),
            surface_sunken: Rgb::from_rgb(14, 16, 22),
            border: Rgb::from_rgb(52, 58, 70),
            border_soft: Rgb::from_rgb(42, 46, 56),
            text_primary: Rgb::from_rgb(236, 238, 244),
            text_secondary: Rgb::from_rgb(158, 166, 180),
            text_muted: Rgb::from_rgb(110, 118, 132),
            text_inverse: Rgb::from_rgb(18, 20, 26),
            accent: Rgb::from_rgb(156, 110, 220),
            accent_soft: Rgb::from_rgb(48, 36, 72),
            accent_text: Rgb::from_rgb(196, 168, 255),
            success: Rgb::from_rgb(72, 180, 120),
            success_soft: Rgb::from_rgb(28, 52, 40),
            error: Rgb::from_rgb(220, 90, 90),
            error_soft: Rgb::from_rgb(56, 28, 28),
            warning: Rgb::from_rgb(220, 170, 70),
            warning_soft: Rgb::from_rgb(56, 44, 24),
        }
    }
}

/// The palette of the theme stored as `active` (the byte kept for the
/// active theme): Dark for byte 1, Light otherwise.
pub fn tokens_for_stored(active: u8) -> (t: Tokens)
    ensures
        t == spec_tokens_for(spec_mode_of_byte(active)),
{
    match ThemeMode::from_u8(active) {
        ThemeMode::Dark => Tokens::dark(),
        ThemeMode::Light => Tokens::light(),
    }
}

/// Selecting a mode and reading the palette back through its stored byte
/// gives that mode's palette.
pub proof fn lemma_active_theme_round_trip(mode: ThemeMode)
    ensures
        spec_tokens_for(spec_mode_of_byte(spec_mode_byte(mode))) == spec_tokens_for(mode),
{
}

} // verus!
