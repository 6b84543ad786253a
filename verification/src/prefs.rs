//! Appearance preferences kept between launches: the theme mode and the
//! reduce-motion switch, each stored as a tiny text file.

use crate::text;
use crate::theme::{self, ThemeMode};
use vstd::prelude::*;

verus! {

/// The reduce-motion preference: when on, every animation helper leaves
/// its element unchanged.
#[derive(Clone, Copy, Debug, PartialEq, Eq, Structural)]
pub struct ReduceMotion(pub bool);

impl Default for ReduceMotion {
    fn default() -> (r: Self)
        ensures
            r == ReduceMotion(false),
    {
        ReduceMotion(false)
    }
}

/// Whether animations are suppressed, given the preference set for the app
/// (none set means animations run).
pub fn reduce_motion_active(pref: Option<&ReduceMotion>) -> (on: bool)
    ensures
        on == (match pref {
            Some(p) => p.0,
            None => false,
        }),
{
    match pref {
        Some(p) => p.0,
        None => false,
    }
}

/// The stored text of the reduce-motion switch: "1" when on, "0" when off.
pub open spec fn reduce_motion_text(on: bool) -> Seq<char> {
    if on {
        "1"@
    } else {
        "0"@
    }
}

/// The text stored for the reduce-motion switch.
pub fn reduce_motion_file_text(on: bool) -> (s: String)
    ensures
        s@ == reduce_motion_text(on),
{
    if on {
        String::from_str("1")
    } else {
        String::from_str("0")
    }
}

/// The switch read back from the stored text: on exactly when the file
/// exists and holds "1" up to surrounding whitespace.
pub open spec fn reduce_motion_of(contents: Option<Seq<char>>) -> bool {
    match contents {
        Some(c) => text::trimmed(c) == "1"@,
        None => false,
    }
}

/// Reads the reduce-motion switch from the stored text, if any.
pub fn reduce_motion_from_file(contents: Option<&str>) -> (on: bool)
    ensures
        on == reduce_motion_of(
            match contents {
                Some(c) => Some(c@),
                None => None,
            },
        ),
{
    match contents {
        Some(c) => {
            let t = text::trim_chars(&text::chars_of(c));
            let same = t.len() == 1 && t[0] == '1';
            proof {
                reveal_strlit("1");
                if same {
                    assert(t@ =~= "1"@);
                } else if t@ == "1"@ {
                    assert(t@[0] == '1');
                }
            }
            same
        },
        None => false,
    }
}

/// The stored text of a theme mode: its byte in decimal.
pub open spec fn theme_text(mode: ThemeMode) -> Seq<char> {
    text::decimal(theme::spec_mode_byte(mode) as nat)
}

/// The text stored for a theme mode.
pub fn theme_file_text(mode: ThemeMode) -> (s: String)
    ensures
        s@ == theme_text(mode),
{
    text::decimal_string(mode.as_u8() as u64)
}

/// The theme read back from the stored text: the mode of the stored byte
/// (a whole number up to 255 once trimmed), Light when there is no file or
/// it holds anything else.
pub open spec fn theme_of(contents: Option<Seq<char>>) -> ThemeMode {
    match contents {
        Some(c) => match text::parse_u32_spec(text::trimmed(c)) {
            Some(v) => if v <= 255 {
                theme::spec_mode_of_byte(v as u8)
            } else {
                ThemeMode::Light
            },
            None => ThemeMode::Light,
        },
        None => ThemeMode::Light,
    }
}

/// Reads the persisted theme mode from the stored text, if any.
pub fn theme_from_file(contents: Option<&str>) -> (mode: ThemeMode)
    ensures
        mode == theme_of(
            match contents {
                Some(c) => Some(c@),
                None => None,
            },
        ),
{
    match contents {
        Some(c) => {
            let t = text::trim_chars(&text::chars_of(c));
            match text::parse_u32(&t) {
                Some(v) => if v <= 255 {
                    ThemeMode::from_u8(v as u8)
                } else {
                    ThemeMode::Light
                },
                None => ThemeMode::Light,
            }
        },
        None => ThemeMode::Light,
    }
}

/// The theme a window opens with: Light in demo mode (which never reads
/// the user's files), otherwise the stored theme.
pub fn startup_theme(ui_demo: bool, stored: Option<&str>) -> (mode: ThemeMode)
    ensures
        mode == (if ui_demo {
            ThemeMode::Light
        } else {
            theme_of(
                match stored {
                    Some(c) => Some(c@),
                    None => None,
                },
            )
        }),
{
    if ui_demo {
        ThemeMode::Light
    } else {
        theme_from_file(stored)
    }
}

proof fn lemma_single_digit_text(d: nat)
    requires
        d < 10,
    ensures
        text::trimmed(text::decimal(d)) == text::decimal(d),
        text::parse_u32_spec(text::decimal(d)) == Some(d as u32),
{
    let s = text::decimal(d);
    assert(s == seq![text::digit_char(d)]);
    assert(!text::is_unicode_whitespace(s[0]));
    assert(s.drop_last().len() == 0);
    assert(text::digits_value(s.drop_last()) == 0);
    assert(text::unsigned_digits(s) == s);
}

/// A theme stored and read back is the same theme.
pub proof fn lemma_theme_round_trip(mode: ThemeMode)
    ensures
        theme_of(Some(theme_text(mode))) == mode,
{
    lemma_single_digit_text(theme::spec_mode_byte(mode) as nat);
}

/// A reduce-motion switch stored and read back is the same setting.
pub proof fn lemma_reduce_motion_round_trip(on: bool)
    ensures
        reduce_motion_of(Some(reduce_motion_text(on))) == on,
{
    lemma_single_digit_text(if on {
        1
    } else {
        0
    });
    reveal_strlit("1");
    reveal_strlit("0");
    assert(text::decimal(1) =~= "1"@);
    assert(text::decimal(0) =~= "0"@);
}

/// The animation id of a width transition: the base id with "-in" when
/// collapsing and "-out" when expanding, so each toggle restarts the
/// animation from the opposite end.
pub fn collapse_animation_id(base_id: &str, collapsed: bool) -> (id: String)
    ensures
        id@ == base_id@ + (if collapsed {
            "-in"@
        } else {
            "-out"@
        }),
{
    let mut id = String::from_str(base_id);
    if collapsed {
        id.append("-in");
    } else {
        id.append("-out");
    }
    id
}

} // verus!
