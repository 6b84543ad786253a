//! Playlist rules as the Playlists screen shows and builds them: the label
//! of each rule, and the visual rule builder's fields, nudge buttons and
//! the rules its Add buttons produce.
//!
//! A rating threshold is carried as the text it is shown with (one decimal
//! place); reading and rounding the number is left to the caller.

use crate::captions;
use crate::library::ProtonTier;
use crate::navigation;
use crate::text;
use vstd::prelude::*;

verus! {

/// A playlist rule.
pub enum PlaylistRule {
    Installed,
    NotJunk,
    NotHidden,
    ControllerSupportFull,
    ProtonAtLeast { tier: ProtonTier },
    HltbMaxMinutes { minutes: u32 },
    PlaytimeBetween { min: u32, max: u32 },
    /// `rating_text` is the threshold with one decimal place ("3.5").
    RatingAtLeast { rating_text: String },
    HasGenre { genre: String },
    HasTag { tag: String },
    And(Vec<PlaylistRule>),
    Or(Vec<PlaylistRule>),
    Not(Box<PlaylistRule>),
}

/// The label of an HLTB ceiling: whole hours as "Xh" from an hour on,
/// minutes as "Xm" otherwise.
pub open spec fn hltb_ceiling_text(minutes: nat) -> Seq<char> {
    if minutes >= 60 && minutes % 60 == 0 {
        text::decimal(minutes / 60) + "h"@
    } else {
        text::decimal(minutes) + "m"@
    }
}

/// The label of a rule in the rule list.
pub open spec fn rule_text(rule: PlaylistRule) -> Seq<char> {
    match rule {
        PlaylistRule::Installed => "Installed"@,
        PlaylistRule::NotJunk => "Not junk"@,
        PlaylistRule::NotHidden => "Not hidden"@,
        PlaylistRule::ControllerSupportFull => "Full controller"@,
        PlaylistRule::ProtonAtLeast { tier } => "Proton "@ + navigation::proton_tier_text(tier)
            + "+"@,
        PlaylistRule::HltbMaxMinutes { minutes } => "HLTB ≤ "@ + hltb_ceiling_text(
            minutes as nat,
        ),
        PlaylistRule::PlaytimeBetween { min, max } => "Played "@ + text::decimal(min as nat)
            + "–"@ + text::decimal(max as nat) + "m"@,
        PlaylistRule::RatingAtLeast { rating_text } => "Rating ≥ "@ + rating_text@,
        PlaylistRule::HasGenre { genre } => "Genre: "@ + genre@,
        PlaylistRule::HasTag { tag } => "Tag: "@ + tag@,
        PlaylistRule::And(rules) => "All of ("@ + text::decimal(rules@.len()) + ")"@,
        PlaylistRule::Or(rules) => "Any of ("@ + text::decimal(rules@.len()) + ")"@,
        PlaylistRule::Not(_) => "Not"@,
    }
}

fn append_number(s: &mut String, n: u64)
    ensures
        final(s)@ == old(s)@ + text::decimal(n as nat),
{
    text::push_decimal(s, n);
}

/// The label of a rule in the rule list.
pub fn rule_label(rule: &PlaylistRule) -> (s: String)
    ensures
        s@ == rule_text(*rule),
{
    match rule {
        PlaylistRule::Installed => String::from_str("Installed"),
        PlaylistRule::NotJunk => String::from_str("Not junk"),
        PlaylistRule::NotHidden => String::from_str("Not hidden"),
        PlaylistRule::ControllerSupportFull => String::from_str("Full controller"),
        PlaylistRule::ProtonAtLeast { tier } => {
            let mut s = String::from_str("Proton ");
            s.append(navigation::proton_tier_label(*tier));
            s.append("+");
            s
        },
        PlaylistRule::HltbMaxMinutes { minutes } => {
            let mut s = String::from_str("HLTB ≤ ");
            if *minutes >= 60 && *minutes % 60 == 0 {
                append_number(&mut s, (*minutes / 60) as u64);
                s.append("h");
            } else {
                append_number(&mut s, *minutes as u64);
                s.append("m");
            }
            s
        },
        PlaylistRule::PlaytimeBetween { min, max } => {
            let mut s = String::from_str("Played ");
            append_number(&mut s, *min as u64);
            s.append("–");
            append_number(&mut s, *max as u64);
            s.append("m");
            s
        },
        PlaylistRule::RatingAtLeast { rating_text } => {
            let mut s = String::from_str("Rating ≥ ");
            s.append(rating_text.as_str());
            s
        },
        PlaylistRule::HasGenre { genre } => {
            let mut s = String::from_str("Genre: ");
            s.append(genre.as_str());
            s
        },
        PlaylistRule::HasTag { tag } => {
            let mut s = String::from_str("Tag: ");
            s.append(tag.as_str());
            s
        },
        PlaylistRule::And(rules) => {
            let mut s = String::from_str("All of (");
            append_number(&mut s, rules.len() as u64);
            s.append(")");
            s
        },
        PlaylistRule::Or(rules) => {
            let mut s = String::from_str("Any of (");
            append_number(&mut s, rules.len() as u64);
            s.append(")");
            s
        },
        PlaylistRule::Not(_) => String::from_str("Not"),
    }
}

/// The visual rule builder's fields.
pub struct RuleBuilder {
    pub genre: String,
    pub tag: String,
    /// HLTB ceiling in minutes, as typed.
    pub hltb_max: String,
    pub proton_tier: Option<ProtonTier>,
    /// Playtime range in minutes, as typed.
    pub playtime_min: String,
    pub playtime_max: String,
}

/// The value of a number field, or `default` when it is not a whole number
/// (the field is read as typed, without trimming).
pub open spec fn number_or(field: Seq<char>, default: u32) -> u32 {
    match text::parse_u32_spec(field) {
        Some(v) => v,
        None => default,
    }
}

fn read_number_or(field: &str, default: u32) -> (n: u32)
    ensures
        n == number_or(field@, default),
{
    match text::parse_u32(&text::chars_of(field)) {
        Some(v) => v,
        None => default,
    }
}

/// The message when the playtime range is reversed.
pub open spec fn reversed_range_message() -> Seq<char> {
    "Playtime min must be ≤ max."@
}

impl RuleBuilder {
    /// A blank builder.
    pub fn new() -> (b: Self)
        ensures
            b.genre@.len() == 0,
            b.tag@.len() == 0,
            b.hltb_max@.len() == 0,
            b.proton_tier is None,
            b.playtime_min@.len() == 0,
            b.playtime_max@.len() == 0,
    {
        RuleBuilder {
            genre: String::new(),
            tag: String::new(),
            hltb_max: String::new(),
            proton_tier: None,
            playtime_min: String::new(),
            playtime_max: String::new(),
        }
    }

    /// The "−15" button: the HLTB ceiling (60 when not a number) lowered by
    /// 15 minutes, never below 15.
    pub fn hltb_minus(&mut self)
        ensures
            final(self).hltb_max@ == text::decimal(
                (if number_or(old(self).hltb_max@, 60) >= 30 {
                    number_or(old(self).hltb_max@, 60) - 15
                } else {
                    15
                }) as nat,
            ),
    {
        let n = read_number_or(self.hltb_max.as_str(), 60);
        let m: u32 = if n >= 30 {
            n - 15
        } else {
            15
        };
        self.hltb_max = text::decimal_string(m as u64);
    }

    /// The "+15" button: the HLTB ceiling (60 when not a number) raised by
    /// 15 minutes.
    pub fn hltb_plus(&mut self)
        requires
            number_or(old(self).hltb_max@, 60) + 15 <= u32::MAX,
        ensures
            final(self).hltb_max@ == text::decimal((number_or(old(self).hltb_max@, 60) + 15) as nat),
    {
        let n = read_number_or(self.hltb_max.as_str(), 60);
        self.hltb_max = text::decimal_string((n + 15) as u64);
    }

    /// The "min+10" button: the playtime minimum (0 when not a number)
    /// raised by 10 minutes.
    pub fn playtime_min_plus(&mut self)
        requires
            number_or(old(self).playtime_min@, 0) + 10 <= u32::MAX,
        ensures
            final(self).playtime_min@ == text::decimal(
                (number_or(old(self).playtime_min@, 0) + 10) as nat,
            ),
    {
        let n = read_number_or(self.playtime_min.as_str(), 0);
        self.playtime_min = text::decimal_string((n + 10) as u64);
    }

    /// The "max+30" button: the playtime maximum (60 when not a number)
    /// raised by 30 minutes.
    pub fn playtime_max_plus(&mut self)
        requires
            number_or(old(self).playtime_max@, 60) + 30 <= u32::MAX,
        ensures
            final(self).playtime_max@ == text::decimal(
                (number_or(old(self).playtime_max@, 60) + 30) as nat,
            ),
    {
        let n = read_number_or(self.playtime_max.as_str(), 60);
        self.playtime_max = text::decimal_string((n + 30) as u64);
    }

    /// "Add genre": a genre rule when a genre is chosen.
    pub fn genre_rule(&self) -> (r: Option<PlaylistRule>)
        ensures
            self.genre@.len() == 0 ==> r is None,
            self.genre@.len() > 0 ==> r is Some && r->Some_0 is HasGenre
                && r->Some_0->genre@ == self.genre@,
    {
        if self.genre.as_str().is_empty() {
            None
        } else {
            Some(PlaylistRule::HasGenre { genre: String::from_str(self.genre.as_str()) })
        }
    }

    /// "Add tag": a tag rule when a tag is chosen.
    pub fn tag_rule(&self) -> (r: Option<PlaylistRule>)
        ensures
            self.tag@.len() == 0 ==> r is None,
            self.tag@.len() > 0 ==> r is Some && r->Some_0 is HasTag && r->Some_0->tag@
                == self.tag@,
    {
        if self.tag.as_str().is_empty() {
            None
        } else {
            Some(PlaylistRule::HasTag { tag: String::from_str(self.tag.as_str()) })
        }
    }

    /// "Add HLTB": a ceiling rule when the field is a whole number.
    pub fn hltb_rule(&self) -> (r: Option<PlaylistRule>)
        ensures
            r == match text::parse_u32_spec(self.hltb_max@) {
                Some(m) => Some(PlaylistRule::HltbMaxMinutes { minutes: m }),
                None => None::<PlaylistRule>,
            },
    {
        match text::parse_u32(&text::chars_of(self.hltb_max.as_str())) {
            Some(m) => Some(PlaylistRule::HltbMaxMinutes { minutes: m }),
            None => None,
        }
    }

    /// "Add Proton": a tier rule when a tier is chosen.
    pub fn proton_rule(&self) -> (r: Option<PlaylistRule>)
        ensures
            r == match self.proton_tier {
                Some(t) => Some(PlaylistRule::ProtonAtLeast { tier: t }),
                None => None::<PlaylistRule>,
            },
    {
        match self.proton_tier {
            Some(t) => Some(PlaylistRule::ProtonAtLeast { tier: t }),
            None => None,
        }
    }

    /// "Add playtime": a range rule over the two fields (0 when not a
    /// number), refused when the minimum exceeds the maximum.
    pub fn playtime_rule(&self) -> (r: Result<PlaylistRule, String>)
        ensures
            ({
                let min = number_or(self.playtime_min@, 0);
                let max = number_or(self.playtime_max@, 0);
                if min <= max {
                    r == Ok::<PlaylistRule, String>(PlaylistRule::PlaytimeBetween { min, max })
                } else {
                    r is Err && r->Err_0@ == reversed_range_message()
                }
            }),
    {
        let min = read_number_or(self.playtime_min.as_str(), 0);
        let max = read_number_or(self.playtime_max.as_str(), 0);
        if min <= max {
            Ok(PlaylistRule::PlaytimeBetween { min, max })
        } else {
            Err(String::from_str("Playtime min must be ≤ max."))
        }
    }
}

/// The caption of the builder's genre row.
pub fn genre_caption(genre: &str) -> (s: String)
    ensures
        s@ == "Genre "@ + (if genre@.len() == 0 {
            "None"@
        } else {
            genre@
        }),
{
    let mut s = String::from_str("Genre ");
    if genre.is_empty() {
        s.append(captions::empty_value_label());
    } else {
        s.append(genre);
    }
    s
}

/// The caption of the builder's tag row.
pub fn tag_caption(tag: &str) -> (s: String)
    ensures
        s@ == "Tag "@ + (if tag@.len() == 0 {
            "None"@
        } else {
            tag@
        }),
{
    let mut s = String::from_str("Tag ");
    if tag.is_empty() {
        s.append(captions::empty_value_label());
    } else {
        s.append(tag);
    }
    s
}

/// The caption of the builder's HLTB row.
pub fn hltb_caption(hltb_max: &str) -> (s: String)
    ensures
        s@ == "HLTB max "@ + (if hltb_max@.len() == 0 {
            "None"@
        } else {
            hltb_max@
        }) + "m"@,
{
    let mut s = String::from_str("HLTB max ");
    if hltb_max.is_empty() {
        s.append(captions::empty_value_label());
    } else {
        s.append(hltb_max);
    }
    s.append("m");
    s
}

/// The caption of the builder's playtime row: blank ends show as the
/// empty-value label.
pub fn playtime_caption(min: &str, max: &str) -> (s: String)
    ensures
        s@ == "Playtime "@ + (if text::trimmed(min@).len() == 0 {
            "None"@
        } else {
            min@
        }) + "–"@ + (if text::trimmed(max@).len() == 0 {
            "None"@
        } else {
            max@
        }),
{
    let mut s = String::from_str("Playtime ");
    s.append(captions::empty_or(min));
    s.append("–");
    s.append(captions::empty_or(max));
    s
}

} // verus!
