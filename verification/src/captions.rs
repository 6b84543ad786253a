//! Short texts shown on cards and panels: durations, relative times,
//! reason badges, artwork URLs and whole-number input checks.

use crate::library::ProtonTier;
use crate::navigation;
use crate::text;
use vstd::prelude::*;

verus! {

/// A playtime in minutes as "Xm" below an hour and "Xh Ym" from an hour on.
pub open spec fn playtime_text(minutes: nat) -> Seq<char> {
    if minutes / 60 == 0 {
        text::decimal(minutes % 60) + "m"@
    } else {
        text::decimal(minutes / 60) + "h "@ + text::decimal(minutes % 60) + "m"@
    }
}

/// Formats a playtime given in minutes ("0m", "45m", "2h 5m").
pub fn format_playtime(minutes: u32) -> (s: String)
    ensures
        s@ == playtime_text(minutes as nat),
{
    let hours = minutes / 60;
    let mins = minutes % 60;
    let mut s = String::new();
    if hours == 0 {
        text::push_decimal(&mut s, mins as u64);
        s.append("m");
    } else {
        text::push_decimal(&mut s, hours as u64);
        s.append("h ");
        text::push_decimal(&mut s, mins as u64);
        s.append("m");
    }
    assert(s@ =~= playtime_text(minutes as nat));
    s
}

/// A completion time in seconds as "Xm" below an hour and "Xh Ym" from an
/// hour on (leftover seconds are dropped).
pub open spec fn hltb_text(seconds: nat) -> Seq<char> {
    let hours = seconds / 3600;
    let minutes = (seconds % 3600) / 60;
    if hours > 0 {
        text::decimal(hours) + "h "@ + text::decimal(minutes) + "m"@
    } else {
        text::decimal(minutes) + "m"@
    }
}

/// Formats a completion time given in seconds.
pub fn format_hltb_seconds(seconds: u32) -> (s: String)
    ensures
        s@ == hltb_text(seconds as nat),
{
    let hours = seconds / 3600;
    let minutes = (seconds % 3600) / 60;
    let mut s = String::new();
    if hours > 0 {
        text::push_decimal(&mut s, hours as u64);
        s.append("h ");
        text::push_decimal(&mut s, minutes as u64);
        s.append("m");
    } else {
        text::push_decimal(&mut s, minutes as u64);
        s.append("m");
    }
    assert(s@ =~= hltb_text(seconds as nat));
    s
}

/// `now - then`, clamped to the range of `i64`.
pub open spec fn saturating_diff(now: i64, then: i64) -> int {
    let d = now - then;
    if d > i64::MAX {
        i64::MAX as int
    } else if d < i64::MIN {
        i64::MIN as int
    } else {
        d
    }
}

/// How long ago `unix` was when the clock reads `now`: "unknown" for the
/// zero timestamp, "just now" under a minute (and for future times),
/// minutes under an hour, hours under a day, days beyond.
pub open spec fn relative_time_text(unix: i64, now: i64) -> Seq<char> {
    let diff = saturating_diff(now, unix);
    if unix == 0 {
        "unknown"@
    } else if diff < 60 {
        "just now"@
    } else if diff < 3600 {
        text::decimal((diff / 60) as nat) + " min ago"@
    } else if diff < 86400 {
        let hours = diff / 3600;
        text::decimal(hours as nat) + " hour"@ + (if hours == 1 {
            ""@
        } else {
            "s"@
        }) + " ago"@
    } else {
        let days = diff / 86400;
        text::decimal(days as nat) + " day"@ + (if days == 1 {
            ""@
        } else {
            "s"@
        }) + " ago"@
    }
}

/// Formats a Unix timestamp relative to the clock reading `now` (e.g.
/// "3 days ago").
pub fn relative_time_ago_at(unix: i64, now: i64) -> (s: String)
    ensures
        s@ == relative_time_text(unix, now),
{
    if unix == 0 {
        return String::from_str("unknown");
    }
    let wide: i128 = now as i128 - unix as i128;
    let diff: i64 = if wide > i64::MAX as i128 {
        i64::MAX
    } else if wide < i64::MIN as i128 {
        i64::MIN
    } else {
        wide as i64
    };
    assert(diff == saturating_diff(now, unix));
    let mut s = String::new();
    if diff < 60 {
        s.append("just now");
    } else if diff < 3600 {
        text::push_decimal(&mut s, (diff / 60) as u64);
        s.append(" min ago");
    } else if diff < 86400 {
        let hours = diff / 3600;
        text::push_decimal(&mut s, hours as u64);
        s.append(" hour");
        if hours != 1 {
            s.append("s");
        } else {
            s.append("");
        }
        s.append(" ago");
    } else {
        let days = diff / 86400;
        text::push_decimal(&mut s, days as u64);
        s.append(" day");
        if days != 1 {
            s.append("s");
        } else {
            s.append("");
        }
        s.append(" ago");
    }
    assert(s@ =~= relative_time_text(unix, now));
    s
}

/// The Steam CDN portrait poster of an app.
pub open spec fn poster_uri(app_id: nat) -> Seq<char> {
    "https://cdn.cloudflare.steamstatic.com/steam/apps/"@ + text::decimal(app_id)
        + "/library_600x900.jpg"@
}

/// The Steam CDN landscape header capsule of an app.
pub open spec fn capsule_uri(app_id: nat) -> Seq<char> {
    "https://cdn.cloudflare.steamstatic.com/steam/apps/"@ + text::decimal(app_id) + "/header.jpg"@
}

/// URL of an app's portrait poster art.
pub fn steam_poster_uri(app_id: u32) -> (s: String)
    ensures
        s@ == poster_uri(app_id as nat),
{
    let mut s = String::from_str("https://cdn.cloudflare.steamstatic.com/steam/apps/");
    text::push_decimal(&mut s, app_id as u64);
    s.append("/library_600x900.jpg");
    assert(s@ =~= poster_uri(app_id as nat));
    s
}

/// URL of an app's landscape header capsule, used by the Library cards.
pub fn steam_capsule_uri(app_id: u32) -> (s: String)
    ensures
        s@ == capsule_uri(app_id as nat),
{
    let mut s = String::from_str("https://cdn.cloudflare.steamstatic.com/steam/apps/");
    text::push_decimal(&mut s, app_id as u64);
    s.append("/header.jpg");
    assert(s@ =~= capsule_uri(app_id as nat));
    s
}

/// The label shown for an empty value.
pub fn empty_value_label() -> (s: &'static str)
    ensures
        s@ == "None"@,
{
    "None"
}

/// A field's value for display: the empty-value label when it is blank
/// (only whitespace), the value itself otherwise.
pub fn empty_or(value: &str) -> (s: &str)
    ensures
        s@ == (if text::trimmed(value@).len() == 0 {
            "None"@
        } else {
            value@
        }),
{
    let t = text::trim_chars(&text::chars_of(value));
    if t.len() == 0 {
        empty_value_label()
    } else {
        value
    }
}

/// A ProtonDB tier for display: its name, or the empty-value label when
/// there is none.
pub fn this_tier_label(tier: Option<ProtonTier>) -> (s: String)
    ensures
        s@ == match tier {
            Some(t) => navigation::proton_tier_text(t),
            None => "None"@,
        },
{
    match tier {
        Some(t) => String::from_str(navigation::proton_tier_label(t)),
        None => String::from_str(empty_value_label()),
    }
}

/// `s` with every `from` character replaced by `to`.
pub open spec fn replace_char(s: Seq<char>, from: char, to: char) -> Seq<char> {
    s.map_values(|c: char| if c == from { to } else { c })
}

/// The text of a reason badge: the description, or the code with
/// underscores turned into spaces when the description is blank; longer
/// than 24 characters it is cut to 23 followed by an ellipsis.
pub open spec fn reason_badge_text(code: Seq<char>, description: Seq<char>) -> Seq<char> {
    let raw = if text::trimmed(description).len() == 0 {
        replace_char(code, '_', ' ')
    } else {
        description
    };
    if raw.len() > 24 {
        raw.take(23).push('…')
    } else {
        raw
    }
}

/// Label for a recommendation or discovery reason badge.
pub fn reason_badge_label(code: &str, description: &str) -> (s: String)
    ensures
        s@ == reason_badge_text(code@, description@),
{
    let desc = text::chars_of(description);
    let trimmed = text::trim_chars(&desc);
    let mut raw: Vec<char> = Vec::new();
    if trimmed.len() == 0 {
        let code_chars = text::chars_of(code);
        let mut i: usize = 0;
        while i < code_chars.len()
            invariant
                i <= code_chars.len(),
                code_chars@ == code@,
                raw@ == replace_char(code@.take(i as int), '_', ' '),
            decreases code_chars.len() - i,
        {
            let c = code_chars[i];
            if c == '_' {
                raw.push(' ');
            } else {
                raw.push(c);
            }
            i = i + 1;
            assert(raw@ =~= replace_char(code@.take(i as int), '_', ' '));
        }
        assert(code@.take(code_chars.len() as int) =~= code@);
    } else {
        raw = desc;
    }
    if raw.len() > 24 {
        let mut cut = text::sub_chars(&raw, 0, 23);
        cut.push('…');
        assert(cut@ =~= raw@.take(23).push('…'));
        text::string_of(&cut)
    } else {
        text::string_of(&raw)
    }
}

/// The message for a field that is not a whole number.
pub open spec fn whole_number_message(label: Seq<char>) -> Seq<char> {
    label + " must be a whole number."@
}

fn whole_number_error(label: &str) -> (m: String)
    ensures
        m@ == whole_number_message(label@),
{
    let mut m = String::from_str(label);
    m.append(" must be a whole number.");
    m
}

/// Parses a required whole-number field (surrounding whitespace ignored).
pub fn parse_required(label: &str, input: &str) -> (r: Result<u32, String>)
    ensures
        match text::parse_u32_spec(text::trimmed(input@)) {
            Some(v) => r == Ok::<u32, String>(v),
            None => r is Err && r->Err_0@ == whole_number_message(label@),
        },
{
    let t = text::trim_chars(&text::chars_of(input));
    match text::parse_u32(&t) {
        Some(v) => Ok(v),
        None => Err(whole_number_error(label)),
    }
}

/// Parses a required whole-number count field (surrounding whitespace
/// ignored), as large as a `usize` holds.
pub fn parse_required_count(label: &str, input: &str) -> (r: Result<usize, String>)
    ensures
        match text::parse_usize_spec(text::trimmed(input@)) {
            Some(v) => r == Ok::<usize, String>(v),
            None => r is Err && r->Err_0@ == whole_number_message(label@),
        },
{
    let t = text::trim_chars(&text::chars_of(input));
    match text::parse_usize(&t) {
        Some(v) => Ok(v),
        None => Err(whole_number_error(label)),
    }
}

/// Parses an optional whole-number field: blank gives `None`.
pub fn parse_optional(label: &str, input: &str) -> (r: Result<Option<u32>, String>)
    ensures
        text::trimmed(input@).len() == 0 ==> r == Ok::<Option<u32>, String>(None),
        text::trimmed(input@).len() != 0 ==> match text::parse_u32_spec(text::trimmed(input@)) {
            Some(v) => r == Ok::<Option<u32>, String>(Some(v)),
            None => r is Err && r->Err_0@ == whole_number_message(label@),
        },
{
    let t = text::trim_chars(&text::chars_of(input));
    if t.len() == 0 {
        return Ok(None);
    }
    match text::parse_u32(&t) {
        Some(v) => Ok(Some(v)),
        None => Err(whole_number_error(label)),
    }
}

} // verus!
