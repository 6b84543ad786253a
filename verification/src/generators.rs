//! Playlist generators' store slots and the input descriptions that
//! background jobs are fingerprinted with.

use crate::editor::PlaylistDraft;
use crate::navigation::{self, JunkModeChoice};
use crate::text;
use vstd::prelude::*;

verus! {

/// The generator a playlist-store slot belongs to. Each Dynamic template
/// and each editorial Mood has its own slot; Discover has a single one.
pub enum GeneratorIdentity {
    Discover,
    Dynamic { template_id: String },
    Mood { mood_id: String },
}

/// The stable playlist id of a generator's slot.
pub open spec fn slot_id_text(identity: GeneratorIdentity) -> Seq<char> {
    match identity {
        GeneratorIdentity::Discover => "discover"@,
        GeneratorIdentity::Dynamic { template_id } => "dynamic-"@ + template_id@,
        GeneratorIdentity::Mood { mood_id } => "mood-"@ + mood_id@,
    }
}

impl GeneratorIdentity {
    /// The stable, readable playlist id of this generator's slot;
    /// regenerating overwrites the slot.
    pub fn slot_id(&self) -> (id: String)
        ensures
            id@ == slot_id_text(*self),
    {
        match self {
            GeneratorIdentity::Discover => String::from_str("discover"),
            GeneratorIdentity::Dynamic { template_id } => {
                let mut id = String::from_str("dynamic-");
                id.append(template_id.as_str());
                id
            },
            GeneratorIdentity::Mood { mood_id } => {
                let mut id = String::from_str("mood-");
                id.append(mood_id.as_str());
                id
            },
        }
    }
}

/// What tells generator identities apart: the kind (Discover, Dynamic,
/// Mood) and the template or mood id.
pub open spec fn identity_key(identity: GeneratorIdentity) -> (int, Seq<char>) {
    match identity {
        GeneratorIdentity::Discover => (0, Seq::empty()),
        GeneratorIdentity::Dynamic { template_id } => (1, template_id@),
        GeneratorIdentity::Mood { mood_id } => (2, mood_id@),
    }
}

/// Each generator has a slot of its own: different identities never share
/// a playlist id, so regenerating one never overwrites another.
pub proof fn lemma_slot_ids_distinct(a: GeneratorIdentity, b: GeneratorIdentity)
    requires
        identity_key(a) != identity_key(b),
    ensures
        slot_id_text(a) != slot_id_text(b),
{
    reveal_strlit("discover");
    reveal_strlit("dynamic-");
    reveal_strlit("mood-");
    let (x, y) = (slot_id_text(a), slot_id_text(b));
    if identity_key(a).0 != identity_key(b).0 {
        assert(x[0] != y[0] || x[1] != y[1]);
    } else if identity_key(a).0 == 1 {
        let (s, t) = (identity_key(a).1, identity_key(b).1);
        if x == y {
            assert(x.skip(8) =~= s);
            assert(y.skip(8) =~= t);
        }
    } else if identity_key(a).0 == 2 {
        let (s, t) = (identity_key(a).1, identity_key(b).1);
        if x == y {
            assert(x.skip(5) =~= s);
            assert(y.skip(5) =~= t);
        }
    }
}

/// A generator's playlist made ready for its slot: the id becomes the
/// slot's id, so regenerating overwrites the slot; everything else is
/// kept.
pub fn put_in_slot(identity: &GeneratorIdentity, playlist: PlaylistDraft) -> (p: PlaylistDraft)
    ensures
        p.id@ == slot_id_text(*identity),
        p.name == playlist.name,
        p.description == playlist.description,
        p.schema == playlist.schema,
        p.created_by == playlist.created_by,
        p.content == playlist.content,
{
    let mut p = playlist;
    p.id = identity.slot_id();
    p
}

/// Appends `label`, a decimal number, to `s`.
fn push_number(s: &mut String, label: &str, n: u64)
    ensures
        final(s)@ == old(s)@ + label@ + text::decimal(n as nat),
{
    s.append(label);
    text::push_decimal(s, n);
}

/// The input description of a Dynamic generator job.
pub open spec fn dynamic_inputs_text(
    template_id: Seq<char>,
    session_minutes: nat,
    count: nat,
    scan_generation: nat,
) -> Seq<char> {
    "dynamic:"@ + template_id + ":"@ + text::decimal(session_minutes) + ":"@ + text::decimal(count)
        + ":lib="@ + text::decimal(scan_generation)
}

/// Describes a Dynamic generator job's inputs: template, session length,
/// count and library generation.
pub fn dynamic_fp(template_id: &str, session_minutes: u32, count: usize, scan_generation: u64) -> (s:
    String)
    ensures
        s@ == dynamic_inputs_text(
            template_id@,
            session_minutes as nat,
            count as nat,
            scan_generation as nat,
        ),
{
    let mut s = String::from_str("dynamic:");
    s.append(template_id);
    push_number(&mut s, ":", session_minutes as u64);
    push_number(&mut s, ":", count as u64);
    push_number(&mut s, ":lib=", scan_generation);
    assert(s@ =~= dynamic_inputs_text(
        template_id@,
        session_minutes as nat,
        count as nat,
        scan_generation as nat,
    ));
    s
}

/// The input description of a Mood generator job.
pub open spec fn mood_inputs_text(mood_id: Seq<char>, scan_generation: nat) -> Seq<char> {
    "mood:"@ + mood_id + ":lib="@ + text::decimal(scan_generation)
}

/// Describes a Mood generator job's inputs: mood and library generation.
pub fn mood_fp(mood_id: &str, scan_generation: u64) -> (s: String)
    ensures
        s@ == mood_inputs_text(mood_id@, scan_generation as nat),
{
    let mut s = String::from_str("mood:");
    s.append(mood_id);
    push_number(&mut s, ":lib=", scan_generation);
    assert(s@ =~= mood_inputs_text(mood_id@, scan_generation as nat));
    s
}

/// "true" or "false".
pub open spec fn bool_text(b: bool) -> Seq<char> {
    if b {
        "true"@
    } else {
        "false"@
    }
}

/// The Dynamic chooser's current inputs as a job description, when they
/// describe a job: `template_id` is the id of the template the chooser
/// names (`None` when it names none), and the session minutes and count
/// fields must be whole numbers.
pub fn dynamic_current_inputs(
    template_id: Option<&str>,
    session_minutes: &str,
    count: &str,
    scan_generation: u64,
) -> (d: Option<String>)
    ensures
        match (
            template_id,
            text::parse_u32_spec(text::trimmed(session_minutes@)),
            text::parse_usize_spec(text::trimmed(count@)),
        ) {
            (Some(t), Some(m), Some(c)) => d is Some && d->Some_0@ == dynamic_inputs_text(
                t@,
                m as nat,
                c as nat,
                scan_generation as nat,
            ),
            _ => d is None,
        },
{
    let t = match template_id {
        Some(t) => t,
        None => {
            return None;
        },
    };
    let m = match text::parse_u32(&text::trim_chars(&text::chars_of(session_minutes))) {
        Some(m) => m,
        None => {
            return None;
        },
    };
    let c = match text::parse_usize(&text::trim_chars(&text::chars_of(count))) {
        Some(c) => c,
        None => {
            return None;
        },
    };
    Some(dynamic_fp(t, m, c, scan_generation))
}

/// The Mood chooser's current inputs as a job description, when it names a
/// mood (`mood_id`).
pub fn mood_current_inputs(mood_id: Option<&str>, scan_generation: u64) -> (d: Option<String>)
    ensures
        match mood_id {
            Some(m) => d is Some && d->Some_0@ == mood_inputs_text(m@, scan_generation as nat),
            None => d is None,
        },
{
    match mood_id {
        Some(m) => Some(mood_fp(m, scan_generation)),
        None => None,
    }
}

/// The input description of a Junk preview: the junk mode and the library
/// and cache refresh generations, so a rescan or a cache refresh discards
/// a preview in flight.
pub open spec fn junk_preview_inputs_text(
    mode: JunkModeChoice,
    scan_generation: nat,
    refresh_generation: nat,
) -> Seq<char> {
    "junk_preview:"@ + navigation::junk_mode_label(mode) + ":lib="@ + text::decimal(
        scan_generation,
    ) + ":ovr="@ + text::decimal(refresh_generation)
}

/// Describes a Junk preview's inputs.
pub fn junk_preview_fp(mode: JunkModeChoice, scan_generation: u64, refresh_generation: u64) -> (s:
    String)
    ensures
        s@ == junk_preview_inputs_text(mode, scan_generation as nat, refresh_generation as nat),
{
    let mut s = String::from_str("junk_preview:");
    s.append(mode.label());
    push_number(&mut s, ":lib=", scan_generation);
    push_number(&mut s, ":ovr=", refresh_generation);
    assert(s@ =~= junk_preview_inputs_text(mode, scan_generation as nat, refresh_generation as nat));
    s
}

/// The input description of a library scan: Steam directory, account,
/// fixtures directory and offline switch, so changing any of them while a
/// scan runs discards its result.
pub open spec fn scan_inputs_text(
    steam_dir: Seq<char>,
    account: Seq<char>,
    fixtures: Seq<char>,
    offline: bool,
) -> Seq<char> {
    "scan:dir="@ + steam_dir + ":acct="@ + account + ":fix="@ + fixtures + ":offline="@ + bool_text(
        offline,
    )
}

/// Describes a scan's inputs.
pub fn scan_fingerprint(steam_dir: &str, account: &str, fixtures: &str, offline: bool) -> (s:
    String)
    ensures
        s@ == scan_inputs_text(steam_dir@, account@, fixtures@, offline),
{
    let mut s = String::from_str("scan:dir=");
    s.append(steam_dir);
    s.append(":acct=");
    s.append(account);
    s.append(":fix=");
    s.append(fixtures);
    s.append(":offline=");
    if offline {
        s.append("true");
    } else {
        s.append("false");
    }
    assert(s@ =~= scan_inputs_text(steam_dir@, account@, fixtures@, offline));
    s
}

/// The input description of a library prepare: scan generation, cache
/// refresh generation, cache directory and manual-overrides path.
pub open spec fn prepare_inputs_text(
    scan_generation: nat,
    refresh_generation: nat,
    cache_dir: Seq<char>,
    overrides: Seq<char>,
) -> Seq<char> {
    "prepare:scan_gen="@ + text::decimal(scan_generation) + ":gen="@ + text::decimal(
        refresh_generation,
    ) + ":cache="@ + cache_dir + ":ovr="@ + overrides
}

/// Describes a library prepare's inputs.
pub fn prepare_fingerprint_inputs(
    scan_generation: u64,
    refresh_generation: u64,
    cache_dir: &str,
    overrides: &str,
) -> (s: String)
    ensures
        s@ == prepare_inputs_text(
            scan_generation as nat,
            refresh_generation as nat,
            cache_dir@,
            overrides@,
        ),
{
    let mut s = String::new();
    push_number(&mut s, "prepare:scan_gen=", scan_generation);
    push_number(&mut s, ":gen=", refresh_generation);
    s.append(":cache=");
    s.append(cache_dir);
    s.append(":ovr=");
    s.append(overrides);
    assert(s@ =~= prepare_inputs_text(
        scan_generation as nat,
        refresh_generation as nat,
        cache_dir@,
        overrides@,
    ));
    s
}

/// The library prepare inputs differ whenever the scan generation or the
/// cache refresh generation differs, so a new scan result or a cache refresh
/// always invalidates the prepared snapshot's inputs.
pub proof fn lemma_prepare_inputs_track_generations(
    scan_a: nat,
    refresh_a: nat,
    scan_b: nat,
    refresh_b: nat,
    cache_dir: Seq<char>,
    overrides: Seq<char>,
)
    requires
        scan_a != scan_b || refresh_a != refresh_b,
    ensures
        prepare_inputs_text(scan_a, refresh_a, cache_dir, overrides) != prepare_inputs_text(
            scan_b,
            refresh_b,
            cache_dir,
            overrides,
        ),
{
    reveal_strlit(":gen=");
    reveal_strlit(":cache=");
    let pre = "prepare:scan_gen="@;
    let rest = ":cache="@ + cache_dir + ":ovr="@ + overrides;
    let tail_a = ":gen="@ + text::decimal(refresh_a) + rest;
    let tail_b = ":gen="@ + text::decimal(refresh_b) + rest;
    let sa = prepare_inputs_text(scan_a, refresh_a, cache_dir, overrides);
    let sb = prepare_inputs_text(scan_b, refresh_b, cache_dir, overrides);
    assert(sa =~= pre + text::decimal(scan_a) + tail_a);
    assert(sb =~= pre + text::decimal(scan_b) + tail_b);
    if sa == sb {
        assert(tail_a[0] == ':');
        assert(tail_b[0] == ':');
        text::lemma_number_between(pre, scan_a, scan_b, tail_a, tail_b);
        assert(tail_a =~= ":gen="@ + text::decimal(refresh_a) + rest);
        assert(rest[0] == ':');
        text::lemma_number_between(":gen="@, refresh_a, refresh_b, rest, rest);
    }
}

} // verus!
