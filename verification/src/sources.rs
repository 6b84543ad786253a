//! The Data Sources table: display names of enrichment sources, whether
//! their credentials are in place, and whether a refresh may be started.

use crate::text;
use vstd::prelude::*;

verus! {

/// The enrichment sources the table knows by id.
pub open spec fn source_name_text(source_id: Seq<char>) -> Seq<char> {
    if source_id == "igdb"@ {
        "IGDB"@
    } else if source_id == "rawg"@ {
        "RAWG"@
    } else if source_id == "protondb"@ {
        "ProtonDB"@
    } else if source_id == "pcgw"@ {
        "PCGW"@
    } else if source_id == "hltb"@ {
        "HLTB"@
    } else if source_id == "steam-store"@ {
        "Steam Store"@
    } else {
        "Unknown"@
    }
}


/// Human-facing label for an enrichment source id (`igdb` gives `IGDB`).
pub fn source_display_name(source_id: &str) -> (s: &'static str)
    ensures
        s@ == source_name_text(source_id@),
{
    if text::same_text(source_id, "igdb") {
        "IGDB"
    } else if text::same_text(source_id, "rawg") {
        "RAWG"
    } else if text::same_text(source_id, "protondb") {
        "ProtonDB"
    } else if text::same_text(source_id, "pcgw") {
        "PCGW"
    } else if text::same_text(source_id, "hltb") {
        "HLTB"
    } else if text::same_text(source_id, "steam-store") {
        "Steam Store"
    } else {
        "Unknown"
    }
}

/// Credential readiness of a source.
#[derive(Clone, Copy, Debug, PartialEq, Eq, Structural)]
pub enum CredentialSignal {
    /// The source's credentials are present.
    Configured,
    /// The source needs credentials and they are missing.
    Missing,
    /// The source never needs credentials.
    NotRequired,
    /// Credentials are optional for the source.
    Optional,
}

/// The label of a credential signal.
pub open spec fn credential_label(c: CredentialSignal) -> Seq<char> {
    match c {
        CredentialSignal::Configured => "Configured"@,
        CredentialSignal::Missing => "Missing"@,
        CredentialSignal::NotRequired => "None needed"@,
        CredentialSignal::Optional => "Optional"@,
    }
}

impl CredentialSignal {
    /// The label shown in the table.
    pub fn label(self) -> (s: &'static str)
        ensures
            s@ == credential_label(self),
    {
        match self {
            CredentialSignal::Configured => "Configured",
            CredentialSignal::Missing => "Missing",
            CredentialSignal::NotRequired => "None needed",
            CredentialSignal::Optional => "Optional",
        }
    }
}

/// IGDB and RAWG need credentials, HLTB's are optional, every other source
/// needs none.
pub open spec fn credential_signal(source_id: Seq<char>, has_igdb: bool, has_rawg: bool) -> CredentialSignal {
    if source_id == "igdb"@ {
        if has_igdb {
            CredentialSignal::Configured
        } else {
            CredentialSignal::Missing
        }
    } else if source_id == "rawg"@ {
        if has_rawg {
            CredentialSignal::Configured
        } else {
            CredentialSignal::Missing
        }
    } else if source_id == "hltb"@ {
        CredentialSignal::Optional
    } else {
        CredentialSignal::NotRequired
    }
}

/// The credential signal of a source given which credentials are present.
pub fn source_credential_signal(source_id: &str, has_igdb: bool, has_rawg: bool) -> (c: CredentialSignal)
    ensures
        c == credential_signal(source_id@, has_igdb, has_rawg),
{
    if text::same_text(source_id, "igdb") {
        if has_igdb {
            CredentialSignal::Configured
        } else {
            CredentialSignal::Missing
        }
    } else if text::same_text(source_id, "rawg") {
        if has_rawg {
            CredentialSignal::Configured
        } else {
            CredentialSignal::Missing
        }
    } else if text::same_text(source_id, "hltb") {
        CredentialSignal::Optional
    } else {
        CredentialSignal::NotRequired
    }
}

/// Whether a per-source refresh may start: not offline, nothing loading,
/// and no required credentials missing.
pub fn source_refresh_enabled(
    source_id: &str,
    has_igdb: bool,
    has_rawg: bool,
    offline: bool,
    loading: bool,
) -> (b: bool)
    ensures
        b == (!offline && !loading && credential_signal(source_id@, has_igdb, has_rawg)
            != CredentialSignal::Missing),
{
    if offline || loading {
        return false;
    }
    match source_credential_signal(source_id, has_igdb, has_rawg) {
        CredentialSignal::Missing => false,
        _ => true,
    }
}


/// What asking for a cache refresh leads to.
pub enum CacheRefreshStart {
    /// A refresh is already running: the request is ignored.
    AlreadyRunning,
    /// The refresh may not run; `message` explains why.
    Refused { message: String },
    /// Start the refresh job.
    Start,
}

/// Why a cache refresh may not run, if it may not: demo mode, offline mode,
/// or no scanned library, checked in that order.
pub open spec fn refresh_refusal(ui_demo: bool, offline: bool, has_scan: bool) -> Option<Seq<char>> {
    if ui_demo {
        Some("Cache refresh is disabled in demo mode (--ui-demo)."@)
    } else if offline {
        Some("Offline mode is on. Cache refresh requires network access."@)
    } else if !has_scan {
        Some("Scan your library first to enable cache refresh."@)
    } else {
        None
    }
}

/// Decides a cache refresh request (explicit or background).
pub fn cache_refresh_start(loading: bool, ui_demo: bool, offline: bool, has_scan: bool) -> (r:
    CacheRefreshStart)
    ensures
        loading ==> r is AlreadyRunning,
        !loading ==> match refresh_refusal(ui_demo, offline, has_scan) {
            Some(m) => r is Refused && r->message@ == m,
            None => r is Start,
        },
{
    if loading {
        CacheRefreshStart::AlreadyRunning
    } else if ui_demo {
        CacheRefreshStart::Refused {
            message: String::from_str("Cache refresh is disabled in demo mode (--ui-demo)."),
        }
    } else if offline {
        CacheRefreshStart::Refused {
            message: String::from_str("Offline mode is on. Cache refresh requires network access."),
        }
    } else if !has_scan {
        CacheRefreshStart::Refused {
            message: String::from_str("Scan your library first to enable cache refresh."),
        }
    } else {
        CacheRefreshStart::Start
    }
}

/// Whether the background cache populate after a scan starts: once per
/// launch, never in demo or offline mode, and not while a refresh runs.
pub fn should_start_background_populate(
    already_started: bool,
    ui_demo: bool,
    offline: bool,
    loading: bool,
) -> (b: bool)
    ensures
        b == !(already_started || ui_demo || offline || loading),
{
    !(already_started || ui_demo || offline || loading)
}


/// A source's disk cache as the Data Sources screen reads it.
pub struct SourceCache {
    pub name: String,
    pub cache_entries: usize,
    pub stale_entries: usize,
}

/// Total cache entries of the sources.
pub open spec fn total_entries(ss: Seq<SourceCache>) -> nat
    decreases ss.len(),
{
    if ss.len() == 0 {
        0
    } else {
        total_entries(ss.drop_last()) + ss.last().cache_entries as nat
    }
}

/// Total stale cache entries of the sources.
pub open spec fn total_stale(ss: Seq<SourceCache>) -> nat
    decreases ss.len(),
{
    if ss.len() == 0 {
        0
    } else {
        total_stale(ss.drop_last()) + ss.last().stale_entries as nat
    }
}

proof fn lemma_totals_grow(ss: Seq<SourceCache>, k: int)
    requires
        0 <= k <= ss.len(),
    ensures
        total_entries(ss.take(k)) <= total_entries(ss),
        total_stale(ss.take(k)) <= total_stale(ss),
    decreases ss.len() - k,
{
    if k < ss.len() {
        lemma_totals_grow(ss.drop_last(), k);
        assert(ss.drop_last().take(k) =~= ss.take(k));
    } else {
        assert(ss.take(k) =~= ss);
    }
}

/// The cache-health summary: total entries and total stale entries.
pub fn cache_health(statuses: &Vec<SourceCache>) -> (r: (u64, u64))
    requires
        total_entries(statuses@) <= u64::MAX,
        total_stale(statuses@) <= u64::MAX,
    ensures
        r.0 == total_entries(statuses@),
        r.1 == total_stale(statuses@),
{
    let mut entries: u64 = 0;
    let mut stale: u64 = 0;
    let mut k: usize = 0;
    while k < statuses.len()
        invariant
            k <= statuses.len(),
            total_entries(statuses@) <= u64::MAX,
            total_stale(statuses@) <= u64::MAX,
            entries == total_entries(statuses@.take(k as int)),
            stale == total_stale(statuses@.take(k as int)),
        decreases statuses.len() - k,
    {
        proof {
            let next = statuses@.take(k + 1);
            assert(next.drop_last() =~= statuses@.take(k as int));
            assert(next.last() == statuses@[k as int]);
            lemma_totals_grow(statuses@, k + 1);
        }
        entries = entries + statuses[k].cache_entries as u64;
        stale = stale + statuses[k].stale_entries as u64;
        k = k + 1;
    }
    assert(statuses@.take(statuses.len() as int) =~= statuses@);
    (entries, stale)
}

/// The notice under the cache-health line, if any: offline mode first,
/// then an empty cache.
pub fn cache_notice(offline: bool, entries: u64) -> (m: Option<&'static str>)
    ensures
        offline ==> m is Some && m->Some_0@
            == "Offline mode is on — stats come from the local disk cache; network refreshes are paused."@,
        !offline && entries == 0 ==> m is Some && m->Some_0@
            == "No cached source data yet — scan your library, then Refresh all to populate caches."@,
        !offline && entries != 0 ==> m is None,
{
    if offline {
        Some("Offline mode is on — stats come from the local disk cache; network refreshes are paused.")
    } else if entries == 0 {
        Some("No cached source data yet — scan your library, then Refresh all to populate caches.")
    } else {
        None
    }
}

/// Whether "Refresh All" may be pressed: not offline, no refresh running,
/// not in demo mode.
pub fn refresh_all_enabled(offline: bool, loading: bool, ui_demo: bool) -> (b: bool)
    ensures
        b == !(offline || loading || ui_demo),
{
    !(offline || loading || ui_demo)
}

} // verus!
