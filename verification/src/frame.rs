//! What a frame does with finished background work: the scan, write and
//! cache-refresh results that a poll hands over, and the follow-up work
//! each one asks for. A new scan result or a finished cache refresh moves
//! its generation on, so the prepared library snapshot, fingerprinted with
//! both generations, is rebuilt.

use crate::generators;
use crate::jobs::{self, JobPoll, JobRunner, JobTicket, WorkflowKind};
use crate::text;
use vstd::prelude::*;

verus! {

/// The (wrapping) successor of a generation counter.
pub open spec fn bumped(g: u64) -> u64 {
    if g == u64::MAX {
        0
    } else {
        (g + 1) as u64
    }
}

fn bump(g: u64) -> (r: u64)
    ensures
        r == bumped(g),
{
    if g == u64::MAX {
        0
    } else {
        g + 1
    }
}

/// The fingerprint of a snapshot, if there is one.
pub open spec fn snapshot_fingerprint<P>(s: Option<PreparedLibrary<P>>) -> Option<u64> {
    match s {
        Some(p) => Some(p.fingerprint),
        None => None,
    }
}

/// Whether a background prepare must start for the `current` inputs: a
/// scan exists, the snapshot is missing or was prepared from other inputs,
/// and no prepare for `current` is already running.
pub open spec fn prepare_needed<S, P>(l: LibraryState<S, P>, current: u64) -> bool {
    l.scan_result is Some && snapshot_fingerprint(l.prepared_snapshot) != Some(current) && !(
    l.prepare_job is Some && l.prepare_fingerprint == Some(current))
}

/// The games served for the `current` inputs: the snapshot's, only when
/// it was prepared for them.
pub open spec fn served_games<S, P>(l: LibraryState<S, P>, current: u64) -> Option<P> {
    match l.prepared_snapshot {
        Some(s) => if s.fingerprint == current {
            Some(s.games)
        } else {
            None
        },
        None => None,
    }
}

/// Follow-up work that adopting a result asks the caller to do.
pub enum FrameAction {
    Nothing,
    /// A new scan was adopted: reload the Steam collections and start the
    /// background cache populate.
    AfterScan,
    /// A write finished: scan again so the library shows it.
    StartScan,
    /// A cache refresh finished: reload the sources' cache statuses.
    ReloadSourceStatuses,
}

/// What a finished cache refresh reports.
pub struct EnrichCounts {
    pub games_processed: usize,
    pub network_fetches: usize,
    pub cache_hits: usize,
    pub errors: usize,
}

/// The message shown after a finished cache refresh.
pub open spec fn refresh_summary_text(c: EnrichCounts) -> Seq<char> {
    "Refresh complete: "@ + text::decimal(c.games_processed as nat) + " games processed, "@
        + text::decimal(c.network_fetches as nat) + " network fetches, "@ + text::decimal(
        c.cache_hits as nat,
    ) + " cache hits, "@ + text::decimal(c.errors as nat) + " errors"@
}

/// The message shown when a cache refresh failed.
pub open spec fn refresh_error_text(e: Seq<char>) -> Seq<char> {
    "Error: "@ + e
}

/// A prepared library snapshot: the games `P`, hydrated and classified,
/// with the fingerprint of the inputs they were prepared from.
pub struct PreparedLibrary<P> {
    pub fingerprint: u64,
    pub games: P,
}

/// The library's scan, write, cache-refresh and prepare state; `S` is a
/// scan result and `P` the games of a prepared snapshot.
pub struct LibraryState<S, P> {
    pub scan_result: Option<S>,
    /// Moves on with every adopted scan result.
    pub scan_generation: u64,
    /// Moves on with every finished cache refresh.
    pub cache_refresh_generation: u64,
    pub prepared_snapshot: Option<PreparedLibrary<P>>,
    /// The running prepare job and the fingerprint it prepares for.
    pub prepare_job: Option<JobTicket>,
    pub prepare_fingerprint: Option<u64>,
    pub loading: bool,
    pub scan_job: Option<JobTicket>,
    pub write_loading: bool,
    pub write_job: Option<JobTicket>,
    pub cache_refresh_loading: bool,
    pub enrich_job: Option<JobTicket>,
    pub error: Option<String>,
    pub success_msg: Option<String>,
    pub cache_refresh_msg: Option<String>,
}

impl<S, P> LibraryState<S, P> {
    /// Nothing scanned, prepared or running; both generations at 0; no
    /// message or error.
    pub fn new() -> (l: Self)
        ensures
            l.scan_result is None,
            l.scan_generation == 0,
            l.cache_refresh_generation == 0,
            l.prepared_snapshot is None,
            l.prepare_job is None,
            l.prepare_fingerprint is None,
            !l.loading,
            l.scan_job is None,
            !l.write_loading,
            l.write_job is None,
            !l.cache_refresh_loading,
            l.enrich_job is None,
            l.error is None,
            l.success_msg is None,
            l.cache_refresh_msg is None,
    {
        LibraryState {
            scan_result: None,
            scan_generation: 0,
            cache_refresh_generation: 0,
            prepared_snapshot: None,
            prepare_job: None,
            prepare_fingerprint: None,
            loading: false,
            scan_job: None,
            write_loading: false,
            write_job: None,
            cache_refresh_loading: false,
            enrich_job: None,
            error: None,
            success_msg: None,
            cache_refresh_msg: None,
        }
    }

    /// Installs the demo library as a new scan result, by the same rule as
    /// an adopted scan: the scan generation moves on and the prepared
    /// snapshot is dropped, so a demo refresh never serves the old
    /// snapshot. Nothing else changes.
    pub fn adopt_demo_library(&mut self, scan: S)
        ensures
            *final(self) == (LibraryState {
                scan_result: Some(scan),
                scan_generation: bumped(old(self).scan_generation),
                prepared_snapshot: None,
                ..*old(self)
            }),
    {
        self.scan_result = Some(scan);
        self.scan_generation = bump(self.scan_generation);
        self.prepared_snapshot = None;
    }

    /// Takes in what polling the scan job gave. A finished scan is adopted:
    /// it becomes the scan result, the scan generation moves on and the
    /// prepared snapshot is dropped; a failed one sets the error banner. A
    /// finished or abandoned scan ends the loading state.
    pub fn adopt_scan(&mut self, poll: JobPoll<S>) -> (action: FrameAction)
        ensures
            match poll {
                JobPoll::Idle | JobPoll::Waiting => *final(self) == *old(self) && action is Nothing,
                JobPoll::Abandoned => *final(self) == (LibraryState {
                    loading: false,
                    scan_job: None,
                    ..*old(self)
                }) && action is Nothing,
                JobPoll::Finished(Ok(scan)) => *final(self) == (LibraryState {
                    loading: false,
                    scan_job: None,
                    scan_result: Some(scan),
                    scan_generation: bumped(old(self).scan_generation),
                    prepared_snapshot: None,
                    ..*old(self)
                }) && action is AfterScan,
                JobPoll::Finished(Err(e)) => *final(self) == (LibraryState {
                    loading: false,
                    scan_job: None,
                    error: Some(e),
                    ..*old(self)
                }) && action is Nothing,
            },
    {
        match poll {
            JobPoll::Idle => FrameAction::Nothing,
            JobPoll::Waiting => FrameAction::Nothing,
            JobPoll::Abandoned => {
                self.loading = false;
                self.scan_job = None;
                FrameAction::Nothing
            },
            JobPoll::Finished(result) => {
                self.loading = false;
                self.scan_job = None;
                match result {
                    Ok(scan) => {
                        self.scan_result = Some(scan);
                        self.scan_generation = bump(self.scan_generation);
                        self.prepared_snapshot = None;
                        FrameAction::AfterScan
                    },
                    Err(e) => {
                        self.error = Some(e);
                        FrameAction::Nothing
                    },
                }
            },
        }
    }

    /// Takes in what polling the write job gave: a finished write shows
    /// its message and asks for a rescan; a failed one sets the error
    /// banner.
    pub fn adopt_write(&mut self, poll: JobPoll<String>) -> (action: FrameAction)
        ensures
            match poll {
                JobPoll::Idle | JobPoll::Waiting => *final(self) == *old(self) && action is Nothing,
                JobPoll::Abandoned => *final(self) == (LibraryState {
                    write_loading: false,
                    write_job: None,
                    ..*old(self)
                }) && action is Nothing,
                JobPoll::Finished(Ok(msg)) => *final(self) == (LibraryState {
                    write_loading: false,
                    write_job: None,
                    success_msg: Some(msg),
                    ..*old(self)
                }) && action is StartScan,
                JobPoll::Finished(Err(e)) => *final(self) == (LibraryState {
                    write_loading: false,
                    write_job: None,
                    error: Some(e),
                    ..*old(self)
                }) && action is Nothing,
            },
    {
        match poll {
            JobPoll::Idle => FrameAction::Nothing,
            JobPoll::Waiting => FrameAction::Nothing,
            JobPoll::Abandoned => {
                self.write_loading = false;
                self.write_job = None;
                FrameAction::Nothing
            },
            JobPoll::Finished(result) => {
                self.write_loading = false;
                self.write_job = None;
                match result {
                    Ok(msg) => {
                        self.success_msg = Some(msg);
                        FrameAction::StartScan
                    },
                    Err(e) => {
                        self.error = Some(e);
                        FrameAction::Nothing
                    },
                }
            },
        }
    }

    /// Takes in what polling the cache-refresh job gave: a finished refresh
    /// reports its counts, moves the cache refresh generation on and asks
    /// for the sources' statuses; a failed one reports its error.
    pub fn adopt_cache_refresh(&mut self, poll: JobPoll<EnrichCounts>) -> (action: FrameAction)
        ensures
            match poll {
                JobPoll::Idle | JobPoll::Waiting => *final(self) == *old(self) && action is Nothing,
                JobPoll::Abandoned => *final(self) == (LibraryState {
                    cache_refresh_loading: false,
                    enrich_job: None,
                    ..*old(self)
                }) && action is Nothing,
                JobPoll::Finished(Ok(c)) => final(self).cache_refresh_msg is Some
                    && final(self).cache_refresh_msg->Some_0@ == refresh_summary_text(c)
                    && *final(self) == (LibraryState {
                    cache_refresh_loading: false,
                    enrich_job: None,
                    cache_refresh_generation: bumped(old(self).cache_refresh_generation),
                    cache_refresh_msg: final(self).cache_refresh_msg,
                    ..*old(self)
                }) && action is ReloadSourceStatuses,
                JobPoll::Finished(Err(e)) => final(self).cache_refresh_msg is Some
                    && final(self).cache_refresh_msg->Some_0@ == refresh_error_text(e@)
                    && *final(self) == (LibraryState {
                    cache_refresh_loading: false,
                    enrich_job: None,
                    cache_refresh_msg: final(self).cache_refresh_msg,
                    ..*old(self)
                }) && action is Nothing,
            },
    {
        match poll {
            JobPoll::Idle => FrameAction::Nothing,
            JobPoll::Waiting => FrameAction::Nothing,
            JobPoll::Abandoned => {
                self.cache_refresh_loading = false;
                self.enrich_job = None;
                FrameAction::Nothing
            },
            JobPoll::Finished(result) => {
                self.cache_refresh_loading = false;
                self.enrich_job = None;
                match result {
                    Ok(c) => {
                        let mut m = String::from_str("Refresh complete: ");
                        text::push_decimal(&mut m, c.games_processed as u64);
                        m.append(" games processed, ");
                        text::push_decimal(&mut m, c.network_fetches as u64);
                        m.append(" network fetches, ");
                        text::push_decimal(&mut m, c.cache_hits as u64);
                        m.append(" cache hits, ");
                        text::push_decimal(&mut m, c.errors as u64);
                        m.append(" errors");
                        assert(m@ =~= refresh_summary_text(c));
                        self.cache_refresh_msg = Some(m);
                        self.cache_refresh_generation = bump(self.cache_refresh_generation);
                        FrameAction::ReloadSourceStatuses
                    },
                    Err(e) => {
                        let mut m = String::from_str("Error: ");
                        m.append(e.as_str());
                        self.cache_refresh_msg = Some(m);
                        FrameAction::Nothing
                    },
                }
            },
        }
    }

    /// Starts a background prepare when one is needed (see
    /// `needs_library_prepare`): a scan exists, the snapshot is missing or
    /// was prepared from other inputs, and no prepare for `current` runs.
    /// The new Prepare ticket, fingerprinted with "prepare:" and `current`,
    /// is recorded with `current` and returned; otherwise nothing changes.
    pub fn start_prepare(&mut self, current: u64, runner: &mut JobRunner) -> (t: Option<JobTicket>)
        requires
            old(runner).next_id() < u64::MAX,
        ensures
            ({
                if prepare_needed(*old(self), current) {
                    &&& t is Some
                    &&& t->Some_0.id.0 == old(runner).next_id()
                    &&& t->Some_0.kind == WorkflowKind::Prepare
                    &&& t->Some_0.fingerprint == jobs::spec_fingerprint(
                        "prepare:"@ + text::decimal(current as nat),
                    )
                    &&& final(runner).next_id() == old(runner).next_id() + 1
                    &&& *final(self) == (LibraryState {
                        prepare_job: t,
                        prepare_fingerprint: Some(current),
                        ..*old(self)
                    })
                } else {
                    t is None && *final(self) == *old(self) && final(runner).next_id() == old(
                        runner,
                    ).next_id()
                }
            }),
    {
        let has_scan = match self.scan_result {
            Some(_) => true,
            None => false,
        };
        let snap_fp = match &self.prepared_snapshot {
            Some(s) => Some(s.fingerprint),
            None => None,
        };
        let running = match self.prepare_job {
            Some(_) => true,
            None => false,
        };
        if !jobs::needs_library_prepare(has_scan, snap_fp, running, self.prepare_fingerprint, current) {
            return None;
        }
        let mut label = String::from_str("prepare:");
        text::push_decimal(&mut label, current);
        let ticket = runner.next_ticket(WorkflowKind::Prepare, label.as_str());
        self.prepare_job = Some(ticket);
        self.prepare_fingerprint = Some(current);
        Some(ticket)
    }

    /// Takes in what polling the prepare job gave: a finished prepare ends
    /// the job, and its snapshot, when it was prepared, replaces the old
    /// one (a failed hydration keeps the old snapshot).
    pub fn adopt_prepared(&mut self, poll: JobPoll<PreparedLibrary<P>>)
        ensures
            match poll {
                JobPoll::Finished(Ok(snap)) => *final(self) == (LibraryState {
                    prepare_job: None,
                    prepare_fingerprint: None,
                    prepared_snapshot: Some(snap),
                    ..*old(self)
                }),
                JobPoll::Finished(Err(_)) => *final(self) == (LibraryState {
                    prepare_job: None,
                    prepare_fingerprint: None,
                    ..*old(self)
                }),
                _ => *final(self) == *old(self),
            },
    {
        match poll {
            JobPoll::Finished(result) => {
                self.prepare_job = None;
                self.prepare_fingerprint = None;
                match result {
                    Ok(snap) => {
                        self.prepared_snapshot = Some(snap);
                    },
                    Err(_) => {},
                }
            },
            _ => {},
        }
    }

    /// The prepared games, served only when the snapshot was prepared for
    /// the `current` inputs (callers show a loading state otherwise).
    pub fn prepared_games(&self, current: u64) -> (g: Option<&P>)
        ensures
            g == match served_games(*self, current) {
                Some(games) => Some(&games),
                None => None::<&P>,
            },
    {
        match &self.prepared_snapshot {
            Some(s) => if s.fingerprint == current {
                Some(&s.games)
            } else {
                None
            },
            None => None,
        }
    }

    /// Whether the frame starts the first scan: nothing scanned, no scan
    /// running and no error shown.
    pub fn needs_first_scan(&self) -> (b: bool)
        ensures
            b == (self.scan_result is None && !self.loading && self.error is None),
    {
        match self.scan_result {
            Some(_) => false,
            None => !self.loading && match self.error {
                Some(_) => false,
                None => true,
            },
        }
    }
}

/// Adopting a new scan result changes the prepared library's inputs, even
/// when the rescanned library looks the same (same games, same count): the
/// snapshot prepared before is never taken as current again.
pub proof fn lemma_adopted_scan_invalidates_snapshot(
    scan_generation: u64,
    refresh_generation: u64,
    cache_dir: Seq<char>,
    overrides: Seq<char>,
)
    ensures
        bumped(scan_generation) != scan_generation,
        generators::prepare_inputs_text(
            bumped(scan_generation) as nat,
            refresh_generation as nat,
            cache_dir,
            overrides,
        ) != generators::prepare_inputs_text(
            scan_generation as nat,
            refresh_generation as nat,
            cache_dir,
            overrides,
        ),
{
    generators::lemma_prepare_inputs_track_generations(
        bumped(scan_generation) as nat,
        refresh_generation as nat,
        scan_generation as nat,
        refresh_generation as nat,
        cache_dir,
        overrides,
    );
}

/// A finished cache refresh changes the prepared library's inputs, so the
/// snapshot is rebuilt from the refreshed cache.
pub proof fn lemma_cache_refresh_invalidates_snapshot(
    scan_generation: u64,
    refresh_generation: u64,
    cache_dir: Seq<char>,
    overrides: Seq<char>,
)
    ensures
        bumped(refresh_generation) != refresh_generation,
        generators::prepare_inputs_text(
            scan_generation as nat,
            bumped(refresh_generation) as nat,
            cache_dir,
            overrides,
        ) != generators::prepare_inputs_text(
            scan_generation as nat,
            refresh_generation as nat,
            cache_dir,
            overrides,
        ),
{
    generators::lemma_prepare_inputs_track_generations(
        scan_generation as nat,
        bumped(refresh_generation) as nat,
        scan_generation as nat,
        refresh_generation as nat,
        cache_dir,
        overrides,
    );
}

/// A prepare is started at most once for the same inputs: once its ticket
/// and fingerprint are recorded, asking again for those inputs starts
/// nothing until it is consumed.
pub proof fn lemma_prepare_started_at_most_once<S, P>(
    l: LibraryState<S, P>,
    t: JobTicket,
    current: u64,
)
    ensures
        !prepare_needed(
            LibraryState { prepare_job: Some(t), prepare_fingerprint: Some(current), ..l },
            current,
        ),
{
}

/// A stale snapshot is never served: games are served only from a snapshot
/// prepared for the current inputs, and none after a scan result was
/// adopted (which drops the snapshot).
pub proof fn lemma_stale_snapshot_never_served<S, P>(l: LibraryState<S, P>, current: u64)
    ensures
        served_games(l, current) is Some ==> snapshot_fingerprint(l.prepared_snapshot) == Some(
            current,
        ),
        served_games(LibraryState { prepared_snapshot: None, ..l }, current) is None,
{
}

/// The recommendation selected when results arrive: the first one, if any.
pub fn first_recommendation(app_ids: &Vec<u32>) -> (r: Option<u32>)
    ensures
        r == (if app_ids@.len() == 0 {
            None
        } else {
            Some(app_ids@[0])
        }),
{
    if app_ids.len() == 0 {
        None
    } else {
        Some(app_ids[0])
    }
}

} // verus!
