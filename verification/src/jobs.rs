//! Background job bookkeeping: tickets, result slots and wake-up decisions.
//!
//! Every job the user starts gets a [`JobTicket`]: a monotonically increasing
//! [`JobId`], the [`WorkflowKind`] and a fingerprint of the job's inputs. A
//! finished job stores its result in a [`JobSlot`] tagged with its ticket;
//! the consumer only takes a result whose ticket equals the one it expects on
//! all three fields, so results of superseded jobs, or of jobs whose inputs
//! changed meanwhile, are discarded. When two jobs race, the slot keeps the
//! result of the job with the larger id whatever the order of arrival.

use std::collections::hash_map::DefaultHasher;
use std::hash::{Hash, Hasher};
use vstd::prelude::*;
use vstd::std_specs::hash::DefaultHasherAdditionalSpecFns;

verus! {

/// The kind of background workflow a job belongs to.
#[derive(Clone, Copy, Debug, PartialEq, Eq, Hash, Structural)]
pub enum WorkflowKind {
    Scan,
    Write,
    DryRun,
    CacheRefresh,
    Prepare,
    JunkPreview,
    RecommendPreview,
    Discover,
    Dynamic,
    Mood,
    PlaylistMatch,
}

/// Monotonic request id of a background job (0 means "no active job").
#[derive(Clone, Copy, Debug, PartialEq, Eq, Hash, PartialOrd, Ord, Structural)]
pub struct JobId(pub u64);

/// The complete identity of a job: id, workflow kind and input fingerprint.
#[derive(Clone, Copy, Debug, PartialEq, Eq, Hash, Structural)]
pub struct JobTicket {
    pub id: JobId,
    pub kind: WorkflowKind,
    pub fingerprint: u64,
}

/// The byte writes that hashing a string with the given characters feeds
/// into a hasher.
pub uninterp spec fn str_hash_writes(s: Seq<char>) -> Seq<Seq<u8>>;

/// Feeds `s` into `state` through `<str as Hash>::hash`.
///
/// Trusted claim: the writes appended to the hasher's recorded state are a
/// function of the string's characters alone. Which bytes they are is left
/// unsaid.
#[verifier::external_body]
fn feed_str(s: &str, state: &mut DefaultHasher)
    ensures
        final(state)@ == old(state)@ + str_hash_writes(s@),
{
    s.hash(state)
}

/// The fingerprint of a string: the finished hash of a fresh hasher fed with
/// the string.
pub open spec fn spec_fingerprint(s: Seq<char>) -> u64 {
    DefaultHasher::spec_finish(str_hash_writes(s))
}

/// Stable 64-bit fingerprint of a job's input string. Two jobs with the same
/// inputs get the same fingerprint.
pub fn fingerprint_u64(s: &str) -> (fp: u64)
    ensures
        fp == spec_fingerprint(s@),
{
    let mut h = DefaultHasher::new();
    feed_str(s, &mut h);
    assert(h@ =~= str_hash_writes(s@));
    h.finish()
}

/// Allocates monotonically increasing [`JobTicket`]s, starting at id 1.
pub struct JobRunner {
    next: u64,
}

impl JobRunner {
    #[verifier::type_invariant]
    spec fn ids_are_positive(self) -> bool {
        self.next >= 1
    }

    /// The id the next ticket will carry.
    pub closed spec fn next_id(self) -> u64 {
        self.next
    }

    /// A runner whose first ticket has id 1.
    pub fn new() -> (r: Self)
        ensures
            r.next_id() == 1,
    {
        JobRunner { next: 1 }
    }

    /// The id the next ticket will carry.
    pub fn upcoming_id(&self) -> (n: u64)
        ensures
            n == self.next_id(),
    {
        self.next
    }

    /// Allocates the next ticket: its id is the runner's next id (never 0),
    /// and the runner moves on by one.
    pub fn next_ticket(&mut self, kind: WorkflowKind, fingerprint: &str) -> (t: JobTicket)
        requires
            old(self).next_id() < u64::MAX,
        ensures
            t.id.0 == old(self).next_id(),
            t.id.0 >= 1,
            t.kind == kind,
            t.fingerprint == spec_fingerprint(fingerprint@),
            final(self).next_id() == old(self).next_id() + 1,
    {
        proof {
            use_type_invariant(&*self);
        }
        let id = JobId(self.next);
        self.next = self.next + 1;
        JobTicket { id, kind, fingerprint: fingerprint_u64(fingerprint) }
    }
}

impl Default for JobRunner {
    fn default() -> (r: Self)
        ensures
            r.next_id() == 1,
    {
        JobRunner::new()
    }
}

/// What a slot holds after storing `result` under `ticket`: the incoming
/// result, unless the slot already holds one with a larger id.
pub open spec fn stored_after_set<T>(
    stored: Option<(JobTicket, Result<T, String>)>,
    ticket: JobTicket,
    result: Result<T, String>,
) -> Option<(JobTicket, Result<T, String>)> {
    match stored {
        Some((existing, _)) if existing.id.0 > ticket.id.0 => stored,
        _ => Some((ticket, result)),
    }
}

/// What `take_if` hands back: the stored result when its ticket equals the
/// expected one on id, kind and fingerprint.
pub open spec fn taken<T>(
    stored: Option<(JobTicket, Result<T, String>)>,
    expected: JobTicket,
) -> Option<Result<T, String>> {
    match stored {
        Some((ticket, result)) if ticket == expected => Some(result),
        _ => None,
    }
}

/// A slot holding the latest result of a background job, tagged with the
/// ticket that produced it.
pub struct JobSlot<T> {
    inner: Option<(JobTicket, Result<T, String>)>,
}

impl<T> JobSlot<T> {
    /// The ticket and result the slot holds, if any.
    pub closed spec fn stored(self) -> Option<(JobTicket, Result<T, String>)> {
        self.inner
    }

    /// An empty slot.
    pub fn new() -> (s: Self)
        ensures
            s.stored() is None,
    {
        JobSlot { inner: None }
    }

    /// Stores a result tagged with `ticket`, unless the slot already holds a
    /// result with a larger id (an older job finishing late never clobbers a
    /// newer result).
    pub fn set(&mut self, ticket: JobTicket, result: Result<T, String>)
        ensures
            final(self).stored() == stored_after_set(old(self).stored(), ticket, result),
    {
        let keep = match &self.inner {
            Some((existing, _)) => existing.id.0 > ticket.id.0,
            None => false,
        };
        if !keep {
            self.inner = Some((ticket, result));
        }
    }

    /// Takes the stored result if its ticket equals `expected` on all three
    /// fields. The slot is empty afterwards either way: a stale or drifted
    /// result is discarded.
    pub fn take_if(&mut self, expected: JobTicket) -> (r: Option<Result<T, String>>)
        ensures
            final(self).stored() is None,
            r == taken(old(self).stored(), expected),
    {
        match self.inner.take() {
            Some((ticket, result)) => {
                if ticket == expected {
                    Some(result)
                } else {
                    None
                }
            },
            None => None,
        }
    }

    /// Empties the slot.
    pub fn clear(&mut self)
        ensures
            final(self).stored() is None,
    {
        self.inner = None;
    }
}

impl<T> Default for JobSlot<T> {
    fn default() -> (s: Self)
        ensures
            s.stored() is None,
    {
        JobSlot::new()
    }
}

/// The "a result is ready" flag behind a job wake-up: workers raise it when
/// they store a result, the UI task consumes it before polling the slots.
pub struct WakeFlag {
    ready: bool,
}

impl View for WakeFlag {
    type V = bool;

    closed spec fn view(&self) -> bool {
        self.ready
    }
}

impl WakeFlag {
    /// A lowered flag: nothing to wake for yet.
    pub fn new() -> (f: Self)
        ensures
            !f@,
    {
        WakeFlag { ready: false }
    }

    /// Raises the flag. Extra signals before the next wait coalesce.
    pub fn signal(&mut self)
        ensures
            final(self)@,
    {
        self.ready = true;
    }

    /// One check of a waiter: `true` when the flag was raised (the waiter
    /// proceeds), `false` when the waiter has to block until the next signal.
    /// The flag is lowered afterwards either way.
    pub fn try_consume(&mut self) -> (proceed: bool)
        ensures
            proceed == old(self)@,
            !final(self)@,
    {
        let proceed = self.ready;
        self.ready = false;
        proceed
    }
}

/// What the UI learns when it checks on a background job.
pub enum JobPoll<T> {
    /// No job of this kind is running.
    Idle,
    /// The inputs changed since the job started: stop waiting for it.
    Abandoned,
    /// No result for this job yet (a stale result, if any, was discarded).
    Waiting,
    /// The job's result.
    Finished(Result<T, String>),
}

/// The fingerprint to check a running job against: `None` when the current
/// inputs do not describe a job (their description is empty), in which case
/// the job is not abandoned.
pub fn job_input_fingerprint(inputs: &str) -> (fp: Option<u64>)
    ensures
        fp == (if inputs@.len() == 0 {
            None
        } else {
            Some(spec_fingerprint(inputs@))
        }),
{
    if inputs.is_empty() {
        None
    } else {
        Some(fingerprint_u64(inputs))
    }
}

/// The outcome of checking a job: idle unless loading with a ticket;
/// abandoned (slot untouched) when the current input fingerprint is known
/// and differs from the ticket's; otherwise the slot is emptied and its
/// result is handed over if the ticket matches.
pub open spec fn spec_poll<T>(
    loading: bool,
    expected: Option<JobTicket>,
    current_fingerprint: Option<u64>,
    stored: Option<(JobTicket, Result<T, String>)>,
) -> (JobPoll<T>, Option<(JobTicket, Result<T, String>)>) {
    if !loading || expected is None {
        (JobPoll::Idle, stored)
    } else if current_fingerprint is Some && current_fingerprint != Some(
        expected.unwrap().fingerprint,
    ) {
        (JobPoll::Abandoned, stored)
    } else {
        (
            match taken(stored, expected.unwrap()) {
                Some(r) => JobPoll::Finished(r),
                None => JobPoll::Waiting,
            },
            None,
        )
    }
}

/// Checks a background job once per frame.
pub fn poll_job<T>(
    loading: bool,
    expected: Option<JobTicket>,
    current_fingerprint: Option<u64>,
    slot: &mut JobSlot<T>,
) -> (r: JobPoll<T>)
    ensures
        (r, final(slot).stored()) == spec_poll(
            loading,
            expected,
            current_fingerprint,
            old(slot).stored(),
        ),
{
    if !loading {
        return JobPoll::Idle;
    }
    match expected {
        None => JobPoll::Idle,
        Some(ticket) => {
            match current_fingerprint {
                Some(fp) => {
                    if fp != ticket.fingerprint {
                        return JobPoll::Abandoned;
                    }
                },
                None => {},
            }
            match slot.take_if(ticket) {
                Some(result) => JobPoll::Finished(result),
                None => JobPoll::Waiting,
            }
        },
    }
}

/// A job's result reaches the UI only when its ticket equals the expected
/// ticket and the current inputs, when known, still have the ticket's
/// fingerprint.
pub proof fn lemma_poll_delivers_only_current_results<T>(
    loading: bool,
    expected: Option<JobTicket>,
    current_fingerprint: Option<u64>,
    stored: Option<(JobTicket, Result<T, String>)>,
)
    requires
        spec_poll(loading, expected, current_fingerprint, stored).0 is Finished,
    ensures
        loading,
        expected is Some,
        stored is Some,
        stored.unwrap().0 == expected.unwrap(),
        current_fingerprint is None || current_fingerprint == Some(stored.unwrap().0.fingerprint),
{
}

/// The outcome of checking a job whose current inputs must still describe
/// it (the generator jobs): like `spec_poll`, except that inputs that no
/// longer describe any job (`None`) abandon it too.
pub open spec fn spec_poll_strict<T>(
    loading: bool,
    expected: Option<JobTicket>,
    current_fingerprint: Option<u64>,
    stored: Option<(JobTicket, Result<T, String>)>,
) -> (JobPoll<T>, Option<(JobTicket, Result<T, String>)>) {
    if !loading || expected is None {
        (JobPoll::Idle, stored)
    } else if current_fingerprint != Some(expected.unwrap().fingerprint) {
        (JobPoll::Abandoned, stored)
    } else {
        (
            match taken(stored, expected.unwrap()) {
                Some(r) => JobPoll::Finished(r),
                None => JobPoll::Waiting,
            },
            None,
        )
    }
}

/// Checks a generator job once per frame.
pub fn poll_strict_job<T>(
    loading: bool,
    expected: Option<JobTicket>,
    current_fingerprint: Option<u64>,
    slot: &mut JobSlot<T>,
) -> (r: JobPoll<T>)
    ensures
        (r, final(slot).stored()) == spec_poll_strict(
            loading,
            expected,
            current_fingerprint,
            old(slot).stored(),
        ),
{
    if !loading {
        return JobPoll::Idle;
    }
    match expected {
        None => JobPoll::Idle,
        Some(ticket) => {
            match current_fingerprint {
                Some(fp) => {
                    if fp != ticket.fingerprint {
                        return JobPoll::Abandoned;
                    }
                },
                None => {
                    return JobPoll::Abandoned;
                },
            }
            match slot.take_if(ticket) {
                Some(result) => JobPoll::Finished(result),
                None => JobPoll::Waiting,
            }
        },
    }
}

/// A generator result reaches the UI only when its ticket is the expected
/// one and the current inputs still describe exactly that job.
pub proof fn lemma_strict_poll_delivers_only_current_results<T>(
    loading: bool,
    expected: Option<JobTicket>,
    current_fingerprint: Option<u64>,
    stored: Option<(JobTicket, Result<T, String>)>,
)
    requires
        spec_poll_strict(loading, expected, current_fingerprint, stored).0 is Finished,
    ensures
        loading,
        expected is Some,
        stored is Some,
        stored.unwrap().0 == expected.unwrap(),
        current_fingerprint == Some(stored.unwrap().0.fingerprint),
{
}

/// Whether the Library needs a new background prepare: there is a scan,
/// the snapshot is missing or was made from other inputs, and no prepare
/// for the current inputs is already running.
pub fn needs_library_prepare(
    has_scan: bool,
    snapshot_fingerprint: Option<u64>,
    running_prepare: bool,
    running_fingerprint: Option<u64>,
    current: u64,
) -> (start: bool)
    ensures
        start == (has_scan && snapshot_fingerprint != Some(current) && !(running_prepare
            && running_fingerprint == Some(current))),
{
    if !has_scan {
        return false;
    }
    match snapshot_fingerprint {
        Some(fp) => {
            if fp == current {
                return false;
            }
        },
        None => {},
    }
    if running_prepare {
        match running_fingerprint {
            Some(fp) => {
                if fp == current {
                    return false;
                }
            },
            None => {},
        }
    }
    true
}

/// Whether the prepared library snapshot is fresh for the current inputs.
pub fn library_ready(snapshot_fingerprint: Option<u64>, current: u64) -> (ready: bool)
    ensures
        ready == (snapshot_fingerprint == Some(current)),
{
    match snapshot_fingerprint {
        Some(fp) => fp == current,
        None => false,
    }
}

/// Race safety: when two jobs with different ids store their results, the
/// slot ends up holding the same thing whichever finishes first.
pub proof fn lemma_set_order_independent<T>(
    stored: Option<(JobTicket, Result<T, String>)>,
    older: JobTicket,
    older_result: Result<T, String>,
    newer: JobTicket,
    newer_result: Result<T, String>,
)
    requires
        older.id.0 < newer.id.0,
    ensures
        stored_after_set(stored_after_set(stored, older, older_result), newer, newer_result)
            == stored_after_set(stored_after_set(stored, newer, newer_result), older, older_result),
{
}

/// The newer of two racing results survives: starting from an empty slot,
/// storing an older and a newer result in either order leaves the newer one.
pub proof fn lemma_newer_result_survives<T>(
    older: JobTicket,
    older_result: Result<T, String>,
    newer: JobTicket,
    newer_result: Result<T, String>,
)
    requires
        older.id.0 < newer.id.0,
    ensures
        stored_after_set(stored_after_set(None, newer, newer_result), older, older_result)
            == Some((newer, newer_result)),
        stored_after_set(stored_after_set(None, older, older_result), newer, newer_result)
            == Some((newer, newer_result)),
{
}

/// Read after write: a result stored under a ticket is handed back by
/// `take_if` with that ticket, unless a newer result was already stored.
pub proof fn lemma_take_returns_what_was_set<T>(
    stored: Option<(JobTicket, Result<T, String>)>,
    ticket: JobTicket,
    result: Result<T, String>,
)
    requires
        match stored {
            Some((existing, _)) => existing.id.0 <= ticket.id.0,
            None => true,
        },
    ensures
        taken(stored_after_set(stored, ticket, result), ticket) == Some(result),
{
}

/// The id held by a slot never decreases when a result is stored.
pub proof fn lemma_stored_id_never_decreases<T>(
    stored: Option<(JobTicket, Result<T, String>)>,
    ticket: JobTicket,
    result: Result<T, String>,
)
    requires
        stored is Some,
    ensures
        stored_after_set(stored, ticket, result) is Some,
        stored_after_set(stored, ticket, result).unwrap().0.id.0 >= stored.unwrap().0.id.0,
{
}

/// A result is discarded unless its ticket agrees with the expected one on
/// id, kind and fingerprint.
pub proof fn lemma_take_needs_all_three_fields<T>(
    ticket: JobTicket,
    result: Result<T, String>,
    expected: JobTicket,
)
    requires
        ticket.id != expected.id || ticket.kind != expected.kind || ticket.fingerprint
            != expected.fingerprint,
    ensures
        taken(Some((ticket, result)), expected) is None,
{
}

/// Equal inputs give equal fingerprints.
pub proof fn lemma_fingerprint_deterministic(a: Seq<char>, b: Seq<char>)
    requires
        a == b,
    ensures
        spec_fingerprint(a) == spec_fingerprint(b),
{
}


/// Which kinds of background work are in flight.
pub struct BackgroundWork {
    pub scan: bool,
    pub write: bool,
    pub cache_refresh: bool,
    pub dry_run: bool,
    pub junk_preview: bool,
    pub recommend: bool,
    pub discover: bool,
    pub dynamic: bool,
    pub mood: bool,
    pub playlist_match: bool,
    /// A library prepare job has been started and not yet consumed.
    pub prepare: bool,
}

impl BackgroundWork {
    /// Whether any background work is in flight (the UI then keeps polling).
    pub fn has_background_work(&self) -> (b: bool)
        ensures
            b == (self.scan || self.write || self.cache_refresh || self.dry_run
                || self.junk_preview || self.recommend || self.discover || self.dynamic
                || self.mood || self.playlist_match || self.prepare),
    {
        self.scan || self.write || self.cache_refresh || self.dry_run || self.junk_preview
            || self.recommend || self.discover || self.dynamic || self.mood
            || self.playlist_match || self.prepare
    }
}


/// The UI's polling loop while background work runs: armed at most once;
/// it ticks until no work is left, then disarms so later jobs arm it again.
pub struct PollArm {
    pub armed: bool,
}

/// Whether a request for polling starts a new loop: only when none runs.
pub open spec fn arm_starts_loop(armed: bool) -> bool {
    !armed
}

/// Whether the loop is still armed after a tick that found the work
/// `busy` or not.
pub open spec fn armed_after_tick(armed: bool, busy: bool) -> bool {
    armed && busy
}

impl PollArm {
    /// Not polling.
    pub fn new() -> (p: Self)
        ensures
            !p.armed,
    {
        PollArm { armed: false }
    }

    /// Asks for polling; returns whether a new loop must be started (none
    /// is while one runs).
    pub fn arm(&mut self) -> (start: bool)
        ensures
            start == arm_starts_loop(old(self).armed),
            final(self).armed,
    {
        if self.armed {
            return false;
        }
        self.armed = true;
        true
    }

    /// After a tick of the loop: returns whether to keep polling, which is
    /// whether background work remains; otherwise the loop disarms.
    pub fn after_tick(&mut self, busy: bool) -> (keep: bool)
        ensures
            keep == busy,
            final(self).armed == armed_after_tick(old(self).armed, busy),
    {
        if !busy {
            self.armed = false;
        }
        busy
    }
}

/// Once the polling loop has ended for lack of work, the next request for
/// polling starts a new loop, so jobs started later are still polled.
pub proof fn lemma_idle_poll_rearms(armed: bool)
    ensures
        arm_starts_loop(armed_after_tick(armed, false)),
{
}

} // verus!
