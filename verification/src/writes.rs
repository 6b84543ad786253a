//! Steam writes from the desktop app: which action awaits confirmation,
//! the dry-run plan that the user confirms, and how a confirmed action is
//! carried out. Every plan-based write commits exactly the previewed plan;
//! a backup restore has no plan and never commits one.

use crate::jobs::JobTicket;
use crate::text;
use vstd::prelude::*;

verus! {

/// A write waiting for its dry run or its confirmation.
#[derive(Clone, Debug, PartialEq, Eq)]
pub enum PendingAction {
    JunkApply,
    JunkHide,
    RecommendCollection,
    /// Sync a stored playlist to Steam; rule-based playlists are resolved
    /// against the prepared library during the dry run.
    PlaylistSync { playlist_id: String, rule_based: bool },
    /// Restore a backup file; confirmed directly, without a dry run.
    BackupRestore { path: String },
}

/// The message shown when a write is attempted in demo mode.
pub open spec fn demo_write_message() -> Seq<char> {
    "Write actions are disabled in demo mode (--ui-demo). Run without --ui-demo to modify Steam files."@
}

fn demo_write_error() -> (m: String)
    ensures
        m@ == demo_write_message(),
{
    String::from_str(
        "Write actions are disabled in demo mode (--ui-demo). Run without --ui-demo to modify Steam files.",
    )
}

/// The confirmation dialog's title for an action.
pub open spec fn confirm_title(action: PendingAction) -> Seq<char> {
    match action {
        PendingAction::JunkApply => "Apply junk candidates?"@,
        PendingAction::JunkHide => "Hide the selected games?"@,
        PendingAction::RecommendCollection => "Save recommendations as a Steam collection?"@,
        PendingAction::PlaylistSync { playlist_id, .. } => "Sync playlist “"@ + playlist_id@
            + "”?"@,
        PendingAction::BackupRestore { .. } => "Restore backup?"@,
    }
}

/// The confirm button's verb for an action.
pub open spec fn confirm_verb(action: PendingAction) -> Seq<char> {
    match action {
        PendingAction::JunkApply => "Apply"@,
        PendingAction::JunkHide => "Hide"@,
        PendingAction::RecommendCollection => "Save"@,
        PendingAction::PlaylistSync { .. } => "Sync"@,
        PendingAction::BackupRestore { .. } => "Restore"@,
    }
}

/// The confirmation dialog's title and confirm verb for an action.
pub fn write_confirm_copy(action: &PendingAction) -> (r: (String, &'static str))
    ensures
        r.0@ == confirm_title(*action),
        r.1@ == confirm_verb(*action),
{
    match action {
        PendingAction::JunkApply => (String::from_str("Apply junk candidates?"), "Apply"),
        PendingAction::JunkHide => (String::from_str("Hide the selected games?"), "Hide"),
        PendingAction::RecommendCollection => (
            String::from_str("Save recommendations as a Steam collection?"),
            "Save",
        ),
        PendingAction::PlaylistSync { playlist_id, .. } => {
            let mut title = String::from_str("Sync playlist “");
            title.append(playlist_id.as_str());
            title.append("”?");
            (title, "Sync")
        },
        PendingAction::BackupRestore { .. } => (String::from_str("Restore backup?"), "Restore"),
    }
}

/// The message when a rule-based playlist is synced before the library is
/// prepared.
pub open spec fn scan_first_message() -> Seq<char> {
    "Scan your library before syncing a rule-based playlist."@
}

/// Checks an action before its dry run: syncing a rule-based playlist
/// needs the prepared library; every other action passes unchanged.
pub fn resolve_dry_run_action(action: PendingAction, library_ready: bool) -> (r: Result<
    PendingAction,
    String,
>)
    ensures
        match action {
            PendingAction::PlaylistSync { rule_based, .. } => if rule_based && !library_ready {
                r is Err && r->Err_0@ == scan_first_message()
            } else {
                r == Ok::<PendingAction, String>(action)
            },
            _ => r == Ok::<PendingAction, String>(action),
        },
{
    match action {
        PendingAction::PlaylistSync { playlist_id, rule_based } => {
            if rule_based && !library_ready {
                return Err(String::from_str("Scan your library before syncing a rule-based playlist."));
            }
            Ok(PendingAction::PlaylistSync { playlist_id, rule_based })
        },
        other => Ok(other),
    }
}

/// The write that a confirmation carries out.
pub enum WriteStep<P> {
    /// Nothing was awaiting confirmation.
    Nothing,
    /// Commit the previewed plan.
    CommitPlan { plan: P },
    /// Restore the backup file (after the cloud-storage path is found).
    RestoreBackup { path: String },
    /// No plan was previewed for this write: report `message` as its
    /// result (after the cloud-storage path is found).
    Refuse { message: String },
}

/// Why a write without a previewed plan is refused.
pub open spec fn no_plan_message(action: PendingAction) -> Seq<char> {
    match action {
        PendingAction::RecommendCollection => "Recommendation collection writes require a dry-run plan."@,
        PendingAction::PlaylistSync { .. } => "Playlist sync writes require a dry-run plan."@,
        _ => "Junk writes require a confirmed dry-run plan."@,
    }
}

/// The dry-run and confirmation state of Steam writes; `P` is a previewed
/// write plan.
pub struct WriteFlow<P> {
    pub pending_action: Option<PendingAction>,
    pub show_confirm_dialog: bool,
    pub dry_run_plan: Option<P>,
    pub dry_run_loading: bool,
    pub dry_run_error: Option<String>,
    pub dry_run_job: Option<JobTicket>,
    /// The error banner.
    pub error: Option<String>,
}

impl<P> WriteFlow<P> {
    /// No write pending.
    pub fn new() -> (f: Self)
        ensures
            f.pending_action is None,
            !f.show_confirm_dialog,
            f.dry_run_plan is None,
            !f.dry_run_loading,
            f.dry_run_error is None,
            f.dry_run_job is None,
            f.error is None,
    {
        WriteFlow {
            pending_action: None,
            show_confirm_dialog: false,
            dry_run_plan: None,
            dry_run_loading: false,
            dry_run_error: None,
            dry_run_job: None,
            error: None,
        }
    }

    /// Asks to restore a backup: confirmation only, no dry run. Any
    /// leftover dry run is dropped. Refused in demo mode.
    pub fn begin_backup_restore(&mut self, ui_demo: bool, path: String)
        ensures
            ui_demo ==> final(self).error is Some && final(self).error->Some_0@
                == demo_write_message() && final(self).pending_action == old(
                self,
            ).pending_action && final(self).show_confirm_dialog == old(self).show_confirm_dialog
                && final(self).dry_run_plan == old(self).dry_run_plan && final(self).dry_run_loading
                == old(self).dry_run_loading && final(self).dry_run_error == old(self).dry_run_error
                && final(self).dry_run_job == old(self).dry_run_job,
            !ui_demo ==> final(self).pending_action == Some(
                PendingAction::BackupRestore { path },
            ) && final(self).show_confirm_dialog && final(self).dry_run_plan is None
                && !final(self).dry_run_loading && final(self).dry_run_error is None
                && final(self).dry_run_job is None && final(self).error == old(self).error,
    {
        if ui_demo {
            self.error = Some(demo_write_error());
            return;
        }
        self.dry_run_plan = None;
        self.dry_run_loading = false;
        self.dry_run_error = None;
        self.dry_run_job = None;
        self.pending_action = Some(PendingAction::BackupRestore { path });
        self.show_confirm_dialog = true;
    }

    /// Decides whether a dry run may start for `action`: never for a backup
    /// restore (which has no plan; nothing changes), not in demo mode, and
    /// not when `resolve_dry_run_action` refuses it (the error banner then
    /// shows why). Returns the action to preview; the flow is not armed yet.
    pub fn admit_dry_run(&mut self, action: PendingAction, ui_demo: bool, library_ready: bool) -> (r:
        Option<PendingAction>)
        ensures
            action is BackupRestore ==> r is None && *final(self) == *old(self),
            !(action is BackupRestore) && ui_demo ==> r is None && final(self).error is Some
                && final(self).error->Some_0@ == demo_write_message(),
            !(action is BackupRestore) && !ui_demo ==> match action {
                PendingAction::PlaylistSync { rule_based, .. } if rule_based && !library_ready => r
                    is None && final(self).error is Some && final(self).error->Some_0@
                    == scan_first_message(),
                _ => r == Some(action) && final(self).error == old(self).error,
            },
            final(self).pending_action == old(self).pending_action,
            final(self).show_confirm_dialog == old(self).show_confirm_dialog,
            final(self).dry_run_plan == old(self).dry_run_plan,
            final(self).dry_run_loading == old(self).dry_run_loading,
            final(self).dry_run_job == old(self).dry_run_job,
    {
        if let PendingAction::BackupRestore { .. } = action {
            return None;
        }
        if ui_demo {
            self.error = Some(demo_write_error());
            return None;
        }
        match resolve_dry_run_action(action, library_ready) {
            Ok(a) => Some(a),
            Err(e) => {
                self.error = Some(e);
                None
            },
        }
    }

    /// Arms the flow for an admitted action's dry run, run as `ticket`.
    pub fn arm_dry_run(&mut self, action: PendingAction, ticket: JobTicket)
        requires
            !(action is BackupRestore),
        ensures
            final(self).dry_run_loading,
            final(self).dry_run_error is None,
            final(self).dry_run_plan is None,
            final(self).pending_action == Some(action),
            final(self).dry_run_job == Some(ticket),
            final(self).show_confirm_dialog == old(self).show_confirm_dialog,
            final(self).error == old(self).error,
    {
        self.dry_run_loading = true;
        self.dry_run_error = None;
        self.dry_run_plan = None;
        self.pending_action = Some(action);
        self.dry_run_job = Some(ticket);
    }

    /// Takes in a dry run's result: a plan opens the confirmation dialog; an
    /// error is kept for the banner and drops the pending action.
    pub fn finish_dry_run(&mut self, result: Result<P, String>)
        ensures
            !final(self).dry_run_loading,
            final(self).dry_run_job is None,
            final(self).error == old(self).error,
            match result {
                Ok(plan) => final(self).dry_run_plan == Some(plan) && final(self).dry_run_error
                    is None && final(self).show_confirm_dialog && final(self).pending_action == old(
                    self,
                ).pending_action,
                Err(e) => final(self).dry_run_error == Some(e) && final(self).pending_action
                    is None && final(self).dry_run_plan == old(self).dry_run_plan
                    && final(self).show_confirm_dialog == old(self).show_confirm_dialog,
            },
    {
        self.dry_run_loading = false;
        self.dry_run_job = None;
        match result {
            Ok(plan) => {
                self.dry_run_plan = Some(plan);
                self.dry_run_error = None;
                self.show_confirm_dialog = true;
            },
            Err(e) => {
                self.dry_run_error = Some(e);
                self.pending_action = None;
            },
        }
    }

    /// Stops waiting for a dry run whose inputs changed.
    pub fn abandon_dry_run(&mut self)
        ensures
            !final(self).dry_run_loading,
            final(self).dry_run_job is None,
            final(self).pending_action == old(self).pending_action,
            final(self).dry_run_plan == old(self).dry_run_plan,
            final(self).dry_run_error == old(self).dry_run_error,
            final(self).show_confirm_dialog == old(self).show_confirm_dialog,
            final(self).error == old(self).error,
    {
        self.dry_run_loading = false;
        self.dry_run_job = None;
    }

    /// Moves a dry-run error to the banner unless the confirmation dialog
    /// is open; the error is taken in either case.
    pub fn surface_dry_run_error(&mut self)
        ensures
            final(self).dry_run_error is None,
            final(self).error == (if old(self).dry_run_error is Some
                && !old(self).show_confirm_dialog {
                old(self).dry_run_error
            } else {
                old(self).error
            }),
            final(self).pending_action == old(self).pending_action,
            final(self).dry_run_plan == old(self).dry_run_plan,
            final(self).show_confirm_dialog == old(self).show_confirm_dialog,
            final(self).dry_run_loading == old(self).dry_run_loading,
            final(self).dry_run_job == old(self).dry_run_job,
    {
        let taken = self.dry_run_error.take();
        match taken {
            Some(e) => {
                if !self.show_confirm_dialog {
                    self.error = Some(e);
                }
            },
            None => {},
        }
    }

    /// Cancels the confirmation: the dialog closes and the pending action,
    /// its plan and any dry run in flight are dropped.
    pub fn clear_confirm(&mut self)
        ensures
            !final(self).show_confirm_dialog,
            final(self).pending_action is None,
            final(self).dry_run_plan is None,
            !final(self).dry_run_loading,
            final(self).dry_run_error == old(self).dry_run_error,
            final(self).dry_run_job == old(self).dry_run_job,
            final(self).error == old(self).error,
    {
        self.show_confirm_dialog = false;
        self.pending_action = None;
        self.dry_run_plan = None;
        self.dry_run_loading = false;
    }

    /// Carries out the confirmed action: the dialog closes and the action
    /// is taken. A backup restore drops any leftover plan and restores the
    /// file; any other action commits its previewed plan, or is refused
    /// when none was previewed.
    pub fn execute_pending_action(&mut self) -> (step: WriteStep<P>)
        ensures
            match old(self).pending_action {
                None => step is Nothing && *final(self) == *old(self),
                Some(action) => {
                    &&& final(self).pending_action is None
                    &&& !final(self).show_confirm_dialog
                    &&& final(self).dry_run_plan is None
                    &&& match action {
                        PendingAction::BackupRestore { path } => step == WriteStep::<P>::RestoreBackup { path },
                        _ => match old(self).dry_run_plan {
                            Some(plan) => step == WriteStep::CommitPlan { plan },
                            None => step is Refuse && step->Refuse_message@ == no_plan_message(action),
                        },
                    }
                },
            },
            final(self).dry_run_loading == old(self).dry_run_loading,
            final(self).dry_run_error == old(self).dry_run_error,
            final(self).dry_run_job == old(self).dry_run_job,
            final(self).error == old(self).error,
    {
        let taken = self.pending_action.take();
        let action = match taken {
            None => {
                return WriteStep::Nothing;
            },
            Some(a) => a,
        };
        self.show_confirm_dialog = false;
        let plan = self.dry_run_plan.take();
        match action {
            PendingAction::BackupRestore { path } => WriteStep::RestoreBackup { path },
            PendingAction::RecommendCollection => match plan {
                Some(p) => WriteStep::CommitPlan { plan: p },
                None => WriteStep::Refuse {
                    message: String::from_str("Recommendation collection writes require a dry-run plan."),
                },
            },
            PendingAction::PlaylistSync { .. } => match plan {
                Some(p) => WriteStep::CommitPlan { plan: p },
                None => WriteStep::Refuse {
                    message: String::from_str("Playlist sync writes require a dry-run plan."),
                },
            },
            _ => match plan {
                Some(p) => WriteStep::CommitPlan { plan: p },
                None => WriteStep::Refuse {
                    message: String::from_str("Junk writes require a confirmed dry-run plan."),
                },
            },
        }
    }
}

/// Whether the confirm button of the write dialog may be pressed: never in
/// demo mode, and not while a dry run is still running.
pub fn confirm_enabled(ui_demo: bool, dry_run_loading: bool) -> (b: bool)
    ensures
        b == !(ui_demo || dry_run_loading),
{
    !(ui_demo || dry_run_loading)
}

/// The number of backups kept when neither Settings nor the configuration
/// says otherwise.
pub const DEFAULT_BACKUP_RETENTION: u32 = 5;

/// Backup retention for write commits: the Settings field when it holds a
/// whole number, else the configured count, else the default.
pub fn backup_retention(edit: &str, configured: Option<u32>) -> (n: u32)
    ensures
        n == match text::parse_u32_spec(text::trimmed(edit@)) {
            Some(v) => v,
            None => match configured {
                Some(c) => c,
                None => DEFAULT_BACKUP_RETENTION,
            },
        },
{
    let t = text::trim_chars(&text::chars_of(edit));
    match text::parse_u32(&t) {
        Some(v) => v,
        None => match configured {
            Some(c) => c,
            None => DEFAULT_BACKUP_RETENTION,
        },
    }
}

/// The message when the Settings retention field is not a whole number.
pub open spec fn retention_field_message() -> Seq<char> {
    "backup_retention_count: must be a non-negative integer"@
}

/// What the Settings retention field sets: `None` when it is neither blank
/// nor a whole number; otherwise `None` inside (clear the setting) for a
/// blank field, or the trimmed text.
pub open spec fn retention_setting(edit: Seq<char>) -> Option<Option<Seq<char>>> {
    let t = text::trimmed(edit);
    if t.len() == 0 {
        Some(None)
    } else if text::parse_u32_spec(t) is Some {
        Some(Some(t))
    } else {
        None
    }
}

/// The configuration update that saving Settings makes for the retention
/// field: a blank field clears the setting (`None`), a whole number sets
/// it to the trimmed text, anything else is refused.
pub fn backup_retention_setting(edit: &str) -> (r: Result<Option<String>, String>)
    ensures
        match retention_setting(edit@) {
            None => r is Err && r->Err_0@ == retention_field_message(),
            Some(None) => r == Ok::<Option<String>, String>(None),
            Some(Some(t)) => r is Ok && r->Ok_0 is Some && r->Ok_0->Some_0@ == t,
        },
{
    let t = text::trim_chars(&text::chars_of(edit));
    if t.len() == 0 {
        return Ok(None);
    }
    match text::parse_u32(&t) {
        Some(_) => Ok(Some(text::string_of(&t))),
        None => Err(String::from_str("backup_retention_count: must be a non-negative integer")),
    }
}

} // verus!
