use vapourfly_gui::frame::{
    first_recommendation, EnrichCounts, FrameAction, LibraryState, PreparedLibrary,
};
use vapourfly_gui::generators::prepare_fingerprint_inputs;
use vapourfly_gui::jobs::{
    fingerprint_u64, job_input_fingerprint, poll_job, JobPoll, JobRunner, JobSlot, WorkflowKind,
};
use vapourfly_gui::requests::{recommend_minutes_minus, recommend_minutes_plus};
use vapourfly_gui::writes::confirm_enabled;

fn idle_state() -> LibraryState<Vec<u32>, u64> {
    LibraryState {
        scan_result: None,
        scan_generation: 0,
        cache_refresh_generation: 0,
        prepared_snapshot: None,
        prepare_job: None,
        prepare_fingerprint: None,
        loading: false,
        scan_job: None,
        write_loading: false,
        write_job: None,
        cache_refresh_loading: false,
        enrich_job: None,
        error: None,
        success_msg: None,
        cache_refresh_msg: None,
    }
}

fn prepare_fp(state: &LibraryState<Vec<u32>, u64>) -> u64 {
    fingerprint_u64(&prepare_fingerprint_inputs(
        state.scan_generation,
        state.cache_refresh_generation,
        "/cache",
        "",
    ))
}

#[test]
fn rescan_with_same_game_count_invalidates_snapshot() {
    let mut runner = JobRunner::new();
    let mut slot: JobSlot<Vec<u32>> = JobSlot::new();
    let mut state = idle_state();
    assert!(state.needs_first_scan());

    // First scan.
    let t1 = runner.next_ticket(WorkflowKind::Scan, "scan:a");
    state.loading = true;
    state.scan_job = Some(t1);
    slot.set(t1, Ok(vec![1000, 1001]));
    let fp = job_input_fingerprint("scan:a");
    let action = state.adopt_scan(poll_job(state.loading, state.scan_job, fp, &mut slot));
    assert!(matches!(action, FrameAction::AfterScan));
    assert!(!state.loading && state.scan_job.is_none());
    assert_eq!(state.scan_generation, 1);
    assert!(!state.needs_first_scan());

    // A snapshot prepared for these inputs.
    let snapshot_fp = prepare_fp(&state);
    state.prepared_snapshot = Some(PreparedLibrary {
        fingerprint: snapshot_fp,
        games: 24,
    });

    // Rescan with the same number of games.
    let t2 = runner.next_ticket(WorkflowKind::Scan, "scan:a");
    state.loading = true;
    state.scan_job = Some(t2);
    slot.set(t2, Ok(vec![1000, 1002]));
    let action = state.adopt_scan(poll_job(state.loading, state.scan_job, fp, &mut slot));
    assert!(matches!(action, FrameAction::AfterScan));
    assert_eq!(state.scan_result, Some(vec![1000, 1002]));
    assert_eq!(state.scan_generation, 2);
    assert!(state.prepared_snapshot.is_none());
    assert_ne!(prepare_fp(&state), snapshot_fp);
}

#[test]
fn cache_refresh_generation_invalidates_snapshot() {
    let mut runner = JobRunner::new();
    let mut slot: JobSlot<EnrichCounts> = JobSlot::new();
    let mut state = idle_state();
    state.scan_result = Some(vec![1000]);
    let snapshot_fp = prepare_fp(&state);
    state.prepared_snapshot = Some(PreparedLibrary {
        fingerprint: snapshot_fp,
        games: 24,
    });

    let t = runner.next_ticket(WorkflowKind::CacheRefresh, "cache_refresh");
    state.cache_refresh_loading = true;
    state.enrich_job = Some(t);
    slot.set(
        t,
        Ok(EnrichCounts {
            games_processed: 24,
            network_fetches: 10,
            cache_hits: 14,
            errors: 0,
        }),
    );
    let action =
        state.adopt_cache_refresh(poll_job(state.cache_refresh_loading, state.enrich_job, None, &mut slot));
    assert!(matches!(action, FrameAction::ReloadSourceStatuses));
    assert!(!state.cache_refresh_loading);
    assert_eq!(state.cache_refresh_generation, 1);
    assert_eq!(
        state.cache_refresh_msg.as_deref(),
        Some("Refresh complete: 24 games processed, 10 network fetches, 14 cache hits, 0 errors")
    );
    assert_ne!(prepare_fp(&state), snapshot_fp);
}

#[test]
fn failed_jobs_reach_the_banners() {
    let mut state = idle_state();
    state.loading = true;
    let action = state.adopt_scan(JobPoll::Finished(Err("no steam".to_string())));
    assert!(matches!(action, FrameAction::Nothing));
    assert!(!state.loading);
    assert_eq!(state.error.as_deref(), Some("no steam"));
    assert!(state.scan_result.is_none());
    assert_eq!(state.scan_generation, 0);
    assert!(!state.needs_first_scan(), "an error stops the automatic first scan");

    state.cache_refresh_loading = true;
    state.adopt_cache_refresh(JobPoll::Finished(Err("offline".to_string())));
    assert_eq!(state.cache_refresh_msg.as_deref(), Some("Error: offline"));
    assert_eq!(state.cache_refresh_generation, 0);
}

#[test]
fn finished_write_asks_for_a_rescan() {
    let mut state = idle_state();
    state.write_loading = true;
    let action = state.adopt_write(JobPoll::Finished(Ok("Write complete.".to_string())));
    assert!(matches!(action, FrameAction::StartScan));
    assert!(!state.write_loading);
    assert_eq!(state.success_msg.as_deref(), Some("Write complete."));
    state.write_loading = true;
    let action = state.adopt_write(JobPoll::Finished(Err("Write failed".to_string())));
    assert!(matches!(action, FrameAction::Nothing));
    assert_eq!(state.error.as_deref(), Some("Write failed"));
}

#[test]
fn abandoned_and_waiting_scans() {
    let mut state = idle_state();
    state.loading = true;
    assert!(matches!(state.adopt_scan(JobPoll::Waiting), FrameAction::Nothing));
    assert!(state.loading);
    assert!(matches!(state.adopt_scan(JobPoll::Abandoned), FrameAction::Nothing));
    assert!(!state.loading);
    assert_eq!(state.scan_generation, 0);
}

#[test]
fn first_recommendation_is_selected() {
    assert_eq!(first_recommendation(&vec![1003, 1008]), Some(1003));
    assert_eq!(first_recommendation(&vec![]), None);
}

#[test]
fn write_confirm_is_gated() {
    assert!(confirm_enabled(false, false));
    assert!(!confirm_enabled(true, false));
    assert!(!confirm_enabled(false, true));
}

#[test]
fn recommend_minutes_steppers() {
    assert_eq!(recommend_minutes_minus("120"), "90");
    assert_eq!(recommend_minutes_minus("30"), "15");
    assert_eq!(recommend_minutes_minus("soon"), "90");
    assert_eq!(recommend_minutes_plus("120"), "150");
    assert_eq!(recommend_minutes_plus(""), "150");
}

#[test]
fn library_prepare_snapshot_populates_and_is_reused() {
    let mut runner = JobRunner::new();
    let mut slot: JobSlot<PreparedLibrary<u64>> = JobSlot::new();
    let mut state = idle_state();
    // Nothing to prepare before a scan.
    assert!(state.start_prepare(5, &mut runner).is_none());
    state.scan_result = Some(vec![1000]);
    let t = state.start_prepare(5, &mut runner).expect("prepare starts");
    assert_eq!(t.kind, WorkflowKind::Prepare);
    assert_eq!(state.prepare_job, Some(t));
    assert_eq!(state.prepare_fingerprint, Some(5));
    // Started at most once for the same inputs.
    assert!(state.start_prepare(5, &mut runner).is_none());
    assert!(state.prepared_games(5).is_none());
    slot.set(t, Ok(PreparedLibrary { fingerprint: 5, games: 24 }));
    state.adopt_prepared(poll_job(state.prepare_job.is_some(), state.prepare_job, None, &mut slot));
    assert!(state.prepare_job.is_none() && state.prepare_fingerprint.is_none());
    assert_eq!(state.prepared_games(5), Some(&24));
    // Reused: no new prepare for the same inputs.
    assert!(state.start_prepare(5, &mut runner).is_none());
    // New inputs: the stale snapshot is not served and a prepare starts.
    assert!(state.prepared_games(6).is_none());
    assert!(state.start_prepare(6, &mut runner).is_some());
    // A failed hydration keeps the old snapshot.
    state.adopt_prepared(JobPoll::Finished(Err("cache".to_string())));
    assert!(state.prepare_job.is_none());
    assert_eq!(state.prepared_games(5), Some(&24));
}
