use vapourfly_gui::rules::PlaylistRule;
use vapourfly_gui::playlist::{manual_playlist_app_ids_csv, parse_manual_app_ids, PlaylistContent};
use vapourfly_gui::generators::{dynamic_current_inputs, junk_preview_fp, mood_current_inputs};
use vapourfly_gui::jobs::{fingerprint_u64, poll_strict_job, JobPoll, JobRunner, JobSlot, WorkflowKind};
use vapourfly_gui::navigation::JunkModeChoice;
use vapourfly_gui::discover::resolve_discover_seed;
use vapourfly_gui::generators::{
    dynamic_fp, mood_fp, prepare_fingerprint_inputs, scan_fingerprint, GeneratorIdentity,
};
use vapourfly_gui::library::GameFacts;

fn library() -> Vec<GameFacts> {
    vec![
        GameFacts::new(1001, "Fields of Luma"),
        GameFacts::new(1002, "Portal"),
        GameFacts::new(1003, "Portal 2"),
        GameFacts::new(1004, "Half-Life"),
    ]
}

#[test]
fn discover_seed_blank_means_no_seed() {
    assert_eq!(resolve_discover_seed("", &library()), Ok(None));
    assert_eq!(resolve_discover_seed("   ", &library()), Ok(None));
}

#[test]
fn discover_seed_accepts_numeric_app_id() {
    assert_eq!(resolve_discover_seed("1001", &library()), Ok(Some(1001)));
    assert_eq!(resolve_discover_seed(" 730 ", &library()), Ok(Some(730)));
}

#[test]
fn discover_seed_matches_exact_name_ignoring_ascii_case() {
    assert_eq!(
        resolve_discover_seed("fields of luma", &library()),
        Ok(Some(1001))
    );
    // "Portal" matches one name exactly although two names contain it.
    assert_eq!(resolve_discover_seed("PORTAL", &library()), Ok(Some(1002)));
}

#[test]
fn discover_seed_matches_single_substring() {
    assert_eq!(resolve_discover_seed("luma", &library()), Ok(Some(1001)));
    assert_eq!(resolve_discover_seed("half", &library()), Ok(Some(1004)));
}

#[test]
fn discover_seed_reports_no_match() {
    assert_eq!(
        resolve_discover_seed("no such game", &library()),
        Err("No library game matches “no such game”. Try a fuller name or AppID.".to_string())
    );
    assert_eq!(
        resolve_discover_seed("x", &vec![]),
        Err("No library game matches “x”. Try a fuller name or AppID.".to_string())
    );
}

#[test]
fn discover_seed_reports_several_matches() {
    assert_eq!(
        resolve_discover_seed("  orta ", &library()),
        Err("2 games match “orta”. Use a fuller name or AppID.".to_string())
    );
}

#[test]
fn generator_slot_ids_are_stable_per_identity() {
    assert_eq!(GeneratorIdentity::Discover.slot_id(), "discover");
    assert_eq!(
        GeneratorIdentity::Dynamic {
            template_id: "deck-session".to_string()
        }
        .slot_id(),
        "dynamic-deck-session"
    );
    assert_eq!(
        GeneratorIdentity::Mood {
            mood_id: "quick-round".to_string()
        }
        .slot_id(),
        "mood-quick-round"
    );
}

#[test]
fn generator_fingerprints_describe_their_inputs() {
    assert_eq!(
        dynamic_fp("deck-session", 90, 25, 0),
        "dynamic:deck-session:90:25:lib=0"
    );
    assert_eq!(mood_fp("quick-round", 0), "mood:quick-round:lib=0");
    assert_eq!(mood_fp("quick-round", 17), "mood:quick-round:lib=17");
    assert_ne!(mood_fp("quick-round", 1), mood_fp("quick-round", 2));
}

#[test]
fn scan_and_prepare_inputs_are_described_in_full() {
    assert_eq!(
        scan_fingerprint("/steam", "123", "", true),
        "scan:dir=/steam:acct=123:fix=:offline=true"
    );
    assert_eq!(
        scan_fingerprint("/steam", "123", "fx", false),
        "scan:dir=/steam:acct=123:fix=fx:offline=false"
    );
    assert_eq!(
        prepare_fingerprint_inputs(3, 12, "/cache", "/ovr.json"),
        "prepare:scan_gen=3:gen=12:cache=/cache:ovr=/ovr.json"
    );
    // A new scan or a cache refresh changes the prepare inputs.
    assert_ne!(
        prepare_fingerprint_inputs(1, 12, "c", "o"),
        prepare_fingerprint_inputs(11, 2, "c", "o")
    );
}

#[test]
fn manual_playlist_app_ids_csv_joins_with_comma_space() {
    let manual = PlaylistContent::Manual {
        app_ids: vec![730, 427520],
    };
    assert_eq!(manual_playlist_app_ids_csv(&manual), "730, 427520");
    let one = PlaylistContent::Manual { app_ids: vec![7] };
    assert_eq!(manual_playlist_app_ids_csv(&one), "7");
    let empty = PlaylistContent::Manual { app_ids: vec![] };
    assert_eq!(manual_playlist_app_ids_csv(&empty), "");
    let rules = PlaylistContent::Rules {
        rules: vec![PlaylistRule::Installed],
    };
    assert_eq!(manual_playlist_app_ids_csv(&rules), "");
}

#[test]
fn manual_playlist_app_ids_csv_round_trips_through_parser() {
    let ids = vec![10, 440, 730, 427520];
    let manual = PlaylistContent::Manual { app_ids: ids.clone() };
    let csv = manual_playlist_app_ids_csv(&manual);
    assert_eq!(parse_manual_app_ids(&csv), Ok(ids));
}


fn current_fp(inputs: Option<String>) -> Option<u64> {
    inputs.map(|s| fingerprint_u64(&s))
}

#[test]
fn dynamic_current_inputs_need_template_and_whole_numbers() {
    assert_eq!(
        dynamic_current_inputs(Some("deck-session"), " 90 ", "25", 3),
        Some("dynamic:deck-session:90:25:lib=3".to_string())
    );
    assert_eq!(dynamic_current_inputs(None, "90", "25", 3), None);
    assert_eq!(dynamic_current_inputs(Some("deck-session"), "abc", "25", 3), None);
    assert_eq!(dynamic_current_inputs(Some("deck-session"), "90", "-1", 3), None);
    assert_eq!(
        mood_current_inputs(Some("quick-round"), 0),
        Some("mood:quick-round:lib=0".to_string())
    );
    assert_eq!(mood_current_inputs(None, 0), None);
}

#[test]
fn junk_preview_inputs_cover_mode_and_generations() {
    assert_eq!(
        junk_preview_fp(JunkModeChoice::Strict, 2, 5),
        "junk_preview:Strict:lib=2:ovr=5"
    );
    assert_ne!(
        junk_preview_fp(JunkModeChoice::Default, 2, 5),
        junk_preview_fp(JunkModeChoice::Default, 2, 6)
    );
}

#[test]
fn dynamic_invalid_input_mid_job_discards_result() {
    let mut runner = JobRunner::new();
    let mut slot: JobSlot<(GeneratorIdentity, Vec<u32>)> = JobSlot::new();
    let started = dynamic_current_inputs(Some("deck-session"), "90", "25", 0).unwrap();
    assert_eq!(started, "dynamic:deck-session:90:25:lib=0");
    let ticket = runner.next_ticket(WorkflowKind::Dynamic, &started);
    let identity = GeneratorIdentity::Dynamic {
        template_id: "deck-session".to_string(),
    };
    slot.set(ticket, Ok((identity, vec![1000, 1007])));
    // The minutes become invalid mid-job.
    let now = current_fp(dynamic_current_inputs(Some("deck-session"), "abc", "25", 0));
    assert!(matches!(
        poll_strict_job(true, Some(ticket), now, &mut slot),
        JobPoll::Abandoned
    ));
}

#[test]
fn mood_invalid_input_mid_job_discards_result() {
    let mut runner = JobRunner::new();
    let mut slot: JobSlot<(GeneratorIdentity, Vec<u32>)> = JobSlot::new();
    let started = mood_current_inputs(Some("quick-round"), 0).unwrap();
    let ticket = runner.next_ticket(WorkflowKind::Mood, &started);
    let identity = GeneratorIdentity::Mood {
        mood_id: "quick-round".to_string(),
    };
    slot.set(ticket, Ok((identity, vec![1002, 1009])));
    // The chooser now names no mood.
    let now = current_fp(mood_current_inputs(None, 0));
    assert!(matches!(
        poll_strict_job(true, Some(ticket), now, &mut slot),
        JobPoll::Abandoned
    ));
}

#[test]
fn dynamic_result_uses_start_time_identity_not_current_chooser() {
    let mut runner = JobRunner::new();
    let mut slot: JobSlot<(GeneratorIdentity, Vec<u32>)> = JobSlot::new();
    let started = dynamic_current_inputs(Some("deck-session"), "90", "25", 0).unwrap();
    let ticket = runner.next_ticket(WorkflowKind::Dynamic, &started);
    let identity = GeneratorIdentity::Dynamic {
        template_id: "deck-session".to_string(),
    };
    slot.set(ticket, Ok((identity, vec![1000, 1007])));
    // The user switches the chooser to another template: the job is
    // abandoned rather than redirected.
    let switched = current_fp(dynamic_current_inputs(Some("finish-it"), "90", "25", 0));
    assert!(matches!(
        poll_strict_job(true, Some(ticket), switched, &mut slot),
        JobPoll::Abandoned
    ));
    // With the start-time inputs the result arrives with its own identity.
    let same = current_fp(dynamic_current_inputs(Some("deck-session"), "90", "25", 0));
    match poll_strict_job(true, Some(ticket), same, &mut slot) {
        JobPoll::Finished(Ok((identity, ids))) => {
            assert_eq!(identity.slot_id(), "dynamic-deck-session");
            assert_eq!(ids, vec![1000, 1007]);
        }
        _ => panic!("expected the finished result"),
    }
}

#[test]
fn mood_result_uses_start_time_identity_not_current_chooser() {
    let mut runner = JobRunner::new();
    let mut slot: JobSlot<(GeneratorIdentity, Vec<u32>)> = JobSlot::new();
    let started = mood_current_inputs(Some("quick-round"), 0).unwrap();
    let ticket = runner.next_ticket(WorkflowKind::Mood, &started);
    let identity = GeneratorIdentity::Mood {
        mood_id: "quick-round".to_string(),
    };
    slot.set(ticket, Ok((identity, vec![1002, 1009])));
    let switched = current_fp(mood_current_inputs(Some("friday-party"), 0));
    assert!(matches!(
        poll_strict_job(true, Some(ticket), switched, &mut slot),
        JobPoll::Abandoned
    ));
    let same = current_fp(mood_current_inputs(Some("quick-round"), 0));
    match poll_strict_job(true, Some(ticket), same, &mut slot) {
        JobPoll::Finished(Ok((identity, _))) => {
            assert_eq!(identity.slot_id(), "mood-quick-round")
        }
        _ => panic!("expected the finished result"),
    }
}
