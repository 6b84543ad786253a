use vapourfly_gui::captions::{empty_or, parse_required_count, this_tier_label};
use vapourfly_gui::editor::InputSync;
use vapourfly_gui::jobs::PollArm;
use vapourfly_gui::library::{LibrarySort, ProtonTier};
use vapourfly_gui::navigation::{
    cycle_library_sort, sort_button_label, view_entry, Destination, DialogPump,
};
use vapourfly_gui::editor::{export_target, import_needs_replace_confirm, PlaylistEditor};
use vapourfly_gui::jobs::{BackgroundWork, JobRunner, WorkflowKind};
use vapourfly_gui::library::GameFacts;
use vapourfly_gui::playlist::PlaylistContent;
use vapourfly_gui::rules::PlaylistRule;
use vapourfly_gui::requests::{discover_options_from_inputs, recommend_request_from_inputs};
use vapourfly_gui::sources::{cache_refresh_start, should_start_background_populate, CacheRefreshStart};
use vapourfly_gui::writes::{
    backup_retention, backup_retention_setting, resolve_dry_run_action, write_confirm_copy,
    PendingAction, WriteFlow, WriteStep, DEFAULT_BACKUP_RETENTION,
};

fn test_game(app_id: u32, name: &str) -> GameFacts {
    GameFacts::new(app_id, name)
}

fn editor_with(id: &str, name: &str) -> PlaylistEditor {
    let mut e = PlaylistEditor::new();
    e.id = id.to_string();
    e.name = name.to_string();
    e
}

#[test]
fn build_playlist_from_edit_fields_creates_rule_based_playlist() {
    let mut e = editor_with("installed-unplayed", "Installed Unplayed");
    e.rules = r#"[{"op":"Installed"},{"op":"NotHidden"}]"#.to_string();
    // App IDs are ignored when rules are present.
    e.app_ids = "999, 9999".to_string();
    let pf = e.build_playlist_from_edit_fields(Ok(()), Ok(vec![PlaylistRule::Installed, PlaylistRule::NotHidden])).unwrap();
    assert_eq!(pf.id, "installed-unplayed");
    assert_eq!(pf.schema, "vapourfly.playlist.v1");
    assert_eq!(pf.created_by, "user");
    match &pf.content {
        PlaylistContent::Rules { rules } => assert_eq!(rules.len(), 2),
        PlaylistContent::Manual { .. } => panic!("expected rule-based playlist"),
    }
}

#[test]
fn build_playlist_from_edit_fields_rejects_invalid_rules_json() {
    let mut e = editor_with("bad", "Bad");
    e.rules = "not json".to_string();
    let err = e.build_playlist_from_edit_fields(
        Ok(()),
        Err("expected ident at line 1 column 2".to_string()),
    );
    assert!(err.is_err());
    let msg = err.err().unwrap();
    assert!(msg.contains("Invalid Rules JSON"));
    assert_eq!(msg, "Invalid Rules JSON: expected ident at line 1 column 2");
}

#[test]
fn build_playlist_from_edit_fields_rejects_empty_rules_array() {
    let mut e = editor_with("empty", "Empty");
    e.rules = "[]".to_string();
    let err = e.build_playlist_from_edit_fields(Ok(()), Ok(vec![]));
    assert!(err.is_err());
    assert!(err.err().unwrap().contains("at least one rule"));
}

#[test]
fn apply_playlist_name_edit_slugifies_id_while_auto() {
    let mut e = PlaylistEditor::new();
    assert!(e.id_auto);
    e.apply_playlist_name_edit("My Cool List".to_string(), "my-cool-list".to_string());
    assert_eq!(e.name, "My Cool List");
    assert_eq!(e.id, "my-cool-list");
    e.apply_playlist_id_edit("custom-id".to_string());
    assert!(!e.id_auto);
    e.apply_playlist_name_edit("Other Name".to_string(), "other-name".to_string());
    assert_eq!(e.id, "custom-id");
}

#[test]
fn reset_playlist_editor_clears_fields_and_bumps_generation() {
    let mut e = PlaylistEditor::new();
    e.name = "Kept".to_string();
    e.id = "kept".to_string();
    e.description = "d".to_string();
    e.app_ids = "730".to_string();
    e.id_auto = false;
    let before = e.generation;
    e.reset_playlist_editor();
    assert!(e.name.is_empty());
    assert!(e.id.is_empty());
    assert!(e.description.is_empty());
    assert!(e.app_ids.is_empty());
    assert!(e.id_auto);
    assert_eq!(e.generation, before.wrapping_add(1));
    e.apply_playlist_name_edit("Fresh List".to_string(), "fresh-list".to_string());
    assert_eq!(e.id, "fresh-list");
    let built = e.build_playlist_from_edit_fields(Ok(()), Ok(vec![])).unwrap();
    assert_eq!(built.name, "Fresh List");
    assert_eq!(built.id, e.id);
}

#[test]
fn reset_playlist_editor_generation_wraps() {
    let mut e = PlaylistEditor::new();
    e.generation = u64::MAX;
    e.reset_playlist_editor();
    assert_eq!(e.generation, 0);
}

#[test]
fn build_playlist_from_edit_fields_requires_id_and_name() {
    let mut e = PlaylistEditor::new();
    // No id, no name.
    let err = e.build_playlist_from_edit_fields(Ok(()), Ok(vec![]));
    assert!(err.is_err());
    assert!(err.err().unwrap().contains("ID is required"));

    e.id = "has-id".to_string();
    let err = e.build_playlist_from_edit_fields(Ok(()), Ok(vec![]));
    assert!(err.is_err());
    assert!(err.err().unwrap().contains("name is required"));
}

#[test]
fn build_playlist_rejects_path_traversal_id() {
    let e = editor_with("../outside", "Test");
    let verdict = Err("Playlist id must be alphanumeric, '-' or '_' (no path separators)".to_string());
    let err = e.build_playlist_from_edit_fields(verdict, Ok(vec![]));
    assert!(err.is_err());
    let msg = err.err().unwrap();
    assert!(
        msg.contains("alphanumeric") || msg.contains("path separators"),
        "got: {msg}"
    );
}

#[test]
fn build_playlist_trims_id_and_name_and_parses_app_ids() {
    let mut e = editor_with("  deck  ", " Deck List ");
    e.description = " as typed ".to_string();
    e.app_ids = " 730, 440, 730 ".to_string();
    let d = e.build_playlist_from_edit_fields(Ok(()), Ok(vec![])).unwrap();
    assert_eq!(d.id, "deck");
    assert_eq!(d.name, "Deck List");
    assert_eq!(d.description, " as typed ");
    assert_eq!(d.created_by, "user");
    match &d.content {
        PlaylistContent::Manual { app_ids } => assert_eq!(app_ids, &vec![440, 730]),
        PlaylistContent::Rules { .. } => panic!("expected manual playlist"),
    }
    e.app_ids = "730,,440".to_string();
    assert_eq!(
        e.build_playlist_from_edit_fields(Ok(()), Ok(vec![])).err().unwrap(),
        "Empty AppID at position 2 — remove trailing commas or extra commas"
    );
}

#[test]
fn adopt_playlist_for_edit_fills_fields() {
    let mut e = PlaylistEditor::new();
    let content = PlaylistContent::Manual {
        app_ids: vec![730, 427520],
    };
    e.adopt_playlist_for_edit("deck-shortlist", "Deck Shortlist", "", &content, "");
    assert_eq!(e.id, "deck-shortlist");
    assert!(!e.id_auto);
    assert_eq!(e.name, "Deck Shortlist");
    assert_eq!(e.app_ids, "730, 427520");
    assert_eq!(e.rules, "");
    assert_eq!(e.generation, 1);
    let rules = PlaylistContent::Rules {
        rules: vec![PlaylistRule::Installed, PlaylistRule::NotHidden],
    };
    e.adopt_playlist_for_edit("r", "R", "d", &rules, "[\"Installed\"]");
    assert_eq!(e.app_ids, "");
    assert_eq!(e.rules, "[\"Installed\"]");
    assert_eq!(e.generation, 2);
}

#[test]
fn manual_playlist_app_ids_render_as_csv_for_editing() {
    let content = PlaylistContent::Manual {
        app_ids: vec![730, 427520],
    };
    assert_eq!(
        vapourfly_gui::playlist::manual_playlist_app_ids_csv(&content),
        "730, 427520"
    );
}

#[test]
fn discover_seed_resolves_name_or_app_id() {
    let games = vec![test_game(1001, "Fields of Luma")];
    assert_eq!(
        vapourfly_gui::discover::resolve_discover_seed("1001", &games).unwrap(),
        Some(1001)
    );
    assert_eq!(
        vapourfly_gui::discover::resolve_discover_seed("fields of luma", &games).unwrap(),
        Some(1001)
    );
    assert!(vapourfly_gui::discover::resolve_discover_seed("no such game", &games).is_err());
    assert_eq!(
        vapourfly_gui::discover::resolve_discover_seed("", &games).unwrap(),
        None
    );
}

#[test]
fn recommend_request_uses_optional_seed_input() {
    let request =
        recommend_request_from_inputs("90", "7", true, true, "12345", &vec![]).unwrap();
    assert_eq!(request.available_minutes, 90);
    assert_eq!(request.count, 7);
    assert_eq!(request.seed, Some(12345));
    assert!(request.deck_mode);
    assert!(request.include_installed_only);

    let request = recommend_request_from_inputs("90", "7", true, true, "", &vec![]).unwrap();
    assert_eq!(request.seed, None);
}

#[test]
fn recommend_request_carries_excluded_collections() {
    let excluded = vec!["Favorites".to_string(), "Backlog".to_string()];
    let request = recommend_request_from_inputs("60", "5", false, false, "", &excluded).unwrap();
    assert_eq!(
        request.exclude_collections,
        vec!["Favorites".to_string(), "Backlog".to_string()]
    );
}

#[test]
fn recommend_request_rejects_invalid_input() {
    let err = recommend_request_from_inputs("soon", "5", false, false, "", &vec![])
        .err()
        .unwrap();
    assert!(err.contains("Available minutes"));
    assert_eq!(
        recommend_request_from_inputs("60", "many", false, false, "", &vec![])
            .err()
            .unwrap(),
        "Count must be a whole number."
    );
    assert_eq!(
        recommend_request_from_inputs("60", "5", false, false, "x", &vec![])
            .err()
            .unwrap(),
        "Seed must be a whole number."
    );
}

#[test]
fn discover_options_use_count_and_seed_inputs() {
    let options = discover_options_from_inputs("367520", &vec![], "12").unwrap();
    assert_eq!(options.seed_app_id, Some(367520));
    assert_eq!(options.count, 12);
    assert_eq!(
        discover_options_from_inputs("", &vec![], "12")
            .unwrap()
            .seed_app_id,
        None
    );
    assert_eq!(
        discover_options_from_inputs("", &vec![], "lots").err().unwrap(),
        "Discover count must be a whole number."
    );
    // The seed is resolved before the count is read.
    assert_eq!(
        discover_options_from_inputs("nothing", &vec![], "lots").err().unwrap(),
        "No library game matches “nothing”. Try a fuller name or AppID."
    );
}

#[test]
fn pending_action_is_clone() {
    let a = PendingAction::JunkApply;
    let b = a.clone();
    assert_eq!(a, b);
    let c = PendingAction::BackupRestore {
        path: "/tmp/test".to_string(),
    };
    let d = c.clone();
    assert_eq!(c, d);
}

#[test]
fn backup_retention_prefers_settings_edit_field() {
    assert_eq!(backup_retention("1", Some(9)), 1);
    // Falls back to config or default when edit is invalid.
    assert_eq!(backup_retention("not-a-number", Some(9)), 9);
    assert_eq!(backup_retention("not-a-number", None), DEFAULT_BACKUP_RETENTION);
    assert_eq!(DEFAULT_BACKUP_RETENTION, 5);
    assert_eq!(backup_retention(" 7 ", None), 7, "Settings UI retention must drive write commit retention");
}

#[test]
fn backup_retention_setting_validates_the_field() {
    assert_eq!(backup_retention_setting("  "), Ok(None));
    assert_eq!(backup_retention_setting(" 12 "), Ok(Some("12".to_string())));
    assert_eq!(
        backup_retention_setting("-3"),
        Err("backup_retention_count: must be a non-negative integer".to_string())
    );
}

#[test]
fn write_confirm_copy_names_the_action() {
    assert_eq!(
        write_confirm_copy(&PendingAction::JunkApply),
        ("Apply junk candidates?".to_string(), "Apply")
    );
    assert_eq!(
        write_confirm_copy(&PendingAction::JunkHide),
        ("Hide the selected games?".to_string(), "Hide")
    );
    assert_eq!(
        write_confirm_copy(&PendingAction::RecommendCollection),
        ("Save recommendations as a Steam collection?".to_string(), "Save")
    );
    let sync = PendingAction::PlaylistSync {
        playlist_id: "deck".to_string(),
        rule_based: false,
    };
    assert_eq!(
        write_confirm_copy(&sync),
        ("Sync playlist “deck”?".to_string(), "Sync")
    );
    let restore = PendingAction::BackupRestore {
        path: "b.json".to_string(),
    };
    assert_eq!(
        write_confirm_copy(&restore),
        ("Restore backup?".to_string(), "Restore")
    );
}

#[test]
fn rule_based_sync_needs_a_prepared_library() {
    let rules = PendingAction::PlaylistSync {
        playlist_id: "r".to_string(),
        rule_based: true,
    };
    assert_eq!(
        resolve_dry_run_action(rules.clone(), false),
        Err("Scan your library before syncing a rule-based playlist.".to_string())
    );
    assert_eq!(resolve_dry_run_action(rules.clone(), true), Ok(rules));
    let manual = PendingAction::PlaylistSync {
        playlist_id: "m".to_string(),
        rule_based: false,
    };
    assert_eq!(resolve_dry_run_action(manual.clone(), false), Ok(manual));
    assert_eq!(
        resolve_dry_run_action(PendingAction::JunkHide, false),
        Ok(PendingAction::JunkHide)
    );
}

#[test]
fn start_dry_run_does_not_arm_backup_restore() {
    let mut flow: WriteFlow<u32> = WriteFlow::new();
    let admitted = flow.admit_dry_run(
        PendingAction::BackupRestore {
            path: "missing-backup.json".to_string(),
        },
        false,
        true,
    );
    assert!(admitted.is_none());
    assert!(!flow.dry_run_loading);
    assert!(flow.dry_run_job.is_none());
    assert!(flow.pending_action.is_none());
    assert!(!flow.show_confirm_dialog);
    flow.surface_dry_run_error();
    assert!(flow.pending_action.is_none());
    assert!(!flow.show_confirm_dialog);
    assert!(flow.error.is_none());
}

#[test]
fn begin_backup_restore_survives_tick_until_confirm() {
    let mut flow: WriteFlow<u32> = WriteFlow::new();
    flow.begin_backup_restore(false, "missing-backup.json".to_string());
    assert!(flow.show_confirm_dialog);
    assert!(!flow.dry_run_loading);
    assert!(flow.dry_run_plan.is_none());
    let expected = Some(PendingAction::BackupRestore {
        path: "missing-backup.json".to_string(),
    });
    assert_eq!(flow.pending_action, expected);
    flow.surface_dry_run_error();
    assert!(flow.show_confirm_dialog);
    assert_eq!(flow.pending_action, expected);
}

#[test]
fn begin_backup_restore_is_blocked_in_demo() {
    let mut flow: WriteFlow<u32> = WriteFlow::new();
    flow.begin_backup_restore(true, "missing-backup.json".to_string());
    assert!(!flow.show_confirm_dialog);
    assert!(flow.pending_action.is_none());
    assert!(flow.error.as_deref().is_some_and(|e| e.contains("demo mode")));
}

#[test]
fn backup_restore_confirm_clears_leftover_dry_run_plan() {
    let mut flow: WriteFlow<u32> = WriteFlow::new();
    // A stale junk plan from an earlier dry run.
    flow.dry_run_plan = Some(41);
    flow.pending_action = Some(PendingAction::BackupRestore {
        path: "missing-backup.json".to_string(),
    });
    let step = flow.execute_pending_action();
    assert!(flow.dry_run_plan.is_none());
    assert!(flow.pending_action.is_none());
    match step {
        WriteStep::RestoreBackup { path } => assert_eq!(path, "missing-backup.json"),
        _ => panic!("a restore must never commit a plan"),
    }
}

#[test]
fn confirmed_dry_run_commits_exactly_its_plan() {
    let mut runner = JobRunner::new();
    let mut flow: WriteFlow<u32> = WriteFlow::new();
    let action = flow.admit_dry_run(PendingAction::JunkApply, false, false).unwrap();
    let ticket = runner.next_ticket(WorkflowKind::DryRun, "junk");
    flow.arm_dry_run(action, ticket);
    assert!(flow.dry_run_loading);
    assert_eq!(flow.dry_run_job, Some(ticket));
    flow.finish_dry_run(Ok(7));
    assert!(flow.show_confirm_dialog);
    assert!(!flow.dry_run_loading);
    match flow.execute_pending_action() {
        WriteStep::CommitPlan { plan } => assert_eq!(plan, 7),
        _ => panic!("expected the previewed plan to be committed"),
    }
    assert!(!flow.show_confirm_dialog);
    assert!(flow.dry_run_plan.is_none());
    assert!(matches!(flow.execute_pending_action(), WriteStep::Nothing));
}

#[test]
fn writes_without_a_plan_are_refused() {
    let mut flow: WriteFlow<u32> = WriteFlow::new();
    flow.pending_action = Some(PendingAction::RecommendCollection);
    match flow.execute_pending_action() {
        WriteStep::Refuse { message } => assert_eq!(
            message,
            "Recommendation collection writes require a dry-run plan."
        ),
        _ => panic!("expected a refusal"),
    }
    flow.pending_action = Some(PendingAction::JunkHide);
    match flow.execute_pending_action() {
        WriteStep::Refuse { message } => {
            assert_eq!(message, "Junk writes require a confirmed dry-run plan.")
        }
        _ => panic!("expected a refusal"),
    }
    flow.pending_action = Some(PendingAction::PlaylistSync {
        playlist_id: "p".to_string(),
        rule_based: false,
    });
    match flow.execute_pending_action() {
        WriteStep::Refuse { message } => {
            assert_eq!(message, "Playlist sync writes require a dry-run plan.")
        }
        _ => panic!("expected a refusal"),
    }
}

#[test]
fn dry_run_errors_reach_the_banner_unless_confirming() {
    let mut flow: WriteFlow<u32> = WriteFlow::new();
    flow.pending_action = Some(PendingAction::JunkApply);
    flow.dry_run_loading = true;
    flow.finish_dry_run(Err("Safety check failed".to_string()));
    assert!(flow.pending_action.is_none());
    flow.surface_dry_run_error();
    assert_eq!(flow.error.as_deref(), Some("Safety check failed"));
    assert!(flow.dry_run_error.is_none());

    let mut confirming: WriteFlow<u32> = WriteFlow::new();
    confirming.show_confirm_dialog = true;
    confirming.dry_run_error = Some("late".to_string());
    confirming.surface_dry_run_error();
    assert!(confirming.error.is_none());
    assert!(confirming.dry_run_error.is_none());
}

#[test]
fn demo_mode_refuses_dry_runs() {
    let mut flow: WriteFlow<u32> = WriteFlow::new();
    assert!(flow.admit_dry_run(PendingAction::JunkApply, true, true).is_none());
    assert!(flow.error.as_deref().is_some_and(|e| e.contains("demo mode")));
}

#[test]
fn cache_refresh_is_blocked_in_offline_mode() {
    match cache_refresh_start(false, false, true, true) {
        CacheRefreshStart::Refused { message } => assert_eq!(
            message,
            "Offline mode is on. Cache refresh requires network access."
        ),
        _ => panic!("offline refresh must be refused"),
    }
    assert!(matches!(
        cache_refresh_start(true, false, true, true),
        CacheRefreshStart::AlreadyRunning
    ));
    assert!(matches!(
        cache_refresh_start(false, false, false, true),
        CacheRefreshStart::Start
    ));
    match cache_refresh_start(false, true, true, false) {
        CacheRefreshStart::Refused { message } => {
            assert_eq!(message, "Cache refresh is disabled in demo mode (--ui-demo).")
        }
        _ => panic!("demo refresh must be refused"),
    }
    match cache_refresh_start(false, false, false, false) {
        CacheRefreshStart::Refused { message } => {
            assert_eq!(message, "Scan your library first to enable cache refresh.")
        }
        _ => panic!("refresh without a scan must be refused"),
    }
    assert!(should_start_background_populate(false, false, false, false));
    assert!(!should_start_background_populate(true, false, false, false));
    assert!(!should_start_background_populate(false, false, true, false));
}

#[test]
fn background_work_is_any_running_job() {
    let idle = BackgroundWork {
        scan: false,
        write: false,
        cache_refresh: false,
        dry_run: false,
        junk_preview: false,
        recommend: false,
        discover: false,
        dynamic: false,
        mood: false,
        playlist_match: false,
        prepare: false,
    };
    assert!(!idle.has_background_work());
    let preparing = BackgroundWork { prepare: true, ..idle };
    assert!(preparing.has_background_work());
    let matching = BackgroundWork { playlist_match: true, ..idle };
    assert!(matching.has_background_work());
}


#[test]
fn editor_inputs_follow_generation_then_auto_id() {
    let mut e = PlaylistEditor::new();
    assert!(matches!(e.input_sync(0, ""), InputSync::Nothing));
    e.apply_playlist_name_edit("My List".to_string(), "my-list".to_string());
    assert!(matches!(e.input_sync(0, ""), InputSync::IdOnly));
    assert!(matches!(e.input_sync(0, "my-list"), InputSync::Nothing));
    e.reset_playlist_editor();
    assert!(matches!(e.input_sync(0, "anything"), InputSync::All));
    assert!(matches!(e.input_sync(1, ""), InputSync::Nothing));
    e.apply_playlist_id_edit("custom".to_string());
    assert!(matches!(e.input_sync(1, "other"), InputSync::Nothing));
}

#[test]
fn idle_poll_loop_rearms_for_later_jobs() {
    let mut p = PollArm::new();
    assert!(p.arm());
    assert!(!p.arm(), "a second request while polling starts nothing");
    assert!(p.after_tick(true));
    assert!(p.armed);
    assert!(!p.after_tick(false));
    assert!(!p.armed);
    assert!(p.arm(), "later jobs arm the loop again");
}

#[test]
fn dialogs_open_once_per_request() {
    let mut d = DialogPump::new();
    assert_eq!(d.pump(true, false), (true, false));
    assert_eq!(d.pump(true, true), (false, true));
    assert_eq!(d.pump(true, true), (false, false));
    d.confirm_closed();
    assert_eq!(d.pump(true, true), (true, false));
    d.chooser_closed();
    assert_eq!(d.pump(false, true), (false, true));
}

#[test]
fn entering_screens_refreshes_their_data() {
    let s = view_entry(Destination::Settings, false, false);
    assert!(s.refresh_accounts && s.refresh_backups);
    assert!(!s.refresh_playlist_ids && !s.carry_search);
    let known = view_entry(Destination::Settings, false, true);
    assert!(!known.refresh_accounts && known.refresh_backups);
    let demo = view_entry(Destination::Settings, true, false);
    assert!(!demo.refresh_accounts && !demo.refresh_backups);
    let p = view_entry(Destination::Playlists, true, false);
    assert!(p.refresh_playlist_ids && p.carry_search);
    let lib = view_entry(Destination::Library, false, false);
    assert!(!lib.refresh_accounts && !lib.refresh_backups && !lib.refresh_playlist_ids);
}

#[test]
fn clear_confirm_drops_pending_write() {
    let mut flow: WriteFlow<u32> = WriteFlow::new();
    flow.pending_action = Some(PendingAction::JunkHide);
    flow.dry_run_plan = Some(3);
    flow.show_confirm_dialog = true;
    flow.dry_run_loading = true;
    flow.clear_confirm();
    assert!(!flow.show_confirm_dialog);
    assert!(flow.pending_action.is_none());
    assert!(flow.dry_run_plan.is_none());
    assert!(!flow.dry_run_loading);
    assert!(matches!(flow.execute_pending_action(), WriteStep::Nothing));
}

#[test]
fn sort_button_cycles_through_every_key() {
    let mut s = LibrarySort::InstalledThenPlaytime;
    let mut seen = vec![];
    for _ in 0..6 {
        seen.push(sort_button_label(s, false));
        s = cycle_library_sort(s);
    }
    assert_eq!(s, LibrarySort::InstalledThenPlaytime);
    assert_eq!(
        seen,
        vec![
            "Sort: Installed + Playtime ↑",
            "Sort: Name ↑",
            "Sort: Playtime ↑",
            "Sort: HLTB ↑",
            "Sort: Rating ↑",
            "Sort: AppID ↑",
        ]
    );
    assert_eq!(sort_button_label(LibrarySort::Name, true), "Sort: Name ↓");
}

#[test]
fn blank_values_and_missing_tiers_show_the_empty_label() {
    assert_eq!(empty_or("  "), "None");
    assert_eq!(empty_or(""), "None");
    assert_eq!(empty_or(" x "), " x ");
    assert_eq!(this_tier_label(None), "None");
    assert_eq!(this_tier_label(Some(ProtonTier::Gold)), "Gold");
}

#[test]
fn count_fields_accept_large_whole_numbers() {
    assert_eq!(parse_required_count("Count", " 25 "), Ok(25));
    assert_eq!(parse_required_count("Count", "5000000000"), Ok(5_000_000_000usize));
    assert_eq!(
        parse_required_count("Count", "-1"),
        Err("Count must be a whole number.".to_string())
    );
    assert_eq!(
        parse_required_count("Count", "99999999999999999999999"),
        Err("Count must be a whole number.".to_string())
    );
}

#[test]
fn export_needs_a_playlist_and_a_path() {
    assert_eq!(
        export_target(false, "/tmp/x.json"),
        Err("Load or save a playlist before exporting.".to_string())
    );
    assert_eq!(
        export_target(true, "   "),
        Err("Choose an export path before exporting.".to_string())
    );
    assert_eq!(export_target(true, " /tmp/x.json "), Ok("/tmp/x.json".to_string()));
}

#[test]
fn duplicate_import_asks_before_replacing() {
    let ids = vec!["my-favorites".to_string(), "discover".to_string()];
    assert!(import_needs_replace_confirm(&ids, "discover"));
    assert!(!import_needs_replace_confirm(&ids, "story-games"));
    assert!(!import_needs_replace_confirm(&vec![], "discover"));
}
