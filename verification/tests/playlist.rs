use vapourfly_gui::rules::PlaylistRule;
use vapourfly_gui::insights::playlist_avg_hltb;
use vapourfly_gui::library::GameFacts;
use vapourfly_gui::playlist::{
    parse_app_ids, parse_manual_app_ids, playlist_content_type_label, playlist_cover_app_id,
    playlist_game_count, AppIdProblem, PlaylistContent,
};

#[test]
fn build_playlist_rejects_invalid_appid() {
    let err = parse_manual_app_ids("730, invalid, 440");
    assert!(err.is_err());
    let msg = err.unwrap_err();
    assert!(msg.contains("Invalid AppID"), "got: {msg}");
    assert!(msg.contains("invalid"), "got: {msg}");
    assert_eq!(msg, "Invalid AppID at position 2: 'invalid' is not a number");
}

#[test]
fn build_playlist_rejects_zero_appid() {
    let err = parse_manual_app_ids("730, 0, 440");
    assert!(err.is_err());
    let msg = err.unwrap_err();
    assert!(msg.contains("0 is not a valid Steam AppID"), "got: {msg}");
}

#[test]
fn build_playlist_rejects_empty_token_mid_field() {
    let err = parse_manual_app_ids("730,,440");
    assert!(err.is_err());
    let msg = err.unwrap_err();
    assert!(msg.contains("Empty AppID"), "got: {msg}");
    assert_eq!(
        msg,
        "Empty AppID at position 2 — remove trailing commas or extra commas"
    );
}

#[test]
fn build_playlist_rejects_trailing_comma() {
    let err = parse_manual_app_ids("730, 440,");
    assert!(err.is_err());
    let msg = err.unwrap_err();
    assert!(msg.contains("Empty AppID"), "got: {msg}");
}

#[test]
fn build_playlist_allows_empty_app_ids_for_empty_playlist() {
    let result = parse_manual_app_ids("");
    assert!(result.is_ok(), "empty field should create empty manual playlist");
    assert!(result.unwrap().is_empty(), "should have zero app_ids");
    assert_eq!(parse_manual_app_ids("   "), Ok(vec![]));
}

#[test]
fn build_playlist_deduplicates_app_ids() {
    let result = parse_manual_app_ids("730, 440, 730, 440");
    assert!(result.is_ok());
    assert_eq!(result.unwrap(), vec![440, 730], "should be sorted + deduped");
}

#[test]
fn app_id_errors_report_position_and_token() {
    let e = parse_app_ids(" 10 , +20, 99999999999 ").unwrap_err();
    assert_eq!(e.position, 3);
    assert_eq!(e.problem, AppIdProblem::NotANumber);
    assert_eq!(e.token, "99999999999");
    assert_eq!(parse_app_ids("+20,10").unwrap(), vec![10, 20]);
}

#[test]
fn playlist_statistics() {
    let manual = PlaylistContent::Manual {
        app_ids: vec![730, 440, 999],
    };
    let rules = PlaylistContent::Rules {
        rules: vec![PlaylistRule::Installed, PlaylistRule::NotJunk],
    };
    assert_eq!(playlist_content_type_label(&manual), "Manual");
    assert_eq!(playlist_content_type_label(&rules), "Rules");
    assert_eq!(playlist_game_count(&manual, None), 3);
    assert_eq!(playlist_game_count(&rules, None), 0);
    assert_eq!(playlist_game_count(&rules, Some(&vec![1, 2])), 2);
    assert_eq!(playlist_cover_app_id(&manual), 730);
    assert_eq!(playlist_cover_app_id(&rules), 0);

    let mut a = GameFacts::new(730, "A");
    a.hltb_main_story_seconds = Some(60 * 60);
    let mut b = GameFacts::new(440, "B");
    b.hltb_main_story_seconds = Some(3 * 60 * 60);
    let games = vec![a, b];
    assert_eq!(playlist_avg_hltb(&manual, None, &games), Some(120));
    assert_eq!(playlist_avg_hltb(&rules, None, &games), None);
    assert_eq!(playlist_avg_hltb(&rules, Some(&vec![440]), &games), Some(180));
    let empty = PlaylistContent::Manual { app_ids: vec![] };
    assert_eq!(playlist_avg_hltb(&empty, None, &games), None);
}
