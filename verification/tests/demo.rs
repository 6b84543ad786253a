use vapourfly_gui::app_state::AppState;
use vapourfly_gui::demo::{demo_games, demo_playlists};
use vapourfly_gui::frame::PreparedLibrary;
use vapourfly_gui::insights::library_insights;
use vapourfly_gui::library::{
    project_library_games, ControllerSupport, GameFacts, LibraryFilters, ProtonTier,
};
use vapourfly_gui::playlist::PlaylistContent;

const NOW: i64 = 1_780_000_000;

fn demo_app() -> AppState<Vec<GameFacts>, u64, u32> {
    let mut app: AppState<Vec<GameFacts>, u64, u32> = AppState::new(None, true, None);
    app.populate_demo_data(demo_games(NOW), NOW);
    app
}

#[test]
fn populate_demo_data_provides_all_pages() {
    let app = demo_app();
    // Library: at least 24 games
    let scan = app.library.scan_result.as_ref().expect("demo scan result");
    assert!(scan.len() >= 24);
    // Collections: at least 4
    assert!(app.collections.len() >= 4);
    // Junk decisions with mixed confidence
    assert!(!app.junk_results.is_empty());
    assert!(app.junk_results.iter().any(|d| d.confidence_percent < 100));
    // Recommendations
    assert!(!app.recommend_results.is_empty());
    // Discover results
    assert!(!app.discover_results.is_empty());
    // Playlist store ids (at least 5 including generated slots)
    assert!(app.playlist_store_ids.len() >= 5);
    assert!(app.playlist_store_ids.contains(&"discover".to_string()));
    assert!(app.playlist_store_ids_loaded);
    // Accounts
    assert!(!app.detected_accounts.is_empty());
    // Backups
    assert!(!app.backups.is_empty());
    assert!(app.library.error.is_none());
}

#[test]
fn populate_demo_data_writes_loadable_playlists() {
    let mut app = demo_app();
    let expected = [
        ("my-favorites", "My Favorites", &[1000u32, 1002, 1005][..]),
        ("story-games", "Story Games", &[1001, 1003, 1008]),
        ("discover", "Discover Picks", &[1004, 1006, 1010, 1012]),
        (
            "dynamic-deck-session",
            "Deck Session",
            &[1000, 1007, 1011, 1015],
        ),
        ("mood-quick-round", "Quick Round", &[1002, 1009, 1013]),
    ];
    // What is written to the demo store, in order.
    let playlists = demo_playlists();
    assert_eq!(playlists.len(), expected.len());
    for (pf, (id, name, app_ids)) in playlists.iter().zip(expected) {
        assert_eq!(
            pf.schema, "vapourfly.playlist.v1",
            "demo playlist {id} has wrong schema"
        );
        assert_eq!(pf.created_by, "demo");
        assert_eq!(pf.id, id);
        assert_eq!(pf.name, name);
        match &pf.content {
            PlaylistContent::Manual { app_ids: got } => {
                let mut want: Vec<u32> = app_ids.to_vec();
                want.sort_unstable();
                assert_eq!(got, &want, "demo playlist {id} app_ids mismatch");
            }
            PlaylistContent::Rules { .. } => panic!("demo playlist {id} expected Manual"),
        }
    }
    // The store lists them in the same order, and the first one loaded is
    // selected.
    let listed: Vec<&str> = app.playlist_store_ids.iter().map(|s| s.as_str()).collect();
    let ids: Vec<&str> = expected.iter().map(|e| e.0).collect();
    assert_eq!(listed, ids);
    app.select_first_stored(true);
    assert_eq!(app.playlist_load_selected, "my-favorites");
    assert!(app.library.error.is_none());
}

#[test]
fn demo_refresh_counts_as_a_new_scan() {
    let mut app = demo_app();
    assert_eq!(app.library.scan_generation, 1);
    app.library.prepared_snapshot = Some(PreparedLibrary { fingerprint: 7, games: 7 });
    app.populate_demo_data(demo_games(NOW), NOW);
    assert_eq!(app.library.scan_generation, 2);
    assert!(app.library.prepared_snapshot.is_none());
    app.library.scan_generation = u64::MAX;
    app.populate_demo_data(demo_games(NOW), NOW);
    assert_eq!(app.library.scan_generation, 0);
}

#[test]
fn demo_records_follow_their_table() {
    let app = demo_app();
    assert_eq!(app.collections.len(), 4);
    assert_eq!(app.collections[1].id, "hidden");
    assert!(app.collections[1].is_hidden_collection);
    assert_eq!(app.collections[3].name, "Want to Play");
    assert_eq!(app.collections[0].app_ids, vec![1000, 1005, 1010, 1015]);
    assert_eq!(app.junk_results.len(), 3);
    assert_eq!(app.junk_results[1].confidence_percent, 33);
    assert!(app.junk_selection.is_selected(1011) && app.junk_selection.is_selected(1017));
    assert!(!app.junk_selection.is_selected(1005));
    assert_eq!(app.recommend_results.len(), 3);
    assert_eq!(app.recommend_results[0].score_hundredths, 450);
    assert_eq!(app.recommend_results[0].reasons[1].code, "time_match");
    assert_eq!(app.discover_results[1].reasons[0].description, "High rating bonus");
    assert_eq!(app.detected_accounts[0].persona_name, "Demo Player");
    assert_eq!(app.backups[0].created_at_unix, NOW);
    assert_eq!(app.backups[0].sha256, "abc12345def67890");
}

#[test]
fn demo_games_follow_their_table() {
    let games = demo_games(NOW);
    assert_eq!(games.len(), 24);
    assert_eq!(games[0].app_id, 1000);
    assert_eq!(games[0].name, "Fields of Luma");
    assert_eq!(games[23].name, "Northstar");
    assert!(games[17].installed && !games[18].installed);
    assert!(games[9].is_hidden && games[14].is_hidden && !games[10].is_hidden);
    assert!(games[11].is_junk && games[17].is_junk);
    assert_eq!(games[10].playtime_minutes, Some(1200));
    assert_eq!(games[2].last_played_unix, Some(NOW - 2 * 86_400));
    assert_eq!(games[3].last_played_unix, None);
    assert_eq!(games[12].hltb_main_story_seconds, Some(900));
    assert_eq!(games[13].hltb_main_story_seconds, None);
    assert_eq!(games[6].igdb_genres, vec!["Story Rich".to_string(), "Adventure".to_string()]);
    assert_eq!(games[5].rawg_tags, vec!["relaxing".to_string()]);
    assert_eq!(games[10].proton_tier, Some(ProtonTier::Native));
    assert_eq!(games[20].controller_support, Some(ControllerSupport::NoSupport));
    assert_eq!(games[13].rating_order, 400);
    assert_eq!(games[15].collection_count, 1);
}

#[test]
fn demo_library_insights() {
    let games = demo_games(NOW);
    let matching = project_library_games(&games, &LibraryFilters::default());
    let insights = library_insights(&games, &matching);
    assert_eq!(insights.total, 24);
    assert_eq!(insights.installed, 18);
    assert_eq!(insights.hidden, 2);
    assert_eq!(insights.junk, 2);
    assert_eq!(insights.playtime, 2965);
    assert_eq!(insights.matching, 24);
    assert_eq!(insights.backlog, 12);
    assert_eq!(insights.avg_hltb_minutes, 245);
    let recent: Vec<u32> = insights.recent.iter().map(|r| r.0).collect();
    assert_eq!(recent, vec![1000, 1001, 1002]);
}
