use vapourfly_gui::sources::{cache_health, cache_notice, refresh_all_enabled, SourceCache};
use vapourfly_gui::captions::{
    empty_value_label, format_hltb_seconds, format_playtime, parse_optional, parse_required,
    reason_badge_label, relative_time_ago_at, steam_capsule_uri, steam_poster_uri,
};
use vapourfly_gui::library::{LibrarySort, ProtonTier};
use vapourfly_gui::navigation::{
    cycle_proton_filter, proton_tier_label, sort_label, Destination, JunkModeChoice,
    LibraryScope, QuickView,
};
use vapourfly_gui::sources::{
    source_credential_signal, source_display_name, source_refresh_enabled, CredentialSignal,
};

#[test]
fn view_all_contains_every_variant() {
    let all = Destination::all();
    assert_eq!(all.len(), 7);
    assert!(all.contains(&Destination::Library));
    assert!(all.contains(&Destination::Collections));
    assert!(all.contains(&Destination::Recommendations));
    assert!(all.contains(&Destination::Playlists));
    assert!(all.contains(&Destination::Discover));
    assert!(all.contains(&Destination::DataSources));
    assert!(all.contains(&Destination::Settings));
}

#[test]
fn navigation_contract_matches_design_ia() {
    let labels: Vec<&str> = Destination::all().iter().map(|v| v.label()).collect();
    assert_eq!(
        labels,
        vec![
            "Library",
            "Collections",
            "Recommendations",
            "Playlists",
            "Discover",
            "Data Sources",
            "Settings",
        ]
    );
    assert!(!labels.contains(&"Junk"));
    assert!(!labels.contains(&"Backups"));
    assert!(!labels.contains(&"Recommend"));
}

#[test]
fn view_labels_are_distinct() {
    let labels: Vec<&str> = Destination::all().iter().map(|v| v.label()).collect();
    let unique: std::collections::HashSet<&str> = labels.iter().copied().collect();
    assert_eq!(labels.len(), unique.len());
}

#[test]
fn format_playtime_zero() {
    assert_eq!(format_playtime(0), "0m");
}

#[test]
fn format_playtime_minutes_only() {
    assert_eq!(format_playtime(45), "45m");
}

#[test]
fn format_playtime_hours_and_minutes() {
    assert_eq!(format_playtime(125), "2h 5m");
}

#[test]
fn format_hltb_seconds_drops_leftover_seconds() {
    assert_eq!(format_hltb_seconds(7200), "2h 0m");
    assert_eq!(format_hltb_seconds(3599), "59m");
    assert_eq!(format_hltb_seconds(3661), "1h 1m");
    assert_eq!(format_hltb_seconds(0), "0m");
}

#[test]
fn junk_mode_labels() {
    assert_eq!(JunkModeChoice::Default.label(), "Default");
    assert_eq!(JunkModeChoice::Strict.label(), "Strict");
    assert_eq!(JunkModeChoice::Aggressive.label(), "Aggressive");
}

#[test]
fn nav_labels_are_plain_text() {
    for view in Destination::all() {
        let label = view.label();
        assert!(label.is_ascii(), "{label} should not depend on emoji glyphs");
        assert!(!label.chars().any(|c| c > '\u{007f}'));
    }
}

#[test]
fn empty_value_label_is_plain_text() {
    assert_eq!(empty_value_label(), "None");
    assert!(empty_value_label().is_ascii());
}

#[test]
fn scope_quick_view_and_sort_labels() {
    let scopes: Vec<&str> = LibraryScope::all().iter().map(|s| s.label()).collect();
    assert_eq!(scopes, vec!["All", "Installed", "Unplayed", "Hidden"]);
    assert_eq!(QuickView::StoryRich.label(), "Story-rich");
    assert_eq!(QuickView::GreatOnDeck.label(), "Great on Deck");
    assert_eq!(sort_label(LibrarySort::InstalledThenPlaytime), "Installed + Playtime");
    assert_eq!(sort_label(LibrarySort::AppId), "AppID");
    assert_eq!(proton_tier_label(ProtonTier::Platinum), "Platinum");
}

#[test]
fn proton_filter_cycles_back_to_any() {
    let mut cur = None;
    let mut seen = Vec::new();
    for _ in 0..6 {
        cur = cycle_proton_filter(cur);
        seen.push(cur);
    }
    assert_eq!(
        seen,
        vec![
            Some(ProtonTier::Bronze),
            Some(ProtonTier::Silver),
            Some(ProtonTier::Gold),
            Some(ProtonTier::Platinum),
            Some(ProtonTier::Native),
            None,
        ]
    );
    assert_eq!(cycle_proton_filter(Some(ProtonTier::Borked)), None);
}

#[test]
fn steam_poster_uri_uses_library_poster_endpoint() {
    assert_eq!(
        steam_poster_uri(730),
        "https://cdn.cloudflare.steamstatic.com/steam/apps/730/library_600x900.jpg"
    );
    assert_eq!(
        steam_capsule_uri(730),
        "https://cdn.cloudflare.steamstatic.com/steam/apps/730/header.jpg"
    );
}

#[test]
fn relative_time_ago_formats_correctly() {
    let now: i64 = 1_750_000_000;
    assert_eq!(relative_time_ago_at(0, now), "unknown");
    assert_eq!(relative_time_ago_at(now - 30, now), "just now");
    assert_eq!(relative_time_ago_at(now - 300, now), "5 min ago");
    assert_eq!(relative_time_ago_at(now - 7200, now), "2 hours ago");
    assert_eq!(relative_time_ago_at(now - 3600, now), "1 hour ago");
    assert_eq!(relative_time_ago_at(now - 259200, now), "3 days ago");
    assert_eq!(relative_time_ago_at(now - 86400, now), "1 day ago");
    assert_eq!(relative_time_ago_at(now + 500, now), "just now");
}

#[test]
fn reason_badge_prefers_human_description() {
    assert_eq!(
        reason_badge_label("taste_overlap", "Taste vector overlap"),
        "Taste vector overlap"
    );
    assert_eq!(reason_badge_label("HIGH_RATING", ""), "HIGH RATING");
    assert_eq!(reason_badge_label("code", "   "), "code");
    assert_eq!(
        reason_badge_label("x", "A description that is far too long to fit"),
        "A description that is f…"
    );
}

#[test]
fn whole_number_fields_parse_trimmed_input() {
    let err = parse_required("Available minutes", "soon").unwrap_err();
    assert!(err.contains("Available minutes"));
    assert_eq!(err, "Available minutes must be a whole number.");
    assert_eq!(parse_required("Count", " 12 "), Ok(12));
    assert_eq!(parse_optional("Seed", "  "), Ok(None));
    assert_eq!(parse_optional("Seed", "12345"), Ok(Some(12345)));
    assert!(parse_optional("Seed", "-1").is_err());
}

#[test]
fn source_display_names_match_product_table() {
    assert_eq!(source_display_name("igdb"), "IGDB");
    assert_eq!(source_display_name("rawg"), "RAWG");
    assert_eq!(source_display_name("protondb"), "ProtonDB");
    assert_eq!(source_display_name("pcgw"), "PCGW");
    assert_eq!(source_display_name("hltb"), "HLTB");
    assert_eq!(source_display_name("steam-store"), "Steam Store");
    assert_eq!(source_display_name("other"), "Unknown");
}

#[test]
fn source_credential_signals_cover_configured_missing_and_optional() {
    assert_eq!(
        source_credential_signal("igdb", true, false),
        CredentialSignal::Configured
    );
    assert_eq!(
        source_credential_signal("igdb", false, true),
        CredentialSignal::Missing
    );
    assert_eq!(
        source_credential_signal("rawg", false, true),
        CredentialSignal::Configured
    );
    assert_eq!(
        source_credential_signal("rawg", true, false),
        CredentialSignal::Missing
    );
    assert_eq!(
        source_credential_signal("protondb", false, false),
        CredentialSignal::NotRequired
    );
    assert_eq!(
        source_credential_signal("hltb", false, false),
        CredentialSignal::Optional
    );
    assert_eq!(
        source_credential_signal("steam-store", false, false),
        CredentialSignal::NotRequired
    );
    assert_eq!(CredentialSignal::NotRequired.label(), "None needed");
}

#[test]
fn source_refresh_enabled_respects_offline_loading_and_credentials() {
    assert!(!source_refresh_enabled("protondb", true, true, true, false));
    assert!(!source_refresh_enabled("protondb", true, true, false, true));
    assert!(!source_refresh_enabled("igdb", false, true, false, false));
    assert!(source_refresh_enabled("igdb", true, false, false, false));
    assert!(source_refresh_enabled("hltb", false, false, false, false));
    assert!(source_refresh_enabled("pcgw", false, false, false, false));
}

#[test]
fn cache_health_sums_sources() {
    let statuses = vec![
        SourceCache {
            name: "igdb".into(),
            cache_entries: 120,
            stale_entries: 3,
        },
        SourceCache {
            name: "rawg".into(),
            cache_entries: 80,
            stale_entries: 0,
        },
    ];
    assert_eq!(cache_health(&statuses), (200, 3));
    assert_eq!(cache_health(&vec![]), (0, 0));
    assert_eq!(
        cache_notice(true, 200),
        Some("Offline mode is on — stats come from the local disk cache; network refreshes are paused.")
    );
    assert_eq!(
        cache_notice(false, 0),
        Some("No cached source data yet — scan your library, then Refresh all to populate caches.")
    );
    assert_eq!(cache_notice(false, 200), None);
    assert!(refresh_all_enabled(false, false, false));
    assert!(!refresh_all_enabled(true, false, false));
    assert!(!refresh_all_enabled(false, true, false));
    assert!(!refresh_all_enabled(false, false, true));
}
