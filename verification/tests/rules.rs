use vapourfly_gui::library::ProtonTier;
use vapourfly_gui::rules::{
    genre_caption, hltb_caption, playtime_caption, rule_label, tag_caption, PlaylistRule,
    RuleBuilder,
};

#[test]
fn rule_label_formats_all_variants() {
    assert_eq!(rule_label(&PlaylistRule::Installed), "Installed");
    assert_eq!(rule_label(&PlaylistRule::NotJunk), "Not junk");
    assert_eq!(rule_label(&PlaylistRule::NotHidden), "Not hidden");
    assert_eq!(
        rule_label(&PlaylistRule::ControllerSupportFull),
        "Full controller"
    );
    assert_eq!(
        rule_label(&PlaylistRule::HltbMaxMinutes { minutes: 120 }),
        "HLTB ≤ 2h"
    );
    assert_eq!(
        rule_label(&PlaylistRule::HasGenre {
            genre: "RPG".into()
        }),
        "Genre: RPG"
    );
    assert_eq!(
        rule_label(&PlaylistRule::HasTag {
            tag: "multiplayer".into()
        }),
        "Tag: multiplayer"
    );
    assert_eq!(
        rule_label(&PlaylistRule::PlaytimeBetween { min: 0, max: 120 }),
        "Played 0–120m"
    );
    assert_eq!(
        rule_label(&PlaylistRule::RatingAtLeast {
            rating_text: "3.5".into()
        }),
        "Rating ≥ 3.5"
    );
    assert_eq!(
        rule_label(&PlaylistRule::And(vec![
            PlaylistRule::Installed,
            PlaylistRule::NotJunk
        ])),
        "All of (2)"
    );
    assert_eq!(
        rule_label(&PlaylistRule::Or(vec![PlaylistRule::Installed])),
        "Any of (1)"
    );
}

#[test]
fn rule_labels_of_the_remaining_cases() {
    assert_eq!(
        rule_label(&PlaylistRule::HltbMaxMinutes { minutes: 45 }),
        "HLTB ≤ 45m"
    );
    assert_eq!(
        rule_label(&PlaylistRule::HltbMaxMinutes { minutes: 90 }),
        "HLTB ≤ 90m"
    );
    assert_eq!(
        rule_label(&PlaylistRule::ProtonAtLeast {
            tier: ProtonTier::Gold
        }),
        "Proton Gold+"
    );
    assert_eq!(
        rule_label(&PlaylistRule::Not(Box::new(PlaylistRule::Installed))),
        "Not"
    );
}

#[test]
fn rule_builder_nudges_numbers() {
    let mut b = RuleBuilder::new();
    b.hltb_minus();
    assert_eq!(b.hltb_max, "45");
    b.hltb_minus();
    b.hltb_minus();
    assert_eq!(b.hltb_max, "15");
    b.hltb_minus();
    assert_eq!(b.hltb_max, "15");
    b.hltb_plus();
    assert_eq!(b.hltb_max, "30");
    b.hltb_max = "junk".into();
    b.hltb_plus();
    assert_eq!(b.hltb_max, "75");
    b.playtime_min_plus();
    assert_eq!(b.playtime_min, "10");
    b.playtime_max_plus();
    assert_eq!(b.playtime_max, "90");
}

#[test]
fn rule_builder_produces_rules() {
    let mut b = RuleBuilder::new();
    assert!(b.genre_rule().is_none());
    assert!(b.tag_rule().is_none());
    assert!(b.hltb_rule().is_none());
    assert!(b.proton_rule().is_none());
    b.genre = "Cozy".into();
    b.tag = "story".into();
    b.hltb_max = "120".into();
    b.proton_tier = Some(ProtonTier::Platinum);
    assert_eq!(rule_label(&b.genre_rule().unwrap()), "Genre: Cozy");
    assert_eq!(rule_label(&b.tag_rule().unwrap()), "Tag: story");
    assert_eq!(rule_label(&b.hltb_rule().unwrap()), "HLTB ≤ 2h");
    assert_eq!(rule_label(&b.proton_rule().unwrap()), "Proton Platinum+");
    // Blank ends read as zero.
    assert_eq!(rule_label(&b.playtime_rule().unwrap()), "Played 0–0m");
    b.playtime_min = "300".into();
    b.playtime_max = "30".into();
    assert_eq!(
        b.playtime_rule().err(),
        Some("Playtime min must be ≤ max.".to_string())
    );
    b.playtime_max = "300".into();
    assert_eq!(rule_label(&b.playtime_rule().unwrap()), "Played 300–300m");
}

#[test]
fn rule_builder_captions() {
    assert_eq!(genre_caption(""), "Genre None");
    assert_eq!(genre_caption("Cozy"), "Genre Cozy");
    assert_eq!(tag_caption(""), "Tag None");
    assert_eq!(hltb_caption(""), "HLTB max Nonem");
    assert_eq!(hltb_caption("90"), "HLTB max 90m");
    assert_eq!(playtime_caption(" ", "60"), "Playtime None–60");
}
