//! What the other screens list, as plain values: Steam collections,
//! recommendations, Discover picks, Steam accounts and backups, and the
//! demo data shown for them with `--ui-demo`.
//!
//! Scores and weights are kept in hundredths (a score of 4.5 is 450).

use vstd::prelude::*;

verus! {

/// A Steam collection.
pub struct SteamCollection {
    pub id: String,
    pub name: String,
    pub app_ids: Vec<u32>,
    pub removed_app_ids: Vec<u32>,
    pub is_hidden_collection: bool,
}

/// A collection as plain values.
pub open spec fn collection_view(c: SteamCollection) -> (Seq<char>, Seq<char>, Seq<u32>, Seq<u32>, bool) {
    (c.id@, c.name@, c.app_ids@, c.removed_app_ids@, c.is_hidden_collection)
}

/// Why a game was recommended or picked, with its weight in hundredths.
pub struct Reason {
    pub code: String,
    pub description: String,
    pub weight_hundredths: u32,
}

/// A reason as plain values.
pub open spec fn reason_view(r: Reason) -> (Seq<char>, Seq<char>, u32) {
    (r.code@, r.description@, r.weight_hundredths)
}

/// A recommended game, its score in hundredths and the reasons.
pub struct Recommendation {
    pub app_id: u32,
    pub name: String,
    pub score_hundredths: u32,
    pub reasons: Vec<Reason>,
}

/// A Discover pick, its score in hundredths and the reasons.
pub struct DiscoverPick {
    pub app_id: u32,
    pub name: String,
    pub score_hundredths: u32,
    pub reasons: Vec<Reason>,
}

/// A scored game as plain values.
pub type PickView = (u32, Seq<char>, u32, Seq<(Seq<char>, Seq<char>, u32)>);

/// A recommendation as plain values.
pub open spec fn recommendation_view(r: Recommendation) -> PickView {
    (r.app_id, r.name@, r.score_hundredths, r.reasons@.map_values(|x: Reason| reason_view(x)))
}

/// A Discover pick as plain values.
pub open spec fn pick_view(p: DiscoverPick) -> PickView {
    (p.app_id, p.name@, p.score_hundredths, p.reasons@.map_values(|x: Reason| reason_view(x)))
}

/// A Steam account found on this machine.
pub struct SteamAccount {
    pub steam_id64: String,
    pub account_name: String,
    pub persona_name: String,
    pub most_recent: bool,
}

/// An account as plain values.
pub open spec fn account_view(a: SteamAccount) -> (Seq<char>, Seq<char>, Seq<char>, bool) {
    (a.steam_id64@, a.account_name@, a.persona_name@, a.most_recent)
}

/// A backup file of the Steam collections.
pub struct BackupInfo {
    pub path: String,
    pub created_at_unix: i64,
    pub sha256: String,
}

/// A backup as plain values.
pub open spec fn backup_view(b: BackupInfo) -> (Seq<char>, i64, Seq<char>) {
    (b.path@, b.created_at_unix, b.sha256@)
}

fn collection(id: &str, name: &str, app_ids: Vec<u32>, hidden: bool) -> (c: SteamCollection)
    ensures
        collection_view(c) == (id@, name@, app_ids@, Seq::<u32>::empty(), hidden),
{
    let removed: Vec<u32> = Vec::new();
    SteamCollection {
        id: String::from_str(id),
        name: String::from_str(name),
        app_ids,
        removed_app_ids: removed,
        is_hidden_collection: hidden,
    }
}

/// The demo Steam collections.
pub open spec fn demo_collection_views() -> Seq<(Seq<char>, Seq<char>, Seq<u32>, Seq<u32>, bool)> {
    seq![
        ("favorite"@, "Favorites"@, seq![1000u32, 1005, 1010, 1015], Seq::empty(), false),
        ("hidden"@, "Hidden"@, seq![1009u32, 1014], Seq::empty(), true),
        ("completed"@, "Completed"@, seq![1000u32, 1004, 1010], Seq::empty(), false),
        ("want-to-play"@, "Want to Play"@, seq![1003u32, 1007, 1012], Seq::empty(), false),
    ]
}

/// The demo Steam collections.
pub fn demo_collections() -> (cs: Vec<SteamCollection>)
    ensures
        cs@.map_values(|c: SteamCollection| collection_view(c)) == demo_collection_views(),
{
    let mut cs: Vec<SteamCollection> = Vec::new();
    cs.push(collection("favorite", "Favorites", vec![1000, 1005, 1010, 1015], false));
    cs.push(collection("hidden", "Hidden", vec![1009, 1014], true));
    cs.push(collection("completed", "Completed", vec![1000, 1004, 1010], false));
    cs.push(collection("want-to-play", "Want to Play", vec![1003, 1007, 1012], false));
    assert(cs@.map_values(|c: SteamCollection| collection_view(c)) =~= demo_collection_views());
    cs
}

fn reason(code: &str, description: &str, weight: u32) -> (r: Reason)
    ensures
        reason_view(r) == (code@, description@, weight),
{
    Reason {
        code: String::from_str(code),
        description: String::from_str(description),
        weight_hundredths: weight,
    }
}

/// The demo recommendations.
pub open spec fn demo_recommendation_views() -> Seq<PickView> {
    seq![
        (1003u32, "Demo Game 03"@, 450u32, seq![
            ("low_playtime"@, "Low playtime (0 min)"@, 200u32),
            ("time_match"@, "HLTB fits 120 min session"@, 150u32),
            ("high_rating"@, "High rating (3.9/5)"@, 100u32),
        ]),
        (1008u32, "Demo Game 08"@, 300u32, seq![
            ("low_playtime"@, "Low playtime (0 min)"@, 200u32),
            ("deck_compatible"@, "ProtonDB Gold"@, 100u32),
        ]),
        (1012u32, "Demo Game 12"@, 250u32, seq![
            ("low_playtime"@, "Low playtime (0 min)"@, 200u32),
            ("time_match"@, "HLTB 15m fits session"@, 50u32),
        ]),
    ]
}

fn recommendation(app_id: u32, name: &str, score: u32, reasons: Vec<Reason>) -> (r: Recommendation)
    ensures
        recommendation_view(r) == (app_id, name@, score, reasons@.map_values(|x: Reason| reason_view(x))),
{
    Recommendation { app_id, name: String::from_str(name), score_hundredths: score, reasons }
}

/// The demo recommendations.
pub fn demo_recommendations() -> (rs: Vec<Recommendation>)
    ensures
        rs@.map_values(|r: Recommendation| recommendation_view(r)) == demo_recommendation_views(),
{
    let mut a: Vec<Reason> = Vec::new();
    a.push(reason("low_playtime", "Low playtime (0 min)", 200));
    a.push(reason("time_match", "HLTB fits 120 min session", 150));
    a.push(reason("high_rating", "High rating (3.9/5)", 100));
    let mut b: Vec<Reason> = Vec::new();
    b.push(reason("low_playtime", "Low playtime (0 min)", 200));
    b.push(reason("deck_compatible", "ProtonDB Gold", 100));
    let mut c: Vec<Reason> = Vec::new();
    c.push(reason("low_playtime", "Low playtime (0 min)", 200));
    c.push(reason("time_match", "HLTB 15m fits session", 50));
    let ghost (av, bv, cv) = (a@, b@, c@);
    let mut rs: Vec<Recommendation> = Vec::new();
    rs.push(recommendation(1003, "Demo Game 03", 450, a));
    rs.push(recommendation(1008, "Demo Game 08", 300, b));
    rs.push(recommendation(1012, "Demo Game 12", 250, c));
    let ghost spec = demo_recommendation_views();
    assert(av.map_values(|x: Reason| reason_view(x)) =~= spec[0].3);
    assert(bv.map_values(|x: Reason| reason_view(x)) =~= spec[1].3);
    assert(cv.map_values(|x: Reason| reason_view(x)) =~= spec[2].3);
    assert(rs@.map_values(|r: Recommendation| recommendation_view(r)) =~= spec);
    rs
}

/// The demo Discover picks.
pub open spec fn demo_pick_views() -> Seq<PickView> {
    seq![
        (1003u32, "Demo Game 03"@, 520u32, seq![("taste_overlap"@, "Taste vector overlap"@, 520u32)]),
        (1008u32, "Demo Game 08"@, 310u32, seq![("high_rating"@, "High rating bonus"@, 310u32)]),
    ]
}

fn pick(app_id: u32, name: &str, score: u32, reasons: Vec<Reason>) -> (p: DiscoverPick)
    ensures
        pick_view(p) == (app_id, name@, score, reasons@.map_values(|x: Reason| reason_view(x))),
{
    DiscoverPick { app_id, name: String::from_str(name), score_hundredths: score, reasons }
}

/// The demo Discover picks.
pub fn demo_discover_picks() -> (ps: Vec<DiscoverPick>)
    ensures
        ps@.map_values(|p: DiscoverPick| pick_view(p)) == demo_pick_views(),
{
    let mut a: Vec<Reason> = Vec::new();
    a.push(reason("taste_overlap", "Taste vector overlap", 520));
    let mut b: Vec<Reason> = Vec::new();
    b.push(reason("high_rating", "High rating bonus", 310));
    let ghost (av, bv) = (a@, b@);
    let mut ps: Vec<DiscoverPick> = Vec::new();
    ps.push(pick(1003, "Demo Game 03", 520, a));
    ps.push(pick(1008, "Demo Game 08", 310, b));
    let ghost spec = demo_pick_views();
    assert(av.map_values(|x: Reason| reason_view(x)) =~= spec[0].3);
    assert(bv.map_values(|x: Reason| reason_view(x)) =~= spec[1].3);
    assert(ps@.map_values(|p: DiscoverPick| pick_view(p)) =~= spec);
    ps
}

/// The demo Steam account.
pub fn demo_accounts() -> (accts: Vec<SteamAccount>)
    ensures
        accts@.map_values(|a: SteamAccount| account_view(a)) == seq![
            ("76561198000000000"@, "demo_user"@, "Demo Player"@, true),
        ],
{
    let mut accts: Vec<SteamAccount> = Vec::new();
    accts.push(
        SteamAccount {
            steam_id64: String::from_str("76561198000000000"),
            account_name: String::from_str("demo_user"),
            persona_name: String::from_str("Demo Player"),
            most_recent: true,
        },
    );
    assert(accts@.map_values(|a: SteamAccount| account_view(a)) =~= seq![
        ("76561198000000000"@, "demo_user"@, "Demo Player"@, true),
    ]);
    accts
}

/// The demo backup, made at `now`.
pub fn demo_backups(now: i64) -> (bs: Vec<BackupInfo>)
    ensures
        bs@.map_values(|b: BackupInfo| backup_view(b)) == seq![
            (
                "/demo/backups/cloud-storage-namespace-1.vapourfly-backup-20260101T120000Z-abc12345.json"@,
                now,
                "abc12345def67890"@,
            ),
        ],
{
    let mut bs: Vec<BackupInfo> = Vec::new();
    bs.push(
        BackupInfo {
            path: String::from_str(
                "/demo/backups/cloud-storage-namespace-1.vapourfly-backup-20260101T120000Z-abc12345.json",
            ),
            created_at_unix: now,
            sha256: String::from_str("abc12345def67890"),
        },
    );
    assert(bs@.map_values(|b: BackupInfo| backup_view(b)) =~= seq![
        (
            "/demo/backups/cloud-storage-namespace-1.vapourfly-backup-20260101T120000Z-abc12345.json"@,
            now,
            "abc12345def67890"@,
        ),
    ]);
    bs
}

} // verus!
