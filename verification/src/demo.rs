//! The deterministic demo library shown with `--ui-demo`: 24 games with
//! varied metadata, so every screen has something to show, and the five
//! demo playlists written to the demo playlist store.
//!
//! Demo RAWG ratings are given as order keys in hundredths of a point
//! (3.5 is 350).

use crate::editor::{self, PlaylistDraft};
use crate::library::{self, ControllerSupport, GameFacts, GameView, ProtonTier};
use crate::playlist::PlaylistContent;
use vstd::prelude::*;

verus! {

/// How many demo games there are.
pub const DEMO_GAME_COUNT: u32 = 24;

/// One day in seconds.
pub const SECONDS_PER_DAY: i64 = 86400;

/// The name of demo game `i`.
pub open spec fn demo_name(i: u32) -> Seq<char> {
    match i {
        0 => "Fields of Luma"@,
        1 => "Neon Harbor"@,
        2 => "Wispwood"@,
        3 => "Starward Drift"@,
        4 => "Grimstone Keep"@,
        5 => "Echoes of the Vale"@,
        6 => "Pixel Sprout"@,
        7 => "Salt & Wind"@,
        8 => "Clockwork Garden"@,
        9 => "Moonlit Market"@,
        10 => "Ember Circuit"@,
        11 => "Cloudline"@,
        12 => "Tiny Kingdoms"@,
        13 => "Afterlight"@,
        14 => "Mossbound"@,
        15 => "Skyfarer"@,
        16 => "Lantern Lake"@,
        17 => "Quiet Orbit"@,
        18 => "Paper Trails"@,
        19 => "Wild Current"@,
        20 => "Copper & Clover"@,
        21 => "Night Orchard"@,
        22 => "Signal Bloom"@,
        _ => "Northstar"@,
    }
}

fn name_of(i: u32) -> (s: &'static str)
    ensures
        s@ == demo_name(i),
{
    match i {
        0 => "Fields of Luma",
        1 => "Neon Harbor",
        2 => "Wispwood",
        3 => "Starward Drift",
        4 => "Grimstone Keep",
        5 => "Echoes of the Vale",
        6 => "Pixel Sprout",
        7 => "Salt & Wind",
        8 => "Clockwork Garden",
        9 => "Moonlit Market",
        10 => "Ember Circuit",
        11 => "Cloudline",
        12 => "Tiny Kingdoms",
        13 => "Afterlight",
        14 => "Mossbound",
        15 => "Skyfarer",
        16 => "Lantern Lake",
        17 => "Quiet Orbit",
        18 => "Paper Trails",
        19 => "Wild Current",
        20 => "Copper & Clover",
        21 => "Night Orchard",
        22 => "Signal Bloom",
        _ => "Northstar",
    }
}

/// The playtime of demo game `i`, in minutes.
pub open spec fn demo_playtime(i: u32) -> u32 {
    match i {
        0 => 320,
        1 => 180,
        2 => 60,
        4 => 500,
        5 => 15,
        6 => 240,
        8 => 90,
        10 => 1200,
        11 => 5,
        13 => 45,
        15 => 300,
        17 => 10,
        _ => 0,
    }
}

fn playtime_of(i: u32) -> (m: u32)
    ensures
        m == demo_playtime(i),
{
    match i {
        0 => 320,
        1 => 180,
        2 => 60,
        4 => 500,
        5 => 15,
        6 => 240,
        8 => 90,
        10 => 1200,
        11 => 5,
        13 => 45,
        15 => 300,
        17 => 10,
        _ => 0,
    }
}

/// The HowLongToBeat main-story time of demo game `i`: every third game
/// has one.
pub open spec fn demo_hltb(i: u32) -> Option<u32> {
    if i % 3 != 0 {
        None
    } else {
        Some(
            match i {
                0 => 36000,
                3 => 7200,
                6 => 18000,
                9 => 5400,
                12 => 900,
                15 => 25200,
                18 => 10800,
                21 => 14400,
                _ => 7200,
            },
        )
    }
}

fn hltb_of(i: u32) -> (h: Option<u32>)
    ensures
        h == demo_hltb(i),
{
    if i % 3 != 0 {
        None
    } else {
        Some(
            match i {
                0 => 36000,
                3 => 7200,
                6 => 18000,
                9 => 5400,
                12 => 900,
                15 => 25200,
                18 => 10800,
                21 => 14400,
                _ => 7200,
            },
        )
    }
}

/// The IGDB genres of demo game `i`: every other game has IGDB data.
pub open spec fn demo_genres(i: u32) -> Seq<Seq<char>> {
    if i % 2 != 0 {
        Seq::empty()
    } else {
        match i {
            0 => seq!["Shooter"@, "Action"@],
            6 => seq!["Story Rich"@, "Adventure"@],
            12 => seq!["Cozy"@, "Farming"@],
            _ => seq!["Action"@],
        }
    }
}

fn strings2(a: &str, b: &str) -> (v: Vec<String>)
    ensures
        library::strings_view(v@) == seq![a@, b@],
{
    let mut v: Vec<String> = Vec::new();
    v.push(String::from_str(a));
    v.push(String::from_str(b));
    assert(library::strings_view(v@) =~= seq![a@, b@]);
    v
}

fn strings1(a: &str) -> (v: Vec<String>)
    ensures
        library::strings_view(v@) == seq![a@],
{
    let mut v: Vec<String> = Vec::new();
    v.push(String::from_str(a));
    assert(library::strings_view(v@) =~= seq![a@]);
    v
}

fn no_strings() -> (v: Vec<String>)
    ensures
        library::strings_view(v@) == Seq::<Seq<char>>::empty(),
{
    let v: Vec<String> = Vec::new();
    assert(library::strings_view(v@) =~= Seq::<Seq<char>>::empty());
    v
}

fn genres_of(i: u32) -> (v: Vec<String>)
    ensures
        library::strings_view(v@) == demo_genres(i),
{
    if i % 2 != 0 {
        no_strings()
    } else if i == 0 {
        strings2("Shooter", "Action")
    } else if i == 6 {
        strings2("Story Rich", "Adventure")
    } else if i == 12 {
        strings2("Cozy", "Farming")
    } else {
        strings1("Action")
    }
}

/// The RAWG tags of demo game `i`: games 1, 5, 9, ... have RAWG data.
pub open spec fn demo_tags(i: u32) -> Seq<Seq<char>> {
    if i == 5 {
        seq!["relaxing"@]
    } else if i == 13 {
        seq!["cozy"@]
    } else {
        Seq::empty()
    }
}

fn tags_of(i: u32) -> (v: Vec<String>)
    ensures
        library::strings_view(v@) == demo_tags(i),
{
    if i == 5 {
        strings1("relaxing")
    } else if i == 13 {
        strings1("cozy")
    } else {
        no_strings()
    }
}

/// The RAWG rating order key of demo game `i` (hundredths of a point; 0
/// for games without RAWG data).
pub open spec fn demo_rating(i: u32) -> u32 {
    if i % 4 != 1 {
        0
    } else if i == 5 {
        350
    } else if i == 13 {
        400
    } else {
        300
    }
}

fn rating_of(i: u32) -> (r: u32)
    ensures
        r == demo_rating(i),
{
    if i % 4 != 1 {
        0
    } else if i == 5 {
        350
    } else if i == 13 {
        400
    } else {
        300
    }
}

/// The ProtonDB tier of demo game `i`: games 1, 4, 7, ... have one.
pub open spec fn demo_tier(i: u32) -> Option<ProtonTier> {
    if i % 3 != 1 {
        None
    } else {
        Some(
            match i {
                1 => ProtonTier::Platinum,
                4 => ProtonTier::Gold,
                7 => ProtonTier::Silver,
                10 => ProtonTier::Native,
                13 => ProtonTier::Gold,
                16 => ProtonTier::Platinum,
                _ => ProtonTier::Unknown,
            },
        )
    }
}

fn tier_of(i: u32) -> (t: Option<ProtonTier>)
    ensures
        t == demo_tier(i),
{
    if i % 3 != 1 {
        None
    } else {
        Some(
            match i {
                1 => ProtonTier::Platinum,
                4 => ProtonTier::Gold,
                7 => ProtonTier::Silver,
                10 => ProtonTier::Native,
                13 => ProtonTier::Gold,
                16 => ProtonTier::Platinum,
                _ => ProtonTier::Unknown,
            },
        )
    }
}

/// The controller support of demo game `i`: games 2, 5, 8, ... have
/// PCGamingWiki data.
pub open spec fn demo_controller(i: u32) -> Option<ControllerSupport> {
    if i % 3 != 2 {
        None
    } else {
        Some(
            match i {
                2 => ControllerSupport::Full,
                8 => ControllerSupport::Full,
                14 => ControllerSupport::Partial,
                20 => ControllerSupport::NoSupport,
                _ => ControllerSupport::Unknown,
            },
        )
    }
}

fn controller_of(i: u32) -> (c: Option<ControllerSupport>)
    ensures
        c == demo_controller(i),
{
    if i % 3 != 2 {
        None
    } else {
        Some(
            match i {
                2 => ControllerSupport::Full,
                8 => ControllerSupport::Full,
                14 => ControllerSupport::Partial,
                20 => ControllerSupport::NoSupport,
                _ => ControllerSupport::Unknown,
            },
        )
    }
}

/// Demo game `i` (0 to 23) as the Library sees it, with the clock reading
/// `now`: AppID 1000 + i; the first 18 installed; games 9 and 14 hidden,
/// 11 and 17 junk; the first three played a day apart up to now; every
/// fifth game in Favorites.
pub open spec fn demo_game_view(i: u32, now: i64) -> GameView {
    GameView {
        app_id: (1000 + i) as u32,
        name: demo_name(i),
        installed: i < 18,
        is_hidden: i == 9 || i == 14,
        is_junk: i == 11 || i == 17,
        playtime_minutes: Some(demo_playtime(i)),
        last_played_unix: if i < 3 {
            Some((now - i * SECONDS_PER_DAY) as i64)
        } else {
            None
        },
        collection_count: if i % 5 == 0 {
            1
        } else {
            0
        },
        hltb_main_story_seconds: demo_hltb(i),
        igdb_time_to_beat_seconds: None,
        igdb_genres: demo_genres(i),
        igdb_keywords: Seq::empty(),
        steam_store_genres: Seq::empty(),
        rawg_genres: Seq::empty(),
        rawg_tags: demo_tags(i),
        proton_tier: demo_tier(i),
        controller_support: demo_controller(i),
        rating_order: demo_rating(i),
    }
}

/// Demo game `i`.
pub fn demo_game(i: u32, now: i64) -> (g: GameFacts)
    requires
        i < DEMO_GAME_COUNT,
        now >= i64::MIN + 2 * SECONDS_PER_DAY,
    ensures
        g@ == demo_game_view(i, now),
{
    let last_played = if i < 3 {
        Some(now - (i as i64) * SECONDS_PER_DAY)
    } else {
        None
    };
    GameFacts {
        app_id: 1000 + i,
        name: String::from_str(name_of(i)),
        installed: i < 18,
        is_hidden: i == 9 || i == 14,
        is_junk: i == 11 || i == 17,
        playtime_minutes: Some(playtime_of(i)),
        last_played_unix: last_played,
        collection_count: if i % 5 == 0 {
            1
        } else {
            0
        },
        hltb_main_story_seconds: hltb_of(i),
        igdb_time_to_beat_seconds: None,
        igdb_genres: genres_of(i),
        igdb_keywords: no_strings(),
        steam_store_genres: no_strings(),
        rawg_genres: no_strings(),
        rawg_tags: tags_of(i),
        proton_tier: tier_of(i),
        controller_support: controller_of(i),
        rating_order: rating_of(i),
    }
}

/// The demo library, with the clock reading `now`.
pub fn demo_games(now: i64) -> (games: Vec<GameFacts>)
    requires
        now >= i64::MIN + 2 * SECONDS_PER_DAY,
    ensures
        games@.len() == DEMO_GAME_COUNT,
        forall|i: int| 0 <= i < DEMO_GAME_COUNT ==> #[trigger] games@[i]@ == demo_game_view(i as u32, now),
{
    let mut games: Vec<GameFacts> = Vec::new();
    let mut i: u32 = 0;
    while i < DEMO_GAME_COUNT
        invariant
            i <= DEMO_GAME_COUNT,
            now >= i64::MIN + 2 * SECONDS_PER_DAY,
            games@.len() == i,
            forall|k: int| 0 <= k < i ==> #[trigger] games@[k]@ == demo_game_view(k as u32, now),
        decreases DEMO_GAME_COUNT - i,
    {
        games.push(demo_game(i, now));
        i = i + 1;
    }
    games
}

/// The demo playlists, in store order: id, name, description and App IDs
/// (all manual).
pub open spec fn demo_playlist_specs() -> Seq<(Seq<char>, Seq<char>, Seq<char>, Seq<u32>)> {
    seq![
        ("my-favorites"@, "My Favorites"@, "Demo favorites collection"@, seq![1000u32, 1002, 1005]),
        ("story-games"@, "Story Games"@, "Narrative-focused picks"@, seq![1001u32, 1003, 1008]),
        ("discover"@, "Discover Picks"@, "Auto-generated discover slot"@, seq![1004u32, 1006, 1010, 1012]),
        ("dynamic-deck-session"@, "Deck Session"@, "Dynamic template: deck-session"@, seq![1000u32, 1007, 1011, 1015]),
        ("mood-quick-round"@, "Quick Round"@, "Editorial mood: quick-round"@, seq![1002u32, 1009, 1013]),
    ]
}

/// A draft as plain values, when it is a manual playlist.
pub open spec fn manual_draft_view(d: PlaylistDraft) -> (Seq<char>, Seq<char>, Seq<char>, Seq<u32>) {
    (
        d.id@,
        d.name@,
        d.description@,
        match d.content {
            PlaylistContent::Manual { app_ids } => app_ids@,
            PlaylistContent::Rules { .. } => Seq::empty(),
        },
    )
}

fn manual_draft(id: &str, name: &str, description: &str, app_ids: Vec<u32>) -> (d: PlaylistDraft)
    ensures
        d.content is Manual,
        d.created_by@ == "demo"@,
        d.schema@ == editor::playlist_schema_text(),
        manual_draft_view(d) == (id@, name@, description@, app_ids@),
{
    PlaylistDraft {
        id: String::from_str(id),
        name: String::from_str(name),
        description: String::from_str(description),
        schema: editor::playlist_schema(),
        created_by: String::from_str("demo"),
        content: PlaylistContent::Manual { app_ids },
    }
}

/// The demo playlists written to the demo store.
pub fn demo_playlists() -> (ps: Vec<PlaylistDraft>)
    ensures
        ps@.len() == demo_playlist_specs().len(),
        forall|k: int| 0 <= k < ps@.len() ==> (#[trigger] ps@[k]).content is Manual && ps@[k].created_by@
            == "demo"@ && ps@[k].schema@ == editor::playlist_schema_text(),
        ps@.map_values(|d: PlaylistDraft| manual_draft_view(d)) == demo_playlist_specs(),
{
    let mut ps: Vec<PlaylistDraft> = Vec::new();
    ps.push(manual_draft("my-favorites", "My Favorites", "Demo favorites collection", vec![1000, 1002, 1005]));
    ps.push(manual_draft("story-games", "Story Games", "Narrative-focused picks", vec![1001, 1003, 1008]));
    ps.push(manual_draft("discover", "Discover Picks", "Auto-generated discover slot", vec![1004, 1006, 1010, 1012]));
    ps.push(manual_draft("dynamic-deck-session", "Deck Session", "Dynamic template: deck-session", vec![1000, 1007, 1011, 1015]));
    ps.push(manual_draft("mood-quick-round", "Quick Round", "Editorial mood: quick-round", vec![1002, 1009, 1013]));
    assert(ps@.map_values(|d: PlaylistDraft| manual_draft_view(d)) =~= demo_playlist_specs());
    ps
}

} // verus!
