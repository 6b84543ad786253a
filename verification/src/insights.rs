//! Library and playlist statistics for the insight rails: totals, backlog,
//! recent activity and average completion times.

use crate::library::{self, GameFacts, GameView, RankKey};
use crate::playlist::{self, PlaylistContent};
use vstd::prelude::*;

verus! {

/// How many games satisfy `p`.
pub open spec fn count_if(gs: Seq<GameView>, p: spec_fn(GameView) -> bool) -> nat
    decreases gs.len(),
{
    if gs.len() == 0 {
        0
    } else {
        count_if(gs.drop_last(), p) + if p(gs.last()) {
            1nat
        } else {
            0nat
        }
    }
}

/// Total playtime in minutes, unknown playtimes counted as zero.
pub open spec fn total_playtime(gs: Seq<GameView>) -> nat
    decreases gs.len(),
{
    if gs.len() == 0 {
        0
    } else {
        total_playtime(gs.drop_last()) + library::playtime_of(gs.last()) as nat
    }
}

/// HowLongToBeat main-story minutes of a game, if known.
pub open spec fn hltb_minutes(g: GameView) -> Option<nat> {
    match g.hltb_main_story_seconds {
        Some(s) => Some((s / 60) as nat),
        None => None,
    }
}

/// The sum of the known HowLongToBeat minutes.
pub open spec fn hltb_sum(gs: Seq<GameView>) -> nat
    decreases gs.len(),
{
    if gs.len() == 0 {
        0
    } else {
        hltb_sum(gs.drop_last()) + match hltb_minutes(gs.last()) {
            Some(m) => m,
            None => 0,
        }
    }
}

/// Installed games.
pub open spec fn is_installed() -> spec_fn(GameView) -> bool {
    |g: GameView| g.installed
}

/// Hidden games.
pub open spec fn is_hidden() -> spec_fn(GameView) -> bool {
    |g: GameView| g.is_hidden
}

/// Junk-flagged games.
pub open spec fn is_junk() -> spec_fn(GameView) -> bool {
    |g: GameView| g.is_junk
}

/// Games never played (unknown playtime counts as never).
pub open spec fn is_unplayed() -> spec_fn(GameView) -> bool {
    |g: GameView| library::playtime_of(g) == 0
}

/// Games with a known HowLongToBeat time.
pub open spec fn has_hltb() -> spec_fn(GameView) -> bool {
    |g: GameView| g.hltb_main_story_seconds is Some
}

/// How many games have a known HowLongToBeat time.
pub open spec fn hltb_count(gs: Seq<GameView>) -> nat {
    count_if(gs, has_hltb())
}

/// The recent-activity entry of a game: id, name, last played time and
/// playtime (unknowns as zero).
pub open spec fn recent_entry(g: GameView) -> (u32, Seq<char>, i64, u32) {
    (
        g.app_id,
        g.name,
        match g.last_played_unix {
            Some(t) => t,
            None => 0,
        },
        library::playtime_of(g),
    )
}

/// The sort positions used for recent activity: the last played time.
pub open spec fn recency_keys(gs: Seq<GameView>) -> Seq<(int, int, Seq<char>)> {
    gs.map_values(
        |g: GameView|
            (
                match g.last_played_unix {
                    Some(t) => t as int,
                    None => 0,
                },
                0int,
                Seq::<char>::empty(),
            ),
    )
}

/// Which games have been played at some known time.
pub open spec fn played_selection(gs: Seq<GameView>) -> Seq<bool> {
    gs.map_values(|g: GameView| g.last_played_unix is Some)
}

/// Totals, backlog, recent activity and average completion time shown by
/// the Library insights rail.
pub struct LibraryInsights {
    pub total: usize,
    pub installed: usize,
    pub hidden: usize,
    pub junk: usize,
    pub playtime: u32,
    pub matching: usize,
    pub backlog: usize,
    pub recent: Vec<(u32, String, i64, u32)>,
    pub avg_hltb_minutes: u32,
}

/// The insights of the whole library `all`, of which `matching` are the
/// games the current filters show. Recent activity lists up to three played
/// games, most recently played first (ties in library order); the average
/// completion time is over the games with a known time (0 when none).
pub fn library_insights(all: &Vec<GameFacts>, matching: &Vec<GameFacts>) -> (r: LibraryInsights)
    requires
        all@.len() <= u32::MAX,
        total_playtime(library::games_view(all@)) <= u32::MAX,
        hltb_sum(library::games_view(all@)) <= u32::MAX,
    ensures
        ({
            let gs = library::games_view(all@);
            &&& r.total == all@.len()
            &&& r.installed == count_if(gs, is_installed())
            &&& r.hidden == count_if(gs, is_hidden())
            &&& r.junk == count_if(gs, is_junk())
            &&& r.playtime == total_playtime(gs)
            &&& r.matching == matching@.len()
            &&& r.backlog == count_if(library::games_view(matching@), is_unplayed())
            &&& r.avg_hltb_minutes == if hltb_count(gs) == 0 {
                0
            } else {
                hltb_sum(gs) / hltb_count(gs)
            }
            &&& exists|order: Seq<usize>|
                library::is_stable_order(recency_keys(gs), played_selection(gs), true, order)
                    && r.recent@.len() == if order.len() < 3 {
                    order.len()
                } else {
                    3
                } && forall|k: int|
                    0 <= k < r.recent@.len() ==> {
                        let e = #[trigger] r.recent@[k];
                        (e.0, e.1@, e.2, e.3) == recent_entry(gs[order[k] as int])
                    }
        }),
        forall|k: int|
            #![trigger r.recent@[k]]
            0 <= k < r.recent@.len() ==> exists|i: int|
                #![trigger all@[i]]
                0 <= i < all@.len() && all@[i].app_id == r.recent@[k].0
                    && all@[i].last_played_unix == Some(r.recent@[k].2),
        forall|k: int, l: int|
            0 <= k < l < r.recent@.len() ==> #[trigger] r.recent@[k].2 >= #[trigger] r.recent@[l].2,
{
    let ghost gs = library::games_view(all@);
    let mut installed: usize = 0;
    let mut hidden: usize = 0;
    let mut junk: usize = 0;
    let mut playtime: u32 = 0;
    let mut hltb_total: u32 = 0;
    let mut hltb_games: usize = 0;
    let mut keys: Vec<RankKey> = Vec::new();
    let mut played: Vec<bool> = Vec::new();
    let mut i: usize = 0;
    proof {
        lemma_totals_monotone(gs, 0);
    }
    while i < all.len()
        invariant
            i <= all.len(),
            gs == library::games_view(all@),
            total_playtime(gs) <= u32::MAX,
            hltb_sum(gs) <= u32::MAX,
            installed == count_if(gs.take(i as int), is_installed()),
            hidden == count_if(gs.take(i as int), is_hidden()),
            junk == count_if(gs.take(i as int), is_junk()),
            playtime == total_playtime(gs.take(i as int)),
            hltb_total == hltb_sum(gs.take(i as int)),
            hltb_games == hltb_count(gs.take(i as int)),
            installed <= i && hidden <= i && junk <= i && hltb_games <= i,
            all@.len() <= u32::MAX,
            keys@.len() == i,
            played@.len() == i,
            forall|k: int| 0 <= k < i ==> #[trigger] keys@[k]@ == recency_keys(gs)[k],
            forall|k: int| 0 <= k < i ==> #[trigger] played@[k] == played_selection(gs)[k],
        decreases all.len() - i,
    {
        let g = &all[i];
        let ghost prefix = gs.take(i + 1);
        proof {
            assert(prefix.drop_last() =~= gs.take(i as int));
            assert(prefix.last() == all@[i as int]@);
            lemma_totals_monotone(gs, i + 1);
        }
        if g.installed {
            installed = installed + 1;
        }
        if g.is_hidden {
            hidden = hidden + 1;
        }
        if g.is_junk {
            junk = junk + 1;
        }
        let pt: u32 = match g.playtime_minutes {
            Some(p) => p,
            None => 0,
        };
        playtime = playtime + pt;
        match g.hltb_main_story_seconds {
            Some(s) => {
                hltb_total = hltb_total + s / 60;
                hltb_games = hltb_games + 1;
            },
            None => {},
        }
        let last: i64 = match g.last_played_unix {
            Some(t) => t,
            None => 0,
        };
        keys.push(RankKey { primary: last, secondary: 0, name: Vec::new() });
        played.push(g.last_played_unix.is_some());
        i = i + 1;
        assert(keys@[i - 1]@ == recency_keys(gs)[i - 1]);
    }
    assert(gs.take(all.len() as int) =~= gs);
    let mut backlog: usize = 0;
    let ghost ms = library::games_view(matching@);
    let mut j: usize = 0;
    while j < matching.len()
        invariant
            j <= matching.len(),
            ms == library::games_view(matching@),
            backlog <= j,
            backlog == count_if(ms.take(j as int), is_unplayed()),
        decreases matching.len() - j,
    {
        let ghost prefix = ms.take(j + 1);
        assert(prefix.drop_last() =~= ms.take(j as int));
        assert(prefix.last() == matching@[j as int]@);
        let unplayed = match matching[j].playtime_minutes {
            Some(p) => p == 0,
            None => true,
        };
        if unplayed {
            backlog = backlog + 1;
        }
        j = j + 1;
    }
    assert(ms.take(matching.len() as int) =~= ms);
    assert(keys_views_match(keys@, recency_keys(gs))) by {
        assert(library::keys_view(keys@) =~= recency_keys(gs));
    }
    assert(played@ =~= played_selection(gs));
    let order = library::stable_order(&keys, &played, true);
    assert(library::keys_view(keys@) =~= recency_keys(gs));
    let mut recent: Vec<(u32, String, i64, u32)> = Vec::new();
    let mut k: usize = 0;
    while k < order.len() && k < 3
        invariant
            k <= order.len(),
            k <= 3,
            gs == library::games_view(all@),
            library::is_stable_order(recency_keys(gs), played_selection(gs), true, order@),
            recent@.len() == k,
            forall|t: int|
                0 <= t < k ==> {
                    let e = #[trigger] recent@[t];
                    (e.0, e.1@, e.2, e.3) == recent_entry(gs[order@[t] as int])
                },
        decreases 3 - k,
    {
        let idx = order[k];
        assert(idx < gs.len());
        let g = &all[idx];
        let last: i64 = match g.last_played_unix {
            Some(t) => t,
            None => 0,
        };
        let pt: u32 = match g.playtime_minutes {
            Some(p) => p,
            None => 0,
        };
        recent.push((g.app_id, g.name.clone(), last, pt));
        k = k + 1;
    }
    assert forall|t: int| #![trigger recent@[t]] 0 <= t < recent@.len() implies exists|i: int|
        #![trigger all@[i]]
        0 <= i < all@.len() && all@[i].app_id == recent@[t].0
            && all@[i].last_played_unix == Some(recent@[t].2) by {
        let idx = order@[t];
        lemma_recent_activity_is_played(gs, order@, t);
        assert(gs[idx as int] == all@[idx as int]@);
        assert(all@[idx as int].app_id == recent@[t].0);
    }
    assert forall|t: int, u: int| 0 <= t < u < recent@.len() implies #[trigger] recent@[t].2
        >= #[trigger] recent@[u].2 by {
        lemma_recent_activity_newest_first(gs, order@, t, u);
    }
    let avg: u32 = if hltb_games == 0 {
        0
    } else {
        hltb_total / (hltb_games as u32)
    };
    LibraryInsights {
        total: all.len(),
        installed,
        hidden,
        junk,
        playtime,
        matching: matching.len(),
        backlog,
        recent,
        avg_hltb_minutes: avg,
    }
}

/// Recent activity lists played games only: every position of the recency
/// order is a game with a known last-played time.
pub proof fn lemma_recent_activity_is_played(gs: Seq<GameView>, order: Seq<usize>, k: int)
    requires
        library::is_stable_order(recency_keys(gs), played_selection(gs), true, order),
        0 <= k < order.len(),
    ensures
        order[k] < gs.len(),
        gs[order[k] as int].last_played_unix is Some,
        recent_entry(gs[order[k] as int]).2 == gs[order[k] as int].last_played_unix.unwrap(),
{
    assert(order[k] < recency_keys(gs).len() && played_selection(gs)[order[k] as int]);
}

/// Recent activity is newest first: of two positions of the recency order,
/// the earlier one was played no earlier than the later one.
pub proof fn lemma_recent_activity_newest_first(gs: Seq<GameView>, order: Seq<usize>, k: int, l: int)
    requires
        library::is_stable_order(recency_keys(gs), played_selection(gs), true, order),
        0 <= k < l < order.len(),
    ensures
        recent_entry(gs[order[k] as int]).2 >= recent_entry(gs[order[l] as int]).2,
{
    let keys = recency_keys(gs);
    assert(library::precedes(keys, true, order[k], order[l]));
    assert(order[k] < keys.len() && order[l] < keys.len());
}

spec fn keys_views_match(keys: Seq<RankKey>, expected: Seq<(int, int, Seq<char>)>) -> bool {
    library::keys_view(keys) == expected
}

proof fn lemma_totals_monotone(gs: Seq<GameView>, i: int)
    requires
        0 <= i <= gs.len(),
    ensures
        total_playtime(gs.take(i)) <= total_playtime(gs),
        hltb_sum(gs.take(i)) <= hltb_sum(gs),
    decreases gs.len() - i,
{
    if i < gs.len() {
        assert(gs.drop_last().take(i) =~= gs.take(i));
        lemma_totals_monotone(gs.drop_last(), i);
    } else {
        assert(gs.take(i) =~= gs);
    }
}

/// The game a library lookup by id finds: the last game with that id.
pub open spec fn lookup_game(gs: Seq<GameView>, id: u32) -> Option<GameView>
    decreases gs.len(),
{
    if gs.len() == 0 {
        None
    } else if gs.last().app_id == id {
        Some(gs.last())
    } else {
        lookup_game(gs.drop_last(), id)
    }
}

/// The known HowLongToBeat minutes of the listed ids, in list order.
pub open spec fn listed_hltb(gs: Seq<GameView>, ids: Seq<u32>) -> Seq<nat>
    decreases ids.len(),
{
    if ids.len() == 0 {
        Seq::empty()
    } else {
        let rest = listed_hltb(gs, ids.drop_last());
        match lookup_game(gs, ids.last()) {
            Some(g) => match hltb_minutes(g) {
                Some(m) => rest.push(m),
                None => rest,
            },
            None => rest,
        }
    }
}

/// The sum of a list of minutes.
pub open spec fn sum_nat(s: Seq<nat>) -> nat
    decreases s.len(),
{
    if s.len() == 0 {
        0
    } else {
        sum_nat(s.drop_last()) + s.last()
    }
}

fn lookup_game_exec(games: &Vec<GameFacts>, id: u32) -> (r: Option<usize>)
    ensures
        match r {
            Some(k) => k < games@.len() && lookup_game(library::games_view(games@), id) == Some(
                games@[k as int]@,
            ),
            None => lookup_game(library::games_view(games@), id) is None,
        },
{
    let ghost gs = library::games_view(games@);
    let mut k: usize = games.len();
    assert(gs.take(k as int) =~= gs);
    while k > 0
        invariant
            k <= games@.len(),
            gs == library::games_view(games@),
            lookup_game(gs, id) == lookup_game(gs.take(k as int), id),
        decreases k,
    {
        let ghost prefix = gs.take(k as int);
        assert(prefix.drop_last() =~= gs.take(k - 1));
        assert(prefix.last() == games@[k - 1]@);
        if games[k - 1].app_id == id {
            return Some(k - 1);
        }
        k = k - 1;
    }
    assert(gs.take(0) =~= Seq::<GameView>::empty());
    None
}

proof fn lemma_listed_hltb_len(gs: Seq<GameView>, ids: Seq<u32>)
    ensures
        listed_hltb(gs, ids).len() <= ids.len(),
    decreases ids.len(),
{
    if ids.len() > 0 {
        lemma_listed_hltb_len(gs, ids.drop_last());
    }
}

/// Average HowLongToBeat main-story minutes over the games of a playlist
/// that the library knows with a completion time; `None` when the playlist
/// is empty or no such game has one.
pub fn playlist_avg_hltb(
    content: &PlaylistContent,
    owned: Option<&Vec<u32>>,
    games: &Vec<GameFacts>,
) -> (r: Option<u32>)
    requires
        ({
            let ids = playlist::playlist_ids(
                *content,
                match owned {
                    Some(o) => Some(o@),
                    None => None,
                },
            );
            &&& ids.len() <= u32::MAX
            &&& sum_nat(listed_hltb(library::games_view(games@), ids)) <= u32::MAX
        }),
    ensures
        ({
            let ids = playlist::playlist_ids(
                *content,
                match owned {
                    Some(o) => Some(o@),
                    None => None,
                },
            );
            let hs = listed_hltb(library::games_view(games@), ids);
            r == if ids.len() == 0 || hs.len() == 0 {
                None
            } else {
                Some((sum_nat(hs) / hs.len()) as u32)
            }
        }),
{
    let ghost owned_view = match owned {
        Some(o) => Some(o@),
        None => None,
    };
    let empty: Vec<u32> = Vec::new();
    let ids: &Vec<u32> = match content {
        PlaylistContent::Manual { app_ids } => app_ids,
        PlaylistContent::Rules { .. } => match owned {
            Some(o) => o,
            None => &empty,
        },
    };
    assert(ids@ == playlist::playlist_ids(*content, owned_view));
    if ids.len() == 0 {
        return None;
    }
    let ghost gs = library::games_view(games@);
    let mut sum: u32 = 0;
    let mut count: u32 = 0;
    let mut i: usize = 0;
    proof {
        lemma_listed_hltb_len(gs, ids@);
        lemma_listed_sum_monotone(gs, ids@, 0);
    }
    while i < ids.len()
        invariant
            i <= ids@.len() <= u32::MAX,
            gs == library::games_view(games@),
            sum_nat(listed_hltb(gs, ids@)) <= u32::MAX,
            sum == sum_nat(listed_hltb(gs, ids@.take(i as int))),
            count == listed_hltb(gs, ids@.take(i as int)).len(),
            count <= i,
        decreases ids@.len() - i,
    {
        let ghost prefix = ids@.take(i + 1);
        proof {
            assert(prefix.drop_last() =~= ids@.take(i as int));
            assert(prefix.last() == ids@[i as int]);
            lemma_listed_sum_monotone(gs, ids@, i + 1);
        }
        let ghost rest = listed_hltb(gs, ids@.take(i as int));
        assert(sum_nat(listed_hltb(gs, prefix)) <= u32::MAX);
        match lookup_game_exec(games, ids[i]) {
            Some(k) => match games[k].hltb_main_story_seconds {
                Some(s) => {
                    assert(listed_hltb(gs, prefix) == rest.push((s / 60) as nat));
                    assert(rest.push((s / 60) as nat).drop_last() =~= rest);
                    sum = sum + s / 60;
                    count = count + 1;
                },
                None => {},
            },
            None => {},
        }
        i = i + 1;
    }
    assert(ids@.take(ids@.len() as int) =~= ids@);
    if count == 0 {
        return None;
    }
    Some(sum / count)
}

proof fn lemma_listed_sum_monotone(gs: Seq<GameView>, ids: Seq<u32>, i: int)
    requires
        0 <= i <= ids.len(),
    ensures
        sum_nat(listed_hltb(gs, ids.take(i))) <= sum_nat(listed_hltb(gs, ids)),
    decreases ids.len() - i,
{
    if i < ids.len() {
        assert(ids.drop_last().take(i) =~= ids.take(i));
        lemma_listed_sum_monotone(gs, ids.drop_last(), i);
        let rest = listed_hltb(gs, ids.drop_last());
        match lookup_game(gs, ids.last()) {
            Some(g) => match hltb_minutes(g) {
                Some(m) => {
                    assert(rest.push(m).drop_last() =~= rest);
                },
                None => {},
            },
            None => {},
        }
    } else {
        assert(ids.take(i) =~= ids);
    }
}


/// The first game in the library with AppID `id`, if any.
pub open spec fn first_game_with(gs: Seq<GameView>, id: u32) -> Option<GameView>
    decreases gs.len(),
{
    if gs.len() == 0 {
        None
    } else if gs[0].app_id == id {
        Some(gs[0])
    } else {
        first_game_with(gs.drop_first(), id)
    }
}

/// What a recommendation card shows of a game besides its rating: playtime
/// (0 when unknown), HowLongToBeat minutes and ProtonDB tier.
pub struct GameSummary {
    pub playtime_minutes: u32,
    pub hltb_minutes: Option<u32>,
    pub proton_tier: Option<library::ProtonTier>,
}

/// The summary of a game.
pub open spec fn summary_of(g: GameView) -> (u32, Option<u32>, Option<library::ProtonTier>) {
    (
        match g.playtime_minutes {
            Some(m) => m,
            None => 0,
        },
        match g.hltb_main_story_seconds {
            Some(s) => Some((s / 60) as u32),
            None => None,
        },
        g.proton_tier,
    )
}

/// The summary of the first library game with AppID `id`; all unknown
/// (0 minutes, no times, no tier) when the library has no such game.
pub fn game_summary(games: &Vec<GameFacts>, id: u32) -> (s: GameSummary)
    ensures
        (s.playtime_minutes, s.hltb_minutes, s.proton_tier) == match first_game_with(
            library::games_view(games@),
            id,
        ) {
            Some(g) => summary_of(g),
            None => (0u32, None::<u32>, None::<library::ProtonTier>),
        },
{
    let ghost gs = library::games_view(games@);
    assert(gs.skip(0) =~= gs);
    let mut k: usize = 0;
    while k < games.len()
        invariant
            k <= games.len(),
            gs == library::games_view(games@),
            first_game_with(gs, id) == first_game_with(gs.skip(k as int), id),
        decreases games.len() - k,
    {
        let ghost rest = gs.skip(k as int);
        assert(rest[0] == games@[k as int]@);
        assert(rest.drop_first() =~= gs.skip(k + 1));
        if games[k].app_id == id {
            let g = &games[k];
            return GameSummary {
                playtime_minutes: match g.playtime_minutes {
                    Some(m) => m,
                    None => 0,
                },
                hltb_minutes: match g.hltb_main_story_seconds {
                    Some(sec) => Some(sec / 60),
                    None => None,
                },
                proton_tier: g.proton_tier,
            };
        }
        k = k + 1;
    }
    assert(gs.skip(games.len() as int) =~= Seq::<GameView>::empty());
    GameSummary { playtime_minutes: 0, hltb_minutes: None, proton_tier: None }
}

} // verus!
