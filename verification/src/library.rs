//! The Library grid: which games a set of filters shows, and in what order.
//!
//! A game is described by [`GameFacts`], the plain values the filters and
//! sort keys read from a scanned and enriched game. Text filters compare the
//! lowercase forms of the query and of the game's strings by substring.

use crate::text;
use vstd::prelude::*;

verus! {

/// ProtonDB compatibility tier.
#[derive(Clone, Copy, Debug, PartialEq, Eq, Structural)]
pub enum ProtonTier {
    Borked,
    Bronze,
    Silver,
    Gold,
    Platinum,
    Native,
    Unknown,
}

/// Controller support reported by PCGamingWiki.
#[derive(Clone, Copy, Debug, PartialEq, Eq, Structural)]
pub enum ControllerSupport {
    Full,
    Partial,
    NoSupport,
    Unknown,
}

/// Sort key for the Library grid.
#[derive(Clone, Copy, Debug, PartialEq, Eq, Structural)]
pub enum LibrarySort {
    InstalledThenPlaytime,
    Name,
    Playtime,
    Hltb,
    Rating,
    AppId,
}

impl Default for LibrarySort {
    fn default() -> (s: Self)
        ensures
            s == LibrarySort::InstalledThenPlaytime,
    {
        LibrarySort::InstalledThenPlaytime
    }
}

/// What the Library reads about one game. A source that has not been
/// fetched contributes empty lists and `None`s.
pub struct GameFacts {
    pub app_id: u32,
    pub name: String,
    pub installed: bool,
    pub is_hidden: bool,
    pub is_junk: bool,
    pub playtime_minutes: Option<u32>,
    pub last_played_unix: Option<i64>,
    /// Number of Steam collections the game belongs to.
    pub collection_count: usize,
    /// HowLongToBeat main-story time.
    pub hltb_main_story_seconds: Option<u32>,
    /// IGDB "normally" time-to-beat.
    pub igdb_time_to_beat_seconds: Option<u32>,
    pub igdb_genres: Vec<String>,
    pub igdb_keywords: Vec<String>,
    pub steam_store_genres: Vec<String>,
    pub rawg_genres: Vec<String>,
    pub rawg_tags: Vec<String>,
    pub proton_tier: Option<ProtonTier>,
    pub controller_support: Option<ControllerSupport>,
    /// Order key of the RAWG rating: a larger key is a higher rating, equal
    /// keys are equal ratings, and a game without a rating has the key of a
    /// zero rating.
    pub rating_order: u32,
}

/// The mathematical content of a [`GameFacts`].
pub struct GameView {
    pub app_id: u32,
    pub name: Seq<char>,
    pub installed: bool,
    pub is_hidden: bool,
    pub is_junk: bool,
    pub playtime_minutes: Option<u32>,
    pub last_played_unix: Option<i64>,
    pub collection_count: usize,
    pub hltb_main_story_seconds: Option<u32>,
    pub igdb_time_to_beat_seconds: Option<u32>,
    pub igdb_genres: Seq<Seq<char>>,
    pub igdb_keywords: Seq<Seq<char>>,
    pub steam_store_genres: Seq<Seq<char>>,
    pub rawg_genres: Seq<Seq<char>>,
    pub rawg_tags: Seq<Seq<char>>,
    pub proton_tier: Option<ProtonTier>,
    pub controller_support: Option<ControllerSupport>,
    pub rating_order: u32,
}

/// The characters of each string in a list.
pub open spec fn strings_view(v: Seq<String>) -> Seq<Seq<char>> {
    v.map_values(|s: String| s@)
}

impl View for GameFacts {
    type V = GameView;

    open spec fn view(&self) -> GameView {
        GameView {
            app_id: self.app_id,
            name: self.name@,
            installed: self.installed,
            is_hidden: self.is_hidden,
            is_junk: self.is_junk,
            playtime_minutes: self.playtime_minutes,
            last_played_unix: self.last_played_unix,
            collection_count: self.collection_count,
            hltb_main_story_seconds: self.hltb_main_story_seconds,
            igdb_time_to_beat_seconds: self.igdb_time_to_beat_seconds,
            igdb_genres: strings_view(self.igdb_genres@),
            igdb_keywords: strings_view(self.igdb_keywords@),
            steam_store_genres: strings_view(self.steam_store_genres@),
            rawg_genres: strings_view(self.rawg_genres@),
            rawg_tags: strings_view(self.rawg_tags@),
            proton_tier: self.proton_tier,
            controller_support: self.controller_support,
            rating_order: self.rating_order,
        }
    }
}

/// A copy of a list of strings.
pub fn clone_strings(v: &Vec<String>) -> (r: Vec<String>)
    ensures
        strings_view(r@) == strings_view(v@),
{
    let mut r: Vec<String> = Vec::new();
    let mut i: usize = 0;
    while i < v.len()
        invariant
            i <= v.len(),
            r@.len() == i,
            forall|k: int| 0 <= k < i ==> #[trigger] r@[k]@ == v@[k]@,
        decreases v.len() - i,
    {
        r.push(v[i].clone());
        i = i + 1;
    }
    assert(strings_view(r@) =~= strings_view(v@));
    r
}

impl GameFacts {
    /// A game with the given id and name and nothing else known: not
    /// installed, not hidden, not junk, no playtime and no enrichment data.
    pub fn new(app_id: u32, name: &str) -> (g: Self)
        ensures
            g@.app_id == app_id,
            g@.name == name@,
            !g@.installed,
            !g@.is_hidden,
            !g@.is_junk,
            g@.playtime_minutes is None,
            g@.last_played_unix is None,
            g@.collection_count == 0,
            g@.hltb_main_story_seconds is None,
            g@.igdb_time_to_beat_seconds is None,
            g@.igdb_genres.len() == 0,
            g@.igdb_keywords.len() == 0,
            g@.steam_store_genres.len() == 0,
            g@.rawg_genres.len() == 0,
            g@.rawg_tags.len() == 0,
            g@.proton_tier is None,
            g@.controller_support is None,
            g@.rating_order == 0,
    {
        GameFacts {
            app_id,
            name: name.to_owned(),
            installed: false,
            is_hidden: false,
            is_junk: false,
            playtime_minutes: None,
            last_played_unix: None,
            collection_count: 0,
            hltb_main_story_seconds: None,
            igdb_time_to_beat_seconds: None,
            igdb_genres: Vec::new(),
            igdb_keywords: Vec::new(),
            steam_store_genres: Vec::new(),
            rawg_genres: Vec::new(),
            rawg_tags: Vec::new(),
            proton_tier: None,
            controller_support: None,
            rating_order: 0,
        }
    }

    /// A copy of this game.
    pub fn duplicate(&self) -> (g: Self)
        ensures
            g@ == self@,
    {
        GameFacts {
            app_id: self.app_id,
            name: self.name.clone(),
            installed: self.installed,
            is_hidden: self.is_hidden,
            is_junk: self.is_junk,
            playtime_minutes: self.playtime_minutes,
            last_played_unix: self.last_played_unix,
            collection_count: self.collection_count,
            hltb_main_story_seconds: self.hltb_main_story_seconds,
            igdb_time_to_beat_seconds: self.igdb_time_to_beat_seconds,
            igdb_genres: clone_strings(&self.igdb_genres),
            igdb_keywords: clone_strings(&self.igdb_keywords),
            steam_store_genres: clone_strings(&self.steam_store_genres),
            rawg_genres: clone_strings(&self.rawg_genres),
            rawg_tags: clone_strings(&self.rawg_tags),
            proton_tier: self.proton_tier,
            controller_support: self.controller_support,
            rating_order: self.rating_order,
        }
    }
}

/// Library grid filters and sort. Empty text filters and `None` bounds
/// filter nothing.
pub struct LibraryFilters {
    pub installed_only: bool,
    pub not_hidden: bool,
    pub not_junk: bool,
    pub is_hidden_only: bool,
    pub is_junk_only: bool,
    pub search: String,
    pub genre: String,
    pub tag: String,
    pub proton_tier: Option<ProtonTier>,
    pub deck_compatible: bool,
    pub controller_full: bool,
    pub unplayed_only: bool,
    pub hltb_max_minutes: Option<u32>,
    pub hltb_min_minutes: Option<u32>,
    pub playtime_min_minutes: Option<u32>,
    pub playtime_max_minutes: Option<u32>,
    pub sort_by: LibrarySort,
    pub sort_desc: bool,
}

/// The mathematical content of [`LibraryFilters`].
pub struct FiltersView {
    pub installed_only: bool,
    pub not_hidden: bool,
    pub not_junk: bool,
    pub is_hidden_only: bool,
    pub is_junk_only: bool,
    pub search: Seq<char>,
    pub genre: Seq<char>,
    pub tag: Seq<char>,
    pub proton_tier: Option<ProtonTier>,
    pub deck_compatible: bool,
    pub controller_full: bool,
    pub unplayed_only: bool,
    pub hltb_max_minutes: Option<u32>,
    pub hltb_min_minutes: Option<u32>,
    pub playtime_min_minutes: Option<u32>,
    pub playtime_max_minutes: Option<u32>,
    pub sort_by: LibrarySort,
    pub sort_desc: bool,
}

impl View for LibraryFilters {
    type V = FiltersView;

    open spec fn view(&self) -> FiltersView {
        FiltersView {
            installed_only: self.installed_only,
            not_hidden: self.not_hidden,
            not_junk: self.not_junk,
            is_hidden_only: self.is_hidden_only,
            is_junk_only: self.is_junk_only,
            search: self.search@,
            genre: self.genre@,
            tag: self.tag@,
            proton_tier: self.proton_tier,
            deck_compatible: self.deck_compatible,
            controller_full: self.controller_full,
            unplayed_only: self.unplayed_only,
            hltb_max_minutes: self.hltb_max_minutes,
            hltb_min_minutes: self.hltb_min_minutes,
            playtime_min_minutes: self.playtime_min_minutes,
            playtime_max_minutes: self.playtime_max_minutes,
            sort_by: self.sort_by,
            sort_desc: self.sort_desc,
        }
    }
}

impl Default for LibraryFilters {
    /// Filters that show every game, sorted installed-first then by playtime.
    fn default() -> (f: Self)
        ensures
            !f@.installed_only,
            !f@.not_hidden,
            !f@.not_junk,
            !f@.is_hidden_only,
            !f@.is_junk_only,
            f@.search.len() == 0,
            f@.genre.len() == 0,
            f@.tag.len() == 0,
            f@.proton_tier is None,
            !f@.deck_compatible,
            !f@.controller_full,
            !f@.unplayed_only,
            f@.hltb_max_minutes is None,
            f@.hltb_min_minutes is None,
            f@.playtime_min_minutes is None,
            f@.playtime_max_minutes is None,
            f@.sort_by == LibrarySort::InstalledThenPlaytime,
            !f@.sort_desc,
    {
        LibraryFilters {
            installed_only: false,
            not_hidden: false,
            not_junk: false,
            is_hidden_only: false,
            is_junk_only: false,
            search: String::new(),
            genre: String::new(),
            tag: String::new(),
            proton_tier: None,
            deck_compatible: false,
            controller_full: false,
            unplayed_only: false,
            hltb_max_minutes: None,
            hltb_min_minutes: None,
            playtime_min_minutes: None,
            playtime_max_minutes: None,
            sort_by: LibrarySort::InstalledThenPlaytime,
            sort_desc: false,
        }
    }
}

/// ProtonDB tiers ranked Native > Platinum > Gold > Silver > Bronze > Borked
/// > Unknown.
pub open spec fn tier_rank(t: ProtonTier) -> int {
    match t {
        ProtonTier::Native => 6,
        ProtonTier::Platinum => 5,
        ProtonTier::Gold => 4,
        ProtonTier::Silver => 3,
        ProtonTier::Bronze => 2,
        ProtonTier::Borked => 1,
        ProtonTier::Unknown => 0,
    }
}

fn tier_rank_exec(t: ProtonTier) -> (r: u8)
    ensures
        r as int == tier_rank(t),
{
    match t {
        ProtonTier::Native => 6,
        ProtonTier::Platinum => 5,
        ProtonTier::Gold => 4,
        ProtonTier::Silver => 3,
        ProtonTier::Bronze => 2,
        ProtonTier::Borked => 1,
        ProtonTier::Unknown => 0,
    }
}

/// Whether some string of `items`, lowercased, contains `needle_lower`.
pub open spec fn any_lower_contains(items: Seq<Seq<char>>, needle_lower: Seq<char>) -> bool {
    exists|i: int| 0 <= i < items.len() && text::has_substring(text::lowercase_of(#[trigger] items[i]), needle_lower)
}

/// The time to finish a game in minutes: HowLongToBeat main story when
/// known, else IGDB's time-to-beat.
pub open spec fn completion_minutes(g: GameView) -> Option<u32> {
    match g.hltb_main_story_seconds {
        Some(s) => Some((s / 60) as u32),
        None => match g.igdb_time_to_beat_seconds {
            Some(s) => Some((s / 60) as u32),
            None => None,
        },
    }
}

/// Playtime, with an unknown playtime counted as zero.
pub open spec fn playtime_of(g: GameView) -> u32 {
    match g.playtime_minutes {
        Some(p) => p,
        None => 0,
    }
}

/// Whether a game passes every Library filter.
pub open spec fn game_matches(g: GameView, f: FiltersView) -> bool {
    &&& !(f.installed_only && !g.installed)
    &&& !(f.not_hidden && g.is_hidden)
    &&& !(f.not_junk && g.is_junk)
    &&& !(f.is_hidden_only && !g.is_hidden)
    &&& !(f.is_junk_only && !g.is_junk)
    &&& !(f.unplayed_only && playtime_of(g) > 0)
    &&& (f.search.len() == 0 || text::has_substring(text::lowercase_of(g.name), text::lowercase_of(f.search))
        || text::has_substring(text::decimal(g.app_id as nat), text::lowercase_of(f.search)))
    &&& (f.genre.len() == 0 || any_lower_contains(g.igdb_genres, text::lowercase_of(f.genre))
        || any_lower_contains(g.steam_store_genres, text::lowercase_of(f.genre)))
    &&& (match f.proton_tier {
        Some(t) => match g.proton_tier {
            Some(p) => tier_rank(p) >= tier_rank(t),
            None => false,
        },
        None => true,
    })
    &&& (f.deck_compatible ==> match g.proton_tier {
        Some(p) => p == ProtonTier::Gold || p == ProtonTier::Platinum || p == ProtonTier::Native,
        None => false,
    })
    &&& (f.controller_full ==> g.controller_support == Some(ControllerSupport::Full))
    &&& (f.tag.len() == 0 || any_lower_contains(g.rawg_tags, text::lowercase_of(f.tag))
        || any_lower_contains(g.igdb_keywords, text::lowercase_of(f.tag)))
    &&& (match f.hltb_max_minutes {
        Some(max) => match completion_minutes(g) {
            Some(m) => m <= max,
            None => false,
        },
        None => true,
    })
    &&& (match f.hltb_min_minutes {
        Some(min) => match completion_minutes(g) {
            Some(m) => m >= min,
            None => false,
        },
        None => true,
    })
    &&& (match f.playtime_min_minutes {
        Some(min) => playtime_of(g) >= min,
        None => true,
    })
    &&& (match f.playtime_max_minutes {
        Some(max) => playtime_of(g) <= max,
        None => true,
    })
}

/// Whether some string of `items`, lowercased, contains `needle_lower`.
fn any_lower_contains_exec(items: &Vec<String>, needle_lower: &Vec<char>) -> (b: bool)
    ensures
        b == any_lower_contains(strings_view(items@), needle_lower@),
{
    let ghost view = strings_view(items@);
    let mut i: usize = 0;
    while i < items.len()
        invariant
            i <= items.len(),
            view == strings_view(items@),
            forall|k: int| 0 <= k < i ==> !text::has_substring(text::lowercase_of(#[trigger] view[k]), needle_lower@),
        decreases items.len() - i,
    {
        let lower = text::to_lowercase(items[i].as_str());
        let lower_chars = text::chars_of(lower.as_str());
        if text::contains_chars(&lower_chars, needle_lower) {
            assert(view[i as int] == items@[i as int]@);
            return true;
        }
        i = i + 1;
    }
    false
}

/// The time to finish a game in minutes, as the filters use it.
fn completion_minutes_exec(g: &GameFacts) -> (r: Option<u32>)
    ensures
        r == completion_minutes(g@),
{
    match g.hltb_main_story_seconds {
        Some(s) => Some(s / 60),
        None => match g.igdb_time_to_beat_seconds {
            Some(s) => Some(s / 60),
            None => None,
        },
    }
}

/// Whether a single game passes the Library filters and search query.
pub fn game_matches_library_filters(game: &GameFacts, filters: &LibraryFilters) -> (b: bool)
    ensures
        b == game_matches(game@, filters@),
        (text::lowercase_of(filters@.search).len() == 0) == (filters@.search.len() == 0),
        (text::lowercase_of(filters@.genre).len() == 0) == (filters@.genre.len() == 0),
        (text::lowercase_of(filters@.tag).len() == 0) == (filters@.tag.len() == 0),
{
    let g = game;
    let f = filters;
    let search_lower = text::chars_of(text::to_lowercase(f.search.as_str()).as_str());
    let genre_lower = text::chars_of(text::to_lowercase(f.genre.as_str()).as_str());
    let tag_lower = text::chars_of(text::to_lowercase(f.tag.as_str()).as_str());
    if f.installed_only && !g.installed {
        return false;
    }
    if f.not_hidden && g.is_hidden {
        return false;
    }
    if f.not_junk && g.is_junk {
        return false;
    }
    if f.is_hidden_only && !g.is_hidden {
        return false;
    }
    if f.is_junk_only && !g.is_junk {
        return false;
    }
    let pt: u32 = match g.playtime_minutes {
        Some(p) => p,
        None => 0,
    };
    if f.unplayed_only && pt > 0 {
        return false;
    }
    if !f.search.as_str().is_empty() {
        let q = &search_lower;
        let name = text::chars_of(text::to_lowercase(g.name.as_str()).as_str());
        let id = text::chars_of(text::decimal_string(g.app_id as u64).as_str());
        if !text::contains_chars(&name, q) && !text::contains_chars(&id, q) {
            return false;
        }
    }
    if !f.genre.as_str().is_empty() {
        if !any_lower_contains_exec(&g.igdb_genres, &genre_lower) && !any_lower_contains_exec(
            &g.steam_store_genres,
            &genre_lower,
        ) {
            return false;
        }
    }
    match f.proton_tier {
        Some(t) => {
            let ok = match g.proton_tier {
                Some(p) => tier_rank_exec(p) >= tier_rank_exec(t),
                None => false,
            };
            if !ok {
                return false;
            }
        },
        None => {},
    }
    if f.deck_compatible {
        let ok = match g.proton_tier {
            Some(p) => match p {
                ProtonTier::Gold | ProtonTier::Platinum | ProtonTier::Native => true,
                _ => false,
            },
            None => false,
        };
        if !ok {
            return false;
        }
    }
    if f.controller_full {
        let ok = match g.controller_support {
            Some(ControllerSupport::Full) => true,
            _ => false,
        };
        if !ok {
            return false;
        }
    }
    if !f.tag.as_str().is_empty() {
        if !any_lower_contains_exec(&g.rawg_tags, &tag_lower) && !any_lower_contains_exec(
            &g.igdb_keywords,
            &tag_lower,
        ) {
            return false;
        }
    }
    let completion = completion_minutes_exec(g);
    match f.hltb_max_minutes {
        Some(max) => match completion {
            Some(m) => {
                if m > max {
                    return false;
                }
            },
            None => {
                return false;
            },
        },
        None => {},
    }
    match f.hltb_min_minutes {
        Some(min) => match completion {
            Some(m) => {
                if m < min {
                    return false;
                }
            },
            None => {
                return false;
            },
        },
        None => {},
    }
    match f.playtime_min_minutes {
        Some(min) => {
            if pt < min {
                return false;
            }
        },
        None => {},
    }
    match f.playtime_max_minutes {
        Some(max) => {
            if pt > max {
                return false;
            }
        },
        None => {},
    }
    true
}

/// The position of a game under a sort: primary number, secondary number,
/// then name characters; smaller sorts first. Descending playtime, HLTB
/// and rating are negated so that larger values come first.
pub open spec fn sort_key(g: GameView, by: LibrarySort) -> (int, int, Seq<char>) {
    match by {
        LibrarySort::InstalledThenPlaytime => (
            if g.installed {
                0
            } else {
                1
            },
            -(playtime_of(g) as int),
            text::lowercase_of(g.name),
        ),
        LibrarySort::Name => (0, 0, text::lowercase_of(g.name)),
        LibrarySort::Playtime => (-(playtime_of(g) as int), 0, text::lowercase_of(g.name)),
        LibrarySort::Hltb => (
            -(match g.hltb_main_story_seconds {
                Some(s) => s as int,
                None => 0,
            }),
            0,
            text::lowercase_of(g.name),
        ),
        LibrarySort::Rating => (-(g.rating_order as int), 0, text::lowercase_of(g.name)),
        LibrarySort::AppId => (g.app_id as int, 0, Seq::<char>::empty()),
    }
}

/// Three-way comparison of sort positions: primary, then secondary, then
/// names.
pub open spec fn key_order(a: (int, int, Seq<char>), b: (int, int, Seq<char>)) -> int {
    if a.0 < b.0 {
        -1
    } else if a.0 > b.0 {
        1
    } else if a.1 < b.1 {
        -1
    } else if a.1 > b.1 {
        1
    } else {
        text::lex_order(a.2, b.2)
    }
}

/// The comparison in the chosen direction.
pub open spec fn directed_order(
    a: (int, int, Seq<char>),
    b: (int, int, Seq<char>),
    reversed: bool,
) -> int {
    if reversed {
        key_order(b, a)
    } else {
        key_order(a, b)
    }
}

/// Position `x` goes before position `y`: it compares lower, or equal and
/// it came first in the input (the sort is stable).
pub open spec fn precedes(
    keys: Seq<(int, int, Seq<char>)>,
    reversed: bool,
    x: usize,
    y: usize,
) -> bool {
    let c = directed_order(keys[x as int], keys[y as int], reversed);
    c < 0 || (c == 0 && x < y)
}

/// `order` lists each selected position exactly once, in stable sorted
/// order.
pub open spec fn is_stable_order(
    keys: Seq<(int, int, Seq<char>)>,
    selected: Seq<bool>,
    reversed: bool,
    order: Seq<usize>,
) -> bool {
    &&& order.no_duplicates()
    &&& forall|k: int|
        0 <= k < order.len() ==> #[trigger] order[k] < keys.len() && selected[order[k] as int]
    &&& forall|x: int| 0 <= x < keys.len() && #[trigger] selected[x] ==> order.contains(x as usize)
    &&& forall|a: int, b: int|
        0 <= a < b < order.len() ==> precedes(keys, reversed, #[trigger] order[a], #[trigger] order[b])
}

/// `key_order` is antisymmetric.
pub proof fn lemma_key_order_antisymmetric(a: (int, int, Seq<char>), b: (int, int, Seq<char>))
    ensures
        key_order(a, b) == -key_order(b, a),
{
    text::lemma_lex_order_antisymmetric(a.2, b.2);
}

/// `key_order` orders transitively.
pub proof fn lemma_key_order_transitive(
    a: (int, int, Seq<char>),
    b: (int, int, Seq<char>),
    c: (int, int, Seq<char>),
)
    requires
        key_order(a, b) <= 0,
        key_order(b, c) <= 0,
    ensures
        key_order(a, c) <= 0,
{
    if a.0 == b.0 && b.0 == c.0 && a.1 == b.1 && b.1 == c.1 {
        text::lemma_lex_order_transitive(a.2, b.2, c.2);
    }
}

proof fn lemma_directed_facts(
    a: (int, int, Seq<char>),
    b: (int, int, Seq<char>),
    c: (int, int, Seq<char>),
    reversed: bool,
)
    ensures
        directed_order(a, b, reversed) == -directed_order(b, a, reversed),
        directed_order(a, b, reversed) <= 0 && directed_order(b, c, reversed) <= 0
            ==> directed_order(a, c, reversed) <= 0,
{
    lemma_key_order_antisymmetric(a, b);
    if directed_order(a, b, reversed) <= 0 && directed_order(b, c, reversed) <= 0 {
        if reversed {
            lemma_key_order_transitive(c, b, a);
        } else {
            lemma_key_order_transitive(a, b, c);
        }
    }
}

/// The executable form of a sort position.
pub struct RankKey {
    pub primary: i64,
    pub secondary: i64,
    pub name: Vec<char>,
}

impl View for RankKey {
    type V = (int, int, Seq<char>);

    open spec fn view(&self) -> (int, int, Seq<char>) {
        (self.primary as int, self.secondary as int, self.name@)
    }
}

/// The sort positions of a list of keys.
pub open spec fn keys_view(keys: Seq<RankKey>) -> Seq<(int, int, Seq<char>)> {
    keys.map_values(|k: RankKey| k@)
}

fn forward_rank_order(a: &RankKey, b: &RankKey) -> (r: i8)
    ensures
        r as int == key_order(a@, b@),
{
    if a.primary < b.primary {
        -1
    } else if a.primary > b.primary {
        1
    } else if a.secondary < b.secondary {
        -1
    } else if a.secondary > b.secondary {
        1
    } else {
        text::compare_chars(&a.name, &b.name)
    }
}

fn rank_order(a: &RankKey, b: &RankKey, reversed: bool) -> (r: i8)
    ensures
        r as int == directed_order(a@, b@, reversed),
{
    if reversed {
        forward_rank_order(b, a)
    } else {
        forward_rank_order(a, b)
    }
}

/// The selected positions of `keys`, stably sorted by their keys (in the
/// reversed direction when `reversed`).
#[verifier::rlimit(40)]
pub fn stable_order(keys: &Vec<RankKey>, selected: &Vec<bool>, reversed: bool) -> (order: Vec<
    usize,
>)
    requires
        keys.len() == selected.len(),
    ensures
        is_stable_order(keys_view(keys@), selected@, reversed, order@),
{
    let ghost kv = keys_view(keys@);
    let n = keys.len();
    let mut order: Vec<usize> = Vec::new();
    let mut i: usize = 0;
    while i < n
        invariant
            i <= n == keys.len() == selected.len(),
            kv == keys_view(keys@),
            order@.no_duplicates(),
            forall|k: int| 0 <= k < order@.len() ==> #[trigger] order@[k] < i && selected@[order@[k] as int],
            forall|x: int| 0 <= x < i && #[trigger] selected@[x] ==> order@.contains(x as usize),
            forall|a: int, b: int|
                0 <= a < b < order@.len() ==> precedes(kv, reversed, #[trigger] order@[a], #[trigger] order@[b]),
        decreases n - i,
    {
        if selected[i] {
            let mut j: usize = order.len();
            while j > 0 && rank_order(&keys[order[j - 1]], &keys[i], reversed) > 0
                invariant
                    j <= order@.len(),
                    i < n == keys.len() == selected.len(),
                    kv == keys_view(keys@),
                    forall|k: int| 0 <= k < order@.len() ==> #[trigger] order@[k] < i,
                    forall|t: int|
                        j <= t < order@.len() ==> directed_order(
                            kv[#[trigger] order@[t] as int],
                            kv[i as int],
                            reversed,
                        ) > 0,
                decreases j,
            {
                j = j - 1;
            }
            let ghost old_order = order@;
            proof {
                if j > 0 {
                    assert(directed_order(kv[old_order[j - 1] as int], kv[i as int], reversed)
                        <= 0);
                }
            }
            order.insert(j, i);
            proof {
                let no = order@;
                assert(no == old_order.insert(j as int, i));
                assert forall|a: int, b: int| 0 <= a < b < no.len() implies precedes(
                    kv,
                    reversed,
                    #[trigger] no[a],
                    #[trigger] no[b],
                ) by {
                    if b < j {
                        assert(no[a] == old_order[a] && no[b] == old_order[b]);
                    } else if a > j {
                        assert(no[a] == old_order[a - 1] && no[b] == old_order[b - 1]);
                    } else if a == j {
                        assert(no[b] == old_order[b - 1]);
                        lemma_directed_facts(
                            kv[old_order[b - 1] as int],
                            kv[i as int],
                            kv[i as int],
                            reversed,
                        );
                    } else if b == j {
                        assert(no[a] == old_order[a]);
                        let last = old_order[j - 1];
                        if a < j - 1 {
                            assert(precedes(kv, reversed, old_order[a], last));
                            lemma_directed_facts(
                                kv[old_order[a] as int],
                                kv[last as int],
                                kv[i as int],
                                reversed,
                            );
                        }
                    } else {
                        assert(no[a] == old_order[a] && no[b] == old_order[b - 1]);
                    }
                }
                assert forall|k: int| 0 <= k < no.len() implies #[trigger] no[k] < i + 1
                    && selected@[no[k] as int] by {
                    if k < j {
                        assert(no[k] == old_order[k]);
                    } else if k > j {
                        assert(no[k] == old_order[k - 1]);
                    }
                }
                assert forall|x: int| 0 <= x < i + 1 && #[trigger] selected@[x] implies no.contains(
                    x as usize,
                ) by {
                    if x < i {
                        let p = choose|p: int| 0 <= p < old_order.len() && old_order[p] == x as usize;
                        if p < j {
                            assert(no[p] == x as usize);
                        } else {
                            assert(no[p + 1] == x as usize);
                        }
                    } else {
                        assert(no[j as int] == i);
                    }
                }
                assert forall|a: int, b: int| 0 <= a < no.len() && 0 <= b < no.len() && a != b implies no[a]
                    != no[b] by {
                    let oa = if a < j { a } else if a > j { a - 1 } else { -1 };
                    let ob = if b < j { b } else if b > j { b - 1 } else { -1 };
                    if oa >= 0 {
                        assert(no[a] == old_order[oa]);
                    }
                    if ob >= 0 {
                        assert(no[b] == old_order[ob]);
                    }
                }
            }
        } else {
            proof {
                assert forall|x: int| 0 <= x < i + 1 && #[trigger] selected@[x] implies order@.contains(
                    x as usize,
                ) by {}
            }
        }
        i = i + 1;
    }
    order
}

/// The views of a list of games.
pub open spec fn games_view(games: Seq<GameFacts>) -> Seq<GameView> {
    games.map_values(|g: GameFacts| g@)
}

/// The sort position of each game.
pub open spec fn library_keys(games: Seq<GameView>, by: LibrarySort) -> Seq<(int, int, Seq<char>)> {
    games.map_values(|g: GameView| sort_key(g, by))
}

/// Which games pass the filters.
pub open spec fn library_selection(games: Seq<GameView>, f: FiltersView) -> Seq<bool> {
    games.map_values(|g: GameView| game_matches(g, f))
}

/// A descending sort reverses the comparison, except for the default
/// installed-then-playtime order, which has no direction.
pub open spec fn sort_reversed(f: FiltersView) -> bool {
    f.sort_desc && f.sort_by != LibrarySort::InstalledThenPlaytime
}

/// `order` is the Library order of `games` under `f`: the matching games,
/// each once, stably sorted by the chosen key and direction.
pub open spec fn is_library_order(games: Seq<GameView>, f: FiltersView, order: Seq<usize>) -> bool {
    is_stable_order(
        library_keys(games, f.sort_by),
        library_selection(games, f),
        sort_reversed(f),
        order,
    )
}

/// The executable sort position of a game.
fn rank_key(g: &GameFacts, by: LibrarySort) -> (k: RankKey)
    ensures
        k@ == sort_key(g@, by),
{
    let pt: u32 = match g.playtime_minutes {
        Some(p) => p,
        None => 0,
    };
    match by {
        LibrarySort::InstalledThenPlaytime => RankKey {
            primary: if g.installed {
                0
            } else {
                1
            },
            secondary: -(pt as i64),
            name: text::chars_of(text::to_lowercase(g.name.as_str()).as_str()),
        },
        LibrarySort::Name => RankKey {
            primary: 0,
            secondary: 0,
            name: text::chars_of(text::to_lowercase(g.name.as_str()).as_str()),
        },
        LibrarySort::Playtime => RankKey {
            primary: -(pt as i64),
            secondary: 0,
            name: text::chars_of(text::to_lowercase(g.name.as_str()).as_str()),
        },
        LibrarySort::Hltb => {
            let h: u32 = match g.hltb_main_story_seconds {
                Some(s) => s,
                None => 0,
            };
            RankKey {
                primary: -(h as i64),
                secondary: 0,
                name: text::chars_of(text::to_lowercase(g.name.as_str()).as_str()),
            }
        },
        LibrarySort::Rating => RankKey {
            primary: -(g.rating_order as i64),
            secondary: 0,
            name: text::chars_of(text::to_lowercase(g.name.as_str()).as_str()),
        },
        LibrarySort::AppId => RankKey { primary: g.app_id as i64, secondary: 0, name: Vec::new() },
    }
}

/// The positions of the games the Library grid shows, in display order.
pub fn library_order(games: &Vec<GameFacts>, filters: &LibraryFilters) -> (order: Vec<usize>)
    ensures
        is_library_order(games_view(games@), filters@, order@),
{
    let mut keys: Vec<RankKey> = Vec::new();
    let mut selected: Vec<bool> = Vec::new();
    let mut i: usize = 0;
    while i < games.len()
        invariant
            i <= games.len(),
            keys@.len() == i,
            selected@.len() == i,
            forall|k: int| 0 <= k < i ==> #[trigger] keys@[k]@ == sort_key(games@[k]@, filters@.sort_by),
            forall|k: int| 0 <= k < i ==> #[trigger] selected@[k] == game_matches(games@[k]@, filters@),
        decreases games.len() - i,
    {
        keys.push(rank_key(&games[i], filters.sort_by));
        selected.push(game_matches_library_filters(&games[i], filters));
        i = i + 1;
    }
    let reversed = filters.sort_desc && match filters.sort_by {
        LibrarySort::InstalledThenPlaytime => false,
        _ => true,
    };
    let order = stable_order(&keys, &selected, reversed);
    assert(keys_view(keys@) =~= library_keys(games_view(games@), filters@.sort_by));
    assert(selected@ =~= library_selection(games_view(games@), filters@));
    order
}

/// The games the Library grid shows, filtered and sorted.
pub fn project_library_games(games: &Vec<GameFacts>, filters: &LibraryFilters) -> (shown: Vec<
    GameFacts,
>)
    ensures
        exists|order: Seq<usize>|
            is_library_order(games_view(games@), filters@, order) && games_view(shown@)
                == order.map_values(|k: usize| games@[k as int]@),
{
    let order = library_order(games, filters);
    let mut shown: Vec<GameFacts> = Vec::new();
    let mut i: usize = 0;
    while i < order.len()
        invariant
            i <= order.len(),
            is_library_order(games_view(games@), filters@, order@),
            shown@.len() == i,
            forall|k: int| 0 <= k < i ==> #[trigger] shown@[k]@ == games@[order@[k] as int]@,
        decreases order.len() - i,
    {
        let idx = order[i];
        assert(idx < games_view(games@).len());
        shown.push(games[idx].duplicate());
        i = i + 1;
    }
    assert(games_view(shown@) =~= order@.map_values(|k: usize| games@[k as int]@));
    shown
}

proof fn lemma_stable_order_drop_first(
    keys: Seq<(int, int, Seq<char>)>,
    selected: Seq<bool>,
    reversed: bool,
    order: Seq<usize>,
)
    requires
        is_stable_order(keys, selected, reversed, order),
        order.len() > 0,
        keys.len() == selected.len(),
        keys.len() <= usize::MAX,
    ensures
        is_stable_order(
            keys,
            selected.update(order[0] as int, false),
            reversed,
            order.drop_first(),
        ),
{
    let x = order[0];
    let sel2 = selected.update(x as int, false);
    let rest = order.drop_first();
    assert forall|k: int| 0 <= k < rest.len() implies #[trigger] rest[k] < keys.len() && sel2[rest[k] as int] by {
        assert(rest[k] == order[k + 1]);
        assert(order[k + 1] != order[0]);
    }
    assert forall|y: int| 0 <= y < keys.len() && #[trigger] sel2[y] implies rest.contains(y as usize) by {
        assert(selected[y]);
        assert(y != x as int);
        let p = choose|p: int| 0 <= p < order.len() && order[p] == y as usize;
        assert(order[p] == y as usize);
        assert(p != 0);
        assert(rest[p - 1] == y as usize);
    }
    assert forall|a: int, b: int| 0 <= a < b < rest.len() implies precedes(
        keys,
        reversed,
        #[trigger] rest[a],
        #[trigger] rest[b],
    ) by {
        assert(rest[a] == order[a + 1] && rest[b] == order[b + 1]);
    }
}

/// A stable order of the selected positions is unique: two lists that each
/// hold every selected position once, stably sorted, are the same list.
pub proof fn lemma_stable_order_unique(
    keys: Seq<(int, int, Seq<char>)>,
    selected: Seq<bool>,
    reversed: bool,
    o1: Seq<usize>,
    o2: Seq<usize>,
)
    requires
        keys.len() == selected.len(),
        keys.len() <= usize::MAX,
        is_stable_order(keys, selected, reversed, o1),
        is_stable_order(keys, selected, reversed, o2),
    ensures
        o1 == o2,
    decreases o1.len(),
{
    if o1.len() == 0 {
        if o2.len() > 0 {
            assert(selected[o2[0] as int]);
            assert(o1.contains(o2[0]));
        }
        assert(o1 =~= o2);
    } else {
        let x = o1[0];
        assert(selected[x as int]);
        assert(o2.contains(x));
        let y = o2[0];
        if x != y {
            assert(selected[y as int]);
            let p = choose|p: int| 0 <= p < o2.len() && o2[p] == x;
            let q = choose|q: int| 0 <= q < o1.len() && o1[q] == y;
            assert(p > 0 && q > 0);
            assert(precedes(keys, reversed, o2[0], o2[p]));
            assert(precedes(keys, reversed, o1[0], o1[q]));
            lemma_directed_facts(keys[x as int], keys[y as int], keys[y as int], reversed);
            assert(false);
        }
        lemma_stable_order_drop_first(keys, selected, reversed, o1);
        lemma_stable_order_drop_first(keys, selected, reversed, o2);
        lemma_stable_order_unique(
            keys,
            selected.update(x as int, false),
            reversed,
            o1.drop_first(),
            o2.drop_first(),
        );
        assert(o1 =~= seq![x] + o1.drop_first());
        assert(o2 =~= seq![x] + o2.drop_first());
    }
}

/// The Library grid's order is determined by the games and the filters:
/// any two lists that meet the Library order's description are equal, so
/// `project_library_games` has exactly one possible result.
pub proof fn lemma_library_order_unique(
    games: Seq<GameView>,
    f: FiltersView,
    o1: Seq<usize>,
    o2: Seq<usize>,
)
    requires
        games.len() <= usize::MAX,
        is_library_order(games, f, o1),
        is_library_order(games, f, o2),
    ensures
        o1 == o2,
{
    lemma_stable_order_unique(
        library_keys(games, f.sort_by),
        library_selection(games, f),
        sort_reversed(f),
        o1,
        o2,
    );
}

/// The tag filter also searches IGDB keywords: with a tag typed, a game
/// one of whose IGDB keywords, lowercased, contains the lowercased tag
/// passes the tag filter, so it is shown whenever every other filter lets
/// it through.
pub proof fn lemma_tag_matches_igdb_keyword(g: GameView, f: FiltersView, k: int)
    requires
        f.tag.len() > 0,
        0 <= k < g.igdb_keywords.len(),
        text::has_substring(text::lowercase_of(g.igdb_keywords[k]), text::lowercase_of(f.tag)),
        game_matches(g, FiltersView { tag: Seq::empty(), ..f }),
    ensures
        game_matches(g, f),
{
    assert(text::has_substring(text::lowercase_of(g.igdb_keywords[k]), text::lowercase_of(f.tag)));
    assert(any_lower_contains(g.igdb_keywords, text::lowercase_of(f.tag)));
}

/// The tag filter searches RAWG tags: with a tag typed, a game one of whose
/// RAWG tags, lowercased, contains the lowercased tag passes the tag filter.
pub proof fn lemma_tag_matches_rawg_tag(g: GameView, f: FiltersView, k: int)
    requires
        f.tag.len() > 0,
        0 <= k < g.rawg_tags.len(),
        text::has_substring(text::lowercase_of(g.rawg_tags[k]), text::lowercase_of(f.tag)),
        game_matches(g, FiltersView { tag: Seq::empty(), ..f }),
    ensures
        game_matches(g, f),
{
    assert(any_lower_contains(g.rawg_tags, text::lowercase_of(f.tag)));
}

/// Under the default Installed + Playtime sort, of two shown games with the
/// same installed state and the same playtime, the one whose lowercase name
/// sorts first comes first.
pub proof fn lemma_installed_playtime_ties_by_name(
    games: Seq<GameView>,
    f: FiltersView,
    order: Seq<usize>,
    a: int,
    b: int,
)
    requires
        f.sort_by == LibrarySort::InstalledThenPlaytime,
        is_library_order(games, f, order),
        0 <= a < b < order.len(),
        games[order[a] as int].installed == games[order[b] as int].installed,
        playtime_of(games[order[a] as int]) == playtime_of(games[order[b] as int]),
    ensures
        text::lex_order(
            text::lowercase_of(games[order[a] as int].name),
            text::lowercase_of(games[order[b] as int].name),
        ) <= 0,
{
    let keys = library_keys(games, f.sort_by);
    let x = order[a];
    let y = order[b];
    assert(precedes(keys, sort_reversed(f), order[a], order[b]));
    assert(x < keys.len() && y < keys.len());
    assert(keys[x as int] == sort_key(games[x as int], f.sort_by));
    assert(keys[y as int] == sort_key(games[y as int], f.sort_by));
}

/// The HowLongToBeat main-story seconds a sort by HLTB compares, unknown as
/// zero.
pub open spec fn hltb_seconds_of(g: GameView) -> u32 {
    match g.hltb_main_story_seconds {
        Some(s) => s,
        None => 0,
    }
}

/// The Library grid is sorted as chosen. Of two shown games, the earlier
/// one: under Installed + Playtime is installed if the later one is, and
/// has at least its playtime when both are installed or both are not;
/// under Name has the lowercase name that sorts first; under Playtime, HLTB
/// and Rating has the larger value, ties broken by lowercase name; under
/// AppId has the smaller id. A descending sort (except Installed +
/// Playtime, which has no direction) reverses each of these.
pub proof fn lemma_library_order_sorted(
    games: Seq<GameView>,
    f: FiltersView,
    order: Seq<usize>,
    a: int,
    b: int,
)
    requires
        is_library_order(games, f, order),
        0 <= a < b < order.len(),
    ensures
        ({
            let x = games[order[a] as int];
            let y = games[order[b] as int];
            let nx = text::lowercase_of(x.name);
            let ny = text::lowercase_of(y.name);
            let desc = f.sort_desc;
            &&& f.sort_by == LibrarySort::InstalledThenPlaytime ==> {
                &&& (y.installed ==> x.installed)
                &&& (x.installed == y.installed ==> playtime_of(x) >= playtime_of(y))
            }
            &&& f.sort_by == LibrarySort::Name ==> if desc {
                text::lex_order(ny, nx) <= 0
            } else {
                text::lex_order(nx, ny) <= 0
            }
            &&& f.sort_by == LibrarySort::Playtime ==> if desc {
                &&& playtime_of(x) <= playtime_of(y)
                &&& (playtime_of(x) == playtime_of(y) ==> text::lex_order(ny, nx) <= 0)
            } else {
                &&& playtime_of(x) >= playtime_of(y)
                &&& (playtime_of(x) == playtime_of(y) ==> text::lex_order(nx, ny) <= 0)
            }
            &&& f.sort_by == LibrarySort::Hltb ==> if desc {
                &&& hltb_seconds_of(x) <= hltb_seconds_of(y)
                &&& (hltb_seconds_of(x) == hltb_seconds_of(y) ==> text::lex_order(ny, nx) <= 0)
            } else {
                &&& hltb_seconds_of(x) >= hltb_seconds_of(y)
                &&& (hltb_seconds_of(x) == hltb_seconds_of(y) ==> text::lex_order(nx, ny) <= 0)
            }
            &&& f.sort_by == LibrarySort::Rating ==> if desc {
                &&& x.rating_order <= y.rating_order
                &&& (x.rating_order == y.rating_order ==> text::lex_order(ny, nx) <= 0)
            } else {
                &&& x.rating_order >= y.rating_order
                &&& (x.rating_order == y.rating_order ==> text::lex_order(nx, ny) <= 0)
            }
            &&& f.sort_by == LibrarySort::AppId ==> if desc {
                x.app_id >= y.app_id
            } else {
                x.app_id <= y.app_id
            }
        }),
{
    let keys = library_keys(games, f.sort_by);
    let i = order[a];
    let j = order[b];
    assert(precedes(keys, sort_reversed(f), order[a], order[b]));
    assert(i < keys.len() && j < keys.len());
    assert(keys[i as int] == sort_key(games[i as int], f.sort_by));
    assert(keys[j as int] == sort_key(games[j as int], f.sort_by));
}

/// The genre filter searches IGDB genres and Steam store genres: with a
/// genre typed, a game one of whose genres from either source, lowercased,
/// contains the lowercased genre passes the genre filter.
pub proof fn lemma_genre_matches_either_source(g: GameView, f: FiltersView, from_igdb: bool, k: int)
    requires
        f.genre.len() > 0,
        from_igdb ==> 0 <= k < g.igdb_genres.len() && text::has_substring(
            text::lowercase_of(g.igdb_genres[k]),
            text::lowercase_of(f.genre),
        ),
        !from_igdb ==> 0 <= k < g.steam_store_genres.len() && text::has_substring(
            text::lowercase_of(g.steam_store_genres[k]),
            text::lowercase_of(f.genre),
        ),
        game_matches(g, FiltersView { genre: Seq::empty(), ..f }),
    ensures
        game_matches(g, f),
{
    if from_igdb {
        assert(any_lower_contains(g.igdb_genres, text::lowercase_of(f.genre)));
    } else {
        assert(any_lower_contains(g.steam_store_genres, text::lowercase_of(f.genre)));
    }
}

/// The search box finds a game by its name or by its Steam app id: with a
/// search typed, a game whose lowercase name, or whose app id in decimal,
/// contains the lowercased search passes the search.
pub proof fn lemma_search_matches_name_or_app_id(g: GameView, f: FiltersView)
    requires
        f.search.len() > 0,
        text::has_substring(text::lowercase_of(g.name), text::lowercase_of(f.search))
            || text::has_substring(text::decimal(g.app_id as nat), text::lowercase_of(f.search)),
        game_matches(g, FiltersView { search: Seq::empty(), ..f }),
    ensures
        game_matches(g, f),
{
}

} // verus!
