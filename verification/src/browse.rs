//! The Library screen's inputs (search box, scope, quick view, advanced
//! filter fields) and the filters they make.

use crate::library::{self, GameFacts, LibraryFilters, LibrarySort, ProtonTier};
use crate::navigation::{LibraryScope, QuickView};
use crate::text;
use vstd::prelude::*;

verus! {

/// How many cards the grid shows before "Load more".
pub const PAGE_SIZE: usize = 48;

/// The quick-view HowLongToBeat ceiling of "Short sessions", in minutes.
pub const SHORT_SESSION_MINUTES: u32 = 120;

/// The Library screen's filter inputs as the user left them. Range fields
/// hold the text typed; a field that is not a whole number sets no bound.
pub struct LibraryInputs {
    pub search_query: String,
    pub filter_installed_only: bool,
    pub filter_not_hidden: bool,
    pub filter_not_junk: bool,
    pub filter_genre: String,
    pub filter_tag: String,
    pub filter_proton_tier: Option<ProtonTier>,
    pub filter_deck_compatible: bool,
    pub filter_controller_full: bool,
    pub filter_unplayed_only: bool,
    pub filter_hltb_min: String,
    pub filter_hltb_max: String,
    pub filter_playtime_min: String,
    pub filter_playtime_max: String,
    pub library_sort_by: LibrarySort,
    pub library_sort_desc: bool,
    pub library_quick_view: QuickView,
    pub library_scope: LibraryScope,
    pub library_visible_count: usize,
    pub library_selected_app_id: Option<u32>,
}

/// The filters the inputs make: the Installed and Unplayed scopes add their
/// toggle, the Hidden scope shows hidden games only, and "Short sessions"
/// caps the completion time at two hours whatever the HLTB max field says.
pub open spec fn spec_filters_for(i: LibraryInputs) -> library::FiltersView {
    library::FiltersView {
        installed_only: i.filter_installed_only || i.library_scope == LibraryScope::Installed,
        not_hidden: i.filter_not_hidden,
        not_junk: i.filter_not_junk,
        is_hidden_only: i.library_scope == LibraryScope::Hidden,
        is_junk_only: false,
        search: i.search_query@,
        genre: i.filter_genre@,
        tag: i.filter_tag@,
        proton_tier: i.filter_proton_tier,
        deck_compatible: i.filter_deck_compatible,
        controller_full: i.filter_controller_full,
        unplayed_only: i.filter_unplayed_only || i.library_scope == LibraryScope::Unplayed,
        hltb_max_minutes: if i.library_quick_view == QuickView::ShortSessions {
            Some(SHORT_SESSION_MINUTES)
        } else {
            text::parse_u32_spec(i.filter_hltb_max@)
        },
        hltb_min_minutes: text::parse_u32_spec(i.filter_hltb_min@),
        playtime_min_minutes: text::parse_u32_spec(i.filter_playtime_min@),
        playtime_max_minutes: text::parse_u32_spec(i.filter_playtime_max@),
        sort_by: i.library_sort_by,
        sort_desc: i.library_sort_desc,
    }
}

fn parse_field(s: &String) -> (r: Option<u32>)
    ensures
        r == text::parse_u32_spec(s@),
{
    text::parse_u32(&text::chars_of(s.as_str()))
}

impl LibraryInputs {
    /// The inputs of a freshly opened Library: no search, no toggles, all
    /// games in scope, default sort, first page.
    pub fn new() -> (i: Self)
        ensures
            i.search_query@.len() == 0,
            !i.filter_installed_only,
            !i.filter_not_hidden,
            !i.filter_not_junk,
            i.filter_genre@.len() == 0,
            i.filter_tag@.len() == 0,
            i.filter_proton_tier is None,
            !i.filter_deck_compatible,
            !i.filter_controller_full,
            !i.filter_unplayed_only,
            i.filter_hltb_min@.len() == 0,
            i.filter_hltb_max@.len() == 0,
            i.filter_playtime_min@.len() == 0,
            i.filter_playtime_max@.len() == 0,
            i.library_sort_by == LibrarySort::InstalledThenPlaytime,
            !i.library_sort_desc,
            i.library_quick_view == QuickView::All,
            i.library_scope == LibraryScope::All,
            i.library_visible_count == PAGE_SIZE,
            i.library_selected_app_id is None,
    {
        LibraryInputs {
            search_query: String::new(),
            filter_installed_only: false,
            filter_not_hidden: false,
            filter_not_junk: false,
            filter_genre: String::new(),
            filter_tag: String::new(),
            filter_proton_tier: None,
            filter_deck_compatible: false,
            filter_controller_full: false,
            filter_unplayed_only: false,
            filter_hltb_min: String::new(),
            filter_hltb_max: String::new(),
            filter_playtime_min: String::new(),
            filter_playtime_max: String::new(),
            library_sort_by: LibrarySort::InstalledThenPlaytime,
            library_sort_desc: false,
            library_quick_view: QuickView::All,
            library_scope: LibraryScope::All,
            library_visible_count: PAGE_SIZE,
            library_selected_app_id: None,
        }
    }

    /// The filters these inputs make.
    pub fn library_filters(&self) -> (f: LibraryFilters)
        ensures
            f@ == spec_filters_for(*self),
    {
        let hltb_max = match self.library_quick_view {
            QuickView::ShortSessions => Some(SHORT_SESSION_MINUTES),
            _ => parse_field(&self.filter_hltb_max),
        };
        LibraryFilters {
            installed_only: self.filter_installed_only || match self.library_scope {
                LibraryScope::Installed => true,
                _ => false,
            },
            not_hidden: self.filter_not_hidden,
            not_junk: self.filter_not_junk,
            is_hidden_only: match self.library_scope {
                LibraryScope::Hidden => true,
                _ => false,
            },
            is_junk_only: false,
            search: self.search_query.clone(),
            genre: self.filter_genre.clone(),
            tag: self.filter_tag.clone(),
            proton_tier: self.filter_proton_tier,
            deck_compatible: self.filter_deck_compatible,
            controller_full: self.filter_controller_full,
            unplayed_only: self.filter_unplayed_only || match self.library_scope {
                LibraryScope::Unplayed => true,
                _ => false,
            },
            hltb_max_minutes: hltb_max,
            hltb_min_minutes: parse_field(&self.filter_hltb_min),
            playtime_min_minutes: parse_field(&self.filter_playtime_min),
            playtime_max_minutes: parse_field(&self.filter_playtime_max),
            sort_by: self.library_sort_by,
            sort_desc: self.library_sort_desc,
        }
    }

    /// The games the grid shows, from the prepared library snapshot. Nothing
    /// is shown while no fresh snapshot is ready.
    pub fn filtered_games(&self, prepared: Option<&Vec<GameFacts>>) -> (shown: Vec<GameFacts>)
        ensures
            match prepared {
                None => shown@.len() == 0,
                Some(games) => exists|order: Seq<usize>|
                    library::is_library_order(library::games_view(games@), spec_filters_for(*self), order)
                        && library::games_view(shown@) == order.map_values(
                        |k: usize| games@[k as int]@,
                    ),
            },
    {
        match prepared {
            None => Vec::new(),
            Some(games) => {
                let f = self.library_filters();
                library::project_library_games(games, &f)
            },
        }
    }

    /// Selects a scope and goes back to the first page.
    pub fn apply_library_scope(&mut self, scope: LibraryScope)
        ensures
            final(self).library_scope == scope,
            final(self).library_visible_count == PAGE_SIZE,
            final(self).library_quick_view == old(self).library_quick_view,
            spec_filters_for(*final(self)) == spec_filters_for(
                LibraryInputs { library_scope: scope, library_visible_count: PAGE_SIZE, ..*old(self) },
            ),
    {
        self.library_scope = scope;
        self.library_visible_count = PAGE_SIZE;
    }

    /// Applies a quick-view preset: the advanced filters are cleared, then
    /// Cozy and Story-rich set the genre, Great on Deck asks for ProtonDB
    /// Gold or better with full controller support, and Short sessions is
    /// applied as a completion-time cap by the filters. The core toggles and
    /// the search are kept; the grid goes back to the first page.
    pub fn apply_quick_view(&mut self, qv: QuickView)
        ensures
            final(self).library_quick_view == qv,
            final(self).library_visible_count == PAGE_SIZE,
            final(self).search_query == old(self).search_query,
            final(self).filter_installed_only == old(self).filter_installed_only,
            final(self).filter_not_hidden == old(self).filter_not_hidden,
            final(self).filter_not_junk == old(self).filter_not_junk,
            final(self).library_scope == old(self).library_scope,
            final(self).library_sort_by == old(self).library_sort_by,
            final(self).library_sort_desc == old(self).library_sort_desc,
            final(self).filter_genre@ == (match qv {
                QuickView::Cozy => "Cozy"@,
                QuickView::StoryRich => "Story Rich"@,
                _ => Seq::<char>::empty(),
            }),
            final(self).filter_tag@.len() == 0,
            final(self).filter_proton_tier == (match qv {
                QuickView::GreatOnDeck => Some(ProtonTier::Gold),
                _ => None,
            }),
            !final(self).filter_deck_compatible,
            final(self).filter_controller_full == (qv == QuickView::GreatOnDeck),
            !final(self).filter_unplayed_only,
            final(self).filter_hltb_min@.len() == 0,
            final(self).filter_hltb_max@.len() == 0,
            final(self).filter_playtime_min@.len() == 0,
            final(self).filter_playtime_max@.len() == 0,
    {
        self.library_quick_view = qv;
        self.library_visible_count = PAGE_SIZE;
        self.filter_genre = String::new();
        self.filter_tag = String::new();
        self.filter_proton_tier = None;
        self.filter_deck_compatible = false;
        self.filter_controller_full = false;
        self.filter_unplayed_only = false;
        self.filter_hltb_min = String::new();
        self.filter_hltb_max = String::new();
        self.filter_playtime_min = String::new();
        self.filter_playtime_max = String::new();
        match qv {
            QuickView::Cozy => self.filter_genre = String::from_str("Cozy"),
            QuickView::StoryRich => self.filter_genre = String::from_str("Story Rich"),
            QuickView::GreatOnDeck => {
                self.filter_proton_tier = Some(ProtonTier::Gold);
                self.filter_controller_full = true;
            },
            _ => {},
        }
    }

    /// Typing in the search box: the query is replaced and the grid goes
    /// back to the first page.
    pub fn apply_search(&mut self, query: String)
        ensures
            final(self).search_query@ == query@,
            final(self).library_visible_count == PAGE_SIZE,
            spec_filters_for(*final(self)) == spec_filters_for(
                LibraryInputs { search_query: query, library_visible_count: PAGE_SIZE, ..*old(self) },
            ),
    {
        self.search_query = query;
        self.library_visible_count = PAGE_SIZE;
    }

    /// "Load more": one more page of cards (the count saturates).
    pub fn load_more(&mut self)
        ensures
            final(self).library_visible_count == (if old(self).library_visible_count + PAGE_SIZE
                > usize::MAX {
                usize::MAX as int
            } else {
                old(self).library_visible_count + PAGE_SIZE
            }),
            final(self).library_scope == old(self).library_scope,
            final(self).library_quick_view == old(self).library_quick_view,
            spec_filters_for(*final(self)) == spec_filters_for(*old(self)),
    {
        self.library_visible_count = self.library_visible_count.saturating_add(PAGE_SIZE);
    }

    /// How many of `total` matching games the grid shows.
    pub fn visible_rows(&self, total: usize) -> (n: usize)
        ensures
            n == (if total < self.library_visible_count {
                total
            } else {
                self.library_visible_count
            }),
    {
        if total < self.library_visible_count {
            total
        } else {
            self.library_visible_count
        }
    }

    /// Whether the "Load more" button shows: more games match than are shown.
    pub fn has_more(&self, total: usize) -> (b: bool)
        ensures
            b == (total > self.library_visible_count),
    {
        total > self.library_visible_count
    }
}

/// Every game the Installed scope shows is installed, the Unplayed scope
/// shows only games never played, and the Hidden scope only hidden games.
pub proof fn lemma_scopes_show_their_subset(i: LibraryInputs, g: library::GameView)
    requires
        library::game_matches(g, spec_filters_for(i)),
    ensures
        i.library_scope == LibraryScope::Installed ==> g.installed,
        i.library_scope == LibraryScope::Unplayed ==> library::playtime_of(g) == 0,
        i.library_scope == LibraryScope::Hidden ==> g.is_hidden,
{
}

/// Every game the Short sessions quick view shows has a known completion
/// time of at most two hours.
pub proof fn lemma_short_sessions_cap(i: LibraryInputs, g: library::GameView)
    requires
        i.library_quick_view == QuickView::ShortSessions,
        library::game_matches(g, spec_filters_for(i)),
    ensures
        library::completion_minutes(g) is Some,
        library::completion_minutes(g).unwrap() <= SHORT_SESSION_MINUTES,
{
}

/// Every game Great on Deck shows has ProtonDB Gold or better and full
/// controller support.
pub proof fn lemma_great_on_deck_shows_deck_ready(i: LibraryInputs, g: library::GameView)
    requires
        i.filter_proton_tier == Some(ProtonTier::Gold),
        i.filter_controller_full,
        library::game_matches(g, spec_filters_for(i)),
    ensures
        g.proton_tier is Some,
        library::tier_rank(g.proton_tier.unwrap()) >= library::tier_rank(ProtonTier::Gold),
        g.controller_support == Some(library::ControllerSupport::Full),
{
}

/// The HLTB min field is read as a whole number of minutes: when it holds
/// the decimal digits of `m`, the filters carry `m` as their minimum, and
/// every game the grid then shows has a known completion time of at least
/// `m` minutes (shorter or unknown ones are hidden).
pub proof fn lemma_typed_hltb_min_applies(i: LibraryInputs, g: library::GameView, m: u32)
    requires
        i.filter_hltb_min@ == text::decimal(m as nat),
    ensures
        spec_filters_for(i).hltb_min_minutes == Some(m),
        library::game_matches(g, spec_filters_for(i)) ==> library::completion_minutes(g) is Some
            && library::completion_minutes(g).unwrap() >= m,
{
    lemma_decimal_field_reads_back(m);
}

/// The HLTB max field caps the completion time (unless the Short sessions
/// quick view sets its own cap): when it holds the decimal digits of `m`,
/// every game shown has a known completion time of at most `m` minutes.
pub proof fn lemma_typed_hltb_max_applies(i: LibraryInputs, g: library::GameView, m: u32)
    requires
        i.filter_hltb_max@ == text::decimal(m as nat),
        i.library_quick_view != QuickView::ShortSessions,
    ensures
        spec_filters_for(i).hltb_max_minutes == Some(m),
        library::game_matches(g, spec_filters_for(i)) ==> library::completion_minutes(g) is Some
            && library::completion_minutes(g).unwrap() <= m,
{
    lemma_decimal_field_reads_back(m);
}

/// The playtime fields bound the playtime (unknown counted as zero): when
/// the min field holds the decimal digits of `lo` and the max field those
/// of `hi`, every game shown has played between `lo` and `hi` minutes.
pub proof fn lemma_typed_playtime_range_applies(
    i: LibraryInputs,
    g: library::GameView,
    lo: u32,
    hi: u32,
)
    requires
        i.filter_playtime_min@ == text::decimal(lo as nat),
        i.filter_playtime_max@ == text::decimal(hi as nat),
    ensures
        spec_filters_for(i).playtime_min_minutes == Some(lo),
        spec_filters_for(i).playtime_max_minutes == Some(hi),
        library::game_matches(g, spec_filters_for(i)) ==> lo <= library::playtime_of(g) <= hi,
{
    lemma_decimal_field_reads_back(lo);
    lemma_decimal_field_reads_back(hi);
}

/// A field holding the decimal digits of a 32-bit number reads back as
/// that number.
proof fn lemma_decimal_field_reads_back(m: u32)
    ensures
        text::parse_u32_spec(text::decimal(m as nat)) == Some(m),
{
    text::lemma_decimal_digits(m as nat);
    let d = text::decimal(m as nat);
    assert(!(d[0] == '+'));
    assert(text::unsigned_digits(d) == d);
}

} // verus!
