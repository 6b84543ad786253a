//! Sidebar destinations, Library scopes and presets, and the labels shown
//! for them.

use crate::library::{LibrarySort, ProtonTier};
use vstd::prelude::*;

verus! {

/// Top-level destinations shown in the sidebar. Junk lives under Library
/// and Backups under Settings, so neither is a destination.
#[derive(Clone, Copy, Debug, PartialEq, Eq, Structural)]
pub enum Destination {
    Library,
    Collections,
    Recommendations,
    Playlists,
    Discover,
    DataSources,
    Settings,
}

/// The sidebar destinations in their canonical order.
pub open spec fn spec_all_views() -> Seq<Destination> {
    seq![
        Destination::Library,
        Destination::Collections,
        Destination::Recommendations,
        Destination::Playlists,
        Destination::Discover,
        Destination::DataSources,
        Destination::Settings,
    ]
}

/// The sidebar label of a destination.
pub open spec fn view_label(v: Destination) -> Seq<char> {
    match v {
        Destination::Library => "Library"@,
        Destination::Collections => "Collections"@,
        Destination::Recommendations => "Recommendations"@,
        Destination::Playlists => "Playlists"@,
        Destination::Discover => "Discover"@,
        Destination::DataSources => "Data Sources"@,
        Destination::Settings => "Settings"@,
    }
}

impl Destination {
    /// The sidebar destinations in their canonical order.
    pub fn all() -> (r: [Destination; 7])
        ensures
            r@ == spec_all_views(),
    {
        let r = [
            Destination::Library,
            Destination::Collections,
            Destination::Recommendations,
            Destination::Playlists,
            Destination::Discover,
            Destination::DataSources,
            Destination::Settings,
        ];
        assert(r@ =~= spec_all_views());
        r
    }

    /// The sidebar label.
    pub fn label(self) -> (s: &'static str)
        ensures
            s@ == view_label(self),
    {
        match self {
            Destination::Library => "Library",
            Destination::Collections => "Collections",
            Destination::Recommendations => "Recommendations",
            Destination::Playlists => "Playlists",
            Destination::Discover => "Discover",
            Destination::DataSources => "Data Sources",
            Destination::Settings => "Settings",
        }
    }
}

/// Every destination appears exactly once in the canonical order.
pub proof fn lemma_all_views_complete(v: Destination)
    ensures
        spec_all_views().contains(v),
        spec_all_views().no_duplicates(),
{
    let all = spec_all_views();
    match v {
        Destination::Library => assert(all[0] == v),
        Destination::Collections => assert(all[1] == v),
        Destination::Recommendations => assert(all[2] == v),
        Destination::Playlists => assert(all[3] == v),
        Destination::Discover => assert(all[4] == v),
        Destination::DataSources => assert(all[5] == v),
        Destination::Settings => assert(all[6] == v),
    }
}

/// Different destinations have different sidebar labels.
pub proof fn lemma_view_labels_distinct(a: Destination, b: Destination)
    requires
        a != b,
    ensures
        view_label(a) != view_label(b),
{
    reveal_strlit("Library");
    reveal_strlit("Collections");
    reveal_strlit("Recommendations");
    reveal_strlit("Playlists");
    reveal_strlit("Discover");
    reveal_strlit("Data Sources");
    reveal_strlit("Settings");
    let (x, y) = (view_label(a), view_label(b));
    assert(x.len() != y.len() || x[0] != y[0]);
}

/// Quick filter preset for the Library grid.
#[derive(Clone, Copy, Debug, PartialEq, Eq, Structural)]
pub enum QuickView {
    All,
    Cozy,
    StoryRich,
    GreatOnDeck,
    ShortSessions,
}

impl Default for QuickView {
    fn default() -> (q: Self)
        ensures
            q == QuickView::All,
    {
        QuickView::All
    }
}

/// The chip label of a quick view.
pub open spec fn quick_view_label(q: QuickView) -> Seq<char> {
    match q {
        QuickView::All => "All"@,
        QuickView::Cozy => "Cozy"@,
        QuickView::StoryRich => "Story-rich"@,
        QuickView::GreatOnDeck => "Great on Deck"@,
        QuickView::ShortSessions => "Short sessions"@,
    }
}

impl QuickView {
    /// The chip label.
    pub fn label(self) -> (s: &'static str)
        ensures
            s@ == quick_view_label(self),
    {
        match self {
            QuickView::All => "All",
            QuickView::Cozy => "Cozy",
            QuickView::StoryRich => "Story-rich",
            QuickView::GreatOnDeck => "Great on Deck",
            QuickView::ShortSessions => "Short sessions",
        }
    }
}

/// Primary Library scope shown as the segmented control beside search.
#[derive(Clone, Copy, Debug, PartialEq, Eq, Structural)]
pub enum LibraryScope {
    All,
    Installed,
    Unplayed,
    Hidden,
}

impl Default for LibraryScope {
    fn default() -> (s: Self)
        ensures
            s == LibraryScope::All,
    {
        LibraryScope::All
    }
}

/// The segment label of a scope.
pub open spec fn scope_label(s: LibraryScope) -> Seq<char> {
    match s {
        LibraryScope::All => "All"@,
        LibraryScope::Installed => "Installed"@,
        LibraryScope::Unplayed => "Unplayed"@,
        LibraryScope::Hidden => "Hidden"@,
    }
}

impl LibraryScope {
    /// The segment label.
    pub fn label(self) -> (s: &'static str)
        ensures
            s@ == scope_label(self),
    {
        match self {
            LibraryScope::All => "All",
            LibraryScope::Installed => "Installed",
            LibraryScope::Unplayed => "Unplayed",
            LibraryScope::Hidden => "Hidden",
        }
    }

    /// The scopes in segment order.
    pub fn all() -> (r: [LibraryScope; 4])
        ensures
            r@ == seq![
                LibraryScope::All,
                LibraryScope::Installed,
                LibraryScope::Unplayed,
                LibraryScope::Hidden,
            ],
    {
        let r = [
            LibraryScope::All,
            LibraryScope::Installed,
            LibraryScope::Unplayed,
            LibraryScope::Hidden,
        ];
        assert(r@ =~= seq![
            LibraryScope::All,
            LibraryScope::Installed,
            LibraryScope::Unplayed,
            LibraryScope::Hidden,
        ]);
        r
    }
}

/// Junk classification strictness offered in the Junk panel.
#[derive(Clone, Copy, Debug, PartialEq, Eq, Structural)]
pub enum JunkModeChoice {
    Default,
    Strict,
    Aggressive,
}

/// The label of a junk mode.
pub open spec fn junk_mode_label(m: JunkModeChoice) -> Seq<char> {
    match m {
        JunkModeChoice::Default => "Default"@,
        JunkModeChoice::Strict => "Strict"@,
        JunkModeChoice::Aggressive => "Aggressive"@,
    }
}

impl JunkModeChoice {
    /// The label.
    pub fn label(self) -> (s: &'static str)
        ensures
            s@ == junk_mode_label(self),
    {
        match self {
            JunkModeChoice::Default => "Default",
            JunkModeChoice::Strict => "Strict",
            JunkModeChoice::Aggressive => "Aggressive",
        }
    }
}

/// The label of a Library sort key.
pub open spec fn sort_label_text(sort: LibrarySort) -> Seq<char> {
    match sort {
        LibrarySort::InstalledThenPlaytime => "Installed + Playtime"@,
        LibrarySort::Name => "Name"@,
        LibrarySort::Playtime => "Playtime"@,
        LibrarySort::Hltb => "HLTB"@,
        LibrarySort::Rating => "Rating"@,
        LibrarySort::AppId => "AppID"@,
    }
}

/// The label of a Library sort key.
pub fn sort_label(sort: LibrarySort) -> (s: &'static str)
    ensures
        s@ == sort_label_text(sort),
{
    match sort {
        LibrarySort::InstalledThenPlaytime => "Installed + Playtime",
        LibrarySort::Name => "Name",
        LibrarySort::Playtime => "Playtime",
        LibrarySort::Hltb => "HLTB",
        LibrarySort::Rating => "Rating",
        LibrarySort::AppId => "AppID",
    }
}

/// The sort key after `sort` on the Library's sort button: Installed +
/// Playtime, Name, Playtime, HLTB, Rating, AppID, then around again.
pub open spec fn next_sort(sort: LibrarySort) -> LibrarySort {
    match sort {
        LibrarySort::InstalledThenPlaytime => LibrarySort::Name,
        LibrarySort::Name => LibrarySort::Playtime,
        LibrarySort::Playtime => LibrarySort::Hltb,
        LibrarySort::Hltb => LibrarySort::Rating,
        LibrarySort::Rating => LibrarySort::AppId,
        LibrarySort::AppId => LibrarySort::InstalledThenPlaytime,
    }
}

/// The sort key a press of the sort button moves to.
pub fn cycle_library_sort(sort: LibrarySort) -> (r: LibrarySort)
    ensures
        r == next_sort(sort),
{
    match sort {
        LibrarySort::InstalledThenPlaytime => LibrarySort::Name,
        LibrarySort::Name => LibrarySort::Playtime,
        LibrarySort::Playtime => LibrarySort::Hltb,
        LibrarySort::Hltb => LibrarySort::Rating,
        LibrarySort::Rating => LibrarySort::AppId,
        LibrarySort::AppId => LibrarySort::InstalledThenPlaytime,
    }
}

/// Pressing the sort button six times comes back to the starting key, and
/// no fewer presses do.
pub proof fn lemma_sort_cycle_has_period_six(sort: LibrarySort)
    ensures
        next_sort(next_sort(next_sort(next_sort(next_sort(next_sort(sort)))))) == sort,
        next_sort(sort) != sort,
        next_sort(next_sort(sort)) != sort,
        next_sort(next_sort(next_sort(sort))) != sort,
        next_sort(next_sort(next_sort(next_sort(sort)))) != sort,
        next_sort(next_sort(next_sort(next_sort(next_sort(sort))))) != sort,
{
}

/// The sort button's caption: the key's label and an arrow for the
/// direction (down when descending).
pub open spec fn sort_button_text(sort: LibrarySort, descending: bool) -> Seq<char> {
    "Sort: "@ + sort_label_text(sort) + if descending {
        " ↓"@
    } else {
        " ↑"@
    }
}

/// The sort button's caption.
pub fn sort_button_label(sort: LibrarySort, descending: bool) -> (s: String)
    ensures
        s@ == sort_button_text(sort, descending),
{
    let mut s = String::from_str("Sort: ");
    s.append(sort_label(sort));
    if descending {
        s.append(" ↓");
    } else {
        s.append(" ↑");
    }
    s
}

/// What entering a screen refreshes.
pub struct ViewEntry {
    /// Re-detect Steam accounts (Settings, outside demo mode, when none are
    /// known yet).
    pub refresh_accounts: bool,
    /// Re-list backups (Settings, outside demo mode).
    pub refresh_backups: bool,
    /// Re-list stored playlist ids (Playlists).
    pub refresh_playlist_ids: bool,
    /// Carry the Library search into the playlist game search (Playlists).
    pub carry_search: bool,
}

/// The refreshes that entering `view` asks for.
pub fn view_entry(view: Destination, ui_demo: bool, accounts_known: bool) -> (e: ViewEntry)
    ensures
        e.refresh_accounts == (view == Destination::Settings && !ui_demo && !accounts_known),
        e.refresh_backups == (view == Destination::Settings && !ui_demo),
        e.refresh_playlist_ids == (view == Destination::Playlists),
        e.carry_search == (view == Destination::Playlists),
{
    let settings = match view {
        Destination::Settings => true,
        _ => false,
    };
    let playlists = match view {
        Destination::Playlists => true,
        _ => false,
    };
    ViewEntry {
        refresh_accounts: settings && !ui_demo && !accounts_known,
        refresh_backups: settings && !ui_demo,
        refresh_playlist_ids: playlists,
        carry_search: playlists,
    }
}

/// Which modal dialogs are open, so each request opens its dialog once.
pub struct DialogPump {
    pub confirm_open: bool,
    pub chooser_open: bool,
}

/// Whether a frame opens a dialog: it is asked for and not open yet.
pub open spec fn pump_opens(open: bool, requested: bool) -> bool {
    requested && !open
}

/// Whether a dialog is open after a frame.
pub open spec fn open_after_pump(open: bool, requested: bool) -> bool {
    open || requested
}

impl DialogPump {
    /// No dialog open.
    pub fn new() -> (p: Self)
        ensures
            !p.confirm_open,
            !p.chooser_open,
    {
        DialogPump { confirm_open: false, chooser_open: false }
    }

    /// Called once per frame with what the app asks for; returns which
    /// dialogs to open now (confirm, chooser).
    pub fn pump(&mut self, confirm_requested: bool, chooser_requested: bool) -> (r: (bool, bool))
        ensures
            r.0 == pump_opens(old(self).confirm_open, confirm_requested),
            r.1 == pump_opens(old(self).chooser_open, chooser_requested),
            final(self).confirm_open == open_after_pump(old(self).confirm_open, confirm_requested),
            final(self).chooser_open == open_after_pump(old(self).chooser_open, chooser_requested),
    {
        let open_confirm = confirm_requested && !self.confirm_open;
        if open_confirm {
            self.confirm_open = true;
        }
        let open_chooser = chooser_requested && !self.chooser_open;
        if open_chooser {
            self.chooser_open = true;
        }
        (open_confirm, open_chooser)
    }

    /// The confirmation dialog was closed.
    pub fn confirm_closed(&mut self)
        ensures
            !final(self).confirm_open,
            final(self).chooser_open == old(self).chooser_open,
    {
        self.confirm_open = false;
    }

    /// The generator chooser was closed.
    pub fn chooser_closed(&mut self)
        ensures
            !final(self).chooser_open,
            final(self).confirm_open == old(self).confirm_open,
    {
        self.chooser_open = false;
    }
}

/// A request keeps its dialog open without opening it again on the next
/// frames; once closed, the next request opens it again.
pub proof fn lemma_dialog_opens_once_per_request(open: bool)
    ensures
        !pump_opens(open_after_pump(open, true), true),
        pump_opens(false, true),
{
}

/// The label of a ProtonDB tier.
pub open spec fn proton_tier_text(tier: ProtonTier) -> Seq<char> {
    match tier {
        ProtonTier::Borked => "Borked"@,
        ProtonTier::Bronze => "Bronze"@,
        ProtonTier::Silver => "Silver"@,
        ProtonTier::Gold => "Gold"@,
        ProtonTier::Platinum => "Platinum"@,
        ProtonTier::Native => "Native"@,
        ProtonTier::Unknown => "Unknown"@,
    }
}

/// The label of a ProtonDB tier.
pub fn proton_tier_label(tier: ProtonTier) -> (s: &'static str)
    ensures
        s@ == proton_tier_text(tier),
{
    match tier {
        ProtonTier::Borked => "Borked",
        ProtonTier::Bronze => "Bronze",
        ProtonTier::Silver => "Silver",
        ProtonTier::Gold => "Gold",
        ProtonTier::Platinum => "Platinum",
        ProtonTier::Native => "Native",
        ProtonTier::Unknown => "Unknown",
    }
}

/// The ProtonDB thresholds the advanced filter cycles through, after "Any"
/// (`None`): Bronze, Silver, Gold, Platinum, Native, then back to Any.
pub open spec fn next_proton_filter(current: Option<ProtonTier>) -> Option<ProtonTier> {
    match current {
        None => Some(ProtonTier::Bronze),
        Some(ProtonTier::Bronze) => Some(ProtonTier::Silver),
        Some(ProtonTier::Silver) => Some(ProtonTier::Gold),
        Some(ProtonTier::Gold) => Some(ProtonTier::Platinum),
        Some(ProtonTier::Platinum) => Some(ProtonTier::Native),
        Some(_) => None,
    }
}

/// The next ProtonDB threshold of the advanced filter.
pub fn cycle_proton_filter(current: Option<ProtonTier>) -> (r: Option<ProtonTier>)
    ensures
        r == next_proton_filter(current),
{
    match current {
        None => Some(ProtonTier::Bronze),
        Some(ProtonTier::Bronze) => Some(ProtonTier::Silver),
        Some(ProtonTier::Silver) => Some(ProtonTier::Gold),
        Some(ProtonTier::Gold) => Some(ProtonTier::Platinum),
        Some(ProtonTier::Platinum) => Some(ProtonTier::Native),
        Some(_) => None,
    }
}

/// Cycling the ProtonDB threshold from "Any" passes through the five tiers
/// and returns to "Any" after six steps.
pub proof fn lemma_proton_cycle_returns_to_any()
    ensures
        next_proton_filter(None) == Some(ProtonTier::Bronze),
        next_proton_filter(
            next_proton_filter(
                next_proton_filter(
                    next_proton_filter(next_proton_filter(next_proton_filter(None))),
                ),
            ),
        ) is None,
{
}

} // verus!
