//! The desktop app's state as a whole: how it starts, how the demo library
//! is installed, and what the Playlists screen selects after listing the
//! playlist store. `S` is a scan result, `P` a prepared library snapshot
//! and `W` a previewed write plan.

use crate::browse::{LibraryInputs, PAGE_SIZE};
use crate::editor::PlaylistEditor;
use crate::frame::{self, LibraryState};
use crate::junk::{self, JunkCandidate, JunkSelection};
use crate::navigation::Destination;
use crate::records::{self, BackupInfo, DiscoverPick, Recommendation, SteamAccount, SteamCollection};
use crate::settings::{self, ConfigValues, SettingsFields};
use crate::theme::ThemeMode;
use crate::writes::WriteFlow;
use vstd::prelude::*;

verus! {

/// The desktop app's state.
pub struct AppState<S, P, W> {
    pub library: LibraryState<S, P>,
    pub inputs: LibraryInputs,
    pub editor: PlaylistEditor,
    pub settings: SettingsFields,
    pub writes: WriteFlow<W>,
    pub current_view: Destination,
    pub show_junk_panel: bool,
    pub settings_save_msg: Option<String>,
    /// The fixtures directory scanned instead of Steam, if any.
    pub fixtures_path: Option<String>,
    pub ui_demo: bool,
    pub offline_mode: bool,
    pub allow_steam_running: bool,
    pub theme_mode: ThemeMode,
    pub collections: Vec<SteamCollection>,
    pub junk_results: Vec<JunkCandidate>,
    pub junk_selection: JunkSelection,
    pub recommend_results: Vec<Recommendation>,
    pub recommend_selected: Option<u32>,
    pub discover_results: Vec<DiscoverPick>,
    pub detected_accounts: Vec<SteamAccount>,
    pub backups: Vec<BackupInfo>,
    pub playlist_store_ids: Vec<String>,
    pub playlist_store_ids_loaded: bool,
    pub playlist_load_selected: String,
}

/// The ids the demo writes to the demo playlist store, in order.
pub open spec fn demo_store_ids() -> Seq<Seq<char>> {
    seq!["my-favorites"@, "story-games"@, "discover"@, "dynamic-deck-session"@, "mood-quick-round"@]
}

fn demo_ids() -> (ids: Vec<String>)
    ensures
        ids@.map_values(|s: String| s@) == demo_store_ids(),
{
    let mut ids: Vec<String> = Vec::new();
    ids.push(String::from_str("my-favorites"));
    ids.push(String::from_str("story-games"));
    ids.push(String::from_str("discover"));
    ids.push(String::from_str("dynamic-deck-session"));
    ids.push(String::from_str("mood-quick-round"));
    assert(ids@.map_values(|s: String| s@) =~= demo_store_ids());
    ids
}

impl<S, P, W> AppState<S, P, W> {
    /// The app as it starts, before any scan: the Library screen with the
    /// default filters, a blank playlist editor, the Settings fields from
    /// `config`, no write pending, the junk panel closed, nothing loaded,
    /// selected or listed, no error or message, Light theme, online, Steam
    /// writes refused while Steam runs, and `fixtures_path` kept.
    pub fn new(fixtures_path: Option<String>, ui_demo: bool, config: Option<&ConfigValues>) -> (a:
        Self)
        ensures
            a.library.scan_result is None,
            a.library.scan_generation == 0,
            a.library.cache_refresh_generation == 0,
            a.library.prepared_snapshot is None,
            a.library.prepare_job is None,
            !a.library.loading,
            !a.library.write_loading,
            !a.library.cache_refresh_loading,
            a.library.error is None,
            a.library.success_msg is None,
            a.library.cache_refresh_msg is None,
            a.inputs.library_visible_count == PAGE_SIZE,
            a.inputs.library_selected_app_id is None,
            !a.inputs.filter_installed_only,
            !a.inputs.filter_not_hidden,
            !a.inputs.filter_not_junk,
            a.editor.id@.len() == 0,
            a.editor.name@.len() == 0,
            a.editor.id_auto,
            a.editor.generation == 0,
            settings::opens_with(
                match config {
                    Some(c) => Some(*c),
                    None => None,
                },
                a.settings,
            ),
            a.writes.pending_action is None,
            !a.writes.show_confirm_dialog,
            a.writes.dry_run_plan is None,
            !a.writes.dry_run_loading,
            a.current_view == Destination::Library,
            !a.show_junk_panel,
            a.settings_save_msg is None,
            a.fixtures_path == fixtures_path,
            a.ui_demo == ui_demo,
            !a.offline_mode,
            !a.allow_steam_running,
            a.theme_mode == ThemeMode::Light,
            a.collections@.len() == 0,
            a.junk_results@.len() == 0,
            a.junk_selection.selected@ == Set::<u32>::empty(),
            a.recommend_results@.len() == 0,
            a.recommend_selected is None,
            a.discover_results@.len() == 0,
            a.detected_accounts@.len() == 0,
            a.backups@.len() == 0,
            a.playlist_store_ids@.len() == 0,
            !a.playlist_store_ids_loaded,
            a.playlist_load_selected@.len() == 0,
    {
        AppState {
            library: LibraryState::new(),
            inputs: LibraryInputs::new(),
            editor: PlaylistEditor::new(),
            settings: settings::settings_fields(config),
            writes: WriteFlow::new(),
            current_view: Destination::Library,
            show_junk_panel: false,
            settings_save_msg: None,
            fixtures_path,
            ui_demo,
            offline_mode: false,
            allow_steam_running: false,
            theme_mode: ThemeMode::Light,
            collections: Vec::new(),
            junk_results: Vec::new(),
            junk_selection: JunkSelection::new(),
            recommend_results: Vec::new(),
            recommend_selected: None,
            discover_results: Vec::new(),
            detected_accounts: Vec::new(),
            backups: Vec::new(),
            playlist_store_ids: Vec::new(),
            playlist_store_ids_loaded: false,
            playlist_load_selected: String::new(),
        }
    }

    /// Fills every page with the demo data at `now`: `demo_scan` (the demo
    /// library) becomes the scan result as an adopted scan does (the scan
    /// generation moves on and the prepared snapshot is dropped), and the
    /// collections, junk decisions with the junk ones selected,
    /// recommendations, Discover picks, accounts, backup and the listing
    /// of the demo playlist store are the demo ones. Nothing else changes;
    /// the caller writes the demo playlists and then selects the first.
    pub fn populate_demo_data(&mut self, demo_scan: S, now: i64)
        ensures
            final(self).library == (LibraryState {
                scan_result: Some(demo_scan),
                scan_generation: frame::bumped(old(self).library.scan_generation),
                prepared_snapshot: None,
                ..old(self).library
            }),
            final(self).collections@.map_values(|c: SteamCollection| records::collection_view(c))
                == records::demo_collection_views(),
            final(self).junk_results@.map_values(|c: JunkCandidate| junk::candidate_view(c))
                == junk::demo_junk_views(),
            final(self).junk_selection.selected@ == junk::junk_ids(final(self).junk_results@),
            final(self).recommend_results@.map_values(
                |r: Recommendation| records::recommendation_view(r),
            ) == records::demo_recommendation_views(),
            final(self).discover_results@.map_values(|p: DiscoverPick| records::pick_view(p))
                == records::demo_pick_views(),
            final(self).detected_accounts@.map_values(|a: SteamAccount| records::account_view(a))
                == seq![("76561198000000000"@, "demo_user"@, "Demo Player"@, true)],
            final(self).backups@.map_values(|b: BackupInfo| records::backup_view(b)) == seq![
                (
                    "/demo/backups/cloud-storage-namespace-1.vapourfly-backup-20260101T120000Z-abc12345.json"@,
                    now,
                    "abc12345def67890"@,
                ),
            ],
            final(self).playlist_store_ids@.map_values(|s: String| s@) == demo_store_ids(),
            final(self).playlist_store_ids_loaded,
            final(self).playlist_load_selected == old(self).playlist_load_selected,
            final(self).current_view == old(self).current_view,
            final(self).ui_demo == old(self).ui_demo,
            final(self).theme_mode == old(self).theme_mode,
            final(self).recommend_selected == old(self).recommend_selected,
    {
        self.library.adopt_demo_library(demo_scan);
        self.collections = records::demo_collections();
        let decisions = junk::demo_junk_decisions();
        self.junk_selection.select_all_junk(&decisions);
        self.junk_results = decisions;
        self.recommend_results = records::demo_recommendations();
        self.discover_results = records::demo_discover_picks();
        self.detected_accounts = records::demo_accounts();
        self.backups = records::demo_backups(now);
        self.playlist_store_ids = demo_ids();
        self.playlist_store_ids_loaded = true;
    }

    /// After listing the store: the first listed playlist becomes the
    /// selected one when loading it succeeded (`first_loaded`, the store's
    /// answer); otherwise the selection stays.
    pub fn select_first_stored(&mut self, first_loaded: bool)
        ensures
            final(self).playlist_load_selected@ == (if first_loaded && old(
                self,
            ).playlist_store_ids@.len() > 0 {
                old(self).playlist_store_ids@[0]@
            } else {
                old(self).playlist_load_selected@
            }),
            final(self).playlist_store_ids == old(self).playlist_store_ids,
    {
        if first_loaded && self.playlist_store_ids.len() > 0 {
            self.playlist_load_selected = String::from_str(self.playlist_store_ids[0].as_str());
        }
    }
}

} // verus!
