//! The Playlists editor: its text fields, how typing and resetting change
//! them, and the playlist they describe when saved.
//!
//! Two checks belong to the playlist store and the rule format rather than
//! to the editor: whether an id is safe to store under, and parsing the
//! Rules JSON. The editor is handed their outcomes.

use crate::playlist::{self, PlaylistContent};
use crate::rules::PlaylistRule;
use crate::text;
use vstd::prelude::*;

verus! {

/// The editor's fields.
pub struct PlaylistEditor {
    pub id: String,
    pub name: String,
    pub description: String,
    /// Comma-separated App IDs of a manual playlist.
    pub app_ids: String,
    /// Rules JSON of a rule-based playlist; blank for a manual one.
    pub rules: String,
    /// While set, typing a name also sets the id to the name's slug.
    pub id_auto: bool,
    /// Bumped (wrapping) whenever the fields are replaced wholesale, so the
    /// inputs showing them are rebuilt.
    pub generation: u64,
}

/// The playlist described by the editor's fields.
pub struct PlaylistDraft {
    pub id: String,
    pub name: String,
    pub description: String,
    /// The playlist file format, always `playlist_schema_text()`.
    pub schema: String,
    /// Who made the playlist: "user" for the editor, "demo" for the demo.
    pub created_by: String,
    pub content: PlaylistContent,
}

/// The schema every playlist file is stamped with.
pub open spec fn playlist_schema_text() -> Seq<char> {
    "vapourfly.playlist.v1"@
}

/// The schema every playlist file is stamped with.
pub fn playlist_schema() -> (s: String)
    ensures
        s@ == playlist_schema_text(),
{
    String::from_str("vapourfly.playlist.v1")
}

/// The message when the id field is blank.
pub open spec fn id_required_message() -> Seq<char> {
    "Playlist ID is required."@
}

/// The message when the name field is blank.
pub open spec fn name_required_message() -> Seq<char> {
    "Playlist name is required."@
}

/// The message when the Rules JSON does not parse.
pub open spec fn invalid_rules_message(error: Seq<char>) -> Seq<char> {
    "Invalid Rules JSON: "@ + error
}

/// The message when the Rules JSON holds no rule.
pub open spec fn no_rules_message() -> Seq<char> {
    "Rules JSON must contain at least one rule."@
}

/// The (wrapping) successor of an editor generation.
pub open spec fn next_generation(g: u64) -> u64 {
    if g == u64::MAX {
        0
    } else {
        (g + 1) as u64
    }
}

fn bump(g: u64) -> (r: u64)
    ensures
        r == next_generation(g),
{
    if g == u64::MAX {
        0
    } else {
        g + 1
    }
}

impl PlaylistEditor {
    /// A blank editor that derives the id from the name.
    pub fn new() -> (e: Self)
        ensures
            e.id@.len() == 0,
            e.name@.len() == 0,
            e.description@.len() == 0,
            e.app_ids@.len() == 0,
            e.rules@.len() == 0,
            e.id_auto,
            e.generation == 0,
    {
        PlaylistEditor {
            id: String::new(),
            name: String::new(),
            description: String::new(),
            app_ids: String::new(),
            rules: String::new(),
            id_auto: true,
            generation: 0,
        }
    }

    /// Types into the name field. While the id follows the name, the id
    /// becomes `slug`, the store's slug of the new name.
    pub fn apply_playlist_name_edit(&mut self, name: String, slug: String)
        ensures
            final(self).name@ == name@,
            final(self).id@ == (if old(self).id_auto {
                slug@
            } else {
                old(self).id@
            }),
            final(self).id_auto == old(self).id_auto,
            final(self).description@ == old(self).description@,
            final(self).app_ids@ == old(self).app_ids@,
            final(self).rules@ == old(self).rules@,
            final(self).generation == old(self).generation,
    {
        self.name = name;
        if self.id_auto {
            self.id = slug;
        }
    }

    /// Types into the id field; the id stops following the name.
    pub fn apply_playlist_id_edit(&mut self, id: String)
        ensures
            final(self).id@ == id@,
            !final(self).id_auto,
            final(self).name@ == old(self).name@,
            final(self).description@ == old(self).description@,
            final(self).app_ids@ == old(self).app_ids@,
            final(self).rules@ == old(self).rules@,
            final(self).generation == old(self).generation,
    {
        self.id = id;
        self.id_auto = false;
    }

    /// Blanks the editor so saving creates a new playlist.
    pub fn reset_playlist_editor(&mut self)
        ensures
            final(self).id@.len() == 0,
            final(self).name@.len() == 0,
            final(self).description@.len() == 0,
            final(self).app_ids@.len() == 0,
            final(self).rules@.len() == 0,
            final(self).id_auto,
            final(self).generation == next_generation(old(self).generation),
    {
        self.id = String::new();
        self.name = String::new();
        self.description = String::new();
        self.app_ids = String::new();
        self.rules = String::new();
        self.id_auto = true;
        self.generation = bump(self.generation);
    }

    /// Loads a stored playlist into the fields: its id (no longer following
    /// the name), name, description, App IDs as comma-separated text, and
    /// `rules_json`, the rule list rendered as JSON (blank for a manual
    /// playlist).
    pub fn adopt_playlist_for_edit(
        &mut self,
        id: &str,
        name: &str,
        description: &str,
        content: &PlaylistContent,
        rules_json: &str,
    )
        ensures
            final(self).id@ == id@,
            !final(self).id_auto,
            final(self).name@ == name@,
            final(self).description@ == description@,
            final(self).app_ids@ == (match content {
                PlaylistContent::Manual { app_ids } => playlist::app_ids_csv(app_ids@),
                PlaylistContent::Rules { .. } => Seq::<char>::empty(),
            }),
            final(self).rules@ == rules_json@,
            final(self).generation == next_generation(old(self).generation),
    {
        self.id = String::from_str(id);
        self.id_auto = false;
        self.name = String::from_str(name);
        self.description = String::from_str(description);
        self.app_ids = playlist::manual_playlist_app_ids_csv(content);
        self.rules = String::from_str(rules_json);
        self.generation = bump(self.generation);
    }

    /// The playlist the fields describe, checked in this order: the id is
    /// required, then `id_check` (the store's verdict on the trimmed id)
    /// must pass, then the name is required. With blank rules the App IDs
    /// field is parsed into a manual playlist; otherwise `parsed_rules` (the
    /// rules parsed from the trimmed Rules JSON, or the parser's
    /// error) decides, and at least one rule is required. Id and name are
    /// trimmed; the description is kept as typed.
    pub fn build_playlist_from_edit_fields(
        &self,
        id_check: Result<(), String>,
        parsed_rules: Result<Vec<PlaylistRule>, String>,
    ) -> (r: Result<PlaylistDraft, String>)
        ensures
            ({
                let id = text::trimmed(self.id@);
                let name = text::trimmed(self.name@);
                if id.len() == 0 {
                    r is Err && r->Err_0@ == id_required_message()
                } else if id_check is Err {
                    r is Err && r->Err_0@ == id_check->Err_0@
                } else if name.len() == 0 {
                    r is Err && r->Err_0@ == name_required_message()
                } else if text::trimmed(self.rules@).len() == 0 {
                    match r {
                        Ok(d) => d.id@ == id && d.name@ == name && d.description@
                            == self.description@ && d.schema@ == playlist_schema_text() && d.created_by@ == "user"@ && d.content is Manual
                            && playlist::accepted_ids(self.app_ids@, d.content->app_ids@),
                        Err(m) => playlist::refusal_message(self.app_ids@, m@),
                    }
                } else {
                    match parsed_rules {
                        Err(e) => r is Err && r->Err_0@ == invalid_rules_message(e@),
                        Ok(rs) => if rs@.len() == 0 {
                            r is Err && r->Err_0@ == no_rules_message()
                        } else {
                            r is Ok && r->Ok_0.id@ == id && r->Ok_0.name@ == name
                                && r->Ok_0.description@ == self.description@
                                && r->Ok_0.schema@ == playlist_schema_text()
                                && r->Ok_0.created_by@ == "user"@ && r->Ok_0.content
                                == (PlaylistContent::Rules { rules: rs })
                        },
                    }
                }
            }),
    {
        let id = text::trim(self.id.as_str());
        if id.as_str().is_empty() {
            return Err(String::from_str("Playlist ID is required."));
        }
        match id_check {
            Err(e) => {
                return Err(e);
            },
            Ok(()) => {},
        }
        let name = text::trim(self.name.as_str());
        if name.as_str().is_empty() {
            return Err(String::from_str("Playlist name is required."));
        }
        let rules = text::trim(self.rules.as_str());
        let content = if rules.as_str().is_empty() {
            match playlist::parse_manual_app_ids(self.app_ids.as_str()) {
                Ok(ids) => PlaylistContent::Manual { app_ids: ids },
                Err(m) => {
                    return Err(m);
                },
            }
        } else {
            match parsed_rules {
                Err(e) => {
                    let mut m = String::from_str("Invalid Rules JSON: ");
                    m.append(e.as_str());
                    return Err(m);
                },
                Ok(rs) => {
                    if rs.len() == 0 {
                        return Err(String::from_str("Rules JSON must contain at least one rule."));
                    }
                    PlaylistContent::Rules { rules: rs }
                },
            }
        };
        Ok(PlaylistDraft {
            id,
            name,
            description: String::from_str(self.description.as_str()),
            schema: playlist_schema(),
            created_by: String::from_str("user"),
            content,
        })
    }
}


/// How the editor's text inputs are brought in line with its fields on a
/// frame.
pub enum InputSync {
    /// The fields were replaced wholesale: rewrite every input.
    All,
    /// The id follows the name and the id input shows something else:
    /// rewrite the id input only.
    IdOnly,
    /// The inputs already show the fields.
    Nothing,
}

impl PlaylistEditor {
    /// Decides the input update for a frame, given the generation the
    /// inputs were last filled from and the text the id input shows.
    pub fn input_sync(&self, synced_generation: u64, id_shown: &str) -> (r: InputSync)
        ensures
            synced_generation != self.generation ==> r is All,
            synced_generation == self.generation ==> (if self.id_auto && id_shown@ != self.id@ {
                r is IdOnly
            } else {
                r is Nothing
            }),
    {
        if synced_generation != self.generation {
            return InputSync::All;
        }
        if self.id_auto && !text::same_text(id_shown, self.id.as_str()) {
            InputSync::IdOnly
        } else {
            InputSync::Nothing
        }
    }
}


/// The message when exporting without a loaded playlist.
pub open spec fn nothing_to_export_message() -> Seq<char> {
    "Load or save a playlist before exporting."@
}

/// The message when exporting without a path.
pub open spec fn no_export_path_message() -> Seq<char> {
    "Choose an export path before exporting."@
}

/// Checks an export request: a playlist must be loaded and the export path
/// field must not be blank. Gives the trimmed path to write to.
pub fn export_target(has_loaded_playlist: bool, export_path: &str) -> (r: Result<String, String>)
    ensures
        !has_loaded_playlist ==> r is Err && r->Err_0@ == nothing_to_export_message(),
        has_loaded_playlist && text::trimmed(export_path@).len() == 0 ==> r is Err && r->Err_0@
            == no_export_path_message(),
        has_loaded_playlist && text::trimmed(export_path@).len() != 0 ==> r is Ok && r->Ok_0@
            == text::trimmed(export_path@),
{
    if !has_loaded_playlist {
        return Err(String::from_str("Load or save a playlist before exporting."));
    }
    let path = text::trim(export_path);
    if path.as_str().is_empty() {
        return Err(String::from_str("Choose an export path before exporting."));
    }
    Ok(path)
}

/// Whether an imported playlist's id is already stored, in which case the
/// import asks before replacing it.
pub fn import_needs_replace_confirm(stored_ids: &Vec<String>, id: &str) -> (b: bool)
    ensures
        b == exists|k: int| 0 <= k < stored_ids@.len() && (#[trigger] stored_ids@[k])@ == id@,
{
    let mut k: usize = 0;
    while k < stored_ids.len()
        invariant
            k <= stored_ids.len(),
            forall|j: int| 0 <= j < k ==> (#[trigger] stored_ids@[j])@ != id@,
        decreases stored_ids.len() - k,
    {
        if text::same_text(stored_ids[k].as_str(), id) {
            return true;
        }
        k = k + 1;
    }
    false
}

} // verus!
