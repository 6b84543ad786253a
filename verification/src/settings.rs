//! The Settings form: its fields filled from the resolved configuration,
//! and the configuration updates that saving them makes.

use crate::text;
use crate::writes;
use vstd::prelude::*;

verus! {

/// What the form reads from the resolved configuration.
pub struct ConfigValues {
    pub steam_dir: String,
    pub account: Option<String>,
    pub steam_api_key: Option<String>,
    pub cc: String,
    pub lang: String,
    pub backup_retention_count: u32,
    pub has_igdb_credentials: bool,
    pub has_rawg_credentials: bool,
}

/// The Settings form's text fields and credential flags.
pub struct SettingsFields {
    pub steam_dir: String,
    pub account: String,
    pub steam_api_key: String,
    pub cc: String,
    pub lang: String,
    pub backup_retention: String,
    pub has_igdb: bool,
    pub has_rawg: bool,
}

/// The characters of an optional string, empty when absent.
pub open spec fn text_or_empty(s: Option<String>) -> Seq<char> {
    match s {
        Some(v) => v@,
        None => Seq::empty(),
    }
}

fn string_or_empty(s: &Option<String>) -> (r: String)
    ensures
        r@ == text_or_empty(*s),
{
    match s {
        Some(v) => String::from_str(v.as_str()),
        None => String::new(),
    }
}

/// Whether `f` is the form as it opens: the configuration's values, or,
/// without a configuration, blank paths and keys, country "US", language
/// "english", retention "5" and no credentials.
pub open spec fn opens_with(config: Option<ConfigValues>, f: SettingsFields) -> bool {
    match config {
        Some(c) => {
            &&& f.steam_dir@ == c.steam_dir@
            &&& f.account@ == text_or_empty(c.account)
            &&& f.steam_api_key@ == text_or_empty(c.steam_api_key)
            &&& f.cc@ == c.cc@
            &&& f.lang@ == c.lang@
            &&& f.backup_retention@ == text::decimal(c.backup_retention_count as nat)
            &&& f.has_igdb == c.has_igdb_credentials
            &&& f.has_rawg == c.has_rawg_credentials
        },
        None => {
            &&& f.steam_dir@.len() == 0
            &&& f.account@.len() == 0
            &&& f.steam_api_key@.len() == 0
            &&& f.cc@ == "US"@
            &&& f.lang@ == "english"@
            &&& f.backup_retention@ == "5"@
            &&& !f.has_igdb
            &&& !f.has_rawg
        },
    }
}

/// The form as it opens (see `opens_with`).
pub fn settings_fields(config: Option<&ConfigValues>) -> (f: SettingsFields)
    ensures
        opens_with(
            match config {
                Some(c) => Some(*c),
                None => None,
            },
            f,
        ),
{
    match config {
        Some(c) => SettingsFields {
            steam_dir: String::from_str(c.steam_dir.as_str()),
            account: string_or_empty(&c.account),
            steam_api_key: string_or_empty(&c.steam_api_key),
            cc: String::from_str(c.cc.as_str()),
            lang: String::from_str(c.lang.as_str()),
            backup_retention: text::decimal_string(c.backup_retention_count as u64),
            has_igdb: c.has_igdb_credentials,
            has_rawg: c.has_rawg_credentials,
        },
        None => SettingsFields {
            steam_dir: String::new(),
            account: String::new(),
            steam_api_key: String::new(),
            cc: String::from_str("US"),
            lang: String::from_str("english"),
            backup_retention: String::from_str("5"),
            has_igdb: false,
            has_rawg: false,
        },
    }
}

/// A configuration setting the form writes.
#[derive(Clone, Copy, Debug, PartialEq, Eq, Structural)]
pub enum ConfigField {
    SteamDir,
    Account,
    Cc,
    Lang,
    SteamApiKey,
    BackupRetentionCount,
}

/// A setting and its new value; `None` clears it back to its default.
pub type ConfigUpdate = (ConfigField, Option<String>);

/// The value a text field sets: a blank field (no characters) clears it.
pub open spec fn field_value(value: Seq<char>) -> Option<Seq<char>> {
    if value.len() == 0 {
        None
    } else {
        Some(value)
    }
}

/// An update as plain values.
pub open spec fn update_view(u: ConfigUpdate) -> (ConfigField, Option<Seq<char>>) {
    (
        u.0,
        match u.1 {
            Some(v) => Some(v@),
            None => None,
        },
    )
}

/// The updates that saving the form makes, in order: Steam directory,
/// account, country, language and the trimmed Steam API key, each cleared
/// when blank; then the retention count (cleared when blank).
pub open spec fn settings_updates_view(f: SettingsFields) -> Seq<(ConfigField, Option<Seq<char>>)> {
    let retention = text::trimmed(f.backup_retention@);
    seq![
        (ConfigField::SteamDir, field_value(f.steam_dir@)),
        (ConfigField::Account, field_value(f.account@)),
        (ConfigField::Cc, field_value(f.cc@)),
        (ConfigField::Lang, field_value(f.lang@)),
        (ConfigField::SteamApiKey, field_value(text::trimmed(f.steam_api_key@))),
        (ConfigField::BackupRetentionCount, field_value(retention)),
    ]
}

/// The message when saving is attempted in demo mode.
pub open spec fn demo_save_message() -> Seq<char> {
    "Saving settings is disabled in demo mode (--ui-demo)."@
}

/// The message when the form holds an invalid field.
pub open spec fn save_failed_message(reason: Seq<char>) -> Seq<char> {
    "Failed to save: "@ + reason
}

fn field_update(field: ConfigField, value: &str) -> (u: ConfigUpdate)
    ensures
        update_view(u) == (field, field_value(value@)),
{
    if value.is_empty() {
        (field, None)
    } else {
        (field, Some(String::from_str(value)))
    }
}

/// The configuration updates that saving the form makes, or why it is not
/// saved: refused in demo mode, and refused when the retention field is
/// neither blank nor a whole number.
pub fn settings_updates(ui_demo: bool, f: &SettingsFields) -> (r: Result<Vec<ConfigUpdate>, String>)
    ensures
        ui_demo ==> r is Err && r->Err_0@ == demo_save_message(),
        !ui_demo && writes::retention_setting(f.backup_retention@) is None ==> r is Err
            && r->Err_0@ == save_failed_message(writes::retention_field_message()),
        !ui_demo && writes::retention_setting(f.backup_retention@) is Some ==> r is Ok
            && r->Ok_0@.map_values(|u: ConfigUpdate| update_view(u)) == settings_updates_view(*f),
{
    if ui_demo {
        return Err(String::from_str("Saving settings is disabled in demo mode (--ui-demo)."));
    }
    let retention = match writes::backup_retention_setting(f.backup_retention.as_str()) {
        Ok(v) => v,
        Err(e) => {
            let mut m = String::from_str("Failed to save: ");
            m.append(e.as_str());
            return Err(m);
        },
    };
    let key = text::trim(f.steam_api_key.as_str());
    let mut updates: Vec<ConfigUpdate> = Vec::new();
    updates.push(field_update(ConfigField::SteamDir, f.steam_dir.as_str()));
    updates.push(field_update(ConfigField::Account, f.account.as_str()));
    updates.push(field_update(ConfigField::Cc, f.cc.as_str()));
    updates.push(field_update(ConfigField::Lang, f.lang.as_str()));
    updates.push(field_update(ConfigField::SteamApiKey, key.as_str()));
    updates.push((ConfigField::BackupRetentionCount, retention));
    assert(updates@.map_values(|u: ConfigUpdate| update_view(u)) =~= settings_updates_view(*f));
    Ok(updates)
}

} // verus!
