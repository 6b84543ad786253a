use vapourfly_gui::settings::{settings_fields, settings_updates, ConfigField, ConfigValues};

#[test]
fn app_settings_fields_initialized() {
    let fields = settings_fields(None);
    // cc and lang should have defaults
    assert!(!fields.cc.is_empty());
    assert!(!fields.lang.is_empty());
    assert!(!fields.backup_retention.is_empty());
    assert_eq!(fields.cc, "US");
    assert_eq!(fields.lang, "english");
    assert_eq!(fields.backup_retention, "5");
    assert!(!fields.has_igdb && !fields.has_rawg);
}

#[test]
fn settings_fields_come_from_configuration() {
    let config = ConfigValues {
        steam_dir: "/steam".to_string(),
        account: Some("123".to_string()),
        steam_api_key: None,
        cc: "DE".to_string(),
        lang: "german".to_string(),
        backup_retention_count: 12,
        has_igdb_credentials: true,
        has_rawg_credentials: false,
    };
    let f = settings_fields(Some(&config));
    assert_eq!(f.steam_dir, "/steam");
    assert_eq!(f.account, "123");
    assert_eq!(f.steam_api_key, "");
    assert_eq!(f.cc, "DE");
    assert_eq!(f.lang, "german");
    assert_eq!(f.backup_retention, "12");
    assert!(f.has_igdb && !f.has_rawg);
}

#[test]
fn saving_settings_builds_updates_in_order() {
    let mut f = settings_fields(None);
    f.steam_api_key = "  key  ".to_string();
    f.backup_retention = " 7 ".to_string();
    let updates = settings_updates(false, &f).unwrap();
    assert_eq!(
        updates,
        vec![
            (ConfigField::SteamDir, None),
            (ConfigField::Account, None),
            (ConfigField::Cc, Some("US".to_string())),
            (ConfigField::Lang, Some("english".to_string())),
            (ConfigField::SteamApiKey, Some("key".to_string())),
            (ConfigField::BackupRetentionCount, Some("7".to_string())),
        ]
    );
    f.backup_retention = "   ".to_string();
    let updates = settings_updates(false, &f).unwrap();
    assert_eq!(updates[5], (ConfigField::BackupRetentionCount, None));
}

#[test]
fn saving_settings_is_refused_in_demo_or_with_bad_retention() {
    let mut f = settings_fields(None);
    assert_eq!(
        settings_updates(true, &f),
        Err("Saving settings is disabled in demo mode (--ui-demo).".to_string())
    );
    f.backup_retention = "many".to_string();
    assert_eq!(
        settings_updates(false, &f),
        Err("Failed to save: backup_retention_count: must be a non-negative integer".to_string())
    );
}
