use dearrow_browser::settings::{
    baseurl_verify, entries_per_page_verify, priv_userid_verify, restore_setting, setting_differs, BaseUrlVerifyError,
    SettingField, Settings, TableLayout, PRIVATE_USER_ID_TOO_SHORT,
};

#[test]
fn default_settings() {
    let s = Settings::default();
    assert_eq!(s.thumbgen_api_base_url, "https://dearrow-thumb.minibomba.pro/");
    assert_eq!(s.entries_per_page, 50);
    assert_eq!(s.title_table_layout, TableLayout::Expanded);
    assert_eq!(s.thumbnail_table_layout, TableLayout::Expanded);
    assert!(!s.render_thumbnails_in_tables);
    assert!(!s.disable_sharedworker);
}

#[test]
fn layout_names() {
    for l in [TableLayout::Compressed, TableLayout::Compact, TableLayout::Expanded] {
        assert_eq!(TableLayout::from_name(l.name()), Some(l));
    }
    assert_eq!(TableLayout::Compact.name(), "Compact");
    assert_eq!(TableLayout::from_name("compact"), None);
}

#[test]
fn base_urls_are_checked() {
    assert_eq!(baseurl_verify("https://sponsor.ajay.app").unwrap(), "https://sponsor.ajay.app/");
    assert!(matches!(baseurl_verify("not a url"), Err(BaseUrlVerifyError::UrlParseError(_))));
    assert!(matches!(baseurl_verify("mailto:a@b"), Err(BaseUrlVerifyError::CannotBeABase)));
    assert!(matches!(baseurl_verify("http://example.com/"), Err(BaseUrlVerifyError::InvalidScheme)));
}

#[test]
fn private_user_ids_are_checked() {
    assert_eq!(priv_userid_verify(""), Ok(None));
    assert_eq!(priv_userid_verify("short"), Err(PRIVATE_USER_ID_TOO_SHORT));
    assert_eq!(PRIVATE_USER_ID_TOO_SHORT, "Private userID too short");
    let long = "x".repeat(30);
    assert_eq!(priv_userid_verify(&long), Ok(Some(long.clone())));
    // the length is counted in bytes
    let wide = "é".repeat(15);
    assert_eq!(priv_userid_verify(&wide), Ok(Some(wide.clone())));
}

#[test]
fn entries_per_page_are_checked() {
    assert_eq!(entries_per_page_verify("25"), Some(25));
    assert_eq!(entries_per_page_verify("0"), None);
    assert_eq!(entries_per_page_verify("-3"), None);
    assert_eq!(entries_per_page_verify("abc"), None);
}

#[test]
fn undo_and_reset_restore_one_setting() {
    let defaults = Settings::default();
    let mut current = Settings::default();
    current.entries_per_page = 10;
    current.title_table_layout = TableLayout::Compact;
    assert!(setting_differs(&current, &defaults, SettingField::EntriesPerPage));
    assert!(setting_differs(&current, &defaults, SettingField::TitleTableLayout));
    assert!(!setting_differs(&current, &defaults, SettingField::ThumbgenApiBaseUrl));
    restore_setting(&mut current, &defaults, SettingField::EntriesPerPage);
    assert!(!setting_differs(&current, &defaults, SettingField::EntriesPerPage));
    assert!(setting_differs(&current, &defaults, SettingField::TitleTableLayout));
    assert_eq!(current.entries_per_page, 50);
}
