use dearrow_browser::api::{BrowseProgress, ChannelFetchProgress};
use dearrow_browser::details::{render_channel_progress, user_agent_kind, UserAgentKind};
use dearrow_browser::modals::{ModalMessage, ModalState};
use dearrow_browser::remote_table::{fetch_step, FetchStep, LoadProgress, RemoteTable};
use dearrow_browser::tabs::{LocationState, TableModeSwitch};
use dearrow_browser::api::User;
use dearrow_browser::user_context::UserContextProvider;
use dearrow_browser::settings::{settings_equal, Settings, SettingsStore, TableLayout};
use dearrow_browser::thumbgen::{check_blob, check_status, refusal, update_base_url, BaseUrlUpdateError, StatusStep};
use dearrow_browser::thumbs::{LocalThumbGenerator, ThumbnailKey};
use dearrow_browser::worker_api::RemoteThumbnailGenerationError;
use dearrow_browser::uuid_page::{is_not_found, DetailStatus, UUIDPage};

#[test]
fn modal_stack() {
    let mut m: ModalState<&str> = ModalState::new();
    m.reduce(ModalMessage::CloseTop);
    assert_eq!(m.len(), 0);
    m.reduce(ModalMessage::Open("settings"));
    m.reduce(ModalMessage::Open("voting"));
    assert_eq!(m.top(), Some(&"voting"));
    m.reduce(ModalMessage::CloseTop);
    assert_eq!(m.top(), Some(&"settings"));
    m.reduce(ModalMessage::Open("a"));
    m.reduce(ModalMessage::CloseAll);
    assert_eq!(m.len(), 0);
    assert_eq!(m.top(), None);
}

#[test]
fn user_agents() {
    assert_eq!(user_agent_kind("deArrow@ajay.app/v1.2.3"), UserAgentKind::FirefoxStable);
    assert_eq!(user_agent_kind("deArrowBETA@ajay.app/1"), UserAgentKind::FirefoxBeta);
    assert_eq!(user_agent_kind("enamippconapkdmgfgjchkhakpfinmaj/2.0/x"), UserAgentKind::Chromium);
    assert_eq!(user_agent_kind("dearrow-cli/0.1"), UserAgentKind::DeArrowCli);
    assert_eq!(user_agent_kind("app.ajay.dearrow.extension (2PCQH7P6MB)/1"), UserAgentKind::SafariStore);
    assert_eq!(user_agent_kind("app.ajay.dearrow.DeArrow-for-YouTube.Extension (UNSIGNED)/1"), UserAgentKind::SafariSelfCompiled);
    assert_eq!(user_agent_kind("com.github.libretube/0.22"), UserAgentKind::LibreTube);
    assert_eq!(user_agent_kind("dearrow-cli"), UserAgentKind::Unknown);
    assert_eq!(user_agent_kind("/dearrow-cli"), UserAgentKind::Unknown);
    assert_eq!(user_agent_kind(""), UserAgentKind::Unknown);
    assert_eq!(UserAgentKind::Chromium.tooltip(), "Chromium extension (from the Chrome Web Store)");
    assert_eq!(UserAgentKind::Unknown.tooltip(), "Unknown user agent");
}

#[test]
fn channel_progress_report() {
    let p = |a, b| BrowseProgress { videos_fetched: a, videos_in_fscache: b };
    let progress = ChannelFetchProgress { videos: p(1, 2), vods: p(0, 0), shorts: p(3, 4), releases_tab: p(5, 6), releases_home: p(7, 8) };
    let lines = render_channel_progress(&progress);
    assert_eq!(
        lines,
        vec![
            "videos: 1 new videos fetched, 2 pulled from fscache",
            "VODs: 0 new videos fetched, 0 pulled from fscache",
            "shorts: 3 new videos fetched, 4 pulled from fscache",
            "releases (tab): 5 new videos fetched, 6 pulled from fscache",
            "releases (home page): 7 new videos fetched, 8 pulled from fscache",
        ]
    );
}

#[test]
fn generator_answers() {
    assert_eq!(check_status(200), StatusStep::ReadBlob);
    assert_eq!(check_status(204), StatusStep::ReadFailureReason);
    assert_eq!(check_status(500), StatusStep::Unexpected(500));
    assert!(matches!(refusal(Some("too long".to_string())), RemoteThumbnailGenerationError::ServerError(ref r) if r == "too long"));
    assert!(matches!(refusal(None), RemoteThumbnailGenerationError::SilentFailure));
    assert!(check_blob(true, "image/webp").is_ok());
    assert!(matches!(check_blob(false, "image/webp"), Err(RemoteThumbnailGenerationError::ZeroSizeBlob)));
    assert!(matches!(check_blob(true, "text/html"), Err(RemoteThumbnailGenerationError::UnexpectedType(ref t)) if t == "text/html"));
    assert!(matches!(check_blob(true, "image"), Err(RemoteThumbnailGenerationError::UnexpectedType(_))));
}

#[test]
fn generator_base_url_updates() {
    let mut g: LocalThumbGenerator<String> = LocalThumbGenerator::new();
    let k = ThumbnailKey { video_id: "v".to_string(), timestamp: "1".to_string() };
    g.get_thumb(&k);
    g.finish_generation(&k, Err("failed".to_string()));
    assert!(matches!(update_base_url(&mut g, "not a url"), Err(BaseUrlUpdateError::Unparsable(_))));
    assert!(matches!(update_base_url(&mut g, "mailto:a@b"), Err(BaseUrlUpdateError::NotABase)));
    assert_eq!(g.api_base_url(), "https://dearrow-thumb.minibomba.pro/api/v1/getThumbnail");
    assert!(g.lookup(&k).is_some());
    assert_eq!(update_base_url(&mut g, "https://thumbs.example.org/").unwrap(), 1);
    assert_eq!(g.api_base_url(), "https://thumbs.example.org/api/v1/getThumbnail");
    assert!(g.lookup(&k).is_none());
}

#[test]
fn settings_store_decisions() {
    let mut first = SettingsStore::new(None);
    let mut mine = Settings::default();
    mine.title_table_layout = TableLayout::Compressed;
    assert!(first.local_update(mine));
    assert_eq!(first.settings().unwrap().title_table_layout, TableLayout::Compressed);
    let mut store = SettingsStore::new(None);
    assert!(store.settings().is_none());
    assert!(!store.remote_update(false, Some(Settings::default())));
    assert!(!store.remote_update(true, None));
    assert!(store.remote_update(true, Some(Settings::default())));
    assert!(!store.remote_update(true, Some(Settings::default())));
    assert!(!store.local_update(Settings::default()));
    let mut changed = Settings::default();
    changed.title_table_layout = TableLayout::Compact;
    assert!(!settings_equal(&changed, &Settings::default()));
    assert!(store.local_update(changed));
    assert_eq!(store.settings().unwrap().title_table_layout, TableLayout::Compact);
}

#[test]
fn remote_table_fetches() {
    assert_eq!(fetch_step(true, Some(200)), FetchStep::Stop);
    assert_eq!(fetch_step(false, None), FetchStep::Request);
    assert_eq!(fetch_step(false, Some(333)), FetchStep::ReportProgress);
    assert_eq!(fetch_step(false, Some(200)), FetchStep::Finish);
    assert_eq!(fetch_step(false, Some(500)), FetchStep::Finish);
    let mut t: RemoteTable<u32, &str> = RemoteTable::new("https://a".to_string());
    let first = t.refresh();
    let second = t.refresh();
    assert_eq!(t.details_fetched(first, LoadProgress::Ready(vec!["old"])), None);
    assert!(matches!(t.current(), LoadProgress::LoadingInitial));
    assert_eq!(t.details_fetched(second, LoadProgress::LoadingProgress(40)), Some(None));
    assert!(matches!(t.current(), LoadProgress::LoadingProgress(40)));
    assert_eq!(t.details_fetched(second, LoadProgress::Ready(vec!["a", "b"])), Some(Some(2)));
    assert_eq!(t.current().len(), Some(2));
    assert_eq!(t.origin_updated("https://a".to_string()), None);
    assert_eq!(t.current().len(), Some(2));
    assert_eq!(t.origin_updated("https://b".to_string()), Some(second + 1));
    assert_eq!(t.current_origin(), "https://b");
    assert!(matches!(t.current(), LoadProgress::LoadingInitial));
}

#[test]
fn tab_switch() {
    let mut s = TableModeSwitch::new(LocationState { tab: 1, page: 3 }, false);
    assert_eq!(s.current_mode, 1);
    assert_eq!(s.update_mode(1), None);
    assert_eq!(s.update_mode(0), Some(LocationState { tab: 0, page: 0 }));
    assert!(!s.location_updated(LocationState { tab: 0, page: 2 }));
    assert!(s.location_updated(LocationState { tab: 1, page: 0 }));
    assert!(s.settings_updated(true));
    assert!(!s.settings_updated(true));
    assert_eq!(LocationState::default(), LocationState { tab: 0, page: 0 });
}

fn user(id: &str) -> User {
    User {
        user_id: id.to_string(),
        username: None,
        username_locked: false,
        vip: false,
        title_count: 1,
        thumbnail_count: 2,
        warning_count: 0,
        active_warning_count: 0,
    }
}

#[test]
fn signed_in_user() {
    let mut p = UserContextProvider::new(None, None, None);
    assert!(p.user_data().is_none());
    assert!(!p.user_id_update(None, None));
    assert!(p.user_id_update(Some("private".to_string()), Some("public".to_string())));
    assert_eq!(p.user_data().unwrap().user_id, "public");
    assert!(p.user_data().unwrap().data.is_none());
    assert!(!p.lookup_finished(&"other".to_string(), Ok(user("other"))));
    assert!(p.lookup_finished(&"public".to_string(), Ok(user("public"))));
    assert!(matches!(p.user_data().unwrap().data, Some(Ok(ref u)) if u.title_count == 1));
    assert!(!p.user_id_update(Some("private".to_string()), Some("public".to_string())));
    assert!(!p.status_update(Some(5)));
    assert!(p.status_update(Some(6)));
    assert!(!p.status_update(Some(6)));
    assert!(!p.status_update(None));
    assert!(p.user_id_update(None, None));
    assert!(p.user_data().is_none());
}

#[test]
fn uuid_page_lookups() {
    let mut page = UUIDPage::new();
    assert!(page.shows_loading());
    assert!(!page.shows_missing());
    assert_eq!(page.refresh(), 1);
    assert!(!page.title_fetched(DetailStatus::NotFound, 0));
    assert!(page.title_status().is_fetching());
    assert!(page.title_fetched(DetailStatus::NotFound, 1));
    assert!(page.title_status().is_none());
    assert!(page.shows_loading());
    assert!(!page.shows_missing());
    assert!(page.thumb_fetched(DetailStatus::NotFound, 1));
    assert!(!page.shows_loading());
    assert!(page.shows_missing());
    assert!(page.title_fetched(DetailStatus::Failed(String::from("timeout")), 1));
    assert!(!page.shows_missing());
    assert!(matches!(page.title_status(), DetailStatus::Failed(t) if t == "timeout"));
    for _ in 0..254 {
        page.refresh();
    }
    assert_eq!(page.refresh(), 0);
    assert!(page.thumb_status().is_fetching());
    assert!(is_not_found(404));
    assert!(!is_not_found(200));
}
