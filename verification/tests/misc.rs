use dearrow_browser::api::{ApiThumbnail, ApiTitle};
use dearrow_browser::flags::{thumbnail_flags, title_flags, DetailFlag, DetailType, IconType};
use dearrow_browser::header::{shown_username, task_badge, BadgeSegment};
use dearrow_browser::metadata::VideoMetadata;
use dearrow_browser::metadata_view::{LoadTracker, RenderChannelLink, RenderMetadata, RenderTitle, RenderedMetadata, SimpleLoadState, VideoIdParam};
use dearrow_browser::rc_eq::RcEq;
use dearrow_browser::search::MainRoute;
use dearrow_browser::settings::{Settings, TableLayout};
use dearrow_browser::tables::{
    casual_header, row_layout, thumbnail_cell, thumbnail_header, title_header, warning_header, CasualTableSettings, ThumbTableSettings,
    ThumbnailCell, TitleTableSettings, WarningTableSettings,
};
use dearrow_browser::tasks::TaskCounts;
use dearrow_browser::version::{create_commit_link, create_useragent_string, create_version_string};

#[test]
fn version_strings() {
    assert_eq!(create_version_string("1.2.3", Some("abc1234"), Some(true)), "1.2.3+gabc1234-dirty");
    assert_eq!(create_version_string("1.2.3", Some("abc1234"), Some(false)), "1.2.3+gabc1234");
    assert_eq!(create_version_string("1.2.3", Some("abc1234"), None), "1.2.3+gabc1234");
    assert_eq!(create_version_string("1.2.3", None, Some(true)), "1.2.3");
    assert_eq!(create_useragent_string("1.2.3+gabc"), "DeArrowBrowser/1.2.3+gabc");
    assert_eq!(create_commit_link(Some("deadbeef")), "https://github.com/mini-bomba/DeArrowBrowser/commit/deadbeef");
    assert_eq!(create_commit_link(None), "https://github.com/mini-bomba/DeArrowBrowser/commit/");
}

#[test]
fn header_badges() {
    let c = TaskCounts { pending: 2, success: 0, failed: 1, dismissable: 1, retry: 0 };
    assert_eq!(
        task_badge(c),
        vec![BadgeSegment { count: 2, icon: IconType::Wait }, BadgeSegment { count: 1, icon: IconType::Removed }]
    );
    assert!(task_badge(TaskCounts::default()).is_empty());
    assert_eq!(shown_username(&Some("bob".to_string()), &"id".to_string()).as_deref(), Some("bob"));
    assert_eq!(shown_username(&Some("id".to_string()), &"id".to_string()), None);
    assert_eq!(shown_username(&None, &"id".to_string()), None);
}

#[test]
fn table_headers() {
    assert_eq!(title_header(TitleTableSettings::default()), vec!["Submitted", "Video ID", "Title", "Score", "UUID", "Username", "User ID"]);
    assert_eq!(
        title_header(TitleTableSettings { hide_videoid: true, hide_username: false, hide_userid: true }),
        vec!["Submitted", "Title", "Score", "UUID", "Username"]
    );
    let mut user = Settings::default();
    assert_eq!(thumbnail_header(ThumbTableSettings::default(), &user)[2], "Timestamp");
    user.render_thumbnails_in_tables = true;
    assert_eq!(thumbnail_header(ThumbTableSettings::default(), &user)[2], "Thumbnail");
    user.thumbnail_table_layout = TableLayout::Compact;
    assert_eq!(thumbnail_header(ThumbTableSettings::default(), &user)[2], "Timestamp");
    assert_eq!(casual_header(CasualTableSettings { hide_videoid: true }), vec!["Title", "Votes", "First submitted"]);
    assert_eq!(warning_header(WarningTableSettings { hide_issuer: false, hide_receiver: true }), vec!["Issued", "Message", "Issuer"]);
    let l = row_layout(TableLayout::Compressed);
    assert!(l.compressed && !l.expanded && l.textarea_rows == 1);
    assert_eq!(row_layout(TableLayout::Expanded).textarea_rows, 2);
}

fn title(votes: i8, downvotes: i8) -> ApiTitle {
    ApiTitle {
        uuid: "u".to_string(),
        video_id: "v".to_string(),
        title: "t".to_string(),
        user_id: "id".to_string(),
        user_agent: "ua".to_string(),
        time_submitted: 0,
        votes,
        downvotes,
        original: false,
        locked: false,
        shadow_hidden: false,
        unverified: false,
        removed: false,
        casual_mode: false,
        votes_missing: false,
        score: votes - downvotes,
        username: None,
        vip: false,
    }
}

fn thumbnail() -> ApiThumbnail {
    ApiThumbnail {
        uuid: "u".to_string(),
        video_id: "v".to_string(),
        user_id: "id".to_string(),
        user_agent: "ua".to_string(),
        time_submitted: 0,
        timestamp_bits: None,
        votes: 0,
        downvotes: 0,
        original: true,
        locked: false,
        shadow_hidden: false,
        removed: false,
        casual_mode: false,
        votes_missing: false,
        timestamp_missing: false,
        score: 0,
        username: None,
        vip: false,
    }
}

#[test]
fn detail_flags() {
    assert!(title_flags(&title(0, 0)).is_empty());
    assert_eq!(title_flags(&title(0, 2)), vec![DetailFlag::RemovedByDownvotes]);
    assert_eq!(title_flags(&title(-1, 0)), vec![DetailFlag::Replaced]);
    let mut t = title(0, 2);
    t.removed = true;
    t.vip = true;
    assert_eq!(title_flags(&t), vec![DetailFlag::Removed, DetailFlag::Vip]);
    assert_eq!(thumbnail_flags(&thumbnail()), vec![DetailFlag::InsufficientOriginalScore]);
    let mut th = thumbnail();
    th.locked = true;
    assert_eq!(thumbnail_flags(&th), vec![DetailFlag::Locked]);
    assert_eq!(DetailFlag::Vip.icon(), IconType::VIP);
    assert_eq!(DetailFlag::Removed.tooltip(DetailType::Thumbnail), "This thumbnail was removed by a VIP");
    let mut user = Settings::default();
    user.render_thumbnails_in_tables = true;
    assert_eq!(thumbnail_cell(&thumbnail(), &user), ThumbnailCell::Rendered);
    th.timestamp_missing = true;
    assert_eq!(thumbnail_cell(&th, &user), ThumbnailCell::TimestampMissing);
    assert_eq!(thumbnail_cell(&thumbnail(), &Settings::default()), ThumbnailCell::Timestamp);
}

#[test]
fn metadata_views() {
    let mut t: LoadTracker<u8> = LoadTracker::new();
    let v1 = t.refresh();
    let v2 = t.refresh();
    assert_ne!(v1, v2);
    assert!(!t.fetched(v1, Some(1)));
    assert!(matches!(t.current(), SimpleLoadState::Loading));
    assert!(t.fetched(v2, Some(2)));
    assert!(matches!(t.current(), SimpleLoadState::Ready(2)));
    assert!(t.fetched(v2, None));
    assert!(matches!(t.current(), SimpleLoadState::Failed));
    for _ in 0..300 {
        t.refresh();
    }
    let m = VideoMetadata { title: "T".to_string(), channel: "@c".to_string() };
    let ready = SimpleLoadState::Ready(m);
    assert!(matches!(RenderTitle::render(&ready), RenderedMetadata::Text(ref s) if s == "T"));
    match RenderChannelLink::render(&ready) {
        RenderedMetadata::Link { route: MainRoute::Channel { id }, label } => {
            assert_eq!(id, "@c");
            assert_eq!(label, "@c");
        },
        other => panic!("unexpected {other:?}"),
    }
    assert!(matches!(RenderTitle::render(&SimpleLoadState::Loading), RenderedMetadata::Placeholder("Loading...")));
    assert!(matches!(RenderChannelLink::render(&SimpleLoadState::Failed), RenderedMetadata::Placeholder("Unknown")));
    assert_eq!(VideoIdParam { video_id: "a".to_string() }, VideoIdParam { video_id: "a".to_string() });
}

#[test]
fn shared_values() {
    let r = RcEq::new(5u8);
    assert_eq!(*r.get(), 5);
    let shared = RcEq(std::rc::Rc::clone(&r.0));
    assert!(r.same(&shared));
    let other = RcEq::new(5u8);
    assert!(!r.same(&other));
}
