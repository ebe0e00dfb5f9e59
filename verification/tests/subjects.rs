use std::collections::HashMap;

use dearrow_browser::api::{ApiCasualTitle, ApiThumbnail, ApiTitle, Extension, InnertubeChannel, User};
use dearrow_browser::flags::{DetailType, IconType};
use dearrow_browser::links::ApiEndpoint;
use dearrow_browser::metadata_view::SimpleLoadState;
use dearrow_browser::subject_pages::{
    channel_page_table, channel_videos_text, count_line, user_id_badges, user_page_table, user_row_badges, username_badge,
    video_page_table, youtube_channel_link, ChannelDetails, ChannelPageTab, PageTable, UserBadge, UserPageTab,
    VideoPage, VideoPageTab, home_page_view, HomePageTab, broken_page_table, BrokenPageTab,
};
use dearrow_browser::tables::{
    casual_title_cell, sort_newest_first, user_header, warning_extension_label, warning_status_label, CasualTitleCell, ThumbTableSettings,
    TitleTableSettings, WarningTableSettings,
};
use dearrow_browser::uuid_page::{
    score_text, thumbnail_page_flags, thumbnail_visibility, timestamp_line, title_page_flags, title_visibility,
    PageFlag, TimestampLine, Visibility,
};

fn title(votes: i8, downvotes: i8, score: i8) -> ApiTitle {
    ApiTitle {
        uuid: "u".to_string(),
        video_id: "v".to_string(),
        title: "t".to_string(),
        user_id: "id".to_string(),
        user_agent: String::new(),
        time_submitted: 0,
        votes,
        downvotes,
        original: false,
        locked: false,
        shadow_hidden: false,
        unverified: false,
        removed: false,
        casual_mode: false,
        votes_missing: false,
        score,
        username: None,
        vip: false,
    }
}

fn thumbnail(score: i8) -> ApiThumbnail {
    ApiThumbnail {
        uuid: "u".to_string(),
        video_id: "v".to_string(),
        user_id: "id".to_string(),
        user_agent: String::new(),
        time_submitted: 0,
        timestamp_bits: Some(12.5f64.to_bits()),
        votes: 0,
        downvotes: 0,
        original: false,
        locked: false,
        shadow_hidden: false,
        removed: false,
        casual_mode: false,
        votes_missing: false,
        timestamp_missing: false,
        score,
        username: None,
        vip: false,
    }
}

fn user() -> User {
    User {
        user_id: "abc".to_string(),
        username: None,
        username_locked: false,
        vip: false,
        title_count: 0,
        thumbnail_count: 0,
        warning_count: 0,
        active_warning_count: 0,
    }
}

#[test]
fn title_page_verdicts() {
    assert_eq!(title_visibility(&title(1, 0, 1)), Visibility::FullyVisible);
    assert_eq!(title_visibility(&title(0, 2, -2)), Visibility::RemovedByDownvotes);
    assert_eq!(title_visibility(&title(-1, 0, -1)), Visibility::ReplacedBySubmitter);
    assert_eq!(title_visibility(&title(0, 1, -1)), Visibility::PartiallyHidden);
    let mut t = title(0, 1, -1);
    t.locked = true;
    assert_eq!(title_visibility(&t), Visibility::FullyVisible);
    t.shadow_hidden = true;
    assert_eq!(title_visibility(&t), Visibility::ShadowHidden);
    t.removed = true;
    assert_eq!(title_visibility(&t), Visibility::RemovedByVip);
    t.votes_missing = true;
    assert_eq!(title_visibility(&t), Visibility::VotesMissing);
    assert_eq!(Visibility::VotesMissing.label(), "Effectively hidden due to missing the votes table entry");
    assert_eq!(Visibility::FullyVisible.icon(), IconType::Upvote);
    assert_eq!(Visibility::ReplacedBySubmitter.icon(), IconType::Replaced);
}

#[test]
fn thumbnail_page_verdicts() {
    assert_eq!(thumbnail_visibility(&thumbnail(0)), Visibility::FullyVisible);
    assert_eq!(thumbnail_visibility(&thumbnail(-1)), Visibility::PartiallyHidden);
    assert_eq!(thumbnail_visibility(&thumbnail(-2)), Visibility::RemovedByDownvotes);
    let mut th = thumbnail(0);
    th.original = true;
    assert_eq!(thumbnail_visibility(&th), Visibility::InsufficientOriginalScore);
    assert_eq!(Visibility::InsufficientOriginalScore.icon(), IconType::Downvote);
    th.locked = true;
    assert_eq!(thumbnail_visibility(&th), Visibility::FullyVisible);
    th.score = 1;
    th.locked = false;
    assert_eq!(thumbnail_visibility(&th), Visibility::FullyVisible);
}

#[test]
fn detail_page_flags() {
    assert!(title_page_flags(&title(0, 0, 0)).is_empty());
    let mut t = title(0, 0, 0);
    t.casual_mode = true;
    t.original = true;
    t.votes_missing = true;
    assert_eq!(title_page_flags(&t), vec![PageFlag::VotesMissing, PageFlag::Original, PageFlag::Casual]);
    let mut th = thumbnail(0);
    th.vip = true;
    th.timestamp_missing = true;
    th.locked = true;
    assert_eq!(thumbnail_page_flags(&th), vec![PageFlag::TimestampMissing, PageFlag::Locked, PageFlag::Vip]);
    assert_eq!(PageFlag::Original.label(DetailType::Title), "Original title");
    assert_eq!(PageFlag::Original.label(DetailType::Thumbnail), "Original thumbnail");
    assert_eq!(PageFlag::Casual.icon(), IconType::Casual);
}

#[test]
fn score_lines() {
    assert_eq!(score_text(true, 3, 1, 2), "Score: No data");
    assert_eq!(score_text(false, 3, 1, 2), "Score: 3 upvotes, 1 downvotes; Final score: 2");
    assert_eq!(score_text(false, -1, 12, -128), "Score: -1 upvotes, 12 downvotes; Final score: -128");
}

#[test]
fn thumbnail_timestamps() {
    let mut th = thumbnail(0);
    assert_eq!(timestamp_line(&th), TimestampLine::At(12.5f64.to_bits()));
    th.timestamp_bits = None;
    assert_eq!(timestamp_line(&th), TimestampLine::Original);
    th.timestamp_missing = true;
    assert_eq!(timestamp_line(&th), TimestampLine::Missing);
}

#[test]
fn page_tabs_and_tables() {
    assert_eq!(UserPageTab::at(2), Some(UserPageTab::WarningsReceived));
    assert_eq!(UserPageTab::at(4), None);
    assert_eq!(UserPageTab::WarningsIssued.label(), "Warnings issued");
    assert_eq!(ChannelPageTab::CasualTitles.label(), "Casual titles");
    assert_eq!(VideoPageTab::at(1), Some(VideoPageTab::Thumbnails));
    match user_page_table(UserPageTab::WarningsIssued, "abc") {
        PageTable::Warnings { endpoint: ApiEndpoint::WarningsIssued { user_id }, settings } => {
            assert_eq!(user_id, "abc");
            assert_eq!(settings, WarningTableSettings { hide_issuer: true, hide_receiver: false });
        }
        other => panic!("unexpected table {other:?}"),
    }
    match user_page_table(UserPageTab::Titles, "abc") {
        PageTable::Titles { endpoint: ApiEndpoint::TitlesByUser { user_id }, settings } => {
            assert_eq!(user_id, "abc");
            assert_eq!(settings, TitleTableSettings { hide_videoid: false, hide_username: true, hide_userid: true });
        }
        other => panic!("unexpected table {other:?}"),
    }
    match video_page_table(VideoPageTab::Thumbnails, "dQw4w9WgXcQ") {
        PageTable::Thumbnails { endpoint: ApiEndpoint::ThumbnailsByVideo { video_id }, settings } => {
            assert_eq!(video_id, "dQw4w9WgXcQ");
            assert_eq!(settings, ThumbTableSettings { hide_videoid: true, hide_username: false, hide_userid: false });
        }
        other => panic!("unexpected table {other:?}"),
    }
    match channel_page_table(ChannelPageTab::CasualTitles, "@chan") {
        PageTable::CasualTitles { endpoint: ApiEndpoint::CasualTitlesByChannel { channel }, settings } => {
            assert_eq!(channel, "@chan");
            assert!(!settings.hide_videoid);
        }
        other => panic!("unexpected table {other:?}"),
    }
}

#[test]
fn user_details_lines() {
    let mut u = user();
    assert!(user_id_badges(&u).is_empty());
    assert_eq!(username_badge(&u), None);
    u.vip = true;
    u.warning_count = 2;
    assert_eq!(user_id_badges(&u), vec![UserBadge::Vip, UserBadge::PastWarning]);
    u.active_warning_count = 1;
    assert_eq!(user_id_badges(&u), vec![UserBadge::Vip, UserBadge::ActiveWarning]);
    u.username_locked = true;
    assert_eq!(username_badge(&u), Some(UserBadge::UsernameLocked));
    assert_eq!(UserBadge::ActiveWarning.icon(), IconType::Warning);
    assert_eq!(UserBadge::PastWarning.tooltip(), "This user was previously warned");
    assert_eq!(count_line("Titles", 1234), "Titles: 1234");
    assert_eq!(count_line("Thumbnails", 0), "Thumbnails: 0");
}

#[test]
fn channel_details() {
    let c = InnertubeChannel {
        ucid: "UC123".to_string(),
        channel_name: "name".to_string(),
        num_videos: 10,
        num_vods: 2,
        num_shorts: 30,
        num_releases: 0,
        total_videos: 42,
    };
    assert_eq!(channel_videos_text(&c), "Videos: 10 plain, 2 VODs, 30 shorts, 0 releases; 42 total");
    assert_eq!(youtube_channel_link("UC123"), "https://youtube.com/channel/UC123");

    let mut d: ChannelDetails<u32> = ChannelDetails::new("https://dearrow.minibomba.pro".to_string());
    assert_eq!(d.current_token(), 0);
    assert_eq!(d.origin_updated(&"https://dearrow.minibomba.pro".to_string()), None);
    assert_eq!(d.origin_updated(&"http://localhost".to_string()), Some(1));
    assert!(!d.data_fetched(0, SimpleLoadState::Ready(5)));
    assert!(matches!(d.current(), SimpleLoadState::Loading));
    assert!(d.data_fetched(1, SimpleLoadState::Ready(5)));
    assert!(matches!(d.current(), SimpleLoadState::Ready(5)));
    assert_eq!(d.channel_changed(&"a".to_string(), &"a".to_string()), None);
    assert_eq!(d.channel_changed(&"a".to_string(), &"b".to_string()), Some(2));
    assert!(matches!(d.current(), SimpleLoadState::Loading));
}

#[test]
fn video_page_state() {
    let mut p: VideoPage<u32> = VideoPage::new(VideoPageTab::Titles, "https://a".to_string());
    assert!(!p.shows_thumbnails());
    assert!(matches!(p.current_metadata(), SimpleLoadState::Loading));
    assert!(!p.metadata_fetched(0, Some(7)));
    assert!(p.metadata_fetched(1, None));
    assert!(matches!(p.current_metadata(), SimpleLoadState::Failed));
    assert!(p.location_updated(VideoPageTab::Thumbnails));
    assert!(!p.location_updated(VideoPageTab::Thumbnails));
    assert!(p.shows_thumbnails());
    assert_eq!(p.current_tab(), VideoPageTab::Thumbnails);
    assert!(p.entry_count_updated(Some(3)));
    assert!(!p.entry_count_updated(Some(3)));
    assert_eq!(p.origin_updated("https://a".to_string()), None);
    assert_eq!(p.origin_updated("https://b".to_string()), Some(2));
    assert!(p.metadata_fetched(2, Some(9)));
    assert!(matches!(p.current_metadata(), SimpleLoadState::Ready(9)));
    assert_eq!(p.refresh(), 3);
}

#[test]
fn user_and_warning_rows() {
    assert_eq!(user_header(), vec!["User ID", "Flags", "Titles", "Thumbnails", "Last submission"]);
    let mut u = user();
    u.username_locked = true;
    u.warning_count = 1;
    assert_eq!(user_row_badges(&u), vec![UserBadge::CannotChangeUsername, UserBadge::PastWarning]);
    assert_eq!(UserBadge::CannotChangeUsername.tooltip(), "This user cannot change their username");
    assert_eq!(warning_extension_label(Extension::DeArrow), "for DeArrow");
    assert_eq!(warning_extension_label(Extension::SponsorBlock), "for SponsorBlock");
    assert_eq!(warning_status_label(true), "Active");
    assert_eq!(warning_status_label(false), "Acknowledged");
    let mut c = ApiCasualTitle { video_id: "v".to_string(), title: None, first_submitted: 0, votes: HashMap::new() };
    assert_eq!(casual_title_cell(&c), CasualTitleCell::OriginalInstead);
    c.title = Some("t".to_string());
    assert_eq!(casual_title_cell(&c), CasualTitleCell::Saved);
}

#[test]
fn home_page_views() {
    let v = home_page_view(HomePageTab::Thumbnails, 3, 50, Some(1234));
    assert_eq!(v.page_count, Some(25));
    match v.table {
        PageTable::Thumbnails { endpoint: ApiEndpoint::Thumbnails { offset, count }, .. } => {
            assert_eq!((offset, count), (150, 50));
        }
        other => panic!("unexpected table {other:?}"),
    }
    let v = home_page_view(HomePageTab::CasualTitles, 0, 50, Some(100));
    assert_eq!(v.page_count, Some(2));
    assert!(matches!(v.table, PageTable::CasualTitles { endpoint: ApiEndpoint::CasualTitles { offset: 0, count: 50 }, .. }));
    let v = home_page_view(HomePageTab::Titles, 1, 20, None);
    assert_eq!(v.page_count, None);
    assert!(matches!(v.table, PageTable::Titles { endpoint: ApiEndpoint::Titles { offset: 20, count: 20 }, .. }));
    assert_eq!(HomePageTab::CasualTitles.label(), "Casual titles");
    assert!(matches!(broken_page_table(BrokenPageTab::Thumbnails), PageTable::Thumbnails { endpoint: ApiEndpoint::BrokenThumbnails, .. }));
    assert!(matches!(broken_page_table(BrokenPageTab::Titles), PageTable::Titles { endpoint: ApiEndpoint::BrokenTitles, .. }));
}

#[test]
fn details_sorted_newest_first() {
    let mut a = title(0, 0, 0);
    a.time_submitted = 5;
    a.uuid = "a".to_string();
    let mut b = title(0, 0, 0);
    b.time_submitted = 9;
    b.uuid = "b".to_string();
    let mut c = title(0, 0, 0);
    c.time_submitted = 1;
    c.uuid = "c".to_string();
    let sorted = sort_newest_first(vec![a, b, c]);
    let order: Vec<&str> = sorted.iter().map(|t| t.uuid.as_str()).collect();
    assert_eq!(order, vec!["b", "a", "c"]);
    let mut t1 = thumbnail(0);
    t1.time_submitted = -3;
    let mut t2 = thumbnail(0);
    t2.time_submitted = 4;
    let thumbs = sort_newest_first(vec![t1, t2]);
    assert_eq!(thumbs[0].time_submitted, 4);
    assert_eq!(thumbs[1].time_submitted, -3);
    assert!(sort_newest_first(Vec::<ApiTitle>::new()).is_empty());
}
