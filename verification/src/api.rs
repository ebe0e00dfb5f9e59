//! The shapes of the API's responses.

use std::collections::HashMap;
use vstd::prelude::*;

verus! {

/// The server's status and database statistics.
#[derive(Debug)]
pub struct StatusResponse {
    pub titles: Option<usize>,
    pub thumbnails: Option<usize>,
    pub vip_users: Option<usize>,
    pub usernames: Option<usize>,
    pub warnings: Option<usize>,
    pub errors: Option<usize>,
    pub string_count: Option<usize>,
    pub video_infos: Option<usize>,
    pub uncut_segments: Option<usize>,
    pub cached_channels: Option<usize>,
    pub fscached_channels: Option<usize>,
    pub server_version: Option<String>,
    pub server_git_hash: Option<String>,
    pub server_git_dirty: Option<bool>,
    pub server_build_timestamp: Option<i64>,
    pub server_startup_timestamp: Option<i64>,
    pub server_brand: Option<String>,
    pub server_url: Option<String>,
    pub last_updated: Option<i64>,
    pub last_modified: Option<i64>,
    pub updating_now: bool,
}

impl Default for StatusResponse {
    /// Nothing known: every field absent, not updating.
    fn default() -> (r: StatusResponse)
        ensures
            r.titles is None && r.thumbnails is None && r.vip_users is None && r.usernames is None,
            r.warnings is None && r.errors is None && r.string_count is None && r.video_infos is None,
            r.uncut_segments is None && r.cached_channels is None && r.fscached_channels is None,
            r.server_version is None && r.server_git_hash is None && r.server_git_dirty is None,
            r.server_build_timestamp is None && r.server_startup_timestamp is None,
            r.server_brand is None && r.server_url is None,
            r.last_updated is None && r.last_modified is None,
            !r.updating_now,
    {
        StatusResponse {
            titles: None,
            thumbnails: None,
            vip_users: None,
            usernames: None,
            warnings: None,
            errors: None,
            string_count: None,
            video_infos: None,
            uncut_segments: None,
            cached_channels: None,
            fscached_channels: None,
            server_version: None,
            server_git_hash: None,
            server_git_dirty: None,
            server_build_timestamp: None,
            server_startup_timestamp: None,
            server_brand: None,
            server_url: None,
            last_updated: None,
            last_modified: None,
            updating_now: false,
        }
    }
}

/// A title submission.
#[derive(Debug)]
pub struct ApiTitle {
    pub uuid: String,
    pub video_id: String,
    pub title: String,
    pub user_id: String,
    pub user_agent: String,
    pub time_submitted: i64,
    pub votes: i8,
    pub downvotes: i8,
    pub original: bool,
    pub locked: bool,
    pub shadow_hidden: bool,
    pub unverified: bool,
    pub removed: bool,
    pub casual_mode: bool,
    pub votes_missing: bool,
    pub score: i8,
    pub username: Option<String>,
    pub vip: bool,
}

/// A thumbnail submission. The timestamp within the video, in seconds, is carried as the
/// bit pattern of the floating-point value (`f64::to_bits`), `None` for the original thumbnail.
#[derive(Debug)]
pub struct ApiThumbnail {
    pub uuid: String,
    pub video_id: String,
    pub user_id: String,
    pub user_agent: String,
    pub time_submitted: i64,
    pub timestamp_bits: Option<u64>,
    pub votes: i8,
    pub downvotes: i8,
    pub original: bool,
    pub locked: bool,
    pub shadow_hidden: bool,
    pub removed: bool,
    pub casual_mode: bool,
    pub votes_missing: bool,
    pub timestamp_missing: bool,
    pub score: i8,
    pub username: Option<String>,
    pub vip: bool,
}

/// A user's profile.
#[derive(Debug)]
pub struct User {
    pub user_id: String,
    pub username: Option<String>,
    pub username_locked: bool,
    pub vip: bool,
    pub title_count: u64,
    pub thumbnail_count: u64,
    pub warning_count: u64,
    pub active_warning_count: u64,
}

/// A video as seen by Innertube.
#[derive(Debug)]
pub struct InnertubeVideo {
    pub video_id: String,
    pub duration: u64,
}

/// A channel as seen by Innertube.
#[derive(Debug)]
pub struct InnertubeChannel {
    pub ucid: String,
    pub channel_name: String,
    pub num_videos: u64,
    pub num_vods: u64,
    pub num_shorts: u64,
    pub num_releases: u64,
    pub total_videos: u64,
}

/// Progress of fetching one list of a channel's videos.
#[derive(Clone, Copy, PartialEq, Eq, Debug, Structural)]
pub struct BrowseProgress {
    pub videos_fetched: u64,
    pub videos_in_fscache: u64,
}

/// Progress of fetching a channel's videos, by list.
#[derive(Clone, Copy, PartialEq, Eq, Debug, Structural)]
pub struct ChannelFetchProgress {
    pub videos: BrowseProgress,
    pub vods: BrowseProgress,
    pub shorts: BrowseProgress,
    pub releases_tab: BrowseProgress,
    pub releases_home: BrowseProgress,
}

/// The extension a warning was issued for.
#[derive(Clone, Copy, PartialEq, Eq, Debug, Structural)]
pub enum Extension {
    SponsorBlock,
    DeArrow,
}

/// A warning issued to a user.
#[derive(Debug)]
pub struct ApiWarning {
    pub warned_user_id: String,
    pub warned_username: Option<String>,
    pub issuer_user_id: String,
    pub issuer_username: Option<String>,
    pub time_issued: i64,
    pub extension: Extension,
    pub message: String,
    pub active: bool,
}

/// A casual-mode title of a video, with votes by category.
#[derive(Debug)]
pub struct ApiCasualTitle {
    pub video_id: String,
    pub title: Option<String>,
    pub first_submitted: i64,
    pub votes: HashMap<String, i16>,
}

} // verus!
