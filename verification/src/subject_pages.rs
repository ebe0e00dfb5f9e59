//! The pages of one video, one channel and one user: their tabs and the table behind each,
//! the details shown above the tables, and which fetch of those details a page listens to.

use vstd::prelude::*;

use crate::api::{InnertubeChannel, User};
use crate::flags::IconType;
use crate::links::{listed_items, ApiEndpoint, ListedItems};
use crate::metadata_view::{LoadTracker, SimpleLoadState};
use crate::numbers::{decimal, decimal_string};
use crate::pages::page_count;
use crate::tables::{CasualTableSettings, ThumbTableSettings, TitleTableSettings, WarningTableSettings};

verus! {

/// A table under a page's tab: where its rows come from, and which of its columns are hidden.
#[derive(Debug)]
#[allow(inconsistent_fields)]
pub enum PageTable {
    Titles { endpoint: ApiEndpoint, settings: TitleTableSettings },
    Thumbnails { endpoint: ApiEndpoint, settings: ThumbTableSettings },
    CasualTitles { endpoint: ApiEndpoint, settings: CasualTableSettings },
    Warnings { endpoint: ApiEndpoint, settings: WarningTableSettings },
}

/// Whether a table fetches the kind of item it shows: a table of titles from an endpoint that
/// lists titles, a table of thumbnails from one that lists thumbnails, and so on.
pub open spec fn fetches_its_kind(t: PageTable) -> bool {
    match t {
        PageTable::Titles { endpoint, .. } => listed_items(endpoint) == ListedItems::Titles,
        PageTable::Thumbnails { endpoint, .. } => listed_items(endpoint) == ListedItems::Thumbnails,
        PageTable::CasualTitles { endpoint, .. } => listed_items(endpoint) == ListedItems::CasualTitles,
        PageTable::Warnings { endpoint, .. } => listed_items(endpoint) == ListedItems::Warnings,
    }
}

/// The tabs of a user's page, in the order the switch shows them.
#[derive(Clone, Copy, PartialEq, Eq, Debug, Default, Structural)]
pub enum UserPageTab {
    #[default]
    Titles,
    Thumbnails,
    WarningsReceived,
    WarningsIssued,
}

/// The name of a tab of a user's page.
pub open spec fn user_tab_label(t: UserPageTab) -> Seq<char> {
    match t {
        UserPageTab::Titles => "Titles"@,
        UserPageTab::Thumbnails => "Thumbnails"@,
        UserPageTab::WarningsReceived => "Warnings received"@,
        UserPageTab::WarningsIssued => "Warnings issued"@,
    }
}

/// The tab of a user's page at position `i`, if there is one.
pub open spec fn user_tab_at(i: usize) -> Option<UserPageTab> {
    if i == 0 {
        Some(UserPageTab::Titles)
    } else if i == 1 {
        Some(UserPageTab::Thumbnails)
    } else if i == 2 {
        Some(UserPageTab::WarningsReceived)
    } else if i == 3 {
        Some(UserPageTab::WarningsIssued)
    } else {
        None
    }
}

impl UserPageTab {
    /// The name of this tab.
    pub fn label(&self) -> (l: &'static str)
        ensures
            l@ == user_tab_label(*self),
    {
        match self {
            UserPageTab::Titles => "Titles",
            UserPageTab::Thumbnails => "Thumbnails",
            UserPageTab::WarningsReceived => "Warnings received",
            UserPageTab::WarningsIssued => "Warnings issued",
        }
    }

    /// The tab at position `i`, if there is one.
    pub fn at(i: usize) -> (t: Option<Self>)
        ensures
            t == user_tab_at(i),
    {
        if i == 0 {
            Some(UserPageTab::Titles)
        } else if i == 1 {
            Some(UserPageTab::Thumbnails)
        } else if i == 2 {
            Some(UserPageTab::WarningsReceived)
        } else if i == 3 {
            Some(UserPageTab::WarningsIssued)
        } else {
            None
        }
    }
}

/// The table under a tab of the page of the user `user_id`: the user's own titles and
/// thumbnails without the user columns, or the warnings they received or issued without their
/// own column.
pub fn user_page_table(tab: UserPageTab, user_id: &str) -> (t: PageTable)
    ensures
        fetches_its_kind(t),
        match tab {
            UserPageTab::Titles => t matches PageTable::Titles { endpoint: ApiEndpoint::TitlesByUser { user_id: u }, settings }
                && u@ == user_id@
                && settings == (TitleTableSettings { hide_videoid: false, hide_username: true, hide_userid: true }),
            UserPageTab::Thumbnails => t matches PageTable::Thumbnails { endpoint: ApiEndpoint::ThumbnailsByUser { user_id: u }, settings }
                && u@ == user_id@
                && settings == (ThumbTableSettings { hide_videoid: false, hide_username: true, hide_userid: true }),
            UserPageTab::WarningsReceived => t matches PageTable::Warnings { endpoint: ApiEndpoint::WarningsReceived { user_id: u }, settings }
                && u@ == user_id@
                && settings == (WarningTableSettings { hide_issuer: false, hide_receiver: true }),
            UserPageTab::WarningsIssued => t matches PageTable::Warnings { endpoint: ApiEndpoint::WarningsIssued { user_id: u }, settings }
                && u@ == user_id@
                && settings == (WarningTableSettings { hide_issuer: true, hide_receiver: false }),
        },
{
    let u = String::from_str(user_id);
    match tab {
        UserPageTab::Titles => PageTable::Titles {
            endpoint: ApiEndpoint::TitlesByUser { user_id: u },
            settings: TitleTableSettings { hide_videoid: false, hide_username: true, hide_userid: true },
        },
        UserPageTab::Thumbnails => PageTable::Thumbnails {
            endpoint: ApiEndpoint::ThumbnailsByUser { user_id: u },
            settings: ThumbTableSettings { hide_videoid: false, hide_username: true, hide_userid: true },
        },
        UserPageTab::WarningsReceived => PageTable::Warnings {
            endpoint: ApiEndpoint::WarningsReceived { user_id: u },
            settings: WarningTableSettings { hide_issuer: false, hide_receiver: true },
        },
        UserPageTab::WarningsIssued => PageTable::Warnings {
            endpoint: ApiEndpoint::WarningsIssued { user_id: u },
            settings: WarningTableSettings { hide_issuer: true, hide_receiver: false },
        },
    }
}

/// The tabs of a video's page, in the order the switch shows them.
#[derive(Clone, Copy, PartialEq, Eq, Debug, Default, Structural)]
pub enum VideoPageTab {
    #[default]
    Titles,
    Thumbnails,
}

impl VideoPageTab {
    /// The name of this tab.
    pub fn label(&self) -> (l: &'static str)
        ensures
            l@ == (match *self {
                VideoPageTab::Titles => "Titles"@,
                VideoPageTab::Thumbnails => "Thumbnails"@,
            }),
    {
        match self {
            VideoPageTab::Titles => "Titles",
            VideoPageTab::Thumbnails => "Thumbnails",
        }
    }

    /// The tab at position `i`, if there is one.
    pub fn at(i: usize) -> (t: Option<Self>)
        ensures
            t == (if i == 0 {
                Some(VideoPageTab::Titles)
            } else if i == 1 {
                Some(VideoPageTab::Thumbnails)
            } else {
                None
            }),
    {
        if i == 0 {
            Some(VideoPageTab::Titles)
        } else if i == 1 {
            Some(VideoPageTab::Thumbnails)
        } else {
            None
        }
    }
}

/// The table under a tab of the page of the video `video_id`: its titles or thumbnails,
/// without the video column.
pub fn video_page_table(tab: VideoPageTab, video_id: &str) -> (t: PageTable)
    ensures
        fetches_its_kind(t),
        match tab {
            VideoPageTab::Titles => t matches PageTable::Titles { endpoint: ApiEndpoint::TitlesByVideo { video_id: v }, settings }
                && v@ == video_id@
                && settings == (TitleTableSettings { hide_videoid: true, hide_username: false, hide_userid: false }),
            VideoPageTab::Thumbnails => t matches PageTable::Thumbnails { endpoint: ApiEndpoint::ThumbnailsByVideo { video_id: v }, settings }
                && v@ == video_id@
                && settings == (ThumbTableSettings { hide_videoid: true, hide_username: false, hide_userid: false }),
        },
{
    let v = String::from_str(video_id);
    match tab {
        VideoPageTab::Titles => PageTable::Titles {
            endpoint: ApiEndpoint::TitlesByVideo { video_id: v },
            settings: TitleTableSettings { hide_videoid: true, hide_username: false, hide_userid: false },
        },
        VideoPageTab::Thumbnails => PageTable::Thumbnails {
            endpoint: ApiEndpoint::ThumbnailsByVideo { video_id: v },
            settings: ThumbTableSettings { hide_videoid: true, hide_username: false, hide_userid: false },
        },
    }
}

/// The tabs of a channel's page, in the order the switch shows them.
#[derive(Clone, Copy, PartialEq, Eq, Debug, Default, Structural)]
pub enum ChannelPageTab {
    #[default]
    Titles,
    Thumbnails,
    CasualTitles,
}

impl ChannelPageTab {
    /// The name of this tab.
    pub fn label(&self) -> (l: &'static str)
        ensures
            l@ == (match *self {
                ChannelPageTab::Titles => "Titles"@,
                ChannelPageTab::Thumbnails => "Thumbnails"@,
                ChannelPageTab::CasualTitles => "Casual titles"@,
            }),
    {
        match self {
            ChannelPageTab::Titles => "Titles",
            ChannelPageTab::Thumbnails => "Thumbnails",
            ChannelPageTab::CasualTitles => "Casual titles",
        }
    }

    /// The tab at position `i`, if there is one.
    pub fn at(i: usize) -> (t: Option<Self>)
        ensures
            t == (if i == 0 {
                Some(ChannelPageTab::Titles)
            } else if i == 1 {
                Some(ChannelPageTab::Thumbnails)
            } else if i == 2 {
                Some(ChannelPageTab::CasualTitles)
            } else {
                None
            }),
    {
        if i == 0 {
            Some(ChannelPageTab::Titles)
        } else if i == 1 {
            Some(ChannelPageTab::Thumbnails)
        } else if i == 2 {
            Some(ChannelPageTab::CasualTitles)
        } else {
            None
        }
    }
}

/// The table under a tab of the page of the channel `channel`, with every column shown.
pub fn channel_page_table(tab: ChannelPageTab, channel: &str) -> (t: PageTable)
    ensures
        fetches_its_kind(t),
        match tab {
            ChannelPageTab::Titles => t matches PageTable::Titles { endpoint: ApiEndpoint::TitlesByChannel { channel: c }, settings }
                && c@ == channel@
                && settings == (TitleTableSettings { hide_videoid: false, hide_username: false, hide_userid: false }),
            ChannelPageTab::Thumbnails => t matches PageTable::Thumbnails { endpoint: ApiEndpoint::ThumbnailsByChannel { channel: c }, settings }
                && c@ == channel@
                && settings == (ThumbTableSettings { hide_videoid: false, hide_username: false, hide_userid: false }),
            ChannelPageTab::CasualTitles => t matches PageTable::CasualTitles { endpoint: ApiEndpoint::CasualTitlesByChannel { channel: c }, settings }
                && c@ == channel@
                && settings == (CasualTableSettings { hide_videoid: false }),
        },
{
    let c = String::from_str(channel);
    match tab {
        ChannelPageTab::Titles => PageTable::Titles {
            endpoint: ApiEndpoint::TitlesByChannel { channel: c },
            settings: TitleTableSettings { hide_videoid: false, hide_username: false, hide_userid: false },
        },
        ChannelPageTab::Thumbnails => PageTable::Thumbnails {
            endpoint: ApiEndpoint::ThumbnailsByChannel { channel: c },
            settings: ThumbTableSettings { hide_videoid: false, hide_username: false, hide_userid: false },
        },
        ChannelPageTab::CasualTitles => PageTable::CasualTitles {
            endpoint: ApiEndpoint::CasualTitlesByChannel { channel: c },
            settings: CasualTableSettings { hide_videoid: false },
        },
    }
}

/// The tabs of the home page, in the order the switch shows them.
#[derive(Clone, Copy, PartialEq, Eq, Debug, Default, Structural)]
pub enum HomePageTab {
    #[default]
    Titles,
    Thumbnails,
    CasualTitles,
}

impl HomePageTab {
    /// The name of this tab.
    pub fn label(&self) -> (l: &'static str)
        ensures
            l@ == (match *self {
                HomePageTab::Titles => "Titles"@,
                HomePageTab::Thumbnails => "Thumbnails"@,
                HomePageTab::CasualTitles => "Casual titles"@,
            }),
    {
        match self {
            HomePageTab::Titles => "Titles",
            HomePageTab::Thumbnails => "Thumbnails",
            HomePageTab::CasualTitles => "Casual titles",
        }
    }
}

/// The tabs of the page of broken database entries.
#[derive(Clone, Copy, PartialEq, Eq, Debug, Default, Structural)]
pub enum BrokenPageTab {
    #[default]
    Titles,
    Thumbnails,
}

/// The table under a tab of the page of broken entries: the broken titles or thumbnails, with
/// every column shown.
pub fn broken_page_table(tab: BrokenPageTab) -> (t: PageTable)
    ensures
        fetches_its_kind(t),
        match tab {
            BrokenPageTab::Titles => t matches PageTable::Titles { endpoint: ApiEndpoint::BrokenTitles, settings }
                && settings == (TitleTableSettings { hide_videoid: false, hide_username: false, hide_userid: false }),
            BrokenPageTab::Thumbnails => t matches PageTable::Thumbnails { endpoint: ApiEndpoint::BrokenThumbnails, settings }
                && settings == (ThumbTableSettings { hide_videoid: false, hide_username: false, hide_userid: false }),
        },
{
    match tab {
        BrokenPageTab::Titles => PageTable::Titles {
            endpoint: ApiEndpoint::BrokenTitles,
            settings: TitleTableSettings { hide_videoid: false, hide_username: false, hide_userid: false },
        },
        BrokenPageTab::Thumbnails => PageTable::Thumbnails {
            endpoint: ApiEndpoint::BrokenThumbnails,
            settings: ThumbTableSettings { hide_videoid: false, hide_username: false, hide_userid: false },
        },
    }
}

/// The home page under one tab: the page of newest entries its table shows, and how many pages
/// there are, when the server's status told how many entries of that kind it has.
#[derive(Debug)]
pub struct HomeView {
    pub table: PageTable,
    pub page_count: Option<usize>,
}

/// The home page under `tab` on page `page` (from 0), `per_page` entries to a page, when the
/// server holds `entry_count` entries of the tab's kind (if known): the table asks for the
/// `per_page` entries from `page * per_page` on, with every column shown.
pub fn home_page_view(tab: HomePageTab, page: usize, per_page: usize, entry_count: Option<usize>) -> (v: HomeView)
    requires
        per_page > 0,
        page * per_page <= usize::MAX,
    ensures
        fetches_its_kind(v.table),
        match tab {
            HomePageTab::Titles => v.table matches PageTable::Titles { endpoint: ApiEndpoint::Titles { offset, count }, settings }
                && offset == page * per_page && count == per_page
                && settings == (TitleTableSettings { hide_videoid: false, hide_username: false, hide_userid: false }),
            HomePageTab::Thumbnails => v.table matches PageTable::Thumbnails { endpoint: ApiEndpoint::Thumbnails { offset, count }, settings }
                && offset == page * per_page && count == per_page
                && settings == (ThumbTableSettings { hide_videoid: false, hide_username: false, hide_userid: false }),
            HomePageTab::CasualTitles => v.table matches PageTable::CasualTitles { endpoint: ApiEndpoint::CasualTitles { offset, count }, settings }
                && offset == page * per_page && count == per_page
                && settings == (CasualTableSettings { hide_videoid: false }),
        },
        v.page_count == match entry_count {
            Some(c) => Some((c / per_page + if c % per_page == 0 { 0int } else { 1int }) as usize),
            None => None,
        },
{
    let offset = page * per_page;
    let table = match tab {
        HomePageTab::Titles => PageTable::Titles {
            endpoint: ApiEndpoint::Titles { offset, count: per_page },
            settings: TitleTableSettings { hide_videoid: false, hide_username: false, hide_userid: false },
        },
        HomePageTab::Thumbnails => PageTable::Thumbnails {
            endpoint: ApiEndpoint::Thumbnails { offset, count: per_page },
            settings: ThumbTableSettings { hide_videoid: false, hide_username: false, hide_userid: false },
        },
        HomePageTab::CasualTitles => PageTable::CasualTitles {
            endpoint: ApiEndpoint::CasualTitles { offset, count: per_page },
            settings: CasualTableSettings { hide_videoid: false },
        },
    };
    let pages = match entry_count {
        Some(c) => Some(page_count(c, per_page)),
        None => None,
    };
    HomeView { table, page_count: pages }
}

/// An icon shown beside a user's ID or username.
#[derive(Clone, Copy, PartialEq, Eq, Debug, Structural)]
pub enum UserBadge {
    Vip,
    ActiveWarning,
    PastWarning,
    UsernameLocked,
    /// In a table of users: the user cannot change their username.
    CannotChangeUsername,
}

/// The icon of a user badge.
pub open spec fn user_badge_icon(b: UserBadge) -> IconType {
    match b {
        UserBadge::Vip => IconType::VIP,
        UserBadge::ActiveWarning => IconType::Warning,
        UserBadge::PastWarning => IconType::WarningInactive,
        UserBadge::UsernameLocked => IconType::Locked,
        UserBadge::CannotChangeUsername => IconType::Locked,
    }
}

/// The tooltip of a user badge.
pub open spec fn user_badge_tooltip(b: UserBadge) -> Seq<char> {
    match b {
        UserBadge::Vip => "This user is a VIP"@,
        UserBadge::ActiveWarning => "This user has an active warning"@,
        UserBadge::PastWarning => "This user was previously warned"@,
        UserBadge::UsernameLocked => "This user's username is locked"@,
        UserBadge::CannotChangeUsername => "This user cannot change their username"@,
    }
}

impl UserBadge {
    /// The icon of this badge.
    pub fn icon(&self) -> (i: IconType)
        ensures
            i == user_badge_icon(*self),
    {
        match self {
            UserBadge::Vip => IconType::VIP,
            UserBadge::ActiveWarning => IconType::Warning,
            UserBadge::PastWarning => IconType::WarningInactive,
            UserBadge::UsernameLocked => IconType::Locked,
            UserBadge::CannotChangeUsername => IconType::Locked,
        }
    }

    /// The tooltip of this badge.
    pub fn tooltip(&self) -> (t: &'static str)
        ensures
            t@ == user_badge_tooltip(*self),
    {
        match self {
            UserBadge::Vip => "This user is a VIP",
            UserBadge::ActiveWarning => "This user has an active warning",
            UserBadge::PastWarning => "This user was previously warned",
            UserBadge::UsernameLocked => "This user's username is locked",
            UserBadge::CannotChangeUsername => "This user cannot change their username",
        }
    }
}

/// The badges beside a user's ID: VIP, then an active warning, or else a past one.
pub open spec fn user_id_badge_list(u: User) -> Seq<UserBadge> {
    let vip: Seq<UserBadge> = if u.vip { seq![UserBadge::Vip] } else { seq![] };
    let warning: Seq<UserBadge> = if u.active_warning_count > 0 {
        seq![UserBadge::ActiveWarning]
    } else if u.warning_count > 0 {
        seq![UserBadge::PastWarning]
    } else {
        seq![]
    };
    vip + warning
}

/// The badges beside a user's ID.
pub fn user_id_badges(u: &User) -> (v: Vec<UserBadge>)
    ensures
        v@ == user_id_badge_list(*u),
{
    let mut v: Vec<UserBadge> = Vec::new();
    if u.vip {
        v.push(UserBadge::Vip);
    }
    if u.active_warning_count > 0 {
        v.push(UserBadge::ActiveWarning);
    } else if u.warning_count > 0 {
        v.push(UserBadge::PastWarning);
    }
    proof {
        assert(v@ =~= user_id_badge_list(*u));
    }
    v
}

/// The flags of a user's row in a table of users: VIP, a locked username, then an active
/// warning, or else a past one.
pub open spec fn user_row_badge_list(u: User) -> Seq<UserBadge> {
    let vip: Seq<UserBadge> = if u.vip { seq![UserBadge::Vip] } else { seq![] };
    let locked: Seq<UserBadge> = if u.username_locked { seq![UserBadge::CannotChangeUsername] } else { seq![] };
    let warning: Seq<UserBadge> = if u.active_warning_count > 0 {
        seq![UserBadge::ActiveWarning]
    } else if u.warning_count > 0 {
        seq![UserBadge::PastWarning]
    } else {
        seq![]
    };
    vip + locked + warning
}

/// The flags of a user's row in a table of users.
pub fn user_row_badges(u: &User) -> (v: Vec<UserBadge>)
    ensures
        v@ == user_row_badge_list(*u),
{
    let mut v: Vec<UserBadge> = Vec::new();
    if u.vip {
        v.push(UserBadge::Vip);
    }
    if u.username_locked {
        v.push(UserBadge::CannotChangeUsername);
    }
    if u.active_warning_count > 0 {
        v.push(UserBadge::ActiveWarning);
    } else if u.warning_count > 0 {
        v.push(UserBadge::PastWarning);
    }
    proof {
        assert(v@ =~= user_row_badge_list(*u));
    }
    v
}

/// The badge beside a user's username: whether the username is locked.
pub fn username_badge(u: &User) -> (b: Option<UserBadge>)
    ensures
        b == (if u.username_locked { Some(UserBadge::UsernameLocked) } else { None }),
{
    if u.username_locked {
        Some(UserBadge::UsernameLocked)
    } else {
        None
    }
}

/// `label`, a colon, a space and the decimal `n`: a line of a page's details.
pub fn count_line(label: &str, n: u64) -> (s: String)
    ensures
        s@ == label@ + ": "@ + decimal(n as nat),
{
    let mut s = String::from_str(label);
    s.append(": ");
    let d = decimal_string(n as u128);
    s.append(d.as_str());
    s
}

/// The line counting a channel's videos.
pub open spec fn channel_videos_line(c: InnertubeChannel) -> Seq<char> {
    "Videos: "@ + decimal(c.num_videos as nat) + " plain, "@ + decimal(c.num_vods as nat) + " VODs, "@
        + decimal(c.num_shorts as nat) + " shorts, "@ + decimal(c.num_releases as nat) + " releases; "@
        + decimal(c.total_videos as nat) + " total"@
}

/// The line counting a channel's videos: plain videos, VODs, shorts, releases and the total.
pub fn channel_videos_text(c: &InnertubeChannel) -> (s: String)
    ensures
        s@ == channel_videos_line(*c),
{
    let mut s = String::from_str("Videos: ");
    let a = decimal_string(c.num_videos as u128);
    s.append(a.as_str());
    s.append(" plain, ");
    let b = decimal_string(c.num_vods as u128);
    s.append(b.as_str());
    s.append(" VODs, ");
    let d = decimal_string(c.num_shorts as u128);
    s.append(d.as_str());
    s.append(" shorts, ");
    let e = decimal_string(c.num_releases as u128);
    s.append(e.as_str());
    s.append(" releases; ");
    let f = decimal_string(c.total_videos as u128);
    s.append(f.as_str());
    s.append(" total");
    s
}

/// The address of a channel on YouTube, by its channel ID.
pub fn youtube_channel_link(ucid: &str) -> (s: String)
    ensures
        s@ == "https://youtube.com/channel/"@ + ucid@,
{
    let mut s = String::from_str("https://youtube.com/channel/");
    s.append(ucid);
    s
}

/// The state of a video's page: its tab, the origin its fetches go to, the entry count its
/// table reported, and the extra metadata of the video, fetched under version numbers.
pub struct VideoPage<T> {
    tab: VideoPageTab,
    origin: String,
    entry_count: Option<usize>,
    metadata: LoadTracker<T>,
}

impl<T> VideoPage<T> {
    /// The tab shown.
    pub closed spec fn tab(&self) -> VideoPageTab {
        self.tab
    }

    /// The origin the page's fetches go to.
    pub closed spec fn origin(&self) -> Seq<char> {
        self.origin@
    }

    /// The entry count the table reported last.
    pub closed spec fn entry_count(&self) -> Option<usize> {
        self.entry_count
    }

    /// What is shown of the extra metadata.
    pub closed spec fn metadata(&self) -> SimpleLoadState<T> {
        self.metadata.state()
    }

    /// The version number of the metadata fetch listened to.
    pub closed spec fn version(&self) -> u8 {
        self.metadata.version()
    }

    /// The page as it opens on `tab`: its first metadata fetch, numbered 1, is running.
    pub fn new(tab: VideoPageTab, origin: String) -> (p: Self)
        ensures
            p.tab() == tab,
            p.origin() == origin@,
            p.entry_count() is None,
            p.metadata() is Loading,
            p.version() == 1,
    {
        let mut metadata = LoadTracker::new();
        metadata.refresh();
        VideoPage { tab, origin, entry_count: None, metadata }
    }

    /// Starts a new metadata fetch and returns its version number.
    pub fn refresh(&mut self) -> (v: u8)
        ensures
            v == final(self).version(),
            v == (if old(self).version() == u8::MAX { 0 } else { (old(self).version() + 1) as u8 }),
            final(self).metadata() is Loading,
            final(self).tab() == old(self).tab(),
            final(self).origin() == old(self).origin(),
            final(self).entry_count() == old(self).entry_count(),
    {
        self.metadata.refresh()
    }

    /// The site's origin is now `origin`. A new one is kept and the metadata fetched again:
    /// the new fetch's version number is returned. The same origin changes nothing.
    pub fn origin_updated(&mut self, origin: String) -> (r: Option<u8>)
        ensures
            origin@ == old(self).origin() ==> r is None && final(self).version() == old(self).version()
                && final(self).metadata() == old(self).metadata() && final(self).origin() == old(self).origin(),
            origin@ != old(self).origin() ==> r == Some(final(self).version()) && final(self).origin() == origin@
                && final(self).metadata() is Loading && final(self).version() == (if old(self).version() == u8::MAX {
                    0
                } else {
                    (old(self).version() + 1) as u8
                }),
            final(self).tab() == old(self).tab(),
            final(self).entry_count() == old(self).entry_count(),
    {
        if self.origin == origin {
            return None;
        }
        self.origin = origin;
        Some(self.metadata.refresh())
    }

    /// The browser history moved to `tab`. Returns whether the view changed.
    pub fn location_updated(&mut self, tab: VideoPageTab) -> (changed: bool)
        ensures
            changed == (tab != old(self).tab()),
            final(self).tab() == tab,
            final(self).origin() == old(self).origin(),
            final(self).entry_count() == old(self).entry_count(),
            final(self).metadata() == old(self).metadata(),
            final(self).version() == old(self).version(),
    {
        if self.tab == tab {
            false
        } else {
            self.tab = tab;
            true
        }
    }

    /// The table reported its entry count. Returns whether the view changed.
    pub fn entry_count_updated(&mut self, entry_count: Option<usize>) -> (changed: bool)
        ensures
            changed == (entry_count != old(self).entry_count()),
            final(self).entry_count() == entry_count,
            final(self).tab() == old(self).tab(),
            final(self).origin() == old(self).origin(),
            final(self).metadata() == old(self).metadata(),
            final(self).version() == old(self).version(),
    {
        if self.entry_count == entry_count {
            false
        } else {
            self.entry_count = entry_count;
            true
        }
    }

    /// Takes the answer of the metadata fetch numbered `version`: `None` when it failed. A
    /// stale answer changes nothing. Returns whether the view changed.
    pub fn metadata_fetched(&mut self, version: u8, data: Option<T>) -> (applied: bool)
        ensures
            applied == (version == old(self).version()),
            applied ==> final(self).metadata() == match data {
                Some(d) => SimpleLoadState::Ready(d),
                None => SimpleLoadState::Failed,
            },
            !applied ==> final(self).metadata() == old(self).metadata(),
            final(self).version() == old(self).version(),
            final(self).tab() == old(self).tab(),
            final(self).origin() == old(self).origin(),
            final(self).entry_count() == old(self).entry_count(),
    {
        self.metadata.fetched(version, data)
    }

    /// The tab shown.
    pub fn current_tab(&self) -> (t: VideoPageTab)
        ensures
            t == self.tab(),
    {
        self.tab
    }

    /// What is shown of the extra metadata.
    pub fn current_metadata(&self) -> (m: &SimpleLoadState<T>)
        ensures
            *m == self.metadata(),
    {
        self.metadata.current()
    }

    /// Whether the page shows the video's thumbnails above its table: on the thumbnails tab.
    pub fn shows_thumbnails(&self) -> (b: bool)
        ensures
            b == (self.tab() == VideoPageTab::Thumbnails),
    {
        self.tab == VideoPageTab::Thumbnails
    }
}

/// The details above a channel's page, and the fetch of them it listens to. Each refresh
/// listens to a new token; answers under any other token are dropped.
pub struct ChannelDetails<T> {
    origin: String,
    data: SimpleLoadState<T>,
    token: u64,
}

impl<T> ChannelDetails<T> {
    /// The origin the details were created with.
    pub closed spec fn origin(&self) -> Seq<char> {
        self.origin@
    }

    /// What is shown.
    pub closed spec fn data(&self) -> SimpleLoadState<T> {
        self.data
    }

    /// The token of the fetch listened to.
    pub closed spec fn token(&self) -> u64 {
        self.token
    }

    /// Details waiting for their first fetch, under token 0.
    pub fn new(origin: String) -> (d: Self)
        ensures
            d.origin() == origin@,
            d.data() is Loading,
            d.token() == 0,
    {
        ChannelDetails { origin, data: SimpleLoadState::Loading, token: 0 }
    }

    /// The token of the fetch listened to.
    pub fn current_token(&self) -> (t: u64)
        ensures
            t == self.token(),
    {
        self.token
    }

    /// Starts a new fetch: shows loading and listens to a new token, which it returns.
    pub fn refresh(&mut self) -> (t: u64)
        ensures
            t == final(self).token(),
            t == (if old(self).token() == u64::MAX { 0 } else { (old(self).token() + 1) as u64 }),
            final(self).data() is Loading,
            final(self).origin() == old(self).origin(),
    {
        self.token = self.token.wrapping_add(1);
        self.data = SimpleLoadState::Loading;
        self.token
    }

    /// The site's origin is now `origin`: another one starts a new fetch, whose token is
    /// returned. The origin kept is not replaced, so fetches still go to the origin the
    /// details were created with.
    pub fn origin_updated(&mut self, origin: &String) -> (r: Option<u64>)
        ensures
            origin@ == old(self).origin() ==> r is None && final(self).token() == old(self).token()
                && final(self).data() == old(self).data(),
            origin@ != old(self).origin() ==> r == Some(final(self).token()) && final(self).data() is Loading
                && final(self).token() == (if old(self).token() == u64::MAX { 0 } else { (old(self).token() + 1) as u64 }),
            final(self).origin() == old(self).origin(),
    {
        if self.origin == *origin {
            return None;
        }
        Some(self.refresh())
    }

    /// The page now shows another channel, or the same one: another starts a new fetch, whose
    /// token is returned.
    pub fn channel_changed(&mut self, old_channel: &String, new_channel: &String) -> (r: Option<u64>)
        ensures
            old_channel@ == new_channel@ ==> r is None && final(self).token() == old(self).token()
                && final(self).data() == old(self).data(),
            old_channel@ != new_channel@ ==> r == Some(final(self).token()) && final(self).data() is Loading
                && final(self).token() == (if old(self).token() == u64::MAX { 0 } else { (old(self).token() + 1) as u64 }),
            final(self).origin() == old(self).origin(),
    {
        if *old_channel == *new_channel {
            return None;
        }
        Some(self.refresh())
    }

    /// Takes the answer of the fetch with token `token`; a stale one changes nothing. Returns
    /// whether the view changed.
    pub fn data_fetched(&mut self, token: u64, data: SimpleLoadState<T>) -> (applied: bool)
        ensures
            applied == (token == old(self).token()),
            applied ==> final(self).data() == data,
            !applied ==> final(self).data() == old(self).data(),
            final(self).token() == old(self).token(),
            final(self).origin() == old(self).origin(),
    {
        if token != self.token {
            return false;
        }
        self.data = data;
        true
    }

    /// What is shown.
    pub fn current(&self) -> (d: &SimpleLoadState<T>)
        ensures
            *d == self.data(),
    {
        &self.data
    }
}

} // verus!
