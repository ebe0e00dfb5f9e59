//! The links and request URLs the browser builds: YouTube and SponsorBlock pages, the oEmbed
//! query, the thumbnail generator's endpoint and the DeArrow Browser API endpoints.

use vstd::prelude::*;
use vstd::string::StringExecFns;

use crate::metadata::VideoMetadata;
use crate::numbers::{decimal, decimal_string};
use crate::web_url::{
    channel_handle, channel_handle_of, parsed_url, ChannelUrlError, append_query, join_segments, pairs_view, replace_query, segments_view, text_matches,
    url_with_new_query, url_with_query, url_with_segments,
};

verus! {

/// Short links to YouTube videos.
pub const YOUTU_BE_URL: &'static str = "https://youtu.be/";
/// YouTube's oEmbed endpoint.
pub const YOUTUBE_OEMBED_URL: &'static str = "https://www.youtube-nocookie.com/oembed";
/// YouTube's embedded player.
pub const YOUTUBE_EMBED_URL: &'static str = "https://www.youtube-nocookie.com/embed/";
/// The SponsorBlock browser.
pub const SBB_BASE: &'static str = "https://sb.ltn.fi/";

/// The short YouTube link of a video: `https://youtu.be/<vid>`.
pub fn youtu_be_link(vid: &str) -> (r: Option<String>)
    ensures
        text_matches(r, url_with_segments(YOUTU_BE_URL@, seq![vid@])),
{
    let segs = vec![vid.to_owned()];
    proof { assert(segments_view(segs) =~= seq![vid@]); }
    join_segments(YOUTU_BE_URL, &segs)
}

/// The embedded player of a video.
pub fn youtube_embed_link(vid: &str) -> (r: Option<String>)
    ensures
        text_matches(r, url_with_segments(YOUTUBE_EMBED_URL@, seq![vid@])),
{
    let segs = vec![vid.to_owned()];
    proof { assert(segments_view(segs) =~= seq![vid@]); }
    join_segments(YOUTUBE_EMBED_URL, &segs)
}

/// The oEmbed query about a video: the oEmbed endpoint with its query replaced by
/// `url=<short link of the video>`.
pub fn oembed_url(vid: &str) -> (r: Option<String>)
    ensures
        match url_with_segments(YOUTU_BE_URL@, seq![vid@]) {
            None => r is None,
            Some(link) => text_matches(r, url_with_new_query(YOUTUBE_OEMBED_URL@, seq![("url"@, link)])),
        },
{
    match youtu_be_link(vid) {
        None => None,
        Some(link) => {
            let pairs = vec![(String::from_str("url"), link)];
            proof { assert(pairs_view(pairs) =~= seq![("url"@, pairs@[0].1@)]); }
            replace_query(YOUTUBE_OEMBED_URL, &pairs)
        },
    }
}

/// The SponsorBlock browser's page of a video.
pub fn sbb_video_link(vid: &str) -> (r: Option<String>)
    ensures
        text_matches(r, url_with_segments(SBB_BASE@, seq!["video"@, vid@])),
{
    let segs = vec![String::from_str("video"), vid.to_owned()];
    proof { assert(segments_view(segs) =~= seq!["video"@, vid@]); }
    join_segments(SBB_BASE, &segs)
}

/// The SponsorBlock browser's page of a user.
pub fn sbb_userid_link(uid: &str) -> (r: Option<String>)
    ensures
        text_matches(r, url_with_segments(SBB_BASE@, seq!["userid"@, uid@])),
{
    let segs = vec![String::from_str("userid"), uid.to_owned()];
    proof { assert(segments_view(segs) =~= seq!["userid"@, uid@]); }
    join_segments(SBB_BASE, &segs)
}

/// The thumbnail generator's endpoint under the base URL `base`: `<base>/api/v1/getThumbnail`.
pub fn thumbgen_api_url(base: &str) -> (r: Option<String>)
    ensures
        text_matches(r, url_with_segments(base@, seq!["api"@, "v1"@, "getThumbnail"@])),
        r is Some <==> (parsed_url(base@) matches Some(v) && !v.cannot_be_a_base),
{
    let segs = vec![String::from_str("api"), String::from_str("v1"), String::from_str("getThumbnail")];
    proof { assert(segments_view(segs) =~= seq!["api"@, "v1"@, "getThumbnail"@]); }
    join_segments(base, &segs)
}

/// The request for one thumbnail: the endpoint `api_url` with `videoID` and `time` appended
/// to its query.
pub fn thumbnail_request_url(api_url: &str, video_id: &str, timestamp: &str) -> (r: Option<String>)
    ensures
        text_matches(r, url_with_query(api_url@, seq![("videoID"@, video_id@), ("time"@, timestamp@)])),
{
    let pairs = vec![
        (String::from_str("videoID"), video_id.to_owned()),
        (String::from_str("time"), timestamp.to_owned()),
    ];
    proof { assert(pairs_view(pairs) =~= seq![("videoID"@, video_id@), ("time"@, timestamp@)]); }
    append_query(api_url, &pairs)
}

/// An endpoint of the DeArrow Browser API, or of its Innertube proxy, under the site's origin.
#[derive(Debug)]
pub enum ApiEndpoint {
    /// A page of the newest titles.
    Titles { offset: usize, count: usize },
    /// A page of the newest thumbnails.
    Thumbnails { offset: usize, count: usize },
    /// A page of the newest casual titles.
    CasualTitles { offset: usize, count: usize },
    TitlesByVideo { video_id: String },
    ThumbnailsByVideo { video_id: String },
    VideoInfo { video_id: String },
    InnertubeVideo { video_id: String },
    InnertubeChannel { channel: String },
    TitlesByChannel { channel: String },
    ThumbnailsByChannel { channel: String },
    CasualTitlesByChannel { channel: String },
    UserByName { username: String },
    UserById { user_id: String },
    TitlesByUser { user_id: String },
    ThumbnailsByUser { user_id: String },
    WarningsReceived { user_id: String },
    WarningsIssued { user_id: String },
    TitleByUuid { uuid: String },
    ThumbnailByUuid { uuid: String },
    BrokenTitles,
    BrokenThumbnails,
    UnverifiedTitles,
    Errors,
}

/// The path segments of an endpoint, appended to the origin.
pub open spec fn endpoint_segments(e: ApiEndpoint) -> Seq<Seq<char>> {
    match e {
        ApiEndpoint::Titles { .. } => seq!["api"@, "titles"@],
        ApiEndpoint::Thumbnails { .. } => seq!["api"@, "thumbnails"@],
        ApiEndpoint::CasualTitles { .. } => seq!["api"@, "casual_titles"@],
        ApiEndpoint::TitlesByVideo { video_id } => seq!["api"@, "titles"@, "video_id"@, video_id@],
        ApiEndpoint::ThumbnailsByVideo { video_id } => seq!["api"@, "thumbnails"@, "video_id"@, video_id@],
        ApiEndpoint::VideoInfo { video_id } => seq!["api"@, "videos"@, video_id@],
        ApiEndpoint::InnertubeVideo { video_id } => seq!["innertube"@, "video"@, video_id@],
        ApiEndpoint::InnertubeChannel { channel } => seq!["innertube"@, "channel"@, channel@],
        ApiEndpoint::TitlesByChannel { channel } => seq!["api"@, "titles"@, "channel"@, channel@],
        ApiEndpoint::ThumbnailsByChannel { channel } => seq!["api"@, "thumbnails"@, "channel"@, channel@],
        ApiEndpoint::CasualTitlesByChannel { channel } => seq!["api"@, "casual_titles"@, "channel"@, channel@],
        ApiEndpoint::UserByName { username } => seq!["api"@, "users"@, "username"@, username@],
        ApiEndpoint::UserById { user_id } => seq!["api"@, "users"@, "user_id"@, user_id@],
        ApiEndpoint::TitlesByUser { user_id } => seq!["api"@, "titles"@, "user_id"@, user_id@],
        ApiEndpoint::ThumbnailsByUser { user_id } => seq!["api"@, "thumbnails"@, "user_id"@, user_id@],
        ApiEndpoint::WarningsReceived { user_id } => seq!["api"@, "warnings"@, "user_id"@, user_id@, "received"@],
        ApiEndpoint::WarningsIssued { user_id } => seq!["api"@, "warnings"@, "user_id"@, user_id@, "issued"@],
        ApiEndpoint::TitleByUuid { uuid } => seq!["api"@, "titles"@, "uuid"@, uuid@],
        ApiEndpoint::ThumbnailByUuid { uuid } => seq!["api"@, "thumbnails"@, "uuid"@, uuid@],
        ApiEndpoint::BrokenTitles => seq!["api"@, "titles"@, "broken"@],
        ApiEndpoint::BrokenThumbnails => seq!["api"@, "thumbnails"@, "broken"@],
        ApiEndpoint::UnverifiedTitles => seq!["api"@, "titles"@, "unverified"@],
        ApiEndpoint::Errors => seq!["api"@, "errors"@],
    }
}

/// What an endpoint lists.
#[derive(Clone, Copy, PartialEq, Eq, Debug, Structural)]
pub enum ListedItems {
    Titles,
    Thumbnails,
    CasualTitles,
    Warnings,
    Users,
    /// Not a list of details: video information, Innertube data, parse errors.
    Other,
}

/// What an endpoint lists, by its name.
pub open spec fn listed_items(e: ApiEndpoint) -> ListedItems {
    match e {
        ApiEndpoint::Titles { .. } | ApiEndpoint::TitlesByVideo { .. } | ApiEndpoint::TitlesByChannel { .. }
        | ApiEndpoint::TitlesByUser { .. } | ApiEndpoint::TitleByUuid { .. } | ApiEndpoint::BrokenTitles
        | ApiEndpoint::UnverifiedTitles => ListedItems::Titles,
        ApiEndpoint::Thumbnails { .. } | ApiEndpoint::ThumbnailsByVideo { .. } | ApiEndpoint::ThumbnailsByChannel { .. }
        | ApiEndpoint::ThumbnailsByUser { .. } | ApiEndpoint::ThumbnailByUuid { .. } | ApiEndpoint::BrokenThumbnails => ListedItems::Thumbnails,
        ApiEndpoint::CasualTitles { .. } | ApiEndpoint::CasualTitlesByChannel { .. } => ListedItems::CasualTitles,
        ApiEndpoint::WarningsReceived { .. } | ApiEndpoint::WarningsIssued { .. } => ListedItems::Warnings,
        ApiEndpoint::UserByName { .. } | ApiEndpoint::UserById { .. } => ListedItems::Users,
        _ => ListedItems::Other,
    }
}

/// The collection segment of the API under which a kind of item is listed.
pub open spec fn items_segment(k: ListedItems) -> Seq<char> {
    match k {
        ListedItems::Titles => "titles"@,
        ListedItems::Thumbnails => "thumbnails"@,
        ListedItems::CasualTitles => "casual_titles"@,
        ListedItems::Warnings => "warnings"@,
        ListedItems::Users => "users"@,
        ListedItems::Other => Seq::empty(),
    }
}

/// The field and value an endpoint selects its items by, if any.
pub open spec fn selected_by(e: ApiEndpoint) -> Option<(Seq<char>, Seq<char>)> {
    match e {
        ApiEndpoint::TitlesByVideo { video_id } | ApiEndpoint::ThumbnailsByVideo { video_id } => Some(("video_id"@, video_id@)),
        ApiEndpoint::TitlesByChannel { channel } | ApiEndpoint::ThumbnailsByChannel { channel }
        | ApiEndpoint::CasualTitlesByChannel { channel } => Some(("channel"@, channel@)),
        ApiEndpoint::TitlesByUser { user_id } | ApiEndpoint::ThumbnailsByUser { user_id } | ApiEndpoint::UserById { user_id }
        | ApiEndpoint::WarningsReceived { user_id } | ApiEndpoint::WarningsIssued { user_id } => Some(("user_id"@, user_id@)),
        ApiEndpoint::UserByName { username } => Some(("username"@, username@)),
        ApiEndpoint::TitleByUuid { uuid } | ApiEndpoint::ThumbnailByUuid { uuid } => Some(("uuid"@, uuid@)),
        _ => None,
    }
}

/// Every endpoint that lists items is under `api`, in the collection of what it lists
/// (`titles` for every titles endpoint, `thumbnails` for every thumbnails endpoint, and so on),
/// followed, when it selects its items by a field, by that field's name and the value, which
/// end the path but for the warnings, whose path ends in `received` or `issued`; and no
/// endpoint that lists something else is under a collection of listed items.
pub proof fn lemma_endpoint_paths(e: ApiEndpoint)
    ensures
        listed_items(e) != ListedItems::Other ==> endpoint_segments(e).len() >= 2
            && endpoint_segments(e)[0] == "api"@ && endpoint_segments(e)[1] == items_segment(listed_items(e)),
        selected_by(e) matches Some(sel) ==> endpoint_segments(e).len() >= 4
            && endpoint_segments(e)[2] == sel.0 && endpoint_segments(e)[3] == sel.1,
        selected_by(e) is Some && listed_items(e) != ListedItems::Warnings ==> endpoint_segments(e).len() == 4,
        e is WarningsReceived ==> endpoint_segments(e).len() == 5 && endpoint_segments(e)[4] == "received"@,
        e is WarningsIssued ==> endpoint_segments(e).len() == 5 && endpoint_segments(e)[4] == "issued"@,
        listed_items(e) == ListedItems::Other ==> !(endpoint_segments(e).len() >= 2 && endpoint_segments(e)[0] == "api"@
            && (endpoint_segments(e)[1] == "titles"@ || endpoint_segments(e)[1] == "thumbnails"@
                || endpoint_segments(e)[1] == "casual_titles"@ || endpoint_segments(e)[1] == "warnings"@
                || endpoint_segments(e)[1] == "users"@)),
{
    reveal_strlit("api");
    reveal_strlit("titles");
    reveal_strlit("thumbnails");
    reveal_strlit("casual_titles");
    reveal_strlit("warnings");
    reveal_strlit("users");
    reveal_strlit("videos");
    reveal_strlit("errors");
    reveal_strlit("innertube");
    assert("videos"@[0] != "titles"@[0] && "videos"@[0] != "thumbnails"@[0] && "videos"@[0] != "casual_titles"@[0]
        && "videos"@[0] != "warnings"@[0] && "videos"@[0] != "users"@[0]);
    assert("errors"@[0] != "titles"@[0] && "errors"@[0] != "thumbnails"@[0] && "errors"@[0] != "casual_titles"@[0]
        && "errors"@[0] != "warnings"@[0] && "errors"@[0] != "users"@[0]);
    assert("innertube"@.len() != "api"@.len());
}

/// The query pairs of an endpoint: the page's `offset` and `count` for the paged lists, none
/// for the others.
pub open spec fn endpoint_query(e: ApiEndpoint) -> Seq<(Seq<char>, Seq<char>)> {
    match e {
        ApiEndpoint::Titles { offset, count }
        | ApiEndpoint::Thumbnails { offset, count }
        | ApiEndpoint::CasualTitles { offset, count } =>
            seq![("offset"@, decimal(offset as nat)), ("count"@, decimal(count as nat))],
        _ => Seq::empty(),
    }
}

/// Owned copies of `parts`, in order.
fn owned_segments(parts: &[&str]) -> (v: Vec<String>)
    ensures
        segments_view(v) == parts@.map_values(|p: &str| p@),
{
    let mut v: Vec<String> = Vec::new();
    let mut i: usize = 0;
    while i < parts.len()
        invariant
            i <= parts@.len(),
            segments_view(v) == parts@.take(i as int).map_values(|p: &str| p@),
        decreases parts@.len() - i,
    {
        let ghost before = v@;
        let part = parts[i].to_owned();
        v.push(part);
        proof {
            assert(parts@.take(i + 1) =~= parts@.take(i as int).push(parts@[i as int]));
            assert(v@ =~= before.push(part));
            assert(segments_view(v) =~= before.map_values(|s: String| s@).push(part@));
            assert(segments_view(v) =~= parts@.take(i + 1).map_values(|p: &str| p@));
        }
        i += 1;
    }
    proof { assert(parts@.take(i as int) =~= parts@); }
    v
}

impl ApiEndpoint {
    /// The path segments of the endpoint.
    pub fn segments(&self) -> (v: Vec<String>)
        ensures
            segments_view(v) == endpoint_segments(*self),
    {
        let v = match self {
            ApiEndpoint::Titles { .. } => owned_segments(&["api", "titles"]),
            ApiEndpoint::Thumbnails { .. } => owned_segments(&["api", "thumbnails"]),
            ApiEndpoint::CasualTitles { .. } => owned_segments(&["api", "casual_titles"]),
            ApiEndpoint::TitlesByVideo { video_id } => owned_segments(&["api", "titles", "video_id", video_id.as_str()]),
            ApiEndpoint::ThumbnailsByVideo { video_id } => owned_segments(&["api", "thumbnails", "video_id", video_id.as_str()]),
            ApiEndpoint::VideoInfo { video_id } => owned_segments(&["api", "videos", video_id.as_str()]),
            ApiEndpoint::InnertubeVideo { video_id } => owned_segments(&["innertube", "video", video_id.as_str()]),
            ApiEndpoint::InnertubeChannel { channel } => owned_segments(&["innertube", "channel", channel.as_str()]),
            ApiEndpoint::TitlesByChannel { channel } => owned_segments(&["api", "titles", "channel", channel.as_str()]),
            ApiEndpoint::ThumbnailsByChannel { channel } => owned_segments(&["api", "thumbnails", "channel", channel.as_str()]),
            ApiEndpoint::CasualTitlesByChannel { channel } => owned_segments(&["api", "casual_titles", "channel", channel.as_str()]),
            ApiEndpoint::UserByName { username } => owned_segments(&["api", "users", "username", username.as_str()]),
            ApiEndpoint::UserById { user_id } => owned_segments(&["api", "users", "user_id", user_id.as_str()]),
            ApiEndpoint::TitlesByUser { user_id } => owned_segments(&["api", "titles", "user_id", user_id.as_str()]),
            ApiEndpoint::ThumbnailsByUser { user_id } => owned_segments(&["api", "thumbnails", "user_id", user_id.as_str()]),
            ApiEndpoint::WarningsReceived { user_id } => owned_segments(&["api", "warnings", "user_id", user_id.as_str(), "received"]),
            ApiEndpoint::WarningsIssued { user_id } => owned_segments(&["api", "warnings", "user_id", user_id.as_str(), "issued"]),
            ApiEndpoint::TitleByUuid { uuid } => owned_segments(&["api", "titles", "uuid", uuid.as_str()]),
            ApiEndpoint::ThumbnailByUuid { uuid } => owned_segments(&["api", "thumbnails", "uuid", uuid.as_str()]),
            ApiEndpoint::BrokenTitles => owned_segments(&["api", "titles", "broken"]),
            ApiEndpoint::BrokenThumbnails => owned_segments(&["api", "thumbnails", "broken"]),
            ApiEndpoint::UnverifiedTitles => owned_segments(&["api", "titles", "unverified"]),
            ApiEndpoint::Errors => owned_segments(&["api", "errors"]),
        };
        proof { assert(segments_view(v) =~= endpoint_segments(*self)); }
        v
    }

    /// The query pairs of the endpoint.
    pub fn query(&self) -> (q: Vec<(String, String)>)
        ensures
            pairs_view(q) == endpoint_query(*self),
    {
        match self {
            ApiEndpoint::Titles { offset, count }
            | ApiEndpoint::Thumbnails { offset, count }
            | ApiEndpoint::CasualTitles { offset, count } => {
                let q = vec![
                    (String::from_str("offset"), decimal_string(*offset as u128)),
                    (String::from_str("count"), decimal_string(*count as u128)),
                ];
                proof { assert(pairs_view(q) =~= endpoint_query(*self)); }
                q
            },
            _ => {
                let q: Vec<(String, String)> = Vec::new();
                proof { assert(pairs_view(q) =~= endpoint_query(*self)); }
                q
            },
        }
    }
}

/// The URL of an endpoint under the site's origin: the endpoint's segments appended to the
/// origin's path, then its query pairs, if it has any, appended to the query.
pub fn endpoint_url(origin: &str, endpoint: &ApiEndpoint) -> (r: Option<String>)
    ensures
        match url_with_segments(origin@, endpoint_segments(*endpoint)) {
            None => r is None,
            Some(joined) => if endpoint_query(*endpoint).len() == 0 {
                r matches Some(x) && x@ == joined
            } else {
                text_matches(r, url_with_query(joined, endpoint_query(*endpoint)))
            },
        },
{
    let segs = endpoint.segments();
    match join_segments(origin, &segs) {
        None => None,
        Some(joined) => {
            let q = endpoint.query();
            if q.len() == 0 {
                Some(joined)
            } else {
                append_query(joined.as_str(), &q)
            }
        },
    }
}

/// The part of YouTube's oEmbed answer that the browser reads.
#[derive(Debug)]
pub struct OEmbedResponse {
    pub title: String,
    pub author_url: String,
}

/// A video's metadata, from YouTube's oEmbed answer about it: its title, and the channel
/// handle read from the channel URL.
pub fn metadata_from_oembed(response: OEmbedResponse) -> (r: Result<VideoMetadata, ChannelUrlError>)
    ensures
        r matches Ok(m) ==> m.title@ == response.title@ && channel_handle_of(response.author_url@) == Some(m.channel@),
        r is Err <==> channel_handle_of(response.author_url@) is None,
{
    let OEmbedResponse { title, author_url } = response;
    match channel_handle(author_url.as_str()) {
        Ok(channel) => Ok(VideoMetadata { title, channel }),
        Err(e) => Err(e),
    }
}

} // verus!
