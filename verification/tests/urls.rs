use dearrow_browser::links::{
    endpoint_url, metadata_from_oembed, oembed_url, sbb_userid_link, sbb_video_link, thumbgen_api_url,
    thumbnail_request_url, youtu_be_link, youtube_embed_link, ApiEndpoint, OEmbedResponse,
};
use dearrow_browser::web_url::{channel_handle, last_url_segment, url_decode, url_query_or_last_segment, ChannelUrlError, ReqwestUrlExt, WebUrl};

#[test]
fn video_links() {
    assert_eq!(youtu_be_link("dQw4w9WgXcQ").as_deref(), Some("https://youtu.be/dQw4w9WgXcQ"));
    // the embed base ends in an empty segment, which the url crate keeps
    assert_eq!(youtube_embed_link("abc").as_deref(), Some("https://www.youtube-nocookie.com/embed//abc"));
    assert_eq!(sbb_video_link("abc").as_deref(), Some("https://sb.ltn.fi/video/abc"));
    assert_eq!(sbb_userid_link("u1").as_deref(), Some("https://sb.ltn.fi/userid/u1"));
    // segments are percent-encoded
    assert_eq!(youtu_be_link("a/b c").as_deref(), Some("https://youtu.be/a%2Fb%20c"));
}

#[test]
fn oembed_query() {
    assert_eq!(
        oembed_url("dQw4w9WgXcQ").as_deref(),
        Some("https://www.youtube-nocookie.com/oembed?url=https%3A%2F%2Fyoutu.be%2FdQw4w9WgXcQ")
    );
}

#[test]
fn thumbnail_generator_urls() {
    assert_eq!(
        thumbgen_api_url("https://dearrow-thumb.minibomba.pro/").as_deref(),
        Some("https://dearrow-thumb.minibomba.pro/api/v1/getThumbnail")
    );
    assert_eq!(thumbgen_api_url("not a url"), None);
    assert_eq!(thumbgen_api_url("mailto:someone@example.com"), None);
    assert_eq!(
        thumbnail_request_url("https://t.example/api/v1/getThumbnail", "vid", "12.5").as_deref(),
        Some("https://t.example/api/v1/getThumbnail?videoID=vid&time=12.5")
    );
}

#[test]
fn api_endpoints() {
    let origin = "https://dearrow.minibomba.pro/";
    assert_eq!(
        endpoint_url(origin, &ApiEndpoint::TitlesByVideo { video_id: "abc".to_string() }).as_deref(),
        Some("https://dearrow.minibomba.pro/api/titles/video_id/abc")
    );
    assert_eq!(
        endpoint_url(origin, &ApiEndpoint::Titles { offset: 50, count: 25 }).as_deref(),
        Some("https://dearrow.minibomba.pro/api/titles?offset=50&count=25")
    );
    assert_eq!(
        endpoint_url(origin, &ApiEndpoint::WarningsIssued { user_id: "u".to_string() }).as_deref(),
        Some("https://dearrow.minibomba.pro/api/warnings/user_id/u/issued")
    );
    assert_eq!(endpoint_url(origin, &ApiEndpoint::Errors).as_deref(), Some("https://dearrow.minibomba.pro/api/errors"));
    assert_eq!(
        endpoint_url(origin, &ApiEndpoint::InnertubeChannel { channel: "@c".to_string() }).as_deref(),
        Some("https://dearrow.minibomba.pro/innertube/channel/@c")
    );
    assert_eq!(endpoint_url("data:text/plain,hi", &ApiEndpoint::Errors), None);
}

#[test]
fn segments_and_query_of_endpoints() {
    let e = ApiEndpoint::CasualTitles { offset: 0, count: 10 };
    assert_eq!(e.segments(), vec!["api".to_string(), "casual_titles".to_string()]);
    assert_eq!(e.query(), vec![("offset".to_string(), "0".to_string()), ("count".to_string(), "10".to_string())]);
    assert!(ApiEndpoint::BrokenThumbnails.query().is_empty());
}

#[test]
fn url_segments() {
    assert_eq!(last_url_segment("https://www.youtube.com/@handle/").as_deref(), Some("@handle"));
    assert_eq!(last_url_segment("https://example.com/a/b//"), Some("b".to_string()));
    assert_eq!(last_url_segment("https://example.com/"), None);
    assert_eq!(last_url_segment("plain text"), None);
    assert_eq!(last_url_segment("mailto:x@y"), None);
    assert_eq!(url_query_or_last_segment("https://www.youtube.com/watch?v=dQw4w9WgXcQ&t=1", "v").as_deref(), Some("dQw4w9WgXcQ"));
    assert_eq!(url_query_or_last_segment("https://youtu.be/dQw4w9WgXcQ?t=1", "v").as_deref(), Some("dQw4w9WgXcQ"));
    assert_eq!(url_query_or_last_segment("dQw4w9WgXcQ", "v"), None);
    assert_eq!(url_query_or_last_segment("mailto:x@y?v=abc", "v").as_deref(), Some("abc"));
    assert_eq!(url_query_or_last_segment("mailto:x@y", "v"), None);
    assert_eq!(url_query_or_last_segment("foo://host", "v"), None);
}

#[test]
fn channel_handles() {
    assert_eq!(channel_handle("https://www.youtube.com/@somechannel").unwrap(), "@somechannel");
    assert!(matches!(channel_handle("nope"), Err(ChannelUrlError::Unparsable(_))));
    assert!(matches!(channel_handle("mailto:x@y"), Err(ChannelUrlError::NotABase)));
    assert!(matches!(channel_handle("https://www.youtube.com/"), Err(ChannelUrlError::NoSegments)));
    let m = metadata_from_oembed(OEmbedResponse {
        title: "A video".to_string(),
        author_url: "https://www.youtube.com/@someone".to_string(),
    })
    .unwrap();
    assert_eq!(m.title, "A video");
    assert_eq!(m.channel, "@someone");
    assert!(metadata_from_oembed(OEmbedResponse { title: "t".to_string(), author_url: "x".to_string() }).is_err());
}

#[test]
fn web_url_segments() {
    let base = WebUrl::parse("https://example.com/base").unwrap();
    assert_eq!(base.as_str(), "https://example.com/base");
    let joined = base.join_segments(&vec!["a".to_string(), "b".to_string()]).unwrap();
    assert_eq!(joined.as_str(), "https://example.com/base/a/b");
    assert_eq!(base.as_str(), "https://example.com/base");
    let mut m = WebUrl::parse("https://example.com/").unwrap();
    m.extend_segments(&vec!["x".to_string()]).unwrap();
    assert_eq!(m.as_str(), "https://example.com/x");
    let mut not_base = WebUrl::parse("mailto:a@b").unwrap();
    assert!(not_base.extend_segments(&vec!["x".to_string()]).is_err());
    assert_eq!(not_base.as_str(), "mailto:a@b");
    assert!(WebUrl::parse("::").is_err());
}

#[test]
fn percent_decoding() {
    assert_eq!(url_decode("a%20b%2Fc").unwrap(), "a b/c");
    assert_eq!(url_decode("plain").unwrap(), "plain");
    assert_eq!(url_decode("%C3%A9").unwrap(), "é");
    assert!(url_decode("%FF").is_err());
    assert_eq!(url_decode("100%").unwrap(), "100%");
    assert_eq!(url_decode("%zz%4a%4A").unwrap(), "%zzJJ");
}
