use dearrow_browser::search::{paste_route, search_on_key, search_on_paste, trim, MainRoute, SearchField};

fn route_id(r: &MainRoute) -> (&'static str, String) {
    match r {
        MainRoute::UUID { id } => ("uuid", id.clone()),
        MainRoute::Video { id } => ("video", id.clone()),
        MainRoute::User { id } => ("user", id.clone()),
        MainRoute::Channel { id } => ("channel", id.clone()),
        other => panic!("unexpected {other:?}"),
    }
}

#[test]
fn trim_matches_std() {
    for s in ["", "   ", " a ", "\t\nabc\u{3000}", "a b", "\u{85}x\u{a0}", "\u{200b}x", "ä ", " 🦀 "] {
        assert_eq!(trim(s), s.trim(), "input {s:?}");
    }
    assert_eq!(trim(trim("  x  ")), "x");
}

#[test]
fn enter_searches_typed_values() {
    assert!(search_on_key(SearchField::Uuid, "a", "x").is_none());
    let r = search_on_key(SearchField::Uuid, "Enter", "  https://x.y/abc  ").unwrap();
    assert_eq!(route_id(&r), ("uuid", "https://x.y/abc".to_string()));
    let r = search_on_key(SearchField::VideoId, "Enter", " https://www.youtube.com/watch?v=dQw4w9WgXcQ ").unwrap();
    assert_eq!(route_id(&r), ("video", "dQw4w9WgXcQ".to_string()));
    let r = search_on_key(SearchField::VideoId, "Enter", "dQw4w9WgXcQ").unwrap();
    assert_eq!(route_id(&r), ("video", "dQw4w9WgXcQ".to_string()));
    let r = search_on_key(SearchField::UserId, "Enter", "https://dearrow.minibomba.pro/user_id/abc/").unwrap();
    assert_eq!(route_id(&r), ("user", "abc".to_string()));
    let r = search_on_key(SearchField::Channel, "Enter", "https://www.youtube.com/@chan").unwrap();
    assert_eq!(route_id(&r), ("channel", "@chan".to_string()));
}

#[test]
fn paste_searches_only_well_formed_values() {
    let uuid = "0123abcd-0123-4567-89ab-0123456789ab";
    assert!(search_on_paste(SearchField::Uuid, false, "insertFromPaste", Some(uuid)).is_none());
    assert!(search_on_paste(SearchField::Uuid, true, "insertText", Some(uuid)).is_none());
    assert!(search_on_paste(SearchField::Uuid, true, "insertFromPaste", None).is_none());
    let r = search_on_paste(SearchField::Uuid, true, "insertFromPaste", Some(&format!(" https://dearrow.minibomba.pro/uuid/{uuid} "))).unwrap();
    assert_eq!(route_id(&r), ("uuid", uuid.to_string()));
    assert!(search_on_paste(SearchField::Uuid, true, "insertFromPaste", Some("not-a-uuid")).is_none());
    let sha = "a".repeat(64);
    let r = search_on_paste(SearchField::UserId, true, "insertFromPaste", Some(&sha)).unwrap();
    assert_eq!(route_id(&r), ("user", sha.clone()));
    assert!(search_on_paste(SearchField::UserId, true, "insertFromPaste", Some("abc")).is_none());
    let r = search_on_paste(SearchField::VideoId, true, "insertFromPaste", Some("https://youtu.be/dQw4w9WgXcQ")).unwrap();
    assert_eq!(route_id(&r), ("video", "dQw4w9WgXcQ".to_string()));
    assert!(search_on_paste(SearchField::VideoId, true, "insertFromPaste", Some("short")).is_none());
    let r = search_on_paste(SearchField::Channel, true, "insertFromPaste", Some("@some.channel")).unwrap();
    assert_eq!(route_id(&r), ("channel", "@some.channel".to_string()));
    let r = search_on_paste(SearchField::Channel, true, "insertFromPaste", Some("UC0123456789abcdefghij-_")).unwrap();
    assert_eq!(route_id(&r), ("channel", "UC0123456789abcdefghij-_".to_string()));
    assert!(search_on_paste(SearchField::Channel, true, "insertFromPaste", Some("@ab")).is_none());
}

#[test]
fn paste_route_follows_the_check() {
    assert!(paste_route(SearchField::VideoId, "x".to_string(), false).is_none());
    let r = paste_route(SearchField::UserId, "x".to_string(), true).unwrap();
    assert_eq!(route_id(&r), ("user", "x".to_string()));
}

#[test]
fn window_titles() {
    assert_eq!(MainRoute::Home.title(), "DeArrow Browser");
    assert_eq!(MainRoute::Broken.title(), "Broken entries - DeArrow Browser");
    assert_eq!(MainRoute::Video { id: "abc".to_string() }.title(), "VideoID abc - DeArrow Browser");
    assert_eq!(MainRoute::User { id: "u".to_string() }.title(), "UserID u - Dearrow Browser");
    assert_eq!(MainRoute::UUID { id: "x".to_string() }.title(), "UUID x - Dearrow Browser");
    assert_eq!(MainRoute::NotFound.title(), "Page not found - DeArrow Browser");
}
