use std::rc::Rc;

use dearrow_browser::thumbs::{CacheStats, LocalBlobLink, ThumbnailKey};
use dearrow_browser::worker_api::{
    RawRemoteRef, RemoteThumbnailGenerationError, ThumbgenStats, ThumbnailWorkerRequest, ThumbnailWorkerRequestMessage,
    ThumbnailWorkerResponse, ThumbnailWorkerResponseMessage, WorkerSetting,
};
use dearrow_browser::worker_client::{
    stats_result, thumbnail_result, undelivered_ref, versions_match, ClientError, Delivery, JsErrorText, WorkerChannel,
};
use dearrow_browser::worker_clients::{WorkerClients, MAX_PING_FAILS};

#[test]
fn error_descriptions() {
    let e = RemoteThumbnailGenerationError::JSError {
        name: Some("TypeError".to_string()),
        message: "bad".to_string(),
        cause: None,
        stack: None,
    };
    assert_eq!(e.describe(), "A JS error has occurred: TypeError: bad");
    let e = RemoteThumbnailGenerationError::JSError { name: None, message: "bad".to_string(), cause: None, stack: None };
    assert_eq!(e.describe(), "A JS error has occurred: bad");
    assert_eq!(RemoteThumbnailGenerationError::ServerError("x".to_string()).describe(), "The server refused to generate the thumbnail: x");
    assert_eq!(RemoteThumbnailGenerationError::UnexpectedStatusCode(502).describe(), "The server had sent an unexpected status code: 502");
    assert_eq!(RemoteThumbnailGenerationError::SilentFailure.describe(), "The server refused to generate the thumbnail, but no reason was given");
    assert_eq!(RemoteThumbnailGenerationError::ZeroSizeBlob.describe(), "The server had sent an empty thumbnail");
    assert_eq!(
        RemoteThumbnailGenerationError::UnexpectedType("text/html".to_string()).describe(),
        "The server sent a file of an unexpected type: text/html (expected 'image/*')"
    );
}

#[test]
fn version_handshake() {
    assert!(versions_match("1.0", Some("abc"), Some(false), &"1.0".to_string(), &Some("abc".to_string()), Some(false)));
    assert!(!versions_match("1.0", Some("abc"), Some(false), &"1.1".to_string(), &Some("abc".to_string()), Some(false)));
    assert!(!versions_match("1.0", Some("abc"), None, &"1.0".to_string(), &None, None));
    assert!(versions_match("1.0", None, None, &"1.0".to_string(), &None, None));
    assert!(!versions_match("1.0", None, Some(true), &"1.0".to_string(), &None, Some(false)));
}

fn response(id: u16, response: ThumbnailWorkerResponse) -> ThumbnailWorkerResponseMessage {
    ThumbnailWorkerResponseMessage { id, response }
}

#[test]
fn answers_reach_their_requests_once() {
    let mut c: WorkerChannel<&str> = WorkerChannel::new();
    let posted = c.post_request_id();
    let a = c.request_id("waiter a");
    let b = c.request_id("waiter b");
    assert!(posted != a && a != b && posted != b);
    match c.handle_response(response(b, ThumbnailWorkerResponse::Acknowledged), None) {
        Delivery::Deliver { waiter, response: ThumbnailWorkerResponse::Acknowledged } => assert_eq!(waiter, "waiter b"),
        other => panic!("unexpected {other:?}"),
    }
    assert!(matches!(c.handle_response(response(b, ThumbnailWorkerResponse::Acknowledged), None), Delivery::Ignore));
    let thumb = ThumbnailWorkerResponse::Thumbnail { thumbnail: Ok(RawRemoteRef { url: "blob:x".to_string(), ref_id: 77 }) };
    assert!(matches!(c.handle_response(response(b, thumb), None), Delivery::DropRef { ref_id: 77 }));
    assert!(!c.is_protocol_mismatched());
    let err = ThumbnailWorkerResponse::DeserializationError { received_data: vec![1, 2, 3] };
    match c.handle_response(response(0, err), Some(a)) {
        Delivery::Refuse { waiter } => assert_eq!(waiter, "waiter a"),
        other => panic!("unexpected {other:?}"),
    }
    assert!(c.is_protocol_mismatched());
}

#[test]
fn unreadable_messages_mark_a_mismatch() {
    let mut c: WorkerChannel<u8> = WorkerChannel::new();
    c.unreadable_message();
    assert!(c.is_protocol_mismatched());
    let thumb = ThumbnailWorkerResponse::Thumbnail { thumbnail: Err(RemoteThumbnailGenerationError::ZeroSizeBlob) };
    assert_eq!(undelivered_ref(&thumb), None);
}

#[test]
fn silent_pages_are_dropped_after_three_checks() {
    let mut w = WorkerClients::new();
    assert!(w.register_client(10));
    assert!(w.register_client(20));
    assert!(!w.register_client(10));
    assert_eq!(w.len(), 2);
    // both just connected
    assert_eq!(w.client_sweep(), (0, 0));
    for round in 1..MAX_PING_FAILS {
        let i = w.get_client(20);
        assert_eq!(w.client(i).checks_since_last_ping, 0);
        assert_eq!(w.client_sweep(), (1, 0), "round {round}");
    }
    w.get_client(20);
    assert_eq!(w.client_sweep(), (1, 1));
    assert_eq!(w.len(), 1);
    assert!(w.find(10).is_none());
    assert!(w.find(20).is_some());
}

#[test]
fn pages_hold_references() {
    let mut w = WorkerClients::new();
    let i = w.get_client(5);
    assert_eq!(w.len(), 1);
    let stats = w.stats_for(i);
    assert_eq!((stats.clients, stats.this_client_refs), (1, 0));
    let a = w.store_ref_for(i, Rc::new(LocalBlobLink::new("blob:a".to_string())));
    let b = w.store_ref_for(i, Rc::new(LocalBlobLink::new("blob:b".to_string())));
    assert_ne!(a, b);
    assert_eq!(w.stats_for(i).this_client_refs, 2);
    assert!(w.drop_ref_for(i, a));
    assert!(!w.drop_ref_for(i, a));
    assert_eq!(w.stats_for(i).this_client_refs, 1);
    assert!(w.disconnect(5));
    assert!(!w.disconnect(5));
    assert_eq!(w.len(), 0);
}

#[test]
fn message_shapes() {
    let req = ThumbnailWorkerRequestMessage {
        id: 3,
        request: ThumbnailWorkerRequest::GetThumbnail { key: ThumbnailKey { video_id: "v".to_string(), timestamp: "1".to_string() } },
    };
    assert_eq!(req.id, 3);
    let _ = ThumbnailWorkerRequest::SettingUpdated { setting: WorkerSetting::ThumbgenBaseUrl("https://x/".to_string()) };
    let stats = ThumbgenStats { cache_stats: CacheStats { total: 0, thumbs: 0, in_use: 0, errors: 0, pending: 0 }, worker_stats: None };
    let _ = ThumbnailWorkerResponse::Stats { stats };
}

#[test]
fn client_errors_and_answers() {
    assert_eq!(ClientError::ProtocolError.describe(), "Window-worker protocol mismatch");
    assert_eq!(ClientError::ConfigDisabled.describe(), "SW impl disabled in settings");
    assert_eq!(ClientError::WorkerInitializationTimeout.describe(), "Timed out waiting for the worker to initialize");
    assert_eq!(ClientError::BincodeD("Eof".to_string()).describe(), "Message deserialization failed: Eof");
    assert_eq!(
        ClientError::Remote(RemoteThumbnailGenerationError::ZeroSizeBlob).describe(),
        "Thumbnail generation failed: The server had sent an empty thumbnail"
    );
    assert_eq!(
        ClientError::JS(JsErrorText::ErrorObject { name: "TypeError".to_string(), message: "x".to_string() }).describe(),
        "JS error: TypeError: x"
    );
    assert_eq!(ClientError::JS(JsErrorText::Pseudo("[object]".to_string())).describe(), "JS pseudo-error: [object]");
    let ok = thumbnail_result(ThumbnailWorkerResponse::Thumbnail { thumbnail: Ok(RawRemoteRef { url: "blob:a".to_string(), ref_id: 3 }) });
    assert!(matches!(ok, Ok(RawRemoteRef { ref_id: 3, .. })));
    let failed = thumbnail_result(ThumbnailWorkerResponse::Thumbnail { thumbnail: Err(RemoteThumbnailGenerationError::SilentFailure) });
    assert!(matches!(failed, Err(ClientError::Remote(RemoteThumbnailGenerationError::SilentFailure))));
    assert!(matches!(thumbnail_result(ThumbnailWorkerResponse::Acknowledged), Err(ClientError::ProtocolError)));
    assert!(matches!(stats_result(ThumbnailWorkerResponse::Acknowledged), Err(ClientError::ProtocolError)));
    let stats = ThumbgenStats { cache_stats: CacheStats { total: 1, thumbs: 1, in_use: 0, errors: 0, pending: 0 }, worker_stats: None };
    assert!(matches!(stats_result(ThumbnailWorkerResponse::Stats { stats }), Ok(s) if s == stats));
}
