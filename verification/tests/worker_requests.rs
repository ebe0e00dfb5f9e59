use std::rc::Rc;

use dearrow_browser::thumbs::{CacheStats, LocalBlobLink, LocalThumbGenerator, LocalThumbnailState, ThumbnailKey};
use dearrow_browser::worker_api::{
    RemoteThumbnailGenerationError, ThumbnailWorkerRequest, ThumbnailWorkerRequestMessage, ThumbnailWorkerResponse,
    ThumbnailWorkerResponseMessage, WorkerSetting, WorkerStats,
};
use dearrow_browser::worker_clients::WorkerClients;
use dearrow_browser::worker_requests::{process_message, respond, thumbnail_reply, WorkerBuild, WorkerStep};

fn build() -> WorkerBuild {
    WorkerBuild { version: "1.2.0".to_string(), git_hash: Some("abc".to_string()), git_dirty: Some(false) }
}

fn key(v: &str, t: &str) -> ThumbnailKey {
    ThumbnailKey { video_id: v.to_string(), timestamp: t.to_string() }
}

#[test]
fn worker_answers_version_and_ping() {
    let mut clients = WorkerClients::new();
    let mut g: LocalThumbGenerator<String> = LocalThumbGenerator::new();
    let i = clients.get_client(7);
    let r = respond(&mut clients, &mut g, &build(), i, ThumbnailWorkerRequest::Version {
        version: "1.2.0".to_string(),
        git_hash: Some("abc".to_string()),
        git_dirty: Some(false),
    });
    assert!(!r.version_mismatch);
    match r.step {
        WorkerStep::Reply(ThumbnailWorkerResponse::Version { version, git_hash, git_dirty }) => {
            assert_eq!(version, "1.2.0");
            assert_eq!(git_hash.as_deref(), Some("abc"));
            assert_eq!(git_dirty, Some(false));
        }
        other => panic!("unexpected {other:?}"),
    }
    let r = respond(&mut clients, &mut g, &build(), i, ThumbnailWorkerRequest::Version {
        version: "1.2.0".to_string(),
        git_hash: None,
        git_dirty: Some(false),
    });
    assert!(r.version_mismatch);
    let r = respond(&mut clients, &mut g, &build(), i, ThumbnailWorkerRequest::Ping);
    assert!(matches!(r.step, WorkerStep::Reply(ThumbnailWorkerResponse::Acknowledged)));
    assert!(!r.version_mismatch);
}

#[test]
fn worker_holds_and_drops_thumbnails() {
    let mut clients = WorkerClients::new();
    let mut g: LocalThumbGenerator<String> = LocalThumbGenerator::new();
    let i = clients.get_client(7);
    let r = respond(&mut clients, &mut g, &build(), i, ThumbnailWorkerRequest::GetThumbnail { key: key("v", "1") });
    match r.step {
        WorkerStep::FetchThumbnail(k) => {
            assert_eq!(k.video_id, "v");
            assert_eq!(k.timestamp, "1");
        }
        other => panic!("unexpected {other:?}"),
    }
    let link = Rc::new(LocalBlobLink::new("blob:x".to_string()));
    let reply = thumbnail_reply(&mut clients, 7, 41, Ok(link));
    let ref_id = match reply {
        Some(ThumbnailWorkerResponseMessage { id: 41, response: ThumbnailWorkerResponse::Thumbnail { thumbnail: Ok(rr) } }) => {
            assert_eq!(rr.url, "blob:x");
            rr.ref_id
        }
        other => panic!("unexpected {other:?}"),
    };
    assert_eq!(clients.client(i).held_refs.len(), 1);
    let r = respond(&mut clients, &mut g, &build(), i, ThumbnailWorkerRequest::GetStats);
    match r.step {
        WorkerStep::Reply(ThumbnailWorkerResponse::Stats { stats }) => {
            assert_eq!(stats.worker_stats, Some(WorkerStats { clients: 1, this_client_refs: 1 }));
            assert_eq!(stats.cache_stats, CacheStats { total: 0, thumbs: 0, in_use: 0, errors: 0, pending: 0 });
        }
        other => panic!("unexpected {other:?}"),
    }
    let r = respond(&mut clients, &mut g, &build(), i, ThumbnailWorkerRequest::BlobLinkDropped { ref_id });
    assert!(matches!(r.step, WorkerStep::Done));
    assert_eq!(clients.client(i).held_refs.len(), 0);
    let failed = thumbnail_reply(&mut clients, 7, 42, Err(RemoteThumbnailGenerationError::ZeroSizeBlob));
    assert!(matches!(failed, Some(ThumbnailWorkerResponseMessage {
        id: 42,
        response: ThumbnailWorkerResponse::Thumbnail { thumbnail: Err(RemoteThumbnailGenerationError::ZeroSizeBlob) }
    })));
    assert!(thumbnail_reply(&mut clients, 8, 43, Ok(Rc::new(LocalBlobLink::new("blob:y".to_string())))).is_none());
    assert_eq!(clients.len(), 1);
}

#[test]
fn worker_disconnects_pages_and_applies_settings() {
    let mut clients = WorkerClients::new();
    let mut g: LocalThumbGenerator<String> = LocalThumbGenerator::new();
    let a = clients.get_client(1);
    let b = clients.get_client(2);
    assert_eq!((a, b), (0, 1));
    let k = key("v", "2");
    g.get_thumb(&k);
    g.finish_generation(&k, Err("no".to_string()));
    let r = respond(&mut clients, &mut g, &build(), a, ThumbnailWorkerRequest::SettingUpdated {
        setting: WorkerSetting::ThumbgenBaseUrl("https://thumbs.example.org".to_string()),
    });
    assert!(matches!(r.step, WorkerStep::Done));
    assert_eq!(g.api_base_url(), "https://thumbs.example.org/api/v1/getThumbnail");
    assert!(g.lookup(&k).is_none());
    let r = respond(&mut clients, &mut g, &build(), a, ThumbnailWorkerRequest::SettingUpdated {
        setting: WorkerSetting::ThumbgenBaseUrl("not a url".to_string()),
    });
    assert!(matches!(r.step, WorkerStep::Done));
    assert_eq!(g.api_base_url(), "https://thumbs.example.org/api/v1/getThumbnail");
    g.get_thumb(&k);
    g.finish_generation(&k, Err("again".to_string()));
    respond(&mut clients, &mut g, &build(), b, ThumbnailWorkerRequest::ClearErrors);
    assert!(g.lookup(&k).is_none());
    g.get_thumb(&k);
    assert!(matches!(g.lookup(&k), Some(LocalThumbnailState::Pending)));
    let r = respond(&mut clients, &mut g, &build(), a, ThumbnailWorkerRequest::Disconnecting);
    assert!(matches!(r.step, WorkerStep::Done));
    assert_eq!(clients.len(), 1);
    assert_eq!(clients.client(0).port, 2);
}

#[test]
fn worker_messages_echo_ids_and_mark_pages_alive() {
    let mut clients = WorkerClients::new();
    let mut g: LocalThumbGenerator<String> = LocalThumbGenerator::new();
    let h = process_message(&mut clients, &mut g, &build(), 5, ThumbnailWorkerRequestMessage { id: 9, request: ThumbnailWorkerRequest::Ping });
    assert!(matches!(h.reply, Some(ThumbnailWorkerResponseMessage { id: 9, response: ThumbnailWorkerResponse::Acknowledged })));
    assert!(h.fetch.is_none());
    assert_eq!(clients.len(), 1);
    assert_eq!(clients.client(0).port, 5);
    assert_eq!(clients.client_sweep(), (0, 0));
    assert!(!clients.client(0).ping_received);
    let h = process_message(&mut clients, &mut g, &build(), 5, ThumbnailWorkerRequestMessage {
        id: 10,
        request: ThumbnailWorkerRequest::GetThumbnail { key: key("v", "3") },
    });
    assert!(h.reply.is_none());
    assert!(matches!(h.fetch, Some(ref k) if k.video_id == "v" && k.timestamp == "3"));
    assert!(clients.client(0).ping_received);
    assert_eq!(clients.client(0).checks_since_last_ping, 0);
    let h = process_message(&mut clients, &mut g, &build(), 5, ThumbnailWorkerRequestMessage { id: 11, request: ThumbnailWorkerRequest::GetStats });
    assert!(matches!(h.reply, Some(ThumbnailWorkerResponseMessage { id: 11, response: ThumbnailWorkerResponse::Stats { .. } })));
    let h = process_message(&mut clients, &mut g, &build(), 5, ThumbnailWorkerRequestMessage { id: 12, request: ThumbnailWorkerRequest::Disconnecting });
    assert!(h.reply.is_none());
    assert_eq!(clients.len(), 0);
}
