use std::rc::Rc;

use dearrow_browser::metadata::{FetchState, LocalMetadataCache, MetadataCacheStats, VideoMetadata};
use dearrow_browser::thumbs::{CacheStats, LocalBlobLink, LocalThumbGenerator, LocalThumbnailState, ThumbnailKey};

fn meta(title: &str, channel: &str) -> VideoMetadata {
    VideoMetadata { title: title.to_string(), channel: channel.to_string() }
}

#[test]
fn metadata_fetch_lifecycle() {
    let mut cache: LocalMetadataCache<String> = LocalMetadataCache::new();
    assert!(cache.lookup("vid1").is_none());
    assert!(cache.start_fetch("vid1"));
    assert!(matches!(cache.lookup("vid1"), Some(FetchState::Pending)));
    // a second request for the same video does not start another fetch
    assert!(!cache.start_fetch("vid1"));
    cache.finish_fetch("vid1", Ok(meta("Title", "@chan")));
    match cache.lookup("vid1") {
        Some(FetchState::Ready(m)) => {
            assert_eq!(m.title, "Title");
            assert_eq!(m.channel, "@chan");
        },
        other => panic!("unexpected {other:?}"),
    }
    assert!(!cache.start_fetch("vid1"));
}

#[test]
fn metadata_clearing() {
    let mut cache: LocalMetadataCache<String> = LocalMetadataCache::new();
    cache.start_fetch("a");
    cache.start_fetch("b");
    cache.start_fetch("c");
    cache.finish_fetch("a", Ok(meta("A", "@a")));
    cache.finish_fetch("b", Err("boom".to_string()));
    assert_eq!(cache.get_stats(), MetadataCacheStats { total: 3, pending: 1, cached: 1, failed: 1 });
    assert_eq!(cache.clear_errors(), 1);
    assert!(cache.lookup("b").is_none());
    assert_eq!(cache.get_stats(), MetadataCacheStats { total: 2, pending: 1, cached: 1, failed: 0 });
    assert_eq!(cache.clear_cache(), 1);
    assert!(cache.lookup("a").is_none());
    assert!(matches!(cache.lookup("c"), Some(FetchState::Pending)));
    assert_eq!(cache.get_stats(), MetadataCacheStats { total: 1, pending: 1, cached: 0, failed: 0 });
}

fn key(v: &str, t: &str) -> ThumbnailKey {
    ThumbnailKey { video_id: v.to_string(), timestamp: t.to_string() }
}

#[test]
fn thumbnail_generator_defaults() {
    let g: LocalThumbGenerator<String> = LocalThumbGenerator::new();
    assert_eq!(g.api_base_url(), "https://dearrow-thumb.minibomba.pro/api/v1/getThumbnail");
    assert_eq!(g.get_stats(), CacheStats { total: 0, thumbs: 0, in_use: 0, errors: 0, pending: 0 });
    let link = LocalBlobLink::new("blob:abc".to_string());
    assert_eq!(link.inner_url(), "blob:abc");
}

#[test]
fn unused_thumbnails_are_evicted_after_the_threshold() {
    let mut g: LocalThumbGenerator<String> = LocalThumbGenerator::new();
    let k = key("vid", "1.5");
    assert!(g.get_thumb(&k));
    assert!(!g.get_thumb(&k));
    g.finish_generation(&k, Ok(LocalBlobLink::new("blob:1".to_string())));
    for round in 1..5 {
        assert_eq!(g.sweep(), (1, 0), "round {round}");
        match g.lookup(&k) {
            Some(LocalThumbnailState::Ready { eviction_timer, .. }) => assert_eq!(*eviction_timer, round),
            other => panic!("unexpected {other:?}"),
        }
    }
    assert_eq!(g.sweep(), (1, 1));
    assert!(g.lookup(&k).is_none());
}

#[test]
fn thumbnails_in_use_are_kept() {
    let mut g: LocalThumbGenerator<String> = LocalThumbGenerator::new();
    let k = key("vid", "2");
    g.get_thumb(&k);
    g.finish_generation(&k, Ok(LocalBlobLink::new("blob:2".to_string())));
    let held = match g.lookup(&k) {
        Some(LocalThumbnailState::Ready { thumbnail, .. }) => Rc::clone(thumbnail),
        other => panic!("unexpected {other:?}"),
    };
    for _ in 0..10 {
        assert_eq!(g.sweep(), (0, 0));
    }
    assert_eq!(g.get_stats(), CacheStats { total: 1, thumbs: 1, in_use: 1, errors: 0, pending: 0 });
    drop(held);
    assert_eq!(g.get_stats(), CacheStats { total: 1, thumbs: 1, in_use: 0, errors: 0, pending: 0 });
}

#[test]
fn failed_thumbnails_are_cleared() {
    let mut g: LocalThumbGenerator<String> = LocalThumbGenerator::new();
    let a = key("a", "1");
    let b = key("b", "1");
    g.get_thumb(&a);
    g.get_thumb(&b);
    g.finish_generation(&a, Err("no".to_string()));
    assert_eq!(g.get_stats(), CacheStats { total: 2, thumbs: 0, in_use: 0, errors: 1, pending: 1 });
    assert_eq!(g.clear_errors(), 1);
    assert!(g.lookup(&a).is_none());
    assert!(matches!(g.lookup(&b), Some(LocalThumbnailState::Pending)));
    g.set_api_url("https://example.com/api/v1/getThumbnail".to_string());
    assert_eq!(g.api_base_url(), "https://example.com/api/v1/getThumbnail");
}
