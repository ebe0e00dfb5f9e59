use dearrow_browser::api::StatusResponse;
use dearrow_browser::metadata_view::SimpleLoadState;
use dearrow_browser::status_view::{
    cached_thumbs_text, client_commit_cell, count_rows, render_millis, footer_time, number_cell, render_millis_or_raw, render_seconds, server_version_text, ClientStatus,
    NumberCell, ThumbgenSource, WorkerState, WorkerStatus,
};
use dearrow_browser::thumbs::CacheStats;
use dearrow_browser::worker_api::{ThumbgenStats, WorkerStats};

#[test]
fn times_are_rendered_in_utc() {
    assert_eq!(render_seconds(0).as_deref(), Some("1970-01-01 00:00:00"));
    assert_eq!(render_seconds(1_700_000_000).as_deref(), Some("2023-11-14 22:13:20"));
    assert_eq!(render_seconds(i64::MAX), None);
    assert_eq!(render_millis_or_raw(1_700_000_000_999), "2023-11-14 22:13:20");
    assert_eq!(render_millis_or_raw(i64::MIN), i64::MIN.to_string());
    assert_eq!(render_millis(1_700_000_000_999).as_deref(), Some("2023-11-14 22:13:20"));
    assert_eq!(render_millis(i64::MIN), None);
}

#[test]
fn count_cells() {
    assert!(matches!(number_cell(999), NumberCell::Plain(ref s) if s == "999"));
    match number_cell(21370) {
        NumberCell::Switch { short, full } => {
            assert_eq!(short, "21K");
            assert_eq!(full, "21 370");
        },
        other => panic!("unexpected {other:?}"),
    }
}

#[test]
fn count_rows_follow_the_status() {
    let mut s = StatusResponse::default();
    assert!(count_rows(&s).is_empty());
    s.titles = Some(12);
    s.warnings = Some(1500);
    let rows = count_rows(&s);
    assert_eq!(rows.len(), 2);
    assert_eq!(rows[0].label, "Title count");
    assert!(matches!(rows[0].cell, NumberCell::Plain(ref p) if p == "12"));
    assert_eq!(rows[1].label, "Warnings");
    assert!(matches!(rows[1].cell, NumberCell::Switch { .. }));
    assert!(!rows[1].links_to_errors);
    s.cached_channels = Some(12);
    let rows = count_rows(&s);
    assert_eq!(rows.len(), 2);
    s.fscached_channels = Some(340);
    s.errors = Some(7);
    let rows = count_rows(&s);
    assert_eq!(rows.len(), 4);
    assert_eq!(rows[2].label, "Cached channels");
    assert!(matches!(rows[2].cell, NumberCell::Plain(ref p) if p == "12 / 340"));
    assert!(!rows[2].links_to_errors);
    assert_eq!(rows[3].label, "Parse errors");
    assert!(matches!(rows[3].cell, NumberCell::Plain(ref p) if p == "7"));
    assert!(rows[3].links_to_errors);
    s.fscached_channels = Some(21370);
    let rows = count_rows(&s);
    match &rows[2].cell {
        NumberCell::Switch { short, full } => {
            assert_eq!(short, "12 / 21K");
            assert_eq!(full, "12 / 21 370");
        },
        other => panic!("unexpected {other:?}"),
    }
}

#[test]
fn server_version_line() {
    let mut s = StatusResponse::default();
    assert_eq!(server_version_text(&s), None);
    s.server_version = Some("1.2.3".to_string());
    assert_eq!(server_version_text(&s).as_deref(), Some("1.2.3"));
    s.server_git_hash = Some("0123456789abcdef".to_string());
    assert_eq!(server_version_text(&s).as_deref(), Some("1.2.3 / 01234567"));
    s.server_git_dirty = Some(true);
    assert_eq!(server_version_text(&s).as_deref(), Some("1.2.3 / 01234567 + changes"));
    s.server_version = None;
    assert_eq!(server_version_text(&s).as_deref(), Some("0123456789abcdef + changes"));
    s.server_git_dirty = Some(false);
    assert_eq!(server_version_text(&s).as_deref(), Some("0123456789abcdef"));
    s.server_version = Some("2".to_string());
    s.server_git_hash = Some("ééééx".to_string());
    assert_eq!(server_version_text(&s).as_deref(), Some("2 / éééé"));
}

#[test]
fn cached_thumbs_cell() {
    let stats = CacheStats { total: 9, thumbs: 5, in_use: 2, errors: 1, pending: 3 };
    assert_eq!(cached_thumbs_text(&stats), "5 (2 in use)");
}

#[test]
fn client_status_follows_refreshes() {
    let mut c = ClientStatus::new();
    assert_eq!(c.worker_label(), "Initializing");
    let p = c.refresh(&WorkerState::Ready, ThumbgenSource::Remote);
    assert_eq!(p.version, 1);
    assert!(p.fetch_worker_stats && p.fetch_thumbgen_stats && p.changed);
    assert_eq!(c.worker_label(), "Ready");
    // a stale answer is dropped
    assert!(!c.worker_stats_arrived(0, Some(WorkerStats { clients: 1, this_client_refs: 0 })));
    assert!(c.worker_stats_arrived(1, Some(WorkerStats { clients: 2, this_client_refs: 3 })));
    let stats = ThumbgenStats { cache_stats: CacheStats { total: 1, thumbs: 1, in_use: 0, errors: 0, pending: 0 }, worker_stats: None };
    assert!(c.thumbgen_stats_arrived(1, Some(stats)));
    let p = c.refresh(&WorkerState::Ready, ThumbgenSource::Local(stats));
    assert_eq!(p.version, 2);
    assert!(!c.thumbgen_stats_arrived(1, None));
    let p = c.refresh(&WorkerState::Failed("boom".to_string()), ThumbgenSource::Unknown);
    assert!(p.changed && !p.fetch_worker_stats && !p.fetch_thumbgen_stats);
    assert_eq!(c.worker_label(), "Disabled");
    assert!(!c.worker_stats_arrived(p.version, None));
    let p = c.refresh(&WorkerState::Failed("boom".to_string()), ThumbgenSource::Unknown);
    assert!(!p.changed);
    let _ = (WorkerStatus::Initializing, SimpleLoadState::<u8>::Loading);
}

#[test]
fn footer_times() {
    let t = 1_700_000_000_000i64;
    assert_eq!(footer_time(None, t), "...");
    let ns = t * 1_000_000;
    assert_eq!(footer_time(Some(t), ns + 125_000_000_000), "2023-11-14 22:13:20 UTC (2 minutes ago)");
    assert_eq!(footer_time(Some(t), ns - 90_000_000_000), "2023-11-14 22:13:20 UTC (-1 minutes ago)");
    assert_eq!(footer_time(Some(t), ns - 59_999_500_000), "2023-11-14 22:13:20 UTC (0 minutes ago)");
    assert_eq!(footer_time(Some(i64::MAX), 0), "...");
}

#[test]
fn client_commit_row() {
    assert!(client_commit_cell(None, Some(true)).is_none());
    let c = client_commit_cell(Some("0123456789abcdef"), Some(true)).unwrap();
    assert_eq!(c.short_hash, "01234567");
    assert!(c.uncommitted);
    let c = client_commit_cell(Some("0123456789abcdef"), None).unwrap();
    assert!(!c.uncommitted);
    let c = client_commit_cell(Some("0123456789abcdef"), Some(false)).unwrap();
    assert!(!c.uncommitted);
}
