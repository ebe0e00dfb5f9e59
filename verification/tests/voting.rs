use dearrow_browser::api::{ApiThumbnail, ApiTitle};
use dearrow_browser::tasks::AsyncTaskResult;
use dearrow_browser::voting::{plan_vote, vote_outcome, VoteRefusal, VoteResponse, VotingDetail, VotingMode};

fn title() -> ApiTitle {
    ApiTitle {
        uuid: "uuid-1".to_string(),
        video_id: "vid".to_string(),
        title: "A title".to_string(),
        user_id: "u".to_string(),
        user_agent: "ua".to_string(),
        time_submitted: 0,
        votes: 0,
        downvotes: 0,
        original: false,
        locked: false,
        shadow_hidden: false,
        unverified: false,
        removed: false,
        casual_mode: false,
        votes_missing: false,
        score: 0,
        username: None,
        vip: false,
    }
}

fn thumb() -> ApiThumbnail {
    ApiThumbnail {
        uuid: "uuid-2".to_string(),
        video_id: "vid2".to_string(),
        user_id: "u".to_string(),
        user_agent: "ua".to_string(),
        time_submitted: 0,
        timestamp_bits: Some(12.5f64.to_bits()),
        votes: 0,
        downvotes: 0,
        original: false,
        locked: false,
        shadow_hidden: false,
        removed: false,
        casual_mode: false,
        votes_missing: false,
        timestamp_missing: false,
        score: 0,
        username: None,
        vip: false,
    }
}

#[test]
fn votes_need_a_user_and_a_base() {
    let up = VotingMode { downvote: false, auto_lock: false };
    assert!(matches!(plan_vote(&VotingDetail::Title(title()), None, "https://sponsor.ajay.app", up, "ua"), Err(VoteRefusal::NoUserId)));
    assert!(matches!(plan_vote(&VotingDetail::Title(title()), Some("me"), "bad", up, "ua"), Err(VoteRefusal::BadBaseUrl(_))));
    assert!(matches!(plan_vote(&VotingDetail::Title(title()), Some("me"), "mailto:a@b", up, "ua"), Err(VoteRefusal::NotABase)));
}

#[test]
fn title_votes() {
    let p = plan_vote(&VotingDetail::Title(title()), Some("me"), "https://sponsor.ajay.app", VotingMode { downvote: true, auto_lock: true }, "DeArrowBrowser/1.0").unwrap();
    assert_eq!(p.url, "https://sponsor.ajay.app/api/branding");
    assert_eq!(p.task_name, "Removing title uuid-1");
    assert_eq!(p.initial_summary, "Sending request...");
    assert_eq!(p.body.video_id, "vid");
    assert_eq!(p.body.user_id, "me");
    assert_eq!(p.body.user_agent, "DeArrowBrowser/1.0");
    assert_eq!(p.body.service, "YouTube");
    assert_eq!(p.body.title.as_ref().unwrap().title, "A title");
    assert!(p.body.thumbnail.is_none());
    assert!(p.body.downvote && p.body.auto_lock);
}

#[test]
fn thumbnail_votes() {
    let p = plan_vote(&VotingDetail::Thumbnail(thumb()), Some("me"), "https://sponsor.ajay.app/", VotingMode { downvote: false, auto_lock: true }, "ua").unwrap();
    assert_eq!(p.task_name, "Locking thumbnail uuid-2");
    let t = p.body.thumbnail.unwrap();
    assert_eq!(t.timestamp_bits.map(f64::from_bits), Some(12.5));
    assert!(!t.original);
    assert!(p.body.title.is_none());
    let p = plan_vote(&VotingDetail::Thumbnail(thumb()), Some("me"), "https://sponsor.ajay.app/", VotingMode { downvote: true, auto_lock: false }, "ua").unwrap();
    assert_eq!(p.task_name, "Downvoting thumbnail uuid-2");
    let p = plan_vote(&VotingDetail::Title(title()), Some("me"), "https://sponsor.ajay.app/", VotingMode { downvote: false, auto_lock: false }, "ua").unwrap();
    assert_eq!(p.task_name, "Upvoting title uuid-1");
}

#[test]
fn vote_outcomes() {
    let o = vote_outcome(&VoteResponse::SendFailed);
    assert_eq!(o.result, AsyncTaskResult::DismissOrRetry { success: false });
    assert_eq!(o.summary, "Failed to send request. Check console for details.");
    let o = vote_outcome(&VoteResponse::Status { code: 200, shown: "200 OK".to_string() });
    assert_eq!(o.result, AsyncTaskResult::AutoDismiss { success: true });
    assert_eq!(o.summary, "Upvoted successfully! (status code 200 OK)");
    let o = vote_outcome(&VoteResponse::Status { code: 403, shown: "403 Forbidden".to_string() });
    assert_eq!(o.result, AsyncTaskResult::DismissOrRetry { success: false });
    assert_eq!(o.summary, "Failed to vote. Check console for details. (status code 403 Forbidden)");
}
