//! Voting on a title or thumbnail: the request that a vote sends, the name of its task, and
//! what its answer makes of the task.

use url::ParseError;
use vstd::prelude::*;
use vstd::string::StringExecFns;

use crate::api::{ApiThumbnail, ApiTitle};
use crate::tasks::AsyncTaskResult;
use crate::web_url::{join_segments, parse_url, parsed_url, segments_view, url_with_segments};

verus! {

/// The kind of vote: an upvote or a downvote, and whether it locks (or, for a downvote,
/// removes) the submission.
#[derive(Clone, Copy, PartialEq, Eq, Debug, Structural)]
pub struct VotingMode {
    pub downvote: bool,
    pub auto_lock: bool,
}

/// What is voted on.
#[derive(Debug)]
pub enum VotingDetail {
    Thumbnail(ApiThumbnail),
    Title(ApiTitle),
}

/// The title voted for.
#[derive(Debug)]
pub struct SBServerTitle {
    pub title: String,
}

/// The thumbnail voted for: its timestamp, as the bit pattern of the floating-point seconds
/// (`None` for the original thumbnail), and whether it is the original.
#[derive(Debug)]
pub struct SBServerThumbnail {
    pub timestamp_bits: Option<u64>,
    pub original: bool,
}

/// The body of a vote sent to the SponsorBlock server.
#[derive(Debug)]
pub struct PostBrandingBody {
    pub video_id: String,
    pub user_id: String,
    pub user_agent: String,
    pub service: &'static str,
    pub title: Option<SBServerTitle>,
    pub thumbnail: Option<SBServerThumbnail>,
    pub downvote: bool,
    pub auto_lock: bool,
}

/// The verb that names a vote of a mode.
pub open spec fn vote_verb(mode: VotingMode) -> Seq<char> {
    if !mode.downvote && !mode.auto_lock {
        "Upvoting "@
    } else if mode.downvote && !mode.auto_lock {
        "Downvoting "@
    } else if !mode.downvote && mode.auto_lock {
        "Locking "@
    } else {
        "Removing "@
    }
}

/// The name of the task of a vote: the verb, what is voted on and its UUID.
pub open spec fn vote_task_name(mode: VotingMode, detail: VotingDetail) -> Seq<char> {
    match detail {
        VotingDetail::Title(t) => vote_verb(mode) + "title "@ + t.uuid@,
        VotingDetail::Thumbnail(t) => vote_verb(mode) + "thumbnail "@ + t.uuid@,
    }
}

/// The body a vote sends: the video, the voter, the user agent, the service `YouTube`, the
/// title or thumbnail voted on, and the mode.
pub open spec fn vote_body_ok(b: PostBrandingBody, mode: VotingMode, detail: VotingDetail, user_id: Seq<char>, user_agent: Seq<char>) -> bool {
    &&& b.user_id@ == user_id
    &&& b.user_agent@ == user_agent
    &&& b.service@ == "YouTube"@
    &&& b.downvote == mode.downvote
    &&& b.auto_lock == mode.auto_lock
    &&& match detail {
        VotingDetail::Title(t) => {
            &&& b.video_id@ == t.video_id@
            &&& b.title matches Some(st) && st.title@ == t.title@
            &&& b.thumbnail is None
        },
        VotingDetail::Thumbnail(t) => {
            &&& b.video_id@ == t.video_id@
            &&& b.title is None
            &&& b.thumbnail matches Some(st) && st.timestamp_bits == t.timestamp_bits && st.original == t.original
        },
    }
}

/// A vote ready to be sent.
#[derive(Debug)]
pub struct VotePlan {
    pub url: String,
    pub body: PostBrandingBody,
    pub task_name: String,
    /// The summary the vote's task shows until the server answers.
    pub initial_summary: String,
}

/// Why no vote was sent.
#[derive(Debug)]
pub enum VoteRefusal {
    /// No private user ID is set.
    NoUserId,
    /// The SponsorBlock server's base URL did not parse.
    BadBaseUrl(ParseError),
    /// The SponsorBlock server's base URL cannot be a base.
    NotABase,
}

fn verb(mode: VotingMode) -> (s: &'static str)
    ensures
        s@ == vote_verb(mode),
{
    if !mode.downvote && !mode.auto_lock {
        "Upvoting "
    } else if mode.downvote && !mode.auto_lock {
        "Downvoting "
    } else if !mode.downvote && mode.auto_lock {
        "Locking "
    } else {
        "Removing "
    }
}

/// Prepares a vote: with no private user ID nothing is sent; the vote goes to the branding
/// endpoint (`api/branding`) under the SponsorBlock server's base URL, which must parse and be
/// able to be a base. Its task shows "Sending request..." until the server answers; a vote
/// that fails may be retried with the same URL and body.
pub fn plan_vote(detail: &VotingDetail, user_id: Option<&str>, sbs_base: &str, mode: VotingMode, user_agent: &str) -> (r: Result<VotePlan, VoteRefusal>)
    ensures
        user_id is None ==> r matches Err(VoteRefusal::NoUserId),
        user_id matches Some(uid) ==> match parsed_url(sbs_base@) {
            None => r matches Err(VoteRefusal::BadBaseUrl(_)),
            Some(v) => if v.cannot_be_a_base {
                r matches Err(VoteRefusal::NotABase)
            } else {
                r matches Ok(p)
                    && Some(p.url@) == url_with_segments(sbs_base@, seq!["api"@, "branding"@])
                    && vote_body_ok(p.body, mode, *detail, uid@, user_agent@)
                    && p.task_name@ == vote_task_name(mode, *detail)
                    && p.initial_summary@ == "Sending request..."@
            },
        },
{
    let uid = match user_id {
        None => { return Err(VoteRefusal::NoUserId); },
        Some(u) => u,
    };
    match parse_url(sbs_base) {
        Err(e) => { return Err(VoteRefusal::BadBaseUrl(e)); },
        Ok(_) => {},
    }
    let segs = vec![String::from_str("api"), String::from_str("branding")];
    proof { assert(segments_view(segs) =~= seq!["api"@, "branding"@]); }
    let url = match join_segments(sbs_base, &segs) {
        None => { return Err(VoteRefusal::NotABase); },
        Some(u) => u,
    };
    let mut task_name = String::from_str(verb(mode));
    let body = match detail {
        VotingDetail::Title(t) => {
            task_name.append("title ");
            task_name.append(t.uuid.as_str());
            PostBrandingBody {
                video_id: t.video_id.clone(),
                user_id: uid.to_owned(),
                user_agent: user_agent.to_owned(),
                service: "YouTube",
                title: Some(SBServerTitle { title: t.title.clone() }),
                thumbnail: None,
                downvote: mode.downvote,
                auto_lock: mode.auto_lock,
            }
        },
        VotingDetail::Thumbnail(t) => {
            task_name.append("thumbnail ");
            task_name.append(t.uuid.as_str());
            PostBrandingBody {
                video_id: t.video_id.clone(),
                user_id: uid.to_owned(),
                user_agent: user_agent.to_owned(),
                service: "YouTube",
                title: None,
                thumbnail: Some(SBServerThumbnail { timestamp_bits: t.timestamp_bits, original: t.original }),
                downvote: mode.downvote,
                auto_lock: mode.auto_lock,
            }
        },
    };
    Ok(VotePlan { url, body, task_name, initial_summary: String::from_str("Sending request...") })
}

/// How the vote request went: it could not be sent, or the server answered with a status,
/// given as its code and as shown (such as `200 OK`).
#[derive(Debug)]
pub enum VoteResponse {
    SendFailed,
    Status { code: u16, shown: String },
}

/// What a vote's answer makes of its task: how it finishes, and the summary shown.
#[derive(Debug)]
pub struct VoteOutcome {
    pub result: AsyncTaskResult,
    pub summary: String,
}

/// What a vote's answer makes of its task: a vote that could not be sent, or that the server
/// refused (any status outside 200 to 299), fails and may be retried; an accepted one succeeds
/// and is dismissed by itself.
pub fn vote_outcome(response: &VoteResponse) -> (o: VoteOutcome)
    ensures
        match *response {
            VoteResponse::SendFailed => o.result == (AsyncTaskResult::DismissOrRetry { success: false })
                && o.summary@ == "Failed to send request. Check console for details."@,
            VoteResponse::Status { code, shown } => if 200 <= code <= 299 {
                o.result == (AsyncTaskResult::AutoDismiss { success: true })
                    && o.summary@ == "Upvoted successfully! (status code "@ + shown@ + ")"@
            } else {
                o.result == (AsyncTaskResult::DismissOrRetry { success: false })
                    && o.summary@ == "Failed to vote. Check console for details. (status code "@ + shown@ + ")"@
            },
        },
{
    match response {
        VoteResponse::SendFailed => VoteOutcome {
            result: AsyncTaskResult::DismissOrRetry { success: false },
            summary: String::from_str("Failed to send request. Check console for details."),
        },
        VoteResponse::Status { code, shown } => {
            if 200 <= *code && *code <= 299 {
                let mut summary = String::from_str("Upvoted successfully! (status code ");
                summary.append(shown.as_str());
                summary.append(")");
                VoteOutcome { result: AsyncTaskResult::AutoDismiss { success: true }, summary }
            } else {
                let mut summary = String::from_str("Failed to vote. Check console for details. (status code ");
                summary.append(shown.as_str());
                summary.append(")");
                VoteOutcome { result: AsyncTaskResult::DismissOrRetry { success: false }, summary }
            }
        },
    }
}

} // verus!
