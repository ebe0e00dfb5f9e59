//! The status flags shown next to a title or thumbnail's score.

use vstd::prelude::*;

use crate::api::{ApiThumbnail, ApiTitle};

verus! {

/// The icons of the interface.
#[derive(Clone, Copy, PartialEq, Eq, Debug, Structural)]
pub enum IconType {
    DABLogo,
    Downvote,
    Locked,
    Original,
    PartiallyHidden,
    Removed,
    Replaced,
    Settings,
    ShadowHidden,
    TimestampMissing,
    Unverified,
    Upvote,
    VIP,
    VotesMissing,
    UpvoteAndLock,
    DownvoteAndRemove,
    Wait,
    Done,
    Close,
    Casual,
    Warning,
    WarningInactive,
    NullTitle,
}

/// Whether a detail is a title or a thumbnail.
#[derive(Clone, Copy, PartialEq, Eq, Debug, Structural)]
pub enum DetailType {
    Title,
    Thumbnail,
}

/// A status flag of a title or thumbnail.
#[derive(Clone, Copy, PartialEq, Eq, Debug, Structural)]
pub enum DetailFlag {
    VotesMissing,
    TimestampMissing,
    Removed,
    ShadowHidden,
    RemovedByDownvotes,
    Replaced,
    PartiallyHidden,
    InsufficientOriginalScore,
    Unverified,
    Locked,
    Vip,
    Casual,
}

/// The icon that shows a flag.
pub open spec fn flag_icon(f: DetailFlag) -> IconType {
    match f {
        DetailFlag::VotesMissing => IconType::VotesMissing,
        DetailFlag::TimestampMissing => IconType::TimestampMissing,
        DetailFlag::Removed => IconType::Removed,
        DetailFlag::ShadowHidden => IconType::ShadowHidden,
        DetailFlag::RemovedByDownvotes => IconType::Downvote,
        DetailFlag::Replaced => IconType::Replaced,
        DetailFlag::PartiallyHidden => IconType::PartiallyHidden,
        DetailFlag::InsufficientOriginalScore => IconType::Downvote,
        DetailFlag::Unverified => IconType::Unverified,
        DetailFlag::Locked => IconType::Locked,
        DetailFlag::Vip => IconType::VIP,
        DetailFlag::Casual => IconType::Casual,
    }
}

impl DetailFlag {
    /// The icon that shows this flag.
    pub fn icon(&self) -> (i: IconType)
        ensures
            i == flag_icon(*self),
    {
        match self {
            DetailFlag::VotesMissing => IconType::VotesMissing,
            DetailFlag::TimestampMissing => IconType::TimestampMissing,
            DetailFlag::Removed => IconType::Removed,
            DetailFlag::ShadowHidden => IconType::ShadowHidden,
            DetailFlag::RemovedByDownvotes => IconType::Downvote,
            DetailFlag::Replaced => IconType::Replaced,
            DetailFlag::PartiallyHidden => IconType::PartiallyHidden,
            DetailFlag::InsufficientOriginalScore => IconType::Downvote,
            DetailFlag::Unverified => IconType::Unverified,
            DetailFlag::Locked => IconType::Locked,
            DetailFlag::Vip => IconType::VIP,
            DetailFlag::Casual => IconType::Casual,
        }
    }

    /// The tooltip of this flag on a detail of the given type.
    pub fn tooltip(&self, detail: DetailType) -> (t: &'static str)
        ensures
            t@ == flag_tooltip(*self, detail),
    {
        let title = match detail {
            DetailType::Title => true,
            DetailType::Thumbnail => false,
        };
        match self {
            DetailFlag::VotesMissing => if title {
                "Vote data is missing for this title - this title is hidden from the extension, attempting to vote on this title may cause server errors. DAB assumes the value of 0 or false for the missing fields."
            } else {
                "Vote data is missing for this thumbnail - this thumbnail is hidden from the extension, attempting to vote on this thumbnail may cause server errors. DAB assumes the value of 0 or false for the missing fields."
            },
            DetailFlag::TimestampMissing => "This thumbnail is missing a timestamp despite being a custom thumbnail - this thumbnail will appear glitched in the voting menu of the extension.",
            DetailFlag::Removed => if title { "This title was removed by a VIP" } else { "This thumbnail was removed by a VIP" },
            DetailFlag::ShadowHidden => if title { "This title is shadowhidden" } else { "This thumbnail is shadowhidden" },
            DetailFlag::RemovedByDownvotes => if title { "This title was removed by the downvotes" } else { "This thumbnail was removed by the downvotes" },
            DetailFlag::Replaced => "This title was replaced by the submitter",
            DetailFlag::PartiallyHidden => if title {
                "This title should only appear in submission menus (score below 0)"
            } else {
                "This thumbnail should only appear in submission menus (score below 0)"
            },
            DetailFlag::InsufficientOriginalScore => "This original thumbnail has insufficient score to be shown (requires >= 1 or lock)",
            DetailFlag::Unverified => "This title was submitted by an unverified user (-1 score)",
            DetailFlag::Locked => if title { "This title was locked by a VIP" } else { "This thumbnail was locked by a VIP" },
            DetailFlag::Vip => if title { "This title was submitted by a VIP" } else { "This thumbnail was submitted by a VIP" },
            DetailFlag::Casual => if title {
                "This title was submitted by a casual mode user"
            } else {
                "This thumbnail was submitted by a casual mode user"
            },
        }
    }
}

/// The tooltip text of a flag.
pub open spec fn flag_tooltip(f: DetailFlag, detail: DetailType) -> Seq<char> {
    let title = detail == DetailType::Title;
    match f {
        DetailFlag::VotesMissing => if title {
            "Vote data is missing for this title - this title is hidden from the extension, attempting to vote on this title may cause server errors. DAB assumes the value of 0 or false for the missing fields."@
        } else {
            "Vote data is missing for this thumbnail - this thumbnail is hidden from the extension, attempting to vote on this thumbnail may cause server errors. DAB assumes the value of 0 or false for the missing fields."@
        },
        DetailFlag::TimestampMissing => "This thumbnail is missing a timestamp despite being a custom thumbnail - this thumbnail will appear glitched in the voting menu of the extension."@,
        DetailFlag::Removed => if title { "This title was removed by a VIP"@ } else { "This thumbnail was removed by a VIP"@ },
        DetailFlag::ShadowHidden => if title { "This title is shadowhidden"@ } else { "This thumbnail is shadowhidden"@ },
        DetailFlag::RemovedByDownvotes => if title { "This title was removed by the downvotes"@ } else { "This thumbnail was removed by the downvotes"@ },
        DetailFlag::Replaced => "This title was replaced by the submitter"@,
        DetailFlag::PartiallyHidden => if title {
            "This title should only appear in submission menus (score below 0)"@
        } else {
            "This thumbnail should only appear in submission menus (score below 0)"@
        },
        DetailFlag::InsufficientOriginalScore => "This original thumbnail has insufficient score to be shown (requires >= 1 or lock)"@,
        DetailFlag::Unverified => "This title was submitted by an unverified user (-1 score)"@,
        DetailFlag::Locked => if title { "This title was locked by a VIP"@ } else { "This thumbnail was locked by a VIP"@ },
        DetailFlag::Vip => if title { "This title was submitted by a VIP"@ } else { "This thumbnail was submitted by a VIP"@ },
        DetailFlag::Casual => if title {
            "This title was submitted by a casual mode user"@
        } else {
            "This thumbnail was submitted by a casual mode user"@
        },
    }
}

/// `seq![f]` when `b` holds, else nothing.
pub open spec fn flag_if(b: bool, f: DetailFlag) -> Seq<DetailFlag> {
    if b { seq![f] } else { seq![] }
}

/// The flags shown for a title, in display order.
pub open spec fn title_flag_list(t: ApiTitle) -> Seq<DetailFlag> {
    let visibility = if t.removed || t.shadow_hidden {
        flag_if(t.removed, DetailFlag::Removed) + flag_if(t.shadow_hidden, DetailFlag::ShadowHidden)
    } else if t.votes - t.downvotes < -1 {
        seq![DetailFlag::RemovedByDownvotes]
    } else if t.votes < 0 {
        seq![DetailFlag::Replaced]
    } else if !t.locked && t.score < 0 {
        seq![DetailFlag::PartiallyHidden]
    } else {
        seq![]
    };
    flag_if(t.votes_missing, DetailFlag::VotesMissing) + visibility
        + flag_if(t.unverified, DetailFlag::Unverified)
        + flag_if(t.locked, DetailFlag::Locked)
        + flag_if(t.vip, DetailFlag::Vip)
        + flag_if(t.casual_mode, DetailFlag::Casual)
}

/// The flags shown for a thumbnail, in display order.
pub open spec fn thumbnail_flag_list(t: ApiThumbnail) -> Seq<DetailFlag> {
    let visibility = if t.removed || t.shadow_hidden {
        flag_if(t.removed, DetailFlag::Removed) + flag_if(t.shadow_hidden, DetailFlag::ShadowHidden)
    } else if t.votes - t.downvotes < -1 {
        seq![DetailFlag::RemovedByDownvotes]
    } else if !t.locked {
        if t.original && t.score < 1 {
            seq![DetailFlag::InsufficientOriginalScore]
        } else if t.score < 0 {
            seq![DetailFlag::PartiallyHidden]
        } else {
            seq![]
        }
    } else {
        seq![]
    };
    flag_if(t.votes_missing, DetailFlag::VotesMissing)
        + flag_if(t.timestamp_missing, DetailFlag::TimestampMissing) + visibility
        + flag_if(t.locked, DetailFlag::Locked)
        + flag_if(t.vip, DetailFlag::Vip)
        + flag_if(t.casual_mode, DetailFlag::Casual)
}

fn push_if(v: &mut Vec<DetailFlag>, b: bool, f: DetailFlag)
    ensures
        final(v)@ == old(v)@ + flag_if(b, f),
{
    if b {
        v.push(f);
    }
    proof {
        if !b {
            assert(old(v)@ + flag_if(b, f) =~= old(v)@);
        } else {
            assert(old(v)@.push(f) =~= old(v)@ + flag_if(b, f));
        }
    }
}

/// The flags shown for a title. The vote difference is computed in the range of the vote
/// counts' type, as the interface does.
pub fn title_flags(title: &ApiTitle) -> (flags: Vec<DetailFlag>)
    requires
        i8::MIN <= title.votes - title.downvotes <= i8::MAX,
    ensures
        flags@ == title_flag_list(*title),
{
    let mut v: Vec<DetailFlag> = Vec::new();
    push_if(&mut v, title.votes_missing, DetailFlag::VotesMissing);
    if title.removed || title.shadow_hidden {
        push_if(&mut v, title.removed, DetailFlag::Removed);
        push_if(&mut v, title.shadow_hidden, DetailFlag::ShadowHidden);
    } else if title.votes - title.downvotes < -1 {
        v.push(DetailFlag::RemovedByDownvotes);
    } else if title.votes < 0 {
        v.push(DetailFlag::Replaced);
    } else if !title.locked && title.score < 0 {
        v.push(DetailFlag::PartiallyHidden);
    }
    push_if(&mut v, title.unverified, DetailFlag::Unverified);
    push_if(&mut v, title.locked, DetailFlag::Locked);
    push_if(&mut v, title.vip, DetailFlag::Vip);
    push_if(&mut v, title.casual_mode, DetailFlag::Casual);
    proof {
        assert(v@ =~= title_flag_list(*title));
    }
    v
}

/// The flags shown for a thumbnail. The vote difference is computed in the range of the
/// vote counts' type, as the interface does.
pub fn thumbnail_flags(thumb: &ApiThumbnail) -> (flags: Vec<DetailFlag>)
    requires
        i8::MIN <= thumb.votes - thumb.downvotes <= i8::MAX,
    ensures
        flags@ == thumbnail_flag_list(*thumb),
{
    let mut v: Vec<DetailFlag> = Vec::new();
    push_if(&mut v, thumb.votes_missing, DetailFlag::VotesMissing);
    push_if(&mut v, thumb.timestamp_missing, DetailFlag::TimestampMissing);
    if thumb.removed || thumb.shadow_hidden {
        push_if(&mut v, thumb.removed, DetailFlag::Removed);
        push_if(&mut v, thumb.shadow_hidden, DetailFlag::ShadowHidden);
    } else if thumb.votes - thumb.downvotes < -1 {
        v.push(DetailFlag::RemovedByDownvotes);
    } else if !thumb.locked {
        if thumb.original && thumb.score < 1 {
            v.push(DetailFlag::InsufficientOriginalScore);
        } else if thumb.score < 0 {
            v.push(DetailFlag::PartiallyHidden);
        }
    }
    push_if(&mut v, thumb.locked, DetailFlag::Locked);
    push_if(&mut v, thumb.vip, DetailFlag::Vip);
    push_if(&mut v, thumb.casual_mode, DetailFlag::Casual);
    proof {
        assert(v@ =~= thumbnail_flag_list(*thumb));
    }
    v
}

/// A detail that is removed or shadow-hidden is never also flagged as hidden by its score:
/// the visibility flags exclude each other in that order.
pub proof fn lemma_removed_titles_are_not_score_flagged(t: ApiTitle)
    requires
        t.removed || t.shadow_hidden,
    ensures
        !title_flag_list(t).contains(DetailFlag::RemovedByDownvotes),
        !title_flag_list(t).contains(DetailFlag::Replaced),
        !title_flag_list(t).contains(DetailFlag::PartiallyHidden),
{
    let l = title_flag_list(t);
    assert forall|i: int| 0 <= i < l.len() implies l[i] != DetailFlag::RemovedByDownvotes
        && l[i] != DetailFlag::Replaced && l[i] != DetailFlag::PartiallyHidden by {
    }
}

proof fn lemma_concat_contains<A>(a: Seq<A>, b: Seq<A>, x: A)
    ensures
        (a + b).contains(x) <==> (a.contains(x) || b.contains(x)),
{
    if (a + b).contains(x) {
        let i = choose|i: int| 0 <= i < (a + b).len() && (a + b)[i] == x;
        if i < a.len() {
            assert(a[i] == x);
        } else {
            assert(b[i - a.len()] == x);
        }
    }
    if a.contains(x) {
        let i = choose|i: int| 0 <= i < a.len() && a[i] == x;
        assert((a + b)[i] == x);
    }
    if b.contains(x) {
        let i = choose|i: int| 0 <= i < b.len() && b[i] == x;
        assert((a + b)[i + a.len()] == x);
    }
}

proof fn lemma_flag_if_contains(b: bool, f: DetailFlag, x: DetailFlag)
    ensures
        flag_if(b, f).contains(x) <==> (b && x == f),
        seq![f].contains(x) <==> x == f,
        !Seq::<DetailFlag>::empty().contains(x),
{
    if b {
        assert(flag_if(b, f)[0] == f);
    }
    assert(seq![f][0] == f);
}

/// What each flag of a title means: it carries a flag exactly when that flag's condition
/// holds. The visibility flags are tried in order (removed or
/// shadow-hidden, then removed by downvotes, then replaced by the submitter, then hidden by
/// its score), so at most one of the last three is shown; a title whose score is not below
/// zero is never flagged as hidden by its score.
pub proof fn lemma_title_flags_meaning(t: ApiTitle)
    ensures
        title_flag_list(t).contains(DetailFlag::VotesMissing) <==> t.votes_missing,
        title_flag_list(t).contains(DetailFlag::Removed) <==> t.removed,
        title_flag_list(t).contains(DetailFlag::ShadowHidden) <==> t.shadow_hidden,
        title_flag_list(t).contains(DetailFlag::RemovedByDownvotes)
            <==> (!t.removed && !t.shadow_hidden && t.votes - t.downvotes < -1),
        title_flag_list(t).contains(DetailFlag::Replaced)
            <==> (!t.removed && !t.shadow_hidden && t.votes - t.downvotes >= -1 && t.votes < 0),
        title_flag_list(t).contains(DetailFlag::PartiallyHidden)
            <==> (!t.removed && !t.shadow_hidden && t.votes - t.downvotes >= -1 && t.votes >= 0 && !t.locked && t.score < 0),
        title_flag_list(t).contains(DetailFlag::Unverified) <==> t.unverified,
        title_flag_list(t).contains(DetailFlag::Locked) <==> t.locked,
        title_flag_list(t).contains(DetailFlag::Vip) <==> t.vip,
        title_flag_list(t).contains(DetailFlag::Casual) <==> t.casual_mode,
        !title_flag_list(t).contains(DetailFlag::TimestampMissing),
        !title_flag_list(t).contains(DetailFlag::InsufficientOriginalScore),
        t.score >= 0 ==> !title_flag_list(t).contains(DetailFlag::PartiallyHidden),
{
    let visibility = if t.removed || t.shadow_hidden {
        flag_if(t.removed, DetailFlag::Removed) + flag_if(t.shadow_hidden, DetailFlag::ShadowHidden)
    } else if t.votes - t.downvotes < -1 {
        seq![DetailFlag::RemovedByDownvotes]
    } else if t.votes < 0 {
        seq![DetailFlag::Replaced]
    } else if !t.locked && t.score < 0 {
        seq![DetailFlag::PartiallyHidden]
    } else {
        seq![]
    };
    let a = flag_if(t.votes_missing, DetailFlag::VotesMissing);
    let u = flag_if(t.unverified, DetailFlag::Unverified);
    let l = flag_if(t.locked, DetailFlag::Locked);
    let v = flag_if(t.vip, DetailFlag::Vip);
    let c = flag_if(t.casual_mode, DetailFlag::Casual);
    assert(title_flag_list(t) == a + visibility + u + l + v + c);
    assert forall|x: DetailFlag| #[trigger] title_flag_list(t).contains(x) <==>
        (a.contains(x) || visibility.contains(x) || u.contains(x) || l.contains(x) || v.contains(x) || c.contains(x)) by {
        lemma_concat_contains(a + visibility + u + l + v, c, x);
        lemma_concat_contains(a + visibility + u + l, v, x);
        lemma_concat_contains(a + visibility + u, l, x);
        lemma_concat_contains(a + visibility, u, x);
        lemma_concat_contains(a, visibility, x);
    }
    assert forall|x: DetailFlag| #[trigger] visibility.contains(x) <==> (
        (t.removed && x == DetailFlag::Removed)
        || (t.shadow_hidden && x == DetailFlag::ShadowHidden)
        || (!t.removed && !t.shadow_hidden && t.votes - t.downvotes < -1 && x == DetailFlag::RemovedByDownvotes)
        || (!t.removed && !t.shadow_hidden && t.votes - t.downvotes >= -1 && t.votes < 0 && x == DetailFlag::Replaced)
        || (!t.removed && !t.shadow_hidden && t.votes - t.downvotes >= -1 && t.votes >= 0 && !t.locked && t.score < 0
            && x == DetailFlag::PartiallyHidden)) by {
        lemma_flag_if_contains(t.removed, DetailFlag::Removed, x);
        lemma_flag_if_contains(t.shadow_hidden, DetailFlag::ShadowHidden, x);
        lemma_flag_if_contains(true, DetailFlag::RemovedByDownvotes, x);
        lemma_flag_if_contains(true, DetailFlag::Replaced, x);
        lemma_flag_if_contains(true, DetailFlag::PartiallyHidden, x);
        lemma_concat_contains(flag_if(t.removed, DetailFlag::Removed), flag_if(t.shadow_hidden, DetailFlag::ShadowHidden), x);
    }
    assert forall|x: DetailFlag| #[trigger] a.contains(x) <==> (t.votes_missing && x == DetailFlag::VotesMissing) by {
        lemma_flag_if_contains(t.votes_missing, DetailFlag::VotesMissing, x);
    }
    assert forall|x: DetailFlag| #[trigger] u.contains(x) <==> (t.unverified && x == DetailFlag::Unverified) by {
        lemma_flag_if_contains(t.unverified, DetailFlag::Unverified, x);
    }
    assert forall|x: DetailFlag| #[trigger] l.contains(x) <==> (t.locked && x == DetailFlag::Locked) by {
        lemma_flag_if_contains(t.locked, DetailFlag::Locked, x);
    }
    assert forall|x: DetailFlag| #[trigger] v.contains(x) <==> (t.vip && x == DetailFlag::Vip) by {
        lemma_flag_if_contains(t.vip, DetailFlag::Vip, x);
    }
    assert forall|x: DetailFlag| #[trigger] c.contains(x) <==> (t.casual_mode && x == DetailFlag::Casual) by {
        lemma_flag_if_contains(t.casual_mode, DetailFlag::Casual, x);
    }
}

/// What each flag of a thumbnail means: it carries a flag exactly when that flag's condition
/// holds. An unlocked original thumbnail scoring below 1 is flagged as having too little score
/// to be shown; any other unlocked thumbnail scoring below 0 as hidden by its score; a locked
/// one, or one scoring at least 0 that is not such an original, is never flagged by its score.
pub proof fn lemma_thumbnail_flags_meaning(t: ApiThumbnail)
    ensures
        thumbnail_flag_list(t).contains(DetailFlag::VotesMissing) <==> t.votes_missing,
        thumbnail_flag_list(t).contains(DetailFlag::TimestampMissing) <==> t.timestamp_missing,
        thumbnail_flag_list(t).contains(DetailFlag::Removed) <==> t.removed,
        thumbnail_flag_list(t).contains(DetailFlag::ShadowHidden) <==> t.shadow_hidden,
        thumbnail_flag_list(t).contains(DetailFlag::RemovedByDownvotes)
            <==> (!t.removed && !t.shadow_hidden && t.votes - t.downvotes < -1),
        thumbnail_flag_list(t).contains(DetailFlag::InsufficientOriginalScore)
            <==> (!t.removed && !t.shadow_hidden && t.votes - t.downvotes >= -1 && !t.locked && t.original && t.score < 1),
        thumbnail_flag_list(t).contains(DetailFlag::PartiallyHidden)
            <==> (!t.removed && !t.shadow_hidden && t.votes - t.downvotes >= -1 && !t.locked
                && !(t.original && t.score < 1) && t.score < 0),
        thumbnail_flag_list(t).contains(DetailFlag::Locked) <==> t.locked,
        thumbnail_flag_list(t).contains(DetailFlag::Vip) <==> t.vip,
        thumbnail_flag_list(t).contains(DetailFlag::Casual) <==> t.casual_mode,
        !thumbnail_flag_list(t).contains(DetailFlag::Replaced),
        !thumbnail_flag_list(t).contains(DetailFlag::Unverified),
        t.score >= 0 ==> !thumbnail_flag_list(t).contains(DetailFlag::PartiallyHidden),
        t.locked ==> !thumbnail_flag_list(t).contains(DetailFlag::PartiallyHidden)
            && !thumbnail_flag_list(t).contains(DetailFlag::InsufficientOriginalScore),
{
    let visibility = if t.removed || t.shadow_hidden {
        flag_if(t.removed, DetailFlag::Removed) + flag_if(t.shadow_hidden, DetailFlag::ShadowHidden)
    } else if t.votes - t.downvotes < -1 {
        seq![DetailFlag::RemovedByDownvotes]
    } else if !t.locked {
        if t.original && t.score < 1 {
            seq![DetailFlag::InsufficientOriginalScore]
        } else if t.score < 0 {
            seq![DetailFlag::PartiallyHidden]
        } else {
            seq![]
        }
    } else {
        seq![]
    };
    let a = flag_if(t.votes_missing, DetailFlag::VotesMissing);
    let m = flag_if(t.timestamp_missing, DetailFlag::TimestampMissing);
    let l = flag_if(t.locked, DetailFlag::Locked);
    let v = flag_if(t.vip, DetailFlag::Vip);
    let c = flag_if(t.casual_mode, DetailFlag::Casual);
    assert(thumbnail_flag_list(t) == a + m + visibility + l + v + c);
    assert forall|x: DetailFlag| #[trigger] thumbnail_flag_list(t).contains(x) <==>
        (a.contains(x) || m.contains(x) || visibility.contains(x) || l.contains(x) || v.contains(x) || c.contains(x)) by {
        lemma_concat_contains(a + m + visibility + l + v, c, x);
        lemma_concat_contains(a + m + visibility + l, v, x);
        lemma_concat_contains(a + m + visibility, l, x);
        lemma_concat_contains(a + m, visibility, x);
        lemma_concat_contains(a, m, x);
    }
    assert forall|x: DetailFlag| #[trigger] visibility.contains(x) <==> (
        (t.removed && x == DetailFlag::Removed)
        || (t.shadow_hidden && x == DetailFlag::ShadowHidden)
        || (!t.removed && !t.shadow_hidden && t.votes - t.downvotes < -1 && x == DetailFlag::RemovedByDownvotes)
        || (!t.removed && !t.shadow_hidden && t.votes - t.downvotes >= -1 && !t.locked && t.original && t.score < 1
            && x == DetailFlag::InsufficientOriginalScore)
        || (!t.removed && !t.shadow_hidden && t.votes - t.downvotes >= -1 && !t.locked && !(t.original && t.score < 1)
            && t.score < 0 && x == DetailFlag::PartiallyHidden)) by {
        lemma_flag_if_contains(t.removed, DetailFlag::Removed, x);
        lemma_flag_if_contains(t.shadow_hidden, DetailFlag::ShadowHidden, x);
        lemma_flag_if_contains(true, DetailFlag::RemovedByDownvotes, x);
        lemma_flag_if_contains(true, DetailFlag::InsufficientOriginalScore, x);
        lemma_flag_if_contains(true, DetailFlag::PartiallyHidden, x);
        lemma_concat_contains(flag_if(t.removed, DetailFlag::Removed), flag_if(t.shadow_hidden, DetailFlag::ShadowHidden), x);
    }
    assert forall|x: DetailFlag| #[trigger] a.contains(x) <==> (t.votes_missing && x == DetailFlag::VotesMissing) by {
        lemma_flag_if_contains(t.votes_missing, DetailFlag::VotesMissing, x);
    }
    assert forall|x: DetailFlag| #[trigger] m.contains(x) <==> (t.timestamp_missing && x == DetailFlag::TimestampMissing) by {
        lemma_flag_if_contains(t.timestamp_missing, DetailFlag::TimestampMissing, x);
    }
    assert forall|x: DetailFlag| #[trigger] l.contains(x) <==> (t.locked && x == DetailFlag::Locked) by {
        lemma_flag_if_contains(t.locked, DetailFlag::Locked, x);
    }
    assert forall|x: DetailFlag| #[trigger] v.contains(x) <==> (t.vip && x == DetailFlag::Vip) by {
        lemma_flag_if_contains(t.vip, DetailFlag::Vip, x);
    }
    assert forall|x: DetailFlag| #[trigger] c.contains(x) <==> (t.casual_mode && x == DetailFlag::Casual) by {
        lemma_flag_if_contains(t.casual_mode, DetailFlag::Casual, x);
    }
}

} // verus!
