//! The page of one submission, found by UUID: it is looked up both as a title and as a
//! thumbnail, and shows whichever exists, with its score, flags, visibility and timestamp.

use vstd::prelude::*;

use crate::api::{ApiThumbnail, ApiTitle};
use crate::flags::{DetailType, IconType};
use crate::numbers::{signed_decimal, signed_decimal_string};

verus! {

/// The lookup of a submission of one kind.
#[derive(Debug)]
pub enum DetailStatus<T> {
    Fetching,
    /// The server answered 404: no submission of this kind has the UUID.
    NotFound,
    Ready(T),
    /// The lookup failed, as this text describes.
    Failed(String),
}

impl<T> DetailStatus<T> {
    /// Whether the lookup is still running.
    pub fn is_fetching(&self) -> (b: bool)
        ensures
            b == (*self is Fetching),
    {
        match self {
            DetailStatus::Fetching => true,
            _ => false,
        }
    }

    /// Whether no submission of this kind has the UUID.
    pub fn is_none(&self) -> (b: bool)
        ensures
            b == (*self is NotFound),
    {
        match self {
            DetailStatus::NotFound => true,
            _ => false,
        }
    }
}

/// Whether an answer's status code says that nothing has the UUID (404); any other answer is
/// read as the submission.
pub fn is_not_found(status: u16) -> (b: bool)
    ensures
        b == (status == 404),
{
    status == 404
}

/// The two lookups of a UUID page, and the version number their answers must carry.
pub struct UUIDPage {
    title: DetailStatus<ApiTitle>,
    thumb: DetailStatus<ApiThumbnail>,
    version: u8,
}

impl UUIDPage {
    /// The title lookup.
    pub closed spec fn title(&self) -> DetailStatus<ApiTitle> {
        self.title
    }

    /// The thumbnail lookup.
    pub closed spec fn thumb(&self) -> DetailStatus<ApiThumbnail> {
        self.thumb
    }

    /// The version number the answers must carry.
    pub closed spec fn version(&self) -> u8 {
        self.version
    }

    /// A page whose first lookups, numbered 0, are running.
    pub fn new() -> (p: Self)
        ensures
            p.title() is Fetching,
            p.thumb() is Fetching,
            p.version() == 0,
    {
        UUIDPage { title: DetailStatus::Fetching, thumb: DetailStatus::Fetching, version: 0 }
    }

    /// Starts both lookups again under a new version number, which it returns.
    pub fn refresh(&mut self) -> (v: u8)
        ensures
            v == final(self).version(),
            v == (if old(self).version() == u8::MAX { 0 } else { (old(self).version() + 1) as u8 }),
            final(self).title() is Fetching,
            final(self).thumb() is Fetching,
    {
        self.title = DetailStatus::Fetching;
        self.thumb = DetailStatus::Fetching;
        self.version = self.version.wrapping_add(1);
        self.version
    }

    /// Takes the title lookup's answer; a stale one changes nothing. Returns whether it was taken.
    pub fn title_fetched(&mut self, status: DetailStatus<ApiTitle>, version: u8) -> (taken: bool)
        ensures
            taken == (version == old(self).version()),
            taken ==> final(self).title() == status,
            !taken ==> final(self).title() == old(self).title(),
            final(self).thumb() == old(self).thumb(),
            final(self).version() == old(self).version(),
    {
        if version != self.version {
            return false;
        }
        self.title = status;
        true
    }

    /// Takes the thumbnail lookup's answer; a stale one changes nothing. Returns whether it was
    /// taken.
    pub fn thumb_fetched(&mut self, status: DetailStatus<ApiThumbnail>, version: u8) -> (taken: bool)
        ensures
            taken == (version == old(self).version()),
            taken ==> final(self).thumb() == status,
            !taken ==> final(self).thumb() == old(self).thumb(),
            final(self).title() == old(self).title(),
            final(self).version() == old(self).version(),
    {
        if version != self.version {
            return false;
        }
        self.thumb = status;
        true
    }

    /// Whether the page shows that it is loading: while either lookup runs.
    pub fn shows_loading(&self) -> (b: bool)
        ensures
            b == (self.title() is Fetching || self.thumb() is Fetching),
    {
        self.title.is_fetching() || self.thumb.is_fetching()
    }

    /// Whether the page says that nothing has the UUID: when neither lookup found anything.
    pub fn shows_missing(&self) -> (b: bool)
        ensures
            b == (self.title() is NotFound && self.thumb() is NotFound),
    {
        self.title.is_none() && self.thumb.is_none()
    }

    /// The title lookup.
    pub fn title_status(&self) -> (s: &DetailStatus<ApiTitle>)
        ensures
            *s == self.title(),
    {
        &self.title
    }

    /// The thumbnail lookup.
    pub fn thumb_status(&self) -> (s: &DetailStatus<ApiThumbnail>)
        ensures
            *s == self.thumb(),
    {
        &self.thumb
    }
}

/// The verdict on a submission's visibility given on its own page: the first that applies.
#[derive(Clone, Copy, PartialEq, Eq, Debug, Structural)]
pub enum Visibility {
    VotesMissing,
    RemovedByVip,
    ShadowHidden,
    RemovedByDownvotes,
    ReplacedBySubmitter,
    InsufficientOriginalScore,
    PartiallyHidden,
    FullyVisible,
}

/// The visibility of a title.
pub open spec fn title_visibility_of(t: ApiTitle) -> Visibility {
    if t.votes_missing {
        Visibility::VotesMissing
    } else if t.removed {
        Visibility::RemovedByVip
    } else if t.shadow_hidden {
        Visibility::ShadowHidden
    } else if t.votes - t.downvotes < -1 {
        Visibility::RemovedByDownvotes
    } else if t.votes < 0 {
        Visibility::ReplacedBySubmitter
    } else if !t.locked && t.score < 0 {
        Visibility::PartiallyHidden
    } else {
        Visibility::FullyVisible
    }
}

/// The visibility of a thumbnail.
pub open spec fn thumbnail_visibility_of(t: ApiThumbnail) -> Visibility {
    if t.votes_missing {
        Visibility::VotesMissing
    } else if t.removed {
        Visibility::RemovedByVip
    } else if t.shadow_hidden {
        Visibility::ShadowHidden
    } else if t.score < -1 {
        Visibility::RemovedByDownvotes
    } else if t.original && !t.locked && t.score < 1 {
        Visibility::InsufficientOriginalScore
    } else if t.score < 0 {
        Visibility::PartiallyHidden
    } else {
        Visibility::FullyVisible
    }
}

/// The visibility of a title. The vote difference is computed in the range of the vote
/// counts' type, as the interface does.
pub fn title_visibility(t: &ApiTitle) -> (v: Visibility)
    requires
        i8::MIN <= t.votes - t.downvotes <= i8::MAX,
    ensures
        v == title_visibility_of(*t),
{
    if t.votes_missing {
        Visibility::VotesMissing
    } else if t.removed {
        Visibility::RemovedByVip
    } else if t.shadow_hidden {
        Visibility::ShadowHidden
    } else if t.votes - t.downvotes < -1 {
        Visibility::RemovedByDownvotes
    } else if t.votes < 0 {
        Visibility::ReplacedBySubmitter
    } else if !t.locked && t.score < 0 {
        Visibility::PartiallyHidden
    } else {
        Visibility::FullyVisible
    }
}

/// The visibility of a thumbnail.
pub fn thumbnail_visibility(t: &ApiThumbnail) -> (v: Visibility)
    ensures
        v == thumbnail_visibility_of(*t),
{
    if t.votes_missing {
        Visibility::VotesMissing
    } else if t.removed {
        Visibility::RemovedByVip
    } else if t.shadow_hidden {
        Visibility::ShadowHidden
    } else if t.score < -1 {
        Visibility::RemovedByDownvotes
    } else if t.original && !t.locked && t.score < 1 {
        Visibility::InsufficientOriginalScore
    } else if t.score < 0 {
        Visibility::PartiallyHidden
    } else {
        Visibility::FullyVisible
    }
}

/// The icon shown beside a visibility verdict.
pub open spec fn visibility_icon(v: Visibility) -> IconType {
    match v {
        Visibility::VotesMissing => IconType::VotesMissing,
        Visibility::RemovedByVip => IconType::Removed,
        Visibility::ShadowHidden => IconType::ShadowHidden,
        Visibility::RemovedByDownvotes => IconType::Downvote,
        Visibility::ReplacedBySubmitter => IconType::Replaced,
        Visibility::InsufficientOriginalScore => IconType::Downvote,
        Visibility::PartiallyHidden => IconType::PartiallyHidden,
        Visibility::FullyVisible => IconType::Upvote,
    }
}

/// The words that state a visibility verdict.
pub open spec fn visibility_label(v: Visibility) -> Seq<char> {
    match v {
        Visibility::VotesMissing => "Effectively hidden due to missing the votes table entry"@,
        Visibility::RemovedByVip => "Removed by VIP"@,
        Visibility::ShadowHidden => "Hidden by VIP using batch actions (shadowhidden)"@,
        Visibility::RemovedByDownvotes => "Removed by downvotes"@,
        Visibility::ReplacedBySubmitter => "Replaced by submitter"@,
        Visibility::InsufficientOriginalScore =>
            "Original thumbnail with insufficient score to be shown (requires >= 1 or lock)"@,
        Visibility::PartiallyHidden => "Partially hidden - Only visible in submission menus"@,
        Visibility::FullyVisible => "Fully visible"@,
    }
}

impl Visibility {
    /// The icon shown beside this verdict.
    pub fn icon(&self) -> (i: IconType)
        ensures
            i == visibility_icon(*self),
    {
        match self {
            Visibility::VotesMissing => IconType::VotesMissing,
            Visibility::RemovedByVip => IconType::Removed,
            Visibility::ShadowHidden => IconType::ShadowHidden,
            Visibility::RemovedByDownvotes => IconType::Downvote,
            Visibility::ReplacedBySubmitter => IconType::Replaced,
            Visibility::InsufficientOriginalScore => IconType::Downvote,
            Visibility::PartiallyHidden => IconType::PartiallyHidden,
            Visibility::FullyVisible => IconType::Upvote,
        }
    }

    /// The words that state this verdict.
    pub fn label(&self) -> (l: &'static str)
        ensures
            l@ == visibility_label(*self),
    {
        match self {
            Visibility::VotesMissing => "Effectively hidden due to missing the votes table entry",
            Visibility::RemovedByVip => "Removed by VIP",
            Visibility::ShadowHidden => "Hidden by VIP using batch actions (shadowhidden)",
            Visibility::RemovedByDownvotes => "Removed by downvotes",
            Visibility::ReplacedBySubmitter => "Replaced by submitter",
            Visibility::InsufficientOriginalScore =>
                "Original thumbnail with insufficient score to be shown (requires >= 1 or lock)",
            Visibility::PartiallyHidden => "Partially hidden - Only visible in submission menus",
            Visibility::FullyVisible => "Fully visible",
        }
    }
}

/// A line of the flags list on a submission's own page.
#[derive(Clone, Copy, PartialEq, Eq, Debug, Structural)]
pub enum PageFlag {
    TimestampMissing,
    VotesMissing,
    Original,
    Unverified,
    Locked,
    Vip,
    Casual,
}

/// `seq![f]` when `b` holds, else nothing.
pub open spec fn page_flag_if(b: bool, f: PageFlag) -> Seq<PageFlag> {
    if b { seq![f] } else { seq![] }
}

/// The flags listed on a title's page, in order.
pub open spec fn title_page_flag_list(t: ApiTitle) -> Seq<PageFlag> {
    page_flag_if(t.votes_missing, PageFlag::VotesMissing)
        + page_flag_if(t.original, PageFlag::Original)
        + page_flag_if(t.unverified, PageFlag::Unverified)
        + page_flag_if(t.locked, PageFlag::Locked)
        + page_flag_if(t.vip, PageFlag::Vip)
        + page_flag_if(t.casual_mode, PageFlag::Casual)
}

/// The flags listed on a thumbnail's page, in order.
pub open spec fn thumbnail_page_flag_list(t: ApiThumbnail) -> Seq<PageFlag> {
    page_flag_if(t.timestamp_missing, PageFlag::TimestampMissing)
        + page_flag_if(t.votes_missing, PageFlag::VotesMissing)
        + page_flag_if(t.original, PageFlag::Original)
        + page_flag_if(t.locked, PageFlag::Locked)
        + page_flag_if(t.vip, PageFlag::Vip)
        + page_flag_if(t.casual_mode, PageFlag::Casual)
}

fn push_page_flag(v: &mut Vec<PageFlag>, b: bool, f: PageFlag)
    ensures
        final(v)@ == old(v)@ + page_flag_if(b, f),
{
    if b {
        v.push(f);
    }
    proof {
        if !b {
            assert(old(v)@ + page_flag_if(b, f) =~= old(v)@);
        } else {
            assert(old(v)@.push(f) =~= old(v)@ + page_flag_if(b, f));
        }
    }
}

/// The flags listed on a title's page; the page says "No flags" when there are none.
pub fn title_page_flags(t: &ApiTitle) -> (flags: Vec<PageFlag>)
    ensures
        flags@ == title_page_flag_list(*t),
{
    let mut v: Vec<PageFlag> = Vec::new();
    push_page_flag(&mut v, t.votes_missing, PageFlag::VotesMissing);
    push_page_flag(&mut v, t.original, PageFlag::Original);
    push_page_flag(&mut v, t.unverified, PageFlag::Unverified);
    push_page_flag(&mut v, t.locked, PageFlag::Locked);
    push_page_flag(&mut v, t.vip, PageFlag::Vip);
    push_page_flag(&mut v, t.casual_mode, PageFlag::Casual);
    proof {
        assert(v@ =~= title_page_flag_list(*t));
    }
    v
}

/// The flags listed on a thumbnail's page; the page says "No flags" when there are none.
pub fn thumbnail_page_flags(t: &ApiThumbnail) -> (flags: Vec<PageFlag>)
    ensures
        flags@ == thumbnail_page_flag_list(*t),
{
    let mut v: Vec<PageFlag> = Vec::new();
    push_page_flag(&mut v, t.timestamp_missing, PageFlag::TimestampMissing);
    push_page_flag(&mut v, t.votes_missing, PageFlag::VotesMissing);
    push_page_flag(&mut v, t.original, PageFlag::Original);
    push_page_flag(&mut v, t.locked, PageFlag::Locked);
    push_page_flag(&mut v, t.vip, PageFlag::Vip);
    push_page_flag(&mut v, t.casual_mode, PageFlag::Casual);
    proof {
        assert(v@ =~= thumbnail_page_flag_list(*t));
    }
    v
}

/// The icon of a page flag.
pub open spec fn page_flag_icon(f: PageFlag) -> IconType {
    match f {
        PageFlag::TimestampMissing => IconType::TimestampMissing,
        PageFlag::VotesMissing => IconType::VotesMissing,
        PageFlag::Original => IconType::Original,
        PageFlag::Unverified => IconType::Unverified,
        PageFlag::Locked => IconType::Locked,
        PageFlag::Vip => IconType::VIP,
        PageFlag::Casual => IconType::Casual,
    }
}

/// The words of a page flag on the page of a detail of the given type.
pub open spec fn page_flag_label(f: PageFlag, detail: DetailType) -> Seq<char> {
    match f {
        PageFlag::TimestampMissing => "Broken entry: Missing a timestamp value"@,
        PageFlag::VotesMissing => "Broken entry: Missing an entry in the votes table"@,
        PageFlag::Original => if detail == DetailType::Title {
            "Original title"@
        } else {
            "Original thumbnail"@
        },
        PageFlag::Unverified => "Submitted by an unverified user (-1 score)"@,
        PageFlag::Locked => "Locked by a VIP"@,
        PageFlag::Vip => "Submitted by a VIP"@,
        PageFlag::Casual => "Submitted by a casual mode user"@,
    }
}

impl PageFlag {
    /// The icon of this flag.
    pub fn icon(&self) -> (i: IconType)
        ensures
            i == page_flag_icon(*self),
    {
        match self {
            PageFlag::TimestampMissing => IconType::TimestampMissing,
            PageFlag::VotesMissing => IconType::VotesMissing,
            PageFlag::Original => IconType::Original,
            PageFlag::Unverified => IconType::Unverified,
            PageFlag::Locked => IconType::Locked,
            PageFlag::Vip => IconType::VIP,
            PageFlag::Casual => IconType::Casual,
        }
    }

    /// The words of this flag on the page of a detail of the given type.
    pub fn label(&self, detail: DetailType) -> (l: &'static str)
        ensures
            l@ == page_flag_label(*self, detail),
    {
        match self {
            PageFlag::TimestampMissing => "Broken entry: Missing a timestamp value",
            PageFlag::VotesMissing => "Broken entry: Missing an entry in the votes table",
            PageFlag::Original => match detail {
                DetailType::Title => "Original title",
                DetailType::Thumbnail => "Original thumbnail",
            },
            PageFlag::Unverified => "Submitted by an unverified user (-1 score)",
            PageFlag::Locked => "Locked by a VIP",
            PageFlag::Vip => "Submitted by a VIP",
            PageFlag::Casual => "Submitted by a casual mode user",
        }
    }
}

/// The score line of a submission's page.
pub open spec fn score_line(votes_missing: bool, votes: i8, downvotes: i8, score: i8) -> Seq<char> {
    if votes_missing {
        "Score: No data"@
    } else {
        "Score: "@ + signed_decimal(votes as int) + " upvotes, "@ + signed_decimal(downvotes as int)
            + " downvotes; Final score: "@ + signed_decimal(score as int)
    }
}

/// The score line of a submission's page: its votes, downvotes and final score, or that the
/// vote data is missing.
pub fn score_text(votes_missing: bool, votes: i8, downvotes: i8, score: i8) -> (s: String)
    ensures
        s@ == score_line(votes_missing, votes, downvotes, score),
{
    if votes_missing {
        return String::from_str("Score: No data");
    }
    let mut s = String::from_str("Score: ");
    let v = signed_decimal_string(votes as i128);
    s.append(v.as_str());
    s.append(" upvotes, ");
    let d = signed_decimal_string(downvotes as i128);
    s.append(d.as_str());
    s.append(" downvotes; Final score: ");
    let f = signed_decimal_string(score as i128);
    s.append(f.as_str());
    s
}

/// What the timestamp line of a thumbnail's page shows.
#[derive(Clone, Copy, PartialEq, Eq, Debug, Structural)]
pub enum TimestampLine {
    /// A custom thumbnail whose timestamp is missing.
    Missing,
    /// A frame at this time in seconds, as the bit pattern of the floating-point value.
    At(u64),
    /// The original thumbnail.
    Original,
}

/// What the timestamp line of a thumbnail's page shows.
pub open spec fn timestamp_line_of(t: ApiThumbnail) -> TimestampLine {
    if t.timestamp_missing {
        TimestampLine::Missing
    } else {
        match t.timestamp_bits {
            Some(bits) => TimestampLine::At(bits),
            None => TimestampLine::Original,
        }
    }
}

/// What the timestamp line of a thumbnail's page shows; the page renders the thumbnail
/// itself unless the timestamp is missing.
pub fn timestamp_line(t: &ApiThumbnail) -> (l: TimestampLine)
    ensures
        l == timestamp_line_of(*t),
{
    if t.timestamp_missing {
        TimestampLine::Missing
    } else {
        match t.timestamp_bits {
            Some(bits) => TimestampLine::At(bits),
            None => TimestampLine::Original,
        }
    }
}

} // verus!
