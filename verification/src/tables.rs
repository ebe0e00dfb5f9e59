//! Tables of details: which columns a table shows, and how a row is laid out.

use vstd::prelude::*;
use vstd::multiset::Multiset;

use crate::api::{ApiCasualTitle, ApiThumbnail, ApiTitle, Extension};
use crate::settings::{Settings, TableLayout};

verus! {

/// Columns hidden from a table of titles.
#[derive(Clone, Copy, PartialEq, Eq, Debug, Default, Structural)]
pub struct TitleTableSettings {
    pub hide_videoid: bool,
    pub hide_username: bool,
    pub hide_userid: bool,
}

/// Columns hidden from a table of thumbnails.
#[derive(Clone, Copy, PartialEq, Eq, Debug, Default, Structural)]
pub struct ThumbTableSettings {
    pub hide_videoid: bool,
    pub hide_username: bool,
    pub hide_userid: bool,
}

/// Columns hidden from a table of casual titles.
#[derive(Clone, Copy, PartialEq, Eq, Debug, Default, Structural)]
pub struct CasualTableSettings {
    pub hide_videoid: bool,
}

/// Columns hidden from a table of warnings.
#[derive(Clone, Copy, PartialEq, Eq, Debug, Default, Structural)]
pub struct WarningTableSettings {
    pub hide_issuer: bool,
    pub hide_receiver: bool,
}

/// The column `name` when `shown`, else nothing.
pub open spec fn column_if(shown: bool, name: Seq<char>) -> Seq<Seq<char>> {
    if shown { seq![name] } else { Seq::empty() }
}

/// The names of columns, as text.
pub open spec fn names(v: Seq<&'static str>) -> Seq<Seq<char>> {
    v.map_values(|s: &'static str| s@)
}

/// The columns of a table of titles.
pub open spec fn title_columns(s: TitleTableSettings) -> Seq<Seq<char>> {
    seq!["Submitted"@] + column_if(!s.hide_videoid, "Video ID"@) + seq!["Title"@, "Score"@, "UUID"@]
        + column_if(!s.hide_username, "Username"@) + column_if(!s.hide_userid, "User ID"@)
}

/// Whether a table of thumbnails shows the thumbnails themselves: when the user asked for it
/// and the layout is expanded.
pub open spec fn shows_thumbnails(user: Settings) -> bool {
    user.render_thumbnails_in_tables && user.thumbnail_table_layout == TableLayout::Expanded
}

/// The columns of a table of thumbnails.
pub open spec fn thumbnail_columns(s: ThumbTableSettings, user: Settings) -> Seq<Seq<char>> {
    seq!["Submitted"@] + column_if(!s.hide_videoid, "Video ID"@)
        + seq![if shows_thumbnails(user) { "Thumbnail"@ } else { "Timestamp"@ }, "Score"@, "UUID"@]
        + column_if(!s.hide_username, "Username"@) + column_if(!s.hide_userid, "User ID"@)
}

/// The columns of a table of casual titles.
pub open spec fn casual_columns(s: CasualTableSettings) -> Seq<Seq<char>> {
    column_if(!s.hide_videoid, "Video ID"@) + seq!["Title"@, "Votes"@, "First submitted"@]
}

/// The columns of a table of warnings.
pub open spec fn warning_columns(s: WarningTableSettings) -> Seq<Seq<char>> {
    seq!["Issued"@, "Message"@] + column_if(!s.hide_issuer, "Issuer"@) + column_if(!s.hide_receiver, "Receiver"@)
}

fn push_column(v: &mut Vec<&'static str>, shown: bool, name: &'static str)
    ensures
        names(final(v)@) == names(old(v)@) + column_if(shown, name@),
{
    let ghost before = v@;
    if shown {
        v.push(name);
        proof { assert(names(v@) =~= names(before) + column_if(shown, name@)); }
    } else {
        proof { assert(names(v@) =~= names(before) + column_if(shown, name@)); }
    }
}

/// The columns of a table of titles.
pub fn title_header(s: TitleTableSettings) -> (v: Vec<&'static str>)
    ensures
        names(v@) == title_columns(s),
{
    let mut v: Vec<&'static str> = Vec::new();
    push_column(&mut v, true, "Submitted");
    push_column(&mut v, !s.hide_videoid, "Video ID");
    push_column(&mut v, true, "Title");
    push_column(&mut v, true, "Score");
    push_column(&mut v, true, "UUID");
    push_column(&mut v, !s.hide_username, "Username");
    push_column(&mut v, !s.hide_userid, "User ID");
    proof { assert(names(v@) =~= title_columns(s)); }
    v
}

/// The columns of a table of thumbnails.
pub fn thumbnail_header(s: ThumbTableSettings, user: &Settings) -> (v: Vec<&'static str>)
    ensures
        names(v@) == thumbnail_columns(s, *user),
{
    let rendering = user.render_thumbnails_in_tables && user.thumbnail_table_layout == TableLayout::Expanded;
    let mut v: Vec<&'static str> = Vec::new();
    push_column(&mut v, true, "Submitted");
    push_column(&mut v, !s.hide_videoid, "Video ID");
    push_column(&mut v, true, if rendering { "Thumbnail" } else { "Timestamp" });
    push_column(&mut v, true, "Score");
    push_column(&mut v, true, "UUID");
    push_column(&mut v, !s.hide_username, "Username");
    push_column(&mut v, !s.hide_userid, "User ID");
    proof { assert(names(v@) =~= thumbnail_columns(s, *user)); }
    v
}

/// The columns of a table of casual titles.
pub fn casual_header(s: CasualTableSettings) -> (v: Vec<&'static str>)
    ensures
        names(v@) == casual_columns(s),
{
    let mut v: Vec<&'static str> = Vec::new();
    push_column(&mut v, !s.hide_videoid, "Video ID");
    push_column(&mut v, true, "Title");
    push_column(&mut v, true, "Votes");
    push_column(&mut v, true, "First submitted");
    proof { assert(names(v@) =~= casual_columns(s)); }
    v
}

/// The columns of a table of warnings.
pub fn warning_header(s: WarningTableSettings) -> (v: Vec<&'static str>)
    ensures
        names(v@) == warning_columns(s),
{
    let mut v: Vec<&'static str> = Vec::new();
    push_column(&mut v, true, "Issued");
    push_column(&mut v, true, "Message");
    push_column(&mut v, !s.hide_issuer, "Issuer");
    push_column(&mut v, !s.hide_receiver, "Receiver");
    proof { assert(names(v@) =~= warning_columns(s)); }
    v
}

/// Hiding a column takes exactly that column out of a table of titles: the table has one
/// column fewer for each hidden one, and never fewer than the four always shown.
pub proof fn lemma_title_column_count(s: TitleTableSettings)
    ensures
        title_columns(s).len() == 7 - (if s.hide_videoid { 1int } else { 0 }) - (if s.hide_username { 1int } else { 0 }) - (if s.hide_userid { 1int } else { 0 }),
        title_columns(s).len() >= 4,
{
}

/// How the rows of a table are laid out.
#[derive(Clone, Copy, PartialEq, Eq, Debug, Structural)]
pub struct RowLayout {
    /// Cells may span several lines.
    pub expanded: bool,
    /// Titles are cut to one line.
    pub compressed: bool,
    /// The height, in lines, of the user name and user ID boxes.
    pub textarea_rows: u8,
}

/// How the rows of a table in layout `layout` are laid out.
pub fn row_layout(layout: TableLayout) -> (r: RowLayout)
    ensures
        r.expanded == (layout == TableLayout::Expanded),
        r.compressed == (layout == TableLayout::Compressed),
        r.textarea_rows == (if layout == TableLayout::Compressed { 1u8 } else { 2u8 }),
{
    let compressed = layout == TableLayout::Compressed;
    RowLayout {
        expanded: layout == TableLayout::Expanded,
        compressed,
        textarea_rows: if compressed { 1 } else { 2 },
    }
}

/// What the thumbnail cell of a row shows.
#[derive(Clone, Copy, PartialEq, Eq, Debug, Structural)]
pub enum ThumbnailCell {
    /// A warning that the timestamp is missing, so the thumbnail cannot be drawn.
    TimestampMissing,
    /// The thumbnail itself.
    Rendered,
    /// The timestamp (or the original-thumbnail mark), opening the thumbnail when clicked.
    Timestamp,
}

/// What the thumbnail cell of a row shows: the missing-timestamp warning before all else, then
/// the thumbnail itself when the table shows thumbnails, else the timestamp.
pub fn thumbnail_cell(t: &ApiThumbnail, user: &Settings) -> (c: ThumbnailCell)
    ensures
        c == (if t.timestamp_missing {
            ThumbnailCell::TimestampMissing
        } else if shows_thumbnails(*user) {
            ThumbnailCell::Rendered
        } else {
            ThumbnailCell::Timestamp
        }),
{
    if t.timestamp_missing {
        ThumbnailCell::TimestampMissing
    } else if user.render_thumbnails_in_tables && user.thumbnail_table_layout == TableLayout::Expanded {
        ThumbnailCell::Rendered
    } else {
        ThumbnailCell::Timestamp
    }
}

/// The columns of a table of users.
pub open spec fn user_columns() -> Seq<Seq<char>> {
    seq!["User ID"@, "Flags"@, "Titles"@, "Thumbnails"@, "Last submission"@]
}

/// The columns of a table of users.
pub fn user_header() -> (v: Vec<&'static str>)
    ensures
        names(v@) == user_columns(),
{
    let mut v: Vec<&'static str> = Vec::new();
    push_column(&mut v, true, "User ID");
    push_column(&mut v, true, "Flags");
    push_column(&mut v, true, "Titles");
    push_column(&mut v, true, "Thumbnails");
    push_column(&mut v, true, "Last submission");
    proof { assert(names(v@) =~= user_columns()); }
    v
}

/// The extension a warning was issued for, as its row says it.
pub fn warning_extension_label(e: Extension) -> (l: &'static str)
    ensures
        l@ == (match e {
            Extension::DeArrow => "for DeArrow"@,
            Extension::SponsorBlock => "for SponsorBlock"@,
        }),
{
    match e {
        Extension::DeArrow => "for DeArrow",
        Extension::SponsorBlock => "for SponsorBlock",
    }
}

/// Whether a warning is still in force, as its row says it.
pub fn warning_status_label(active: bool) -> (l: &'static str)
    ensures
        l@ == (if active { "Active"@ } else { "Acknowledged"@ }),
{
    if active { "Active" } else { "Acknowledged" }
}

/// What the title cell of a casual title's row shows.
#[derive(Clone, Copy, PartialEq, Eq, Debug, Structural)]
pub enum CasualTitleCell {
    /// The title saved in the database.
    Saved,
    /// No title is saved: a marker, and the video's current original title instead.
    OriginalInstead,
}

/// What the title cell of a casual title's row shows.
pub fn casual_title_cell(t: &ApiCasualTitle) -> (c: CasualTitleCell)
    ensures
        c == (if t.title is Some { CasualTitleCell::Saved } else { CasualTitleCell::OriginalInstead }),
{
    match t.title {
        Some(_) => CasualTitleCell::Saved,
        None => CasualTitleCell::OriginalInstead,
    }
}

/// A submission that knows when it was submitted.
pub trait SubmittedAt: Sized {
    /// When it was submitted, in milliseconds after the epoch.
    spec fn submitted(&self) -> i64;

    /// When it was submitted.
    fn submitted_at(&self) -> (t: i64)
        ensures
            t == self.submitted();
}

impl SubmittedAt for ApiTitle {
    open spec fn submitted(&self) -> i64 {
        self.time_submitted
    }

    fn submitted_at(&self) -> (t: i64) {
        self.time_submitted
    }
}

impl SubmittedAt for ApiThumbnail {
    open spec fn submitted(&self) -> i64 {
        self.time_submitted
    }

    fn submitted_at(&self) -> (t: i64) {
        self.time_submitted
    }
}

/// Whether `s` runs from the most to the least recently submitted.
pub open spec fn newest_first<T: SubmittedAt>(s: Seq<T>) -> bool {
    forall|i: int, j: int| 0 <= i < j < s.len() ==> (#[trigger] s[i]).submitted() >= (#[trigger] s[j]).submitted()
}

/// The downloaded details, sorted from the most to the least recently submitted, as a table asked
/// to sort shows them: the same details, each as often as before (the order among details
/// submitted at the same time is not fixed).
pub fn sort_newest_first<T: SubmittedAt>(items: Vec<T>) -> (r: Vec<T>)
    ensures
        newest_first(r@),
        r@.to_multiset() == items@.to_multiset(),
{
    broadcast use vstd::seq_lib::group_to_multiset_ensures;
    let mut rest = items;
    let mut sorted: Vec<T> = Vec::new();
    let ghost all = rest@;
    proof {
        assert(sorted@.to_multiset() =~= Multiset::<T>::empty());
        vstd::seq_lib::to_multiset_len(sorted@);
    }
    while rest.len() > 0
        invariant
            newest_first(sorted@),
            sorted@.to_multiset().add(rest@.to_multiset()) == all.to_multiset(),
        decreases rest.len(),
    {
        let ghost before_rest = rest@;
        let x = rest.pop().unwrap();
        proof {
            assert(before_rest == rest@.push(x));
            vstd::seq_lib::to_multiset_build(rest@, x);
        }
        let key = x.submitted_at();
        let mut p: usize = 0;
        while p < sorted.len() && sorted[p].submitted_at() >= key
            invariant
                p <= sorted@.len(),
                forall|q: int| 0 <= q < p ==> (#[trigger] sorted@[q]).submitted() >= key,
            decreases sorted@.len() - p,
        {
            p += 1;
        }
        let ghost before_sorted = sorted@;
        sorted.insert(p, x);
        proof {
            vstd::seq_lib::to_multiset_insert(before_sorted, p as int, x);
            assert(sorted@ == before_sorted.insert(p as int, x));
            assert forall|i: int, j: int| 0 <= i < j < sorted@.len() implies
                (#[trigger] sorted@[i]).submitted() >= (#[trigger] sorted@[j]).submitted() by {
                if p < before_sorted.len() {
                    assert(before_sorted[p as int].submitted() < key);
                }
                if j < p {
                    assert(sorted@[i] == before_sorted[i] && sorted@[j] == before_sorted[j]);
                } else if j == p {
                    assert(sorted@[i] == before_sorted[i]);
                } else if i == p {
                    assert(sorted@[j] == before_sorted[j - 1]);
                    assert(before_sorted[p as int].submitted() >= before_sorted[j - 1].submitted() || j - 1 == p);
                } else if i < p {
                    assert(sorted@[i] == before_sorted[i] && sorted@[j] == before_sorted[j - 1]);
                } else {
                    assert(sorted@[i] == before_sorted[i - 1] && sorted@[j] == before_sorted[j - 1]);
                }
            }
            assert(sorted@.to_multiset().add(rest@.to_multiset()) =~= all.to_multiset());
        }
    }
    proof {
        assert(rest@.to_multiset() =~= Multiset::<T>::empty());
        assert(sorted@.to_multiset().add(rest@.to_multiset()) =~= sorted@.to_multiset());
    }
    sorted
}

} // verus!
