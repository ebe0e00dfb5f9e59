//! The status page: how times and counts are shown, the server's version line, the rows of
//! server statistics, and the client side's status as stats requests come and go.

use chrono::{DateTime, Utc};
use vstd::prelude::*;
use vstd::string::{StringExecFns, StringSliceAdditionalSpecFns};
use vstd::utf8::{decode_utf8, encode_utf8, encode_utf8_decode_utf8, is_char_boundary};

use crate::api::StatusResponse;
use crate::metadata_view::SimpleLoadState;
use crate::numbers::{abbreviated_decimal, decimal, decimal_string, grouped_decimal, signed_decimal, signed_decimal_string, RenderNumber};
use crate::thumbs::CacheStats;
use crate::worker_api::{ThumbgenStats, WorkerStats};

verus! {

/// `YYYY-MM-DD HH:MM:SS`, the UTC time `secs` seconds after the Unix epoch, if chrono can
/// represent it.
pub uninterp spec fn utc_seconds_text(secs: i64) -> Option<Seq<char>>;

/// The same for `millis` milliseconds after the Unix epoch (the milliseconds are not shown).
pub uninterp spec fn utc_millis_text(millis: i64) -> Option<Seq<char>>;

/// `DateTime::from_timestamp(secs, 0)`, then `format("%Y-%m-%d %H:%M:%S")`. Claims: the result
/// is the named value. When chrono gives no time is left unsaid.
#[verifier::external_body]
fn format_utc_seconds(secs: i64) -> (r: Option<String>)
    ensures
        match utc_seconds_text(secs) {
            Some(t) => r matches Some(x) && x@ == t,
            None => r is None,
        },
{
    match DateTime::<Utc>::from_timestamp(secs, 0) {
        Some(dt) => Some(dt.format("%Y-%m-%d %H:%M:%S").to_string()),
        None => None,
    }
}

/// `DateTime::from_timestamp_millis(millis)`, then `format("%Y-%m-%d %H:%M:%S")`. Claims: the
/// result is the named value. When chrono gives no time is left unsaid.
#[verifier::external_body]
fn format_utc_millis(millis: i64) -> (r: Option<String>)
    ensures
        match utc_millis_text(millis) {
            Some(t) => r matches Some(x) && x@ == t,
            None => r is None,
        },
{
    match DateTime::<Utc>::from_timestamp_millis(millis) {
        Some(dt) => Some(dt.format("%Y-%m-%d %H:%M:%S").to_string()),
        None => None,
    }
}

/// A time given in seconds after the epoch, as shown; `None` when it cannot be shown.
pub fn render_seconds(secs: i64) -> (r: Option<String>)
    ensures
        match utc_seconds_text(secs) {
            Some(t) => r matches Some(x) && x@ == t,
            None => r is None,
        },
{
    format_utc_seconds(secs)
}

/// A time given in milliseconds after the epoch, as shown; `None` when it cannot be shown.
pub fn render_millis(millis: i64) -> (r: Option<String>)
    ensures
        match utc_millis_text(millis) {
            Some(t) => r matches Some(x) && x@ == t,
            None => r is None,
        },
{
    format_utc_millis(millis)
}

/// A time given in milliseconds after the epoch, as the tables show it: the time, or the raw
/// number when it cannot be shown as a time.
pub fn render_millis_or_raw(millis: i64) -> (s: String)
    ensures
        s@ == match utc_millis_text(millis) {
            Some(t) => t,
            None => signed_decimal(millis as int),
        },
{
    match format_utc_millis(millis) {
        Some(t) => t,
        None => signed_decimal_string(millis as i128),
    }
}

/// Whole minutes in `ns` nanoseconds, rounded toward zero.
pub open spec fn whole_minutes(ns: int) -> int {
    if ns >= 0 { ns / 60_000_000_000 } else { -((-ns) / 60_000_000_000) }
}

/// The footer's time: the time and how many whole minutes ago it was, given the current time in
/// nanoseconds after the epoch; `...` when it cannot be shown.
pub open spec fn footer_time_text(millis: i64, now_nanos: i64) -> Seq<char> {
    match utc_millis_text(millis) {
        None => "..."@,
        Some(t) => t + " UTC ("@ + signed_decimal(whole_minutes(now_nanos - millis * 1_000_000)) + " minutes ago)"@,
    }
}

/// The footer's time of the last update or of the database snapshot (in milliseconds after the
/// epoch), given the current time (in nanoseconds after the epoch); `...` when it is not known
/// or cannot be shown.
pub fn footer_time(millis: Option<i64>, now_nanos: i64) -> (s: String)
    ensures
        s@ == match millis {
            None => "..."@,
            Some(ms) => footer_time_text(ms, now_nanos),
        },
{
    let ms = match millis {
        None => { return String::from_str("..."); },
        Some(ms) => ms,
    };
    match format_utc_millis(ms) {
        None => String::from_str("..."),
        Some(t) => {
            let delta: i128 = now_nanos as i128 - ms as i128 * 1_000_000;
            let minutes: i128 = if delta >= 0 {
                (delta as u128 / 60_000_000_000) as i128
            } else {
                -(((-delta) as u128 / 60_000_000_000) as i128)
            };
            proof {
                assert(minutes == whole_minutes(now_nanos - ms * 1_000_000));
            }
            let mut s = t;
            s.append(" UTC (");
            let m = signed_decimal_string(minutes);
            s.append(m.as_str());
            s.append(" minutes ago)");
            s
        },
    }
}

/// A count as a cell shows it: below 1000 the plain number; from 1000 on, the abbreviated
/// number, switching to the full grouped number on hover.
#[derive(Debug)]
pub enum NumberCell {
    Plain(String),
    Switch { short: String, full: String },
}

/// A count shown as `cell`.
pub open spec fn shows_count(cell: NumberCell, n: usize) -> bool {
    if n >= 1000 {
        cell matches NumberCell::Switch { short, full }
            && short@ == abbreviated_decimal(n as int) && full@ == grouped_decimal(n as int)
    } else {
        cell matches NumberCell::Plain(p) && p@ == decimal(n as nat)
    }
}

/// A count as a cell shows it.
pub fn number_cell(n: usize) -> (c: NumberCell)
    ensures
        shows_count(c, n),
{
    if n >= 1000 {
        NumberCell::Switch { short: n.abbreviate_int(), full: n.render_int() }
    } else {
        NumberCell::Plain(decimal_string(n as u128))
    }
}

/// What a row of counts shows: one count, or two counts side by side.
#[derive(Clone, Copy, PartialEq, Eq, Debug, Structural)]
pub enum CountValue {
    One(usize),
    Pair(usize, usize),
}

/// Two counts shown as `cell`, separated by ` / `: plain below 1000; when either reaches 1000,
/// both abbreviated, switching to both in full on hover.
pub open spec fn shows_pair(cell: NumberCell, a: usize, b: usize) -> bool {
    if a >= 1000 || b >= 1000 {
        cell matches NumberCell::Switch { short, full }
            && short@ == abbreviated_decimal(a as int) + " / "@ + abbreviated_decimal(b as int)
            && full@ == grouped_decimal(a as int) + " / "@ + grouped_decimal(b as int)
    } else {
        cell matches NumberCell::Plain(p) && p@ == decimal(a as nat) + " / "@ + decimal(b as nat)
    }
}

/// What `cell` shows of `v`.
pub open spec fn shows_value(cell: NumberCell, v: CountValue) -> bool {
    match v {
        CountValue::One(n) => shows_count(cell, n),
        CountValue::Pair(a, b) => shows_pair(cell, a, b),
    }
}

/// Two counts as a cell shows them.
pub fn pair_cell(a: usize, b: usize) -> (c: NumberCell)
    ensures
        shows_pair(c, a, b),
{
    if a >= 1000 || b >= 1000 {
        let mut short = a.abbreviate_int();
        short.append(" / ");
        let sb = b.abbreviate_int();
        short.append(sb.as_str());
        let mut full = a.render_int();
        full.append(" / ");
        let fb = b.render_int();
        full.append(fb.as_str());
        NumberCell::Switch { short, full }
    } else {
        let mut p = decimal_string(a as u128);
        p.append(" / ");
        let q = decimal_string(b as u128);
        p.append(q.as_str());
        NumberCell::Plain(p)
    }
}

/// A row of counts on the status page; the parse errors row also links to the errors page
/// (`ApiEndpoint::Errors` under the site's origin).
#[derive(Debug)]
pub struct CountRow {
    pub label: &'static str,
    pub cell: NumberCell,
    pub links_to_errors: bool,
}

/// The rows of counts the status page lists, in order, each only where the server gave what
/// it shows: label, value, and whether the row links to the errors page. The cached channels
/// row shows the channels cached in memory and on disk, and needs both.
pub open spec fn count_entries(s: StatusResponse) -> Seq<(Seq<char>, CountValue, bool)> {
    entry_if("Title count"@, s.titles)
        + entry_if("Thumbnail count"@, s.thumbnails)
        + entry_if("Username count"@, s.usernames)
        + entry_if("VIPs"@, s.vip_users)
        + entry_if("Warnings"@, s.warnings)
        + entry_if("Unique strings"@, s.string_count)
        + entry_if("Videos with durations"@, s.video_infos)
        + entry_if("Unmarked video segments"@, s.uncut_segments)
        + pair_if("Cached channels"@, s.cached_channels, s.fscached_channels)
        + errors_if(s.errors)
}

/// One labelled count where it is given, none where it is not.
pub open spec fn entry_if(label: Seq<char>, count: Option<usize>) -> Seq<(Seq<char>, CountValue, bool)> {
    match count {
        Some(n) => seq![(label, CountValue::One(n), false)],
        None => Seq::empty(),
    }
}

/// Two labelled counts where both are given, none otherwise.
pub open spec fn pair_if(label: Seq<char>, a: Option<usize>, b: Option<usize>) -> Seq<(Seq<char>, CountValue, bool)> {
    match (a, b) {
        (Some(x), Some(y)) => seq![(label, CountValue::Pair(x, y), false)],
        _ => Seq::empty(),
    }
}

/// The parse errors row, linking to the errors page, where the count is given.
pub open spec fn errors_if(count: Option<usize>) -> Seq<(Seq<char>, CountValue, bool)> {
    match count {
        Some(n) => seq![("Parse errors"@, CountValue::One(n), true)],
        None => Seq::empty(),
    }
}

/// The rows show exactly the entries: the same labels, values and links, in order.
pub open spec fn rows_show(rows: Seq<CountRow>, entries: Seq<(Seq<char>, CountValue, bool)>) -> bool {
    &&& rows.len() == entries.len()
    &&& forall|i: int| 0 <= i < rows.len() ==> (#[trigger] rows[i]).label@ == entries[i].0
        && shows_value(rows[i].cell, entries[i].1) && rows[i].links_to_errors == entries[i].2
}

fn push_row(
    rows: &mut Vec<CountRow>,
    row: CountRow,
    Ghost(entries): Ghost<Seq<(Seq<char>, CountValue, bool)>>,
    Ghost(entry): Ghost<(Seq<char>, CountValue, bool)>,
)
    requires
        rows_show(old(rows)@, entries),
        row.label@ == entry.0 && shows_value(row.cell, entry.1) && row.links_to_errors == entry.2,
    ensures
        rows_show(final(rows)@, entries + seq![entry]),
{
    rows.push(row);
    proof {
        let e2 = entries + seq![entry];
        assert forall|i: int| 0 <= i < rows@.len() implies (#[trigger] rows@[i]).label@ == e2[i].0
            && shows_value(rows@[i].cell, e2[i].1) && rows@[i].links_to_errors == e2[i].2 by {
            if i < entries.len() {
                assert(rows@[i] == old(rows)@[i]);
            }
        }
    }
}

fn push_count(rows: &mut Vec<CountRow>, label: &'static str, count: Option<usize>, Ghost(entries): Ghost<Seq<(Seq<char>, CountValue, bool)>>)
    requires
        rows_show(old(rows)@, entries),
    ensures
        rows_show(final(rows)@, entries + entry_if(label@, count)),
{
    match count {
        Some(n) => {
            push_row(rows, CountRow { label, cell: number_cell(n), links_to_errors: false }, Ghost(entries),
                Ghost((label@, CountValue::One(n), false)));
        },
        None => {
            proof { assert(entries + entry_if(label@, count) =~= entries); }
        },
    }
}

/// The rows of counts on the status page.
pub fn count_rows(status: &StatusResponse) -> (rows: Vec<CountRow>)
    ensures
        rows_show(rows@, count_entries(*status)),
{
    let mut rows: Vec<CountRow> = Vec::new();
    proof { assert(rows_show(rows@, Seq::empty())); }
    push_count(&mut rows, "Title count", status.titles, Ghost(Seq::empty()));
    let ghost e1 = Seq::<(Seq<char>, CountValue, bool)>::empty() + entry_if("Title count"@, status.titles);
    push_count(&mut rows, "Thumbnail count", status.thumbnails, Ghost(e1));
    let ghost e2 = e1 + entry_if("Thumbnail count"@, status.thumbnails);
    push_count(&mut rows, "Username count", status.usernames, Ghost(e2));
    let ghost e3 = e2 + entry_if("Username count"@, status.usernames);
    push_count(&mut rows, "VIPs", status.vip_users, Ghost(e3));
    let ghost e4 = e3 + entry_if("VIPs"@, status.vip_users);
    push_count(&mut rows, "Warnings", status.warnings, Ghost(e4));
    let ghost e5 = e4 + entry_if("Warnings"@, status.warnings);
    push_count(&mut rows, "Unique strings", status.string_count, Ghost(e5));
    let ghost e6 = e5 + entry_if("Unique strings"@, status.string_count);
    push_count(&mut rows, "Videos with durations", status.video_infos, Ghost(e6));
    let ghost e7 = e6 + entry_if("Videos with durations"@, status.video_infos);
    push_count(&mut rows, "Unmarked video segments", status.uncut_segments, Ghost(e7));
    let ghost e8 = e7 + entry_if("Unmarked video segments"@, status.uncut_segments);
    match (status.cached_channels, status.fscached_channels) {
        (Some(mem), Some(fs)) => {
            push_row(&mut rows, CountRow { label: "Cached channels", cell: pair_cell(mem, fs), links_to_errors: false },
                Ghost(e8), Ghost(("Cached channels"@, CountValue::Pair(mem, fs), false)));
        },
        _ => {
            proof { assert(e8 + pair_if("Cached channels"@, status.cached_channels, status.fscached_channels) =~= e8); }
        },
    }
    let ghost e9 = e8 + pair_if("Cached channels"@, status.cached_channels, status.fscached_channels);
    match status.errors {
        Some(n) => {
            push_row(&mut rows, CountRow { label: "Parse errors", cell: number_cell(n), links_to_errors: true },
                Ghost(e9), Ghost(("Parse errors"@, CountValue::One(n), true)));
        },
        None => {
            proof { assert(e9 + errors_if(status.errors) =~= e9); }
        },
    }
    proof {
        assert(Seq::<(Seq<char>, CountValue, bool)>::empty() + entry_if("Title count"@, status.titles) =~= entry_if("Title count"@, status.titles));
        assert(e9 + errors_if(status.errors) =~= count_entries(*status));
    }
    rows
}

/// The first 8 bytes of a text, as text.
pub open spec fn first_eight_bytes(h: Seq<char>) -> Seq<char> {
    decode_utf8(encode_utf8(h).subrange(0, 8))
}

/// The server's version line: the version and the first 8 bytes of the commit hash,
/// with ` + changes` when the server's tree was dirty; the whole hash when the version is not
/// known; the version alone when the hash is not known; nothing when neither is.
pub open spec fn server_version_line(version: Option<Seq<char>>, hash: Option<Seq<char>>, dirty: Option<bool>) -> Option<Seq<char>> {
    match hash {
        Some(h) => Some(match version {
            Some(v) => if dirty == Some(true) {
                v + " / "@ + first_eight_bytes(h) + " + changes"@
            } else {
                v + " / "@ + first_eight_bytes(h)
            },
            None => if dirty == Some(true) { h + " + changes"@ } else { h },
        }),
        None => version,
    }
}

/// The client's commit row on the status page: the first 8 bytes of the commit hash (a link to
/// the commit), and whether the build had uncommitted changes; `None` ("Unknown") when the
/// hash is not known.
#[derive(Debug)]
pub struct CommitCell {
    pub short_hash: String,
    /// Whether " + uncommitted changes" follows the hash.
    pub uncommitted: bool,
}

/// The client's commit row: the first 8 bytes of the hash, and whether the tree was dirty
/// (known to be). A hash must have a character boundary after its first 8 bytes.
pub fn client_commit_cell(hash: Option<&str>, dirty: Option<bool>) -> (r: Option<CommitCell>)
    requires
        hash matches Some(h) ==> is_char_boundary(encode_utf8(h@), 8),
    ensures
        hash is None ==> r is None,
        hash matches Some(h) ==> (r matches Some(c) && c.short_hash@ == first_eight_bytes(h@)
            && c.uncommitted == (dirty == Some(true))),
{
    match hash {
        None => None,
        Some(whole) => {
            let (short, _) = whole.split_at(8);
            proof {
                encode_utf8_decode_utf8(short@);
                assert(short.spec_bytes() =~= encode_utf8(whole@).subrange(0, 8));
            }
            let uncommitted = match dirty {
                Some(true) => true,
                _ => false,
            };
            Some(CommitCell { short_hash: short.to_string(), uncommitted })
        },
    }
}

/// The text of an optional string.
pub open spec fn opt_view(s: Option<String>) -> Option<Seq<char>> {
    match s {
        Some(x) => Some(x@),
        None => None,
    }
}

/// The server's version line, from the status it reported. A commit hash must have a
/// character boundary after its first 8 bytes (as a git hash, being ASCII and longer, has).
pub fn server_version_text(status: &StatusResponse) -> (r: Option<String>)
    requires
        status.server_git_hash matches Some(h) ==> is_char_boundary(encode_utf8(h@), 8),
    ensures
        opt_view(r) == server_version_line(opt_view(status.server_version), opt_view(status.server_git_hash), status.server_git_dirty),
{
    match &status.server_git_hash {
        Some(hash) => {
            let whole = hash.as_str();
            let (short, _) = whole.split_at(8);
            proof {
                encode_utf8_decode_utf8(short@);
                assert(short.spec_bytes() =~= encode_utf8(hash@).subrange(0, 8));
                assert(short@ == first_eight_bytes(hash@));
            }
            let line = match &status.server_version {
                Some(v) => {
                    let mut s = v.clone();
                    s.append(" / ");
                    s.append(short);
                    match status.server_git_dirty {
                        Some(true) => s.append(" + changes"),
                        _ => {},
                    }
                    s
                },
                None => {
                    let mut s = hash.clone();
                    match status.server_git_dirty {
                        Some(true) => s.append(" + changes"),
                        _ => {},
                    }
                    s
                },
            };
            Some(line)
        },
        None => match &status.server_version {
            Some(v) => Some(v.clone()),
            None => None,
        },
    }
}

/// The cached thumbnails cell: `<thumbs> (<in use> in use)`.
pub fn cached_thumbs_text(stats: &CacheStats) -> (s: String)
    ensures
        s@ == decimal(stats.thumbs as nat) + " ("@ + decimal(stats.in_use as nat) + " in use)"@,
{
    let mut s = decimal_string(stats.thumbs as u128);
    s.append(" (");
    let in_use = decimal_string(stats.in_use as u128);
    s.append(in_use.as_str());
    s.append(" in use)");
    s
}

/// The shared worker, as the page sees it.
#[derive(Debug)]
pub enum WorkerState {
    Loading,
    Ready,
    /// It failed, described by this text.
    Failed(String),
}

/// The shared worker, as the page shows it.
#[derive(Debug)]
pub enum WorkerStatus {
    Initializing,
    Ready { stats: SimpleLoadState<WorkerStats> },
    Failed { reason: String },
}

/// The thumbnail generator, as the page sees it: not known yet, local (its statistics are at
/// hand), or the shared worker (they must be asked for).
#[derive(Debug)]
pub enum ThumbgenSource {
    Unknown,
    Local(ThumbgenStats),
    Remote,
}

/// What a refresh of the client status asks of the caller.
#[derive(Clone, Copy, PartialEq, Eq, Debug, Structural)]
pub struct RefreshPlan {
    /// The version number the statistics answers must carry.
    pub version: u8,
    /// Whether the worker's statistics must be requested.
    pub fetch_worker_stats: bool,
    /// Whether the thumbnail generator's statistics must be requested.
    pub fetch_thumbgen_stats: bool,
    /// Whether the view changed.
    pub changed: bool,
}

/// The client side of the status page.
pub struct ClientStatus {
    worker_status: WorkerStatus,
    thumbgen_stats: SimpleLoadState<ThumbgenStats>,
    version: u8,
}

impl ClientStatus {
    /// The worker as shown.
    pub closed spec fn worker(&self) -> WorkerStatus {
        self.worker_status
    }

    /// The generator's statistics as shown.
    pub closed spec fn thumbgen(&self) -> SimpleLoadState<ThumbgenStats> {
        self.thumbgen_stats
    }

    /// The version number that statistics answers must carry.
    pub closed spec fn version(&self) -> u8 {
        self.version
    }

    /// A page that has shown nothing yet.
    pub fn new() -> (s: Self)
        ensures
            s.worker() is Initializing,
            s.thumbgen() is Loading,
            s.version() == 0,
    {
        ClientStatus { worker_status: WorkerStatus::Initializing, thumbgen_stats: SimpleLoadState::Loading, version: 0 }
    }

    /// Starts a refresh under a new version number: the worker's status follows its state
    /// (its statistics are requested whenever it is ready, and show as loading when it just
    /// became ready), and the generator's statistics are taken when local, requested when
    /// remote.
    pub fn refresh(&mut self, worker: &WorkerState, thumbgen: ThumbgenSource) -> (p: RefreshPlan)
        ensures
            p.version == final(self).version(),
            p.version == (if old(self).version() == u8::MAX { 0 } else { (old(self).version() + 1) as u8 }),
            p.fetch_worker_stats == (*worker is Ready),
            p.fetch_thumbgen_stats == (thumbgen is Remote),
            match *worker {
                WorkerState::Loading => final(self).worker() is Initializing,
                WorkerState::Ready => final(self).worker() is Ready
                    && (!(old(self).worker() is Ready) ==> final(self).worker() == (WorkerStatus::Ready { stats: SimpleLoadState::Loading }))
                    && (old(self).worker() is Ready ==> final(self).worker() == old(self).worker()),
                WorkerState::Failed(reason) => (old(self).worker() is Failed ==> final(self).worker() == old(self).worker())
                    && (!(old(self).worker() is Failed) ==> (final(self).worker() matches WorkerStatus::Failed { reason: r } && r@ == reason@)),
            },
            match thumbgen {
                ThumbgenSource::Local(stats) => final(self).thumbgen() == SimpleLoadState::Ready(stats),
                _ => final(self).thumbgen() == old(self).thumbgen(),
            },
            p.changed == ((thumbgen is Local) || match *worker {
                WorkerState::Loading => !(old(self).worker() is Initializing),
                WorkerState::Ready => !(old(self).worker() is Ready),
                WorkerState::Failed(_) => !(old(self).worker() is Failed),
            }),
    {
        let version = self.version.wrapping_add(1);
        self.version = version;
        let mut changed = false;
        let mut fetch_worker_stats = false;
        match worker {
            WorkerState::Loading => {
                if !matches!(self.worker_status, WorkerStatus::Initializing) {
                    self.worker_status = WorkerStatus::Initializing;
                    changed = true;
                }
            },
            WorkerState::Ready => {
                if !matches!(self.worker_status, WorkerStatus::Ready { .. }) {
                    self.worker_status = WorkerStatus::Ready { stats: SimpleLoadState::Loading };
                    changed = true;
                }
                fetch_worker_stats = true;
            },
            WorkerState::Failed(reason) => {
                if !matches!(self.worker_status, WorkerStatus::Failed { .. }) {
                    self.worker_status = WorkerStatus::Failed { reason: reason.clone() };
                    changed = true;
                }
            },
        }
        let fetch_thumbgen_stats = match thumbgen {
            ThumbgenSource::Unknown => false,
            ThumbgenSource::Local(stats) => {
                self.thumbgen_stats = SimpleLoadState::Ready(stats);
                changed = true;
                false
            },
            ThumbgenSource::Remote => true,
        };
        RefreshPlan { version, fetch_worker_stats, fetch_thumbgen_stats, changed }
    }

    /// Takes the worker's statistics answered for the refresh numbered `version` (`None` when
    /// the request failed). A stale answer, or one that comes while the worker is not shown as
    /// ready, changes nothing. Returns whether the view changed.
    pub fn worker_stats_arrived(&mut self, version: u8, stats: Option<WorkerStats>) -> (changed: bool)
        ensures
            changed == (version == old(self).version() && old(self).worker() is Ready),
            final(self).version() == old(self).version(),
            final(self).thumbgen() == old(self).thumbgen(),
            changed ==> final(self).worker() == (WorkerStatus::Ready { stats: match stats {
                Some(s) => SimpleLoadState::Ready(s),
                None => SimpleLoadState::Failed,
            } }),
            !changed ==> final(self).worker() == old(self).worker(),
    {
        if version != self.version {
            return false;
        }
        if matches!(self.worker_status, WorkerStatus::Ready { .. }) {
            self.worker_status = WorkerStatus::Ready { stats: match stats {
                Some(s) => SimpleLoadState::Ready(s),
                None => SimpleLoadState::Failed,
            } };
            true
        } else {
            false
        }
    }

    /// Takes the generator's statistics answered for the refresh numbered `version` (`None`
    /// when the request failed). A stale answer changes nothing. Returns whether the view
    /// changed.
    pub fn thumbgen_stats_arrived(&mut self, version: u8, stats: Option<ThumbgenStats>) -> (changed: bool)
        ensures
            changed == (version == old(self).version()),
            final(self).version() == old(self).version(),
            final(self).worker() == old(self).worker(),
            changed ==> final(self).thumbgen() == match stats {
                Some(s) => SimpleLoadState::Ready(s),
                None => SimpleLoadState::Failed,
            },
            !changed ==> final(self).thumbgen() == old(self).thumbgen(),
    {
        if version != self.version {
            return false;
        }
        self.thumbgen_stats = match stats {
            Some(s) => SimpleLoadState::Ready(s),
            None => SimpleLoadState::Failed,
        };
        true
    }

    /// The label of the worker's status.
    pub fn worker_label(&self) -> (s: &'static str)
        ensures
            s@ == match self.worker() {
                WorkerStatus::Initializing => "Initializing"@,
                WorkerStatus::Ready { .. } => "Ready"@,
                WorkerStatus::Failed { .. } => "Disabled"@,
            },
    {
        match self.worker_status {
            WorkerStatus::Initializing => "Initializing",
            WorkerStatus::Ready { .. } => "Ready",
            WorkerStatus::Failed { .. } => "Disabled",
        }
    }
}

} // verus!
