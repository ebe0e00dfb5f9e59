//! The search fields: what a typed or pasted value searches for, and where it leads.

use regex::Regex;
use vstd::prelude::*;
use vstd::string::{StrSliceExecFns, StringExecFns};

use crate::web_url::{
    last_url_segment, last_url_segment_of, query_or_last_segment_of, url_query_or_last_segment,
};

verus! {

#[verifier::external_type_specification]
#[verifier::external_body]
pub struct ExRegexError(regex::Error);

/// Canonical UUIDs, in lower case.
pub const UUID_PATTERN: &'static str = r"^[0-9a-f]{8}\-(?:[0-9a-f]{4}-){3}[0-9a-f]{12}$";
/// SHA-256 digests in lower-case hexadecimal, as public user IDs are.
pub const SHA256_PATTERN: &'static str = r"^[0-9a-f]{64}$";
/// YouTube channel IDs.
pub const UCID_PATTERN: &'static str = r"^UC(?-u:[\w-]){22}$";
/// YouTube channel handles.
pub const HANDLE_PATTERN: &'static str = r"^@[\w.-]{3,30}$";
/// YouTube video IDs.
pub const VIDEO_ID_PATTERN: &'static str = r"^[\w\d_-]{11}$";

/// Whether the regular expression `pattern` matches somewhere in `haystack`.
pub uninterp spec fn regex_matches(pattern: Seq<char>, haystack: Seq<char>) -> bool;

/// Whether `Regex::new` compiles `pattern` (with its default limits).
pub uninterp spec fn regex_compiles(pattern: Seq<char>) -> bool;

/// Whether `pattern` compiles and matches somewhere in `haystack`.
pub open spec fn pattern_accepts(pattern: Seq<char>, haystack: Seq<char>) -> bool {
    regex_compiles(pattern) && regex_matches(pattern, haystack)
}

/// `Regex::new(pattern)`, then `Regex::is_match(haystack)`. Claims: the call fails exactly when
/// the pattern does not compile, a value that depends on the pattern alone; otherwise the answer
/// is the named match. Which patterns compile is left unsaid.
#[verifier::external_body]
fn regex_is_match(pattern: &str, haystack: &str) -> (r: Result<bool, regex::Error>)
    ensures
        r is Ok <==> regex_compiles(pattern@),
        r matches Ok(b) ==> b == regex_matches(pattern@, haystack@),
{
    Ok(Regex::new(pattern)?.is_match(haystack))
}

/// Unicode's `White_Space` characters, those that `str::trim` removes.
pub open spec fn is_white_space(c: char) -> bool {
    let n = c as u32;
    ||| 0x9 <= n <= 0xd
    ||| n == 0x20
    ||| n == 0x85
    ||| n == 0xa0
    ||| n == 0x1680
    ||| 0x2000 <= n <= 0x200a
    ||| n == 0x2028
    ||| n == 0x2029
    ||| n == 0x202f
    ||| n == 0x205f
    ||| n == 0x3000
}

/// `s` without its leading white space.
pub open spec fn trim_front(s: Seq<char>) -> Seq<char>
    decreases s.len(),
{
    if s.len() > 0 && is_white_space(s[0]) {
        trim_front(s.drop_first())
    } else {
        s
    }
}

/// `s` without its trailing white space.
pub open spec fn trim_back(s: Seq<char>) -> Seq<char>
    decreases s.len(),
{
    if s.len() > 0 && is_white_space(s.last()) {
        trim_back(s.drop_last())
    } else {
        s
    }
}

/// `s` without its leading and trailing white space.
pub open spec fn trimmed(s: Seq<char>) -> Seq<char> {
    trim_back(trim_front(s))
}

proof fn lemma_trim_front_starts_clean(s: Seq<char>)
    ensures
        trim_front(s).len() > 0 ==> !is_white_space(trim_front(s)[0]),
    decreases s.len(),
{
    if s.len() > 0 && is_white_space(s[0]) {
        lemma_trim_front_starts_clean(s.drop_first());
    }
}

proof fn lemma_trim_back_is_clean_prefix(s: Seq<char>)
    ensures
        trim_back(s).len() <= s.len(),
        trim_back(s) == s.take(trim_back(s).len() as int),
        trim_back(s).len() > 0 ==> !is_white_space(trim_back(s).last()),
    decreases s.len(),
{
    if s.len() > 0 && is_white_space(s.last()) {
        lemma_trim_back_is_clean_prefix(s.drop_last());
        let t = trim_back(s.drop_last());
        assert(s.drop_last().take(t.len() as int) =~= s.take(t.len() as int));
    } else {
        assert(s.take(s.len() as int) =~= s);
    }
}

/// Trimming leaves no white space at either end, so trimming again changes nothing.
pub proof fn lemma_trim_idempotent(s: Seq<char>)
    ensures
        trimmed(s).len() > 0 ==> !is_white_space(trimmed(s)[0]) && !is_white_space(trimmed(s).last()),
        trimmed(trimmed(s)) == trimmed(s),
{
    let u = trim_front(s);
    let t = trim_back(u);
    lemma_trim_front_starts_clean(s);
    lemma_trim_back_is_clean_prefix(u);
    if t.len() > 0 {
        assert(t[0] == u.take(t.len() as int)[0]);
        assert(trim_front(t) == t);
        assert(trim_back(t) == t);
    } else {
        assert(trim_front(t) == t);
        assert(trim_back(t) == t);
    }
}

fn white_space(c: char) -> (b: bool)
    ensures
        b == is_white_space(c),
{
    let n = c as u32;
    (0x9 <= n && n <= 0xd) || n == 0x20 || n == 0x85 || n == 0xa0 || n == 0x1680
        || (0x2000 <= n && n <= 0x200a) || n == 0x2028 || n == 0x2029 || n == 0x202f
        || n == 0x205f || n == 0x3000
}

/// `s` without its leading and trailing white space.
pub fn trim(s: &str) -> (t: &str)
    ensures
        t@ == trimmed(s@),
{
    let n = s.unicode_len();
    let mut i: usize = 0;
    proof { assert(s@.subrange(0, n as int) =~= s@); }
    while i < n && white_space(s.get_char(i))
        invariant
            i <= n,
            n == s@.len(),
            trim_front(s@) == trim_front(s@.subrange(i as int, n as int)),
        decreases n - i,
    {
        proof { assert(s@.subrange(i + 1, n as int) =~= s@.subrange(i as int, n as int).drop_first()); }
        i += 1;
    }
    proof {
        let rest = s@.subrange(i as int, n as int);
        if i < n {
            assert(rest[0] == s@[i as int]);
        }
        assert(trim_front(rest) == rest);
    }
    let mut j: usize = n;
    while j > i && white_space(s.get_char(j - 1))
        invariant
            i <= j <= n,
            n == s@.len(),
            trim_front(s@) == s@.subrange(i as int, n as int),
            trim_back(s@.subrange(i as int, n as int)) == trim_back(s@.subrange(i as int, j as int)),
        decreases j,
    {
        proof { assert(s@.subrange(i as int, j - 1) =~= s@.subrange(i as int, j as int).drop_last()); }
        j -= 1;
    }
    proof {
        let kept = s@.subrange(i as int, j as int);
        if j > i {
            assert(kept.last() == s@[j - 1]);
        }
        assert(trim_back(kept) == kept);
    }
    s.substring_char(i, j)
}

/// The pages of the browser.
#[derive(Debug)]
pub enum MainRoute {
    Home,
    Unverified,
    Broken,
    Video { id: String },
    Channel { id: String },
    User { id: String },
    UUID { id: String },
    NotImplemented,
    NotFound,
}

/// The title of the browser window on a page.
pub open spec fn route_title(route: MainRoute) -> Seq<char> {
    match route {
        MainRoute::Home => "DeArrow Browser"@,
        MainRoute::Unverified => "Unverified titles - DeArrow Browser"@,
        MainRoute::Broken => "Broken entries - DeArrow Browser"@,
        MainRoute::NotFound => "Page not found - DeArrow Browser"@,
        MainRoute::NotImplemented => "Not implemented - DeArrow Browser"@,
        MainRoute::Video { id } => "VideoID "@ + id@ + " - DeArrow Browser"@,
        MainRoute::Channel { id } => "Channel "@ + id@ + " - DeArrow Browser"@,
        MainRoute::User { id } => "UserID "@ + id@ + " - Dearrow Browser"@,
        MainRoute::UUID { id } => "UUID "@ + id@ + " - Dearrow Browser"@,
    }
}

fn framed(prefix: &str, id: &String, suffix: &str) -> (s: String)
    ensures
        s@ == prefix@ + id@ + suffix@,
{
    let mut s = String::from_str(prefix);
    s.append(id.as_str());
    s.append(suffix);
    s
}

impl MainRoute {
    /// The title of the browser window on this page.
    pub fn title(&self) -> (t: String)
        ensures
            t@ == route_title(*self),
    {
        match self {
            MainRoute::Home => String::from_str("DeArrow Browser"),
            MainRoute::Unverified => String::from_str("Unverified titles - DeArrow Browser"),
            MainRoute::Broken => String::from_str("Broken entries - DeArrow Browser"),
            MainRoute::NotFound => String::from_str("Page not found - DeArrow Browser"),
            MainRoute::NotImplemented => String::from_str("Not implemented - DeArrow Browser"),
            MainRoute::Video { id } => framed("VideoID ", id, " - DeArrow Browser"),
            MainRoute::Channel { id } => framed("Channel ", id, " - DeArrow Browser"),
            MainRoute::User { id } => framed("UserID ", id, " - Dearrow Browser"),
            MainRoute::UUID { id } => framed("UUID ", id, " - Dearrow Browser"),
        }
    }
}

/// The four search fields.
#[derive(Clone, Copy, PartialEq, Eq, Debug, Structural)]
pub enum SearchField {
    Uuid,
    VideoId,
    UserId,
    Channel,
}

/// `route` is the page of `field`'s kind for `id`.
pub open spec fn routes_to(route: MainRoute, field: SearchField, id: Seq<char>) -> bool {
    match field {
        SearchField::Uuid => route matches MainRoute::UUID { id: x } && x@ == id,
        SearchField::VideoId => route matches MainRoute::Video { id: x } && x@ == id,
        SearchField::UserId => route matches MainRoute::User { id: x } && x@ == id,
        SearchField::Channel => route matches MainRoute::Channel { id: x } && x@ == id,
    }
}

/// `found`, or `fallback` when nothing was found.
pub open spec fn or_else(found: Option<Seq<char>>, fallback: Seq<char>) -> Seq<char> {
    match found {
        Some(x) => x,
        None => fallback,
    }
}

/// What text typed into a field and confirmed with Enter searches for: the trimmed text, taken
/// as is for UUIDs; for video IDs, the `v` query parameter or else the last non-empty path
/// segment of the URL it parses to; for the others, that last segment; the trimmed text where
/// none is found.
pub open spec fn typed_search(field: SearchField, text: Seq<char>) -> Seq<char> {
    let t = trimmed(text);
    match field {
        SearchField::Uuid => t,
        SearchField::VideoId => or_else(query_or_last_segment_of(t, "v"@), t),
        _ => or_else(last_url_segment_of(t), t),
    }
}

/// What pasted text is taken for: as typed text is, except that a pasted UUID is also taken
/// from the last path segment of a URL.
pub open spec fn pasted_search(field: SearchField, text: Seq<char>) -> Seq<char> {
    let t = trimmed(text);
    match field {
        SearchField::VideoId => or_else(query_or_last_segment_of(t, "v"@), t),
        _ => or_else(last_url_segment_of(t), t),
    }
}

/// Whether pasted text taken for `value` is a well-formed search of `field`'s kind: a UUID, a
/// SHA-256 digest for user IDs, a video ID, or a channel handle or channel ID, by patterns that
/// compile.
pub open spec fn accepts_pasted(field: SearchField, value: Seq<char>) -> bool {
    match field {
        SearchField::Uuid => pattern_accepts(UUID_PATTERN@, value),
        SearchField::UserId => pattern_accepts(SHA256_PATTERN@, value),
        SearchField::VideoId => pattern_accepts(VIDEO_ID_PATTERN@, value),
        SearchField::Channel => pattern_accepts(HANDLE_PATTERN@, value) || pattern_accepts(UCID_PATTERN@, value),
    }
}

fn route_to(field: SearchField, id: String) -> (r: MainRoute)
    ensures
        routes_to(r, field, id@),
{
    match field {
        SearchField::Uuid => MainRoute::UUID { id },
        SearchField::VideoId => MainRoute::Video { id },
        SearchField::UserId => MainRoute::User { id },
        SearchField::Channel => MainRoute::Channel { id },
    }
}

fn searched_value(field: SearchField, trimmed_text: &str, from_url_too: bool) -> (s: String)
    ensures
        field == SearchField::VideoId ==> s@ == or_else(query_or_last_segment_of(trimmed_text@, "v"@), trimmed_text@),
        field != SearchField::VideoId && (from_url_too || field != SearchField::Uuid)
            ==> s@ == or_else(last_url_segment_of(trimmed_text@), trimmed_text@),
        field == SearchField::Uuid && !from_url_too ==> s@ == trimmed_text@,
{
    let found = match field {
        SearchField::VideoId => url_query_or_last_segment(trimmed_text, "v"),
        SearchField::Uuid => if from_url_too { last_url_segment(trimmed_text) } else { None },
        _ => last_url_segment(trimmed_text),
    };
    match found {
        Some(x) => x,
        None => trimmed_text.to_owned(),
    }
}

/// The page a key press in a search field leads to: none unless the key is Enter.
pub fn search_on_key(field: SearchField, key: &str, text: &str) -> (r: Option<MainRoute>)
    ensures
        key@ != "Enter"@ ==> r is None,
        key@ == "Enter"@ ==> (r matches Some(route) && routes_to(route, field, typed_search(field, text@))),
{
    if key.to_owned() != String::from_str("Enter") {
        return None;
    }
    let t = trim(text);
    let value = searched_value(field, t, false);
    Some(route_to(field, value))
}

/// The page that pasted text taken for `value` leads to, given whether it was found
/// well-formed: that search's page when it was, none when it was not.
pub fn paste_route(field: SearchField, value: String, accepted: bool) -> (r: Option<MainRoute>)
    ensures
        accepted ==> (r matches Some(route) && routes_to(route, field, value@)),
        !accepted ==> r is None,
{
    if accepted {
        Some(route_to(field, value))
    } else {
        None
    }
}

/// `r` is what pasted `text` in `field` leads to: its search's page when the searched value is
/// well-formed, else none.
pub open spec fn paste_leads(r: Option<MainRoute>, field: SearchField, text: Seq<char>) -> bool {
    match r {
        Some(route) => accepts_pasted(field, pasted_search(field, text)) && routes_to(route, field, pasted_search(field, text)),
        None => !accepts_pasted(field, pasted_search(field, text)),
    }
}

fn accepted_by(pattern: &str, value: &str) -> (b: bool)
    ensures
        b == pattern_accepts(pattern@, value@),
{
    match regex_is_match(pattern, value) {
        Ok(b) => b,
        Err(_) => false,
    }
}

/// The page an input event in a search field leads to. Nothing happens unless automatic search
/// is on, the input is a paste, and it carries text; then the text leads to its search's page
/// when it is well-formed.
pub fn search_on_paste(field: SearchField, autosearch: bool, input_type: &str, data: Option<&str>) -> (r: Option<MainRoute>)
    ensures
        !autosearch || input_type@ != "insertFromPaste"@ || data is None ==> r is None,
        data matches Some(d) ==> ((autosearch && input_type@ == "insertFromPaste"@) ==> paste_leads(r, field, d@)),
{
    if !autosearch {
        return None;
    }
    if input_type.to_owned() != String::from_str("insertFromPaste") {
        return None;
    }
    let d = match data {
        None => { return None; },
        Some(d) => d,
    };
    let t = trim(d);
    let value = searched_value(field, t, true);
    let accepted = match field {
        SearchField::Uuid => accepted_by(UUID_PATTERN, value.as_str()),
        SearchField::UserId => accepted_by(SHA256_PATTERN, value.as_str()),
        SearchField::VideoId => accepted_by(VIDEO_ID_PATTERN, value.as_str()),
        SearchField::Channel => accepted_by(HANDLE_PATTERN, value.as_str()) || accepted_by(UCID_PATTERN, value.as_str()),
    };
    paste_route(field, value, accepted)
}

} // verus!
