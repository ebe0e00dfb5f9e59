//! URLs. The library holds a URL as its serialization. Parsing, joining path segments and
//! appending query pairs are done by the `url` crate, behind unverified wrappers whose
//! contracts are assumed; the decisions taken on their results are verified here.

use ::url::{ParseError, Url};
use percent_encoding::percent_decode_str;
use std::str::Utf8Error;
use vstd::prelude::*;
use vstd::string::StringExecFns;
use vstd::utf8::{decode_utf8, encode_scalar, encode_utf8, valid_utf8};

verus! {

#[verifier::external_type_specification]
#[verifier::external_body]
pub struct ExParseError(ParseError);

#[verifier::external_type_specification]
#[verifier::external_body]
pub struct ExUtf8Error(Utf8Error);

/// Whether the text holds a percent sign, which starts an escape.
pub open spec fn has_percent(s: Seq<char>) -> bool {
    s.contains('%')
}

/// The value of a hexadecimal digit byte (`0-9`, `a-f`, `A-F`), if it is one.
pub open spec fn hex_digit(b: u8) -> Option<u8> {
    if 0x30 <= b <= 0x39 {
        Some((b - 0x30) as u8)
    } else if 0x61 <= b <= 0x66 {
        Some((b - 0x61 + 10) as u8)
    } else if 0x41 <= b <= 0x46 {
        Some((b - 0x41 + 10) as u8)
    } else {
        None
    }
}

/// Percent-decoding of bytes: `%` followed by two hexadecimal digits stands for the byte they
/// spell; every other byte, a `%` not so followed too, stands for itself.
pub open spec fn percent_decode_bytes(b: Seq<u8>) -> Seq<u8>
    decreases b.len(),
{
    if b.len() == 0 {
        Seq::empty()
    } else if b[0] == 0x25 && b.len() >= 3 && hex_digit(b[1]) is Some && hex_digit(b[2]) is Some {
        seq![(hex_digit(b[1])->0 * 16 + hex_digit(b[2])->0) as u8] + percent_decode_bytes(b.subrange(3, b.len() as int))
    } else {
        seq![b[0]] + percent_decode_bytes(b.drop_first())
    }
}

/// The text that percent-decoding the UTF-8 bytes of `input` gives, when the decoded bytes are
/// UTF-8.
pub open spec fn percent_decoded(input: Seq<char>) -> Option<Seq<char>> {
    let bytes = percent_decode_bytes(encode_utf8(input));
    if valid_utf8(bytes) {
        Some(decode_utf8(bytes))
    } else {
        None
    }
}

/// No byte of the UTF-8 encoding of text without `%` is `%` (0x25): `%` is the only character
/// encoded by that byte, and the bytes of longer encodings are all 0x80 or above.
proof fn lemma_no_percent_byte(chars: Seq<char>)
    requires
        !has_percent(chars),
    ensures
        !encode_utf8(chars).contains(0x25u8),
    decreases chars.len(),
{
    if chars.len() > 0 {
        let rest = chars.drop_first();
        assert(!has_percent(rest)) by {
            if rest.contains('%') {
                let k = choose|k: int| 0 <= k < rest.len() && rest[k] == '%';
                assert(chars[k + 1] == '%');
            }
        }
        lemma_no_percent_byte(rest);
        let c = chars[0];
        assert(c != '%') by {
            assert(chars[0] == c);
        }
        let v = c as u32;
        vstd::utf8::char_is_scalar(c);
        let e = encode_scalar(v);
        assert(!e.contains(0x25u8)) by {
            if v <= 0x7F {
                assert(v != 0x25u32) by {
                    if v == 0x25u32 {
                        vstd::utf8::char_u32_cast(c, v);
                        assert(c == '%');
                    }
                }
                assert((v & 0x7F) as u8 != 0x25u8) by (bit_vector)
                    requires v <= 0x7F, v != 0x25u32;
            } else {
                assert forall|x: u32| ((0xC0u8 | ((x >> 6) & 0x1F) as u8) != 0x25u8) by {
                    assert((0xC0u8 | ((x >> 6) & 0x1F) as u8) != 0x25u8) by (bit_vector);
                }
                assert forall|x: u32| ((0xE0u8 | ((x >> 12) & 0x0F) as u8) != 0x25u8) by {
                    assert((0xE0u8 | ((x >> 12) & 0x0F) as u8) != 0x25u8) by (bit_vector);
                }
                assert forall|x: u32| ((0xF0u8 | ((x >> 18) & 0x7) as u8) != 0x25u8) by {
                    assert((0xF0u8 | ((x >> 18) & 0x7) as u8) != 0x25u8) by (bit_vector);
                }
                assert forall|x: u32| ((0x80u8 | (x & 0x3F) as u8) != 0x25u8) by {
                    assert((0x80u8 | (x & 0x3F) as u8) != 0x25u8) by (bit_vector);
                }
                assert forall|x: u32| ((0x80u8 | ((x >> 6) & 0x3F) as u8) != 0x25u8) by {
                    assert((0x80u8 | ((x >> 6) & 0x3F) as u8) != 0x25u8) by (bit_vector);
                }
                assert forall|x: u32| ((0x80u8 | ((x >> 12) & 0x3F) as u8) != 0x25u8) by {
                    assert((0x80u8 | ((x >> 12) & 0x3F) as u8) != 0x25u8) by (bit_vector);
                }
                assert forall|i: int| 0 <= i < e.len() implies e[i] != 0x25u8 by {}
            }
        }
        let all = encode_utf8(chars);
        assert(all == e + encode_utf8(rest));
        assert(!all.contains(0x25u8)) by {
            if all.contains(0x25u8) {
                let k = choose|k: int| 0 <= k < all.len() && all[k] == 0x25u8;
                if k < e.len() {
                    assert(e[k] == 0x25u8);
                } else {
                    assert(encode_utf8(rest)[k - e.len()] == 0x25u8);
                }
            }
        }
    }
}

/// Bytes without `%` decode to themselves.
proof fn lemma_percent_decode_plain(b: Seq<u8>)
    requires
        !b.contains(0x25u8),
    ensures
        percent_decode_bytes(b) == b,
    decreases b.len(),
{
    if b.len() > 0 {
        let rest = b.drop_first();
        assert(!rest.contains(0x25u8)) by {
            if rest.contains(0x25u8) {
                let k = choose|k: int| 0 <= k < rest.len() && rest[k] == 0x25u8;
                assert(b[k + 1] == 0x25u8);
            }
        }
        assert(b[0] != 0x25u8) by {
            assert(b.contains(b[0]) || true);
            if b[0] == 0x25u8 {
                assert(b.contains(0x25u8));
            }
        }
        lemma_percent_decode_plain(rest);
        assert(seq![b[0]] + rest =~= b);
    }
}

/// Text without `%` percent-decodes to itself.
pub proof fn lemma_percent_decoded_plain(input: Seq<char>)
    requires
        !has_percent(input),
    ensures
        percent_decoded(input) == Some(input),
{
    lemma_no_percent_byte(input);
    lemma_percent_decode_plain(encode_utf8(input));
    vstd::utf8::encode_utf8_valid_utf8(input);
    vstd::utf8::encode_utf8_decode_utf8(input);
}

/// `percent_encoding::percent_decode_str(input).decode_utf8()`, made owned. Claims, as the
/// crate's source shows (`PercentDecode::next` and `decode_utf8`): the bytes of `input` are
/// percent-decoded, and the call succeeds exactly when the decoded bytes are UTF-8, giving the
/// text they encode.
#[verifier::external_body]
fn percent_decode(input: &str) -> (r: Result<String, Utf8Error>)
    ensures
        r matches Ok(s) ==> percent_decoded(input@) == Some(s@),
        r is Err <==> percent_decoded(input@) is None,
{
    match percent_decode_str(input).decode_utf8() {
        Ok(text) => Ok(text.into_owned()),
        Err(e) => Err(e),
    }
}

/// Percent-decodes `input`; fails when the decoded bytes are not UTF-8.
pub fn url_decode(input: &str) -> (r: Result<String, Utf8Error>)
    ensures
        r matches Ok(s) ==> percent_decoded(input@) == Some(s@),
        r is Err <==> percent_decoded(input@) is None,
        r is Ok || has_percent(input@),
        r matches Ok(s) ==> (has_percent(input@) || s@ == input@),
{
    proof {
        if !has_percent(input@) {
            lemma_percent_decoded_plain(input@);
        }
    }
    percent_decode(input)
}

/// What the library reads of a parsed URL.
#[derive(Debug)]
pub struct UrlParts {
    /// The URL's serialization.
    pub serialization: String,
    pub scheme: String,
    pub cannot_be_a_base: bool,
    /// The path segments: `None` for a cannot-be-a-base URL, and for one whose path is empty.
    pub path_segments: Option<Vec<String>>,
    /// The query's key/value pairs, decoded, in order.
    pub query_pairs: Vec<(String, String)>,
}

/// A parsed URL as plain sequences.
pub struct UrlView {
    pub serialization: Seq<char>,
    pub scheme: Seq<char>,
    pub cannot_be_a_base: bool,
    pub path_segments: Option<Seq<Seq<char>>>,
    pub query_pairs: Seq<(Seq<char>, Seq<char>)>,
}

/// The segments of a path, as sequences.
pub open spec fn segments_view(v: Vec<String>) -> Seq<Seq<char>> {
    v@.map_values(|s: String| s@)
}

/// The query pairs, as sequences.
pub open spec fn pairs_view(v: Vec<(String, String)>) -> Seq<(Seq<char>, Seq<char>)> {
    v@.map_values(|p: (String, String)| (p.0@, p.1@))
}

impl UrlParts {
    /// The parts as plain sequences.
    pub open spec fn view(&self) -> UrlView {
        UrlView {
            serialization: self.serialization@,
            scheme: self.scheme@,
            cannot_be_a_base: self.cannot_be_a_base,
            path_segments: match self.path_segments {
                Some(v) => Some(segments_view(v)),
                None => None,
            },
            query_pairs: pairs_view(self.query_pairs),
        }
    }
}

/// What `Url::parse` makes of `input`, if it parses.
pub uninterp spec fn parsed_url(input: Seq<char>) -> Option<UrlView>;

/// The serialization of the URL `base` parses to, with `segments` appended to its path
/// (by `PathSegmentsMut::extend`), if `base` parses and can be a base.
pub uninterp spec fn url_with_segments(base: Seq<char>, segments: Seq<Seq<char>>) -> Option<Seq<char>>;

/// The serialization of the URL `base` parses to, with `pairs` appended to its query (by
/// `form_urlencoded::Serializer::extend_pairs`), if `base` parses.
pub uninterp spec fn url_with_query(base: Seq<char>, pairs: Seq<(Seq<char>, Seq<char>)>) -> Option<Seq<char>>;

/// The serialization of the URL `base` parses to, with its query cleared and then `pairs`
/// appended (by `form_urlencoded::Serializer::clear` and `extend_pairs`), if `base` parses.
pub uninterp spec fn url_with_new_query(base: Seq<char>, pairs: Seq<(Seq<char>, Seq<char>)>) -> Option<Seq<char>>;

/// `Url::parse`, read back through `as_str`, `scheme`, `cannot_be_a_base`, `path_segments`
/// and `query_pairs`. Claims: the result is `Ok` exactly when `parsed_url` has a value, and
/// then is that value; and, as the `url` crate's source shows, a cannot-be-a-base URL has no
/// path segments. (A URL that can be a base may have none either, when its path is empty.)
#[verifier::external_body]
pub(crate) fn parse_url(input: &str) -> (r: Result<UrlParts, ParseError>)
    ensures
        r is Ok <==> parsed_url(input@) is Some,
        r matches Ok(p) ==> parsed_url(input@) == Some(p.view()),
        r matches Ok(p) ==> (p.cannot_be_a_base ==> p.path_segments is None),
{
    let url = Url::parse(input)?;
    Ok(UrlParts {
        serialization: url.as_str().to_owned(),
        scheme: url.scheme().to_owned(),
        cannot_be_a_base: url.cannot_be_a_base(),
        path_segments: url.path_segments().map(|it| it.map(str::to_owned).collect()),
        query_pairs: url.query_pairs().map(|(k, v)| (k.into_owned(), v.into_owned())).collect(),
    })
}

/// `PathSegmentsMut::extend` on the URL that `base` parses to. Claims: the result is the
/// named value, and, as the `url` crate's source shows (`path_segments_mut` refuses exactly
/// the cannot-be-a-base URLs), it is `Some` exactly when `base` parses to a URL that can be a base.
#[verifier::external_body]
pub(crate) fn join_segments(base: &str, segments: &Vec<String>) -> (r: Option<String>)
    ensures
        r matches Some(s) ==> url_with_segments(base@, segments_view(*segments)) == Some(s@),
        r is None ==> url_with_segments(base@, segments_view(*segments)) is None,
        r is Some <==> (parsed_url(base@) matches Some(v) && !v.cannot_be_a_base),
{
    let mut url = Url::parse(base).ok()?;
    url.path_segments_mut().ok()?.extend(segments.iter());
    Some(url.as_str().to_owned())
}

/// `Url::query_pairs_mut` on the URL that `base` parses to, then
/// `form_urlencoded::Serializer::extend_pairs` with `pairs`. Claims: the result is the named
/// value, and it is `Some` exactly when `base` parses.
#[verifier::external_body]
pub(crate) fn append_query(base: &str, pairs: &Vec<(String, String)>) -> (r: Option<String>)
    ensures
        r matches Some(s) ==> url_with_query(base@, pairs_view(*pairs)) == Some(s@),
        r is None ==> url_with_query(base@, pairs_view(*pairs)) is None,
        r is Some <==> parsed_url(base@) is Some,
{
    let mut url = Url::parse(base).ok()?;
    url.query_pairs_mut().extend_pairs(pairs.iter());
    Some(url.as_str().to_owned())
}

/// `Url::query_pairs_mut` on the URL that `base` parses to, then
/// `form_urlencoded::Serializer::clear` and `extend_pairs` with `pairs`. Claims: the result is
/// the named value, and it is `Some` exactly when `base` parses.
#[verifier::external_body]
pub(crate) fn replace_query(base: &str, pairs: &Vec<(String, String)>) -> (r: Option<String>)
    ensures
        r matches Some(s) ==> url_with_new_query(base@, pairs_view(*pairs)) == Some(s@),
        r is None ==> url_with_new_query(base@, pairs_view(*pairs)) is None,
        r is Some <==> parsed_url(base@) is Some,
{
    let mut url = Url::parse(base).ok()?;
    url.query_pairs_mut().clear().extend_pairs(pairs.iter());
    Some(url.as_str().to_owned())
}

/// `r` holds the text `s` holds, or nothing when `s` holds nothing.
pub open spec fn text_matches(r: Option<String>, s: Option<Seq<char>>) -> bool {
    match s {
        Some(t) => r matches Some(x) && x@ == t,
        None => r is None,
    }
}

/// The last non-empty segment of `segments`, if any.
pub open spec fn last_nonempty(segments: Seq<Seq<char>>) -> Option<Seq<char>>
    decreases segments.len(),
{
    if segments.len() == 0 {
        None
    } else if segments.last().len() > 0 {
        Some(segments.last())
    } else {
        last_nonempty(segments.drop_last())
    }
}

/// The last non-empty path segment of the URL `value` parses to, if any.
pub open spec fn last_url_segment_of(value: Seq<char>) -> Option<Seq<char>> {
    match parsed_url(value) {
        Some(v) => match v.path_segments {
            Some(segs) => last_nonempty(segs),
            None => None,
        },
        None => None,
    }
}

/// The value of the first query pair whose key is `key`, if any.
pub open spec fn first_query_value(pairs: Seq<(Seq<char>, Seq<char>)>, key: Seq<char>) -> Option<Seq<char>>
    decreases pairs.len(),
{
    if pairs.len() == 0 {
        None
    } else if pairs[0].0 == key {
        Some(pairs[0].1)
    } else {
        first_query_value(pairs.drop_first(), key)
    }
}

fn last_nonempty_segment(segments: &Vec<String>) -> (r: Option<String>)
    ensures
        match last_nonempty(segments_view(*segments)) {
            None => r is None,
            Some(s) => r matches Some(x) && x@ == s,
        },
{
    let mut i = segments.len();
    proof { assert(segments_view(*segments).take(i as int) =~= segments_view(*segments)); }
    while i > 0
        invariant
            i <= segments@.len(),
            last_nonempty(segments_view(*segments)) == last_nonempty(segments_view(*segments).take(i as int)),
        decreases i,
    {
        proof {
            let sv = segments_view(*segments);
            assert(sv.take(i as int).drop_last() =~= sv.take(i - 1));
            assert(sv.take(i as int).last() == segments@[i - 1]@);
        }
        if !segments[i - 1].as_str().is_empty() {
            proof { assert(segments@[i - 1]@.len() > 0); }
            return Some(segments[i - 1].clone());
        }
        proof { assert(segments@[i - 1]@.len() == 0); }
        i -= 1;
    }
    None
}

/// The last non-empty path segment of the URL that `value` parses to; `None` when it does not
/// parse, cannot be a base, or has no non-empty segment.
pub fn last_url_segment(value: &str) -> (r: Option<String>)
    ensures
        text_matches(r, last_url_segment_of(value@)),
        parsed_url(value@) matches Some(v) && v.cannot_be_a_base ==> r is None,
{
    match parse_url(value) {
        Err(_) => None,
        Ok(parts) => match &parts.path_segments {
            None => None,
            Some(segs) => last_nonempty_segment(segs),
        },
    }
}

/// The value of the first query pair keyed `key` of the URL that `value` parses to, or else
/// its last non-empty path segment; `None` when it does not parse or has neither.
pub open spec fn query_or_last_segment_of(value: Seq<char>, key: Seq<char>) -> Option<Seq<char>> {
    match parsed_url(value) {
        None => None,
        Some(v) => match first_query_value(v.query_pairs, key) {
            Some(q) => Some(q),
            None => last_url_segment_of(value),
        },
    }
}

/// The value of the query parameter `query_key` of the URL that `value` parses to, or else its
/// last non-empty path segment; `None` when it does not parse or has neither. A URL that cannot
/// be a base has no path segments, so only its query counts.
pub fn url_query_or_last_segment(value: &str, query_key: &str) -> (r: Option<String>)
    ensures
        text_matches(r, query_or_last_segment_of(value@, query_key@)),
        match parsed_url(value@) {
            Some(v) => v.cannot_be_a_base ==> text_matches(r, first_query_value(v.query_pairs, query_key@)),
            None => true,
        },
{
    match parse_url(value) {
        Err(_) => None,
        Ok(parts) => {
            let key = String::from_str(query_key);
            let n = parts.query_pairs.len();
            let mut i: usize = 0;
            proof { assert(pairs_view(parts.query_pairs).skip(0) =~= pairs_view(parts.query_pairs)); }
            while i < n
                invariant
                    parsed_url(value@) == Some(parts.view()),
                    key@ == query_key@,
                    n == parts.query_pairs@.len(),
                    i <= n,
                    first_query_value(pairs_view(parts.query_pairs), key@) == first_query_value(pairs_view(parts.query_pairs).skip(i as int), key@),
                decreases n - i,
            {
                proof {
                    let pv = pairs_view(parts.query_pairs);
                    assert(pv.skip(i as int).drop_first() =~= pv.skip(i + 1));
                    assert(pv.skip(i as int)[0] == (parts.query_pairs@[i as int].0@, parts.query_pairs@[i as int].1@));
                }
                if parts.query_pairs[i].0 == key {
                    let found = parts.query_pairs[i].1.clone();
                    proof {
                        let pv = pairs_view(parts.query_pairs);
                        assert(pv.skip(i as int).len() > 0);
                        assert(pv.skip(i as int)[0].0 == key@);
                        assert(found@ == pv.skip(i as int)[0].1);
                    }
                    return Some(found);
                }
                i += 1;
            }
            proof {
                assert(pairs_view(parts.query_pairs).skip(n as int).len() == 0);
            }
            match &parts.path_segments {
                None => None,
                Some(segs) => last_nonempty_segment(segs),
            }
        },
    }
}

/// Why no channel handle could be read from a channel URL.
#[derive(Debug)]
pub enum ChannelUrlError {
    /// The URL did not parse.
    Unparsable(ParseError),
    /// The URL cannot be a base, so it has no path segments.
    NotABase,
    /// The URL's path has no non-empty segment.
    NoSegments,
}

/// The channel handle in a channel URL: the last non-empty path segment of the URL it parses
/// to, if it can be a base.
pub open spec fn channel_handle_of(url: Seq<char>) -> Option<Seq<char>> {
    match parsed_url(url) {
        Some(v) => match v.path_segments {
            Some(segs) => last_nonempty(segs),
            None => None,
        },
        None => None,
    }
}

/// The channel handle in a channel URL (such as the `author_url` of an oEmbed answer): its
/// last non-empty path segment.
pub fn channel_handle(author_url: &str) -> (r: Result<String, ChannelUrlError>)
    ensures
        r matches Ok(h) ==> channel_handle_of(author_url@) == Some(h@),
        r is Err ==> channel_handle_of(author_url@) is None,
        match parsed_url(author_url@) {
            None => r matches Err(ChannelUrlError::Unparsable(_)),
            Some(v) => match v.path_segments {
                None => r matches Err(ChannelUrlError::NotABase),
                Some(segs) => match last_nonempty(segs) {
                    None => r matches Err(ChannelUrlError::NoSegments),
                    Some(h) => r matches Ok(x) && x@ == h,
                },
            },
        },
{
    match parse_url(author_url) {
        Err(e) => Err(ChannelUrlError::Unparsable(e)),
        Ok(parts) => match &parts.path_segments {
            None => Err(ChannelUrlError::NotABase),
            Some(segs) => match last_nonempty_segment(segs) {
                None => Err(ChannelUrlError::NoSegments),
                Some(h) => Ok(h),
            },
        },
    }
}

/// A parsed URL, held as its serialization.
#[derive(Debug)]
pub struct WebUrl {
    text: String,
}

impl WebUrl {
    /// The URL's serialization.
    pub closed spec fn view(&self) -> Seq<char> {
        self.text@
    }

    /// Parses `input`; the URL is held as its serialization.
    pub fn parse(input: &str) -> (r: Result<WebUrl, ParseError>)
        ensures
            r is Ok <==> parsed_url(input@) is Some,
            r matches Ok(u) ==> (parsed_url(input@) matches Some(v) && u@ == v.serialization),
    {
        match parse_url(input) {
            Ok(parts) => Ok(WebUrl { text: parts.serialization }),
            Err(e) => Err(e),
        }
    }

    /// The URL's serialization.
    pub fn as_str(&self) -> (s: &str)
        ensures
            s@ == self@,
    {
        self.text.as_str()
    }
}

/// Appending path segments to a URL.
pub trait ReqwestUrlExt: Sized {
    /// The URL's serialization.
    spec fn url_text(&self) -> Seq<char>;

    /// Appends `segments` to the path; fails, leaving the URL as it was, when the URL cannot
    /// be a base.
    fn extend_segments(&mut self, segments: &Vec<String>) -> (r: Result<(), ()>)
        ensures
            match url_with_segments(old(self).url_text(), segments_view(*segments)) {
                Some(s) => r is Ok && final(self).url_text() == s,
                None => r is Err && final(self).url_text() == old(self).url_text(),
            };

    /// A copy of the URL with `segments` appended to its path; fails when the URL cannot be a
    /// base.
    fn join_segments(&self, segments: &Vec<String>) -> (r: Result<Self, ()>)
        ensures
            match url_with_segments(self.url_text(), segments_view(*segments)) {
                Some(s) => r matches Ok(u) && u.url_text() == s,
                None => r is Err,
            };
}

impl ReqwestUrlExt for WebUrl {
    open spec fn url_text(&self) -> Seq<char> {
        self@
    }

    fn extend_segments(&mut self, segments: &Vec<String>) -> (r: Result<(), ()>) {
        match join_segments(self.text.as_str(), segments) {
            Some(s) => {
                self.text = s;
                Ok(())
            },
            None => Err(()),
        }
    }

    fn join_segments(&self, segments: &Vec<String>) -> (r: Result<WebUrl, ()>) {
        match join_segments(self.text.as_str(), segments) {
            Some(s) => Ok(WebUrl { text: s }),
            None => Err(()),
        }
    }
}

} // verus!
