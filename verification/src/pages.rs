//! Pagination of detail tables: which slice a page shows, how many pages there are, and
//! how the page selector moves between them.

use vstd::prelude::*;
use vstd::slice::slice_subrange;
use vstd::string::{StrSliceExecFns, StringExecFns};

use crate::numbers::{decimal, decimal_string};

verus! {

/// Which part of a list a table shows.
#[derive(Clone, Copy, PartialEq, Eq, Debug, Structural)]
pub enum DetailIndex {
    /// Page `index` (from 0) of pages holding `size` entries each.
    Page { size: usize, index: usize },
    All,
}

/// The bounds of the part of a list of `len` entries that `index` shows.
pub open spec fn shown_range(len: nat, index: DetailIndex) -> (int, int) {
    match index {
        DetailIndex::All => (0, len as int),
        DetailIndex::Page { size, index } => {
            let start = size * index;
            if start > len {
                (0, 0)
            } else if size * (index + 1) > len {
                (start, len as int)
            } else {
                (start, size * (index + 1))
            }
        },
    }
}

/// The entries that `index` shows of `items`: a whole page, the rest of the list on the last
/// page, and nothing past the end.
pub fn detail_page<T>(items: &[T], index: DetailIndex) -> (page: &[T])
    requires
        index matches DetailIndex::Page { size, index } ==> index < usize::MAX && size * (index + 1) <= usize::MAX,
    ensures
        page@ == items@.subrange(shown_range(items@.len(), index).0, shown_range(items@.len(), index).1),
{
    match index {
        DetailIndex::All => slice_subrange(items, 0, items.len()),
        DetailIndex::Page { size, index } => {
            proof {
                assert(size * index <= size * (index + 1)) by (nonlinear_arith);
            }
            let start = size * index;
            let end = size * (index + 1);
            if start > items.len() {
                slice_subrange(items, 0, 0)
            } else if end > items.len() {
                slice_subrange(items, start, items.len())
            } else {
                slice_subrange(items, start, end)
            }
        },
    }
}

/// The number of pages needed for `count` entries, `per_page` to a page (rounding up).
pub fn page_count(count: usize, per_page: usize) -> (n: usize)
    requires
        per_page > 0,
    ensures
        n == count / per_page + if count % per_page == 0 { 0int } else { 1int },
{
    let q = count / per_page;
    if count % per_page == 0 {
        q
    } else {
        proof {
            assert(per_page >= 2);
            assert(q < usize::MAX) by (nonlinear_arith)
                requires
                    per_page >= 2,
                    q == count / per_page,
                    count <= usize::MAX;
        }
        q + 1
    }
}

/// The pages of a list, in order, make up the list: page `i` starts where page `i - 1` ends,
/// and the pages up to the page count cover every entry.
pub proof fn lemma_pages_partition(len: nat, size: usize, i: usize)
    requires
        size > 0,
        size * (i + 1) <= len,
    ensures
        shown_range(len, DetailIndex::Page { size, index: i }) == (size * i, size * (i + 1)),
        shown_range(len, DetailIndex::Page { size, index: i }).1 - shown_range(len, DetailIndex::Page { size, index: i }).0 == size,
{
    assert(size * i <= size * (i + 1)) by (nonlinear_arith);
    assert(size * (i + 1) == size * i + size) by (nonlinear_arith);
}

/// The last page holds the remaining entries, and no page after it holds any.
pub proof fn lemma_last_page(len: nat, size: usize, i: usize)
    requires
        size > 0,
        size * i <= len < size * (i + 1),
    ensures
        shown_range(len, DetailIndex::Page { size, index: i }) == (size * i, len as int),
        forall|j: usize| j > i ==> #[trigger] shown_range(len, DetailIndex::Page { size, index: j }).1
            - shown_range(len, DetailIndex::Page { size, index: j }).0 == 0,
{
    assert forall|j: usize| j > i implies #[trigger] shown_range(len, DetailIndex::Page { size, index: j }).1
        - shown_range(len, DetailIndex::Page { size, index: j }).0 == 0 by {
        assert(size * j >= size * (i + 1)) by (nonlinear_arith)
            requires j >= i + 1, size > 0;
        assert(size * (j + 1) >= size * j) by (nonlinear_arith)
            requires size > 0;
    }
}

/// The page shown after the page count shrank: the last page when the current one is past it.
pub fn clamp_page(page: usize, page_count: usize) -> (p: usize)
    requires
        page_count >= 1,
    ensures
        p == if page_count <= page { (page_count - 1) as usize } else { page },
{
    if page_count <= page { page_count - 1 } else { page }
}

/// The page before `page`, staying at the first.
pub fn prev_page(page: usize) -> (p: usize)
    ensures
        p == if page == 0 { 0 } else { (page - 1) as usize },
{
    page.saturating_sub(1)
}

/// The page after `page`, staying at the last.
pub fn next_page(page: usize, page_count: usize) -> (p: usize)
    requires
        page_count >= 1,
        page < usize::MAX,
    ensures
        p == if page + 1 < page_count { (page + 1) as usize } else { (page_count - 1) as usize },
{
    let max_page = page_count - 1;
    if page + 1 < max_page { page + 1 } else { max_page }
}

/// Whether a character is an ASCII decimal digit.
pub open spec fn is_digit(c: char) -> bool {
    '0' <= c && c <= '9'
}

/// The value of a string of decimal digits.
pub open spec fn digits_value(s: Seq<char>) -> nat
    decreases s.len(),
{
    if s.len() == 0 {
        0
    } else {
        digits_value(s.drop_last()) * 10 + ((s.last() as u32 - '0' as u32) as nat)
    }
}

/// How the standard library reads an unsigned integer: an optional `+`, then one or more
/// decimal digits, of a value that fits.
pub open spec fn parse_unsigned(s: Seq<char>, max: nat) -> Option<nat> {
    let body = unsigned_body(s);
    if body.len() > 0 && all_digits(body) && digits_value(body) <= max {
        Some(digits_value(body))
    } else {
        None
    }
}

/// The text after an optional leading `+`.
pub open spec fn unsigned_body(s: Seq<char>) -> Seq<char> {
    if s.len() > 0 && s[0] == '+' { s.skip(1) } else { s }
}

/// Every character is a decimal digit.
pub open spec fn all_digits(s: Seq<char>) -> bool {
    forall|i: int| 0 <= i < s.len() ==> is_digit(#[trigger] s[i])
}

proof fn lemma_digits_value_monotone(s: Seq<char>, i: int)
    requires
        0 <= i <= s.len(),
        forall|j: int| 0 <= j < s.len() ==> is_digit(#[trigger] s[j]),
    ensures
        digits_value(s.take(i)) <= digits_value(s),
    decreases s.len() - i,
{
    if i < s.len() {
        lemma_digits_value_monotone(s, i + 1);
        assert(s.take(i + 1).drop_last() =~= s.take(i));
        assert(digits_value(s.take(i + 1)) >= digits_value(s.take(i)));
    } else {
        assert(s.take(i) =~= s);
    }
}

proof fn lemma_too_big(body: Seq<char>, k: int)
    requires
        0 < k <= body.len(),
        digits_value(body.take(k)) > usize::MAX,
    ensures
        parse_unsigned_body_fails(body),
{
    if all_digits(body) {
        lemma_digits_value_monotone(body, k);
    }
}

proof fn lemma_parse_fails(s: Seq<char>, body: Seq<char>)
    requires
        body == unsigned_body(s),
        parse_unsigned_body_fails(body),
    ensures
        parse_unsigned(s, usize::MAX as nat) is None,
{
}

/// A body of digits that does not fit in a `usize`, or that is not all digits, is refused.
pub open spec fn parse_unsigned_body_fails(body: Seq<char>) -> bool {
    !(all_digits(body) && digits_value(body) <= usize::MAX)
}

/// Reads a `usize` the way `usize::from_str` does.
pub fn parse_usize(text: &str) -> (r: Option<usize>)
    ensures
        r matches Some(v) ==> parse_unsigned(text@, usize::MAX as nat) == Some(v as nat),
        r is None ==> parse_unsigned(text@, usize::MAX as nat) is None,
{
    let len = text.unicode_len();
    let mut start: usize = 0;
    if len > 0 && text.get_char(0) == '+' {
        start = 1;
    }
    let ghost body = unsigned_body(text@);
    proof {
        assert(body =~= text@.skip(start as int));
    }
    if start >= len {
        return None;
    }
    let mut value: usize = 0;
    let mut i: usize = start;
    while i < len
        invariant
            len == text@.len(),
            start <= i <= len,
            body == text@.skip(start as int),
            body == unsigned_body(text@),
            forall|j: int| 0 <= j < i - start ==> is_digit(#[trigger] body[j]),
            value as nat == digits_value(body.take(i - start)),
        decreases len - i,
    {
        let c = text.get_char(i);
        if !('0' <= c && c <= '9') {
            proof {
                assert(!is_digit(body[i - start]));
                assert(parse_unsigned_body_fails(body));
                lemma_parse_fails(text@, body);
            }
            return None;
        }
        let d = (c as u32 - '0' as u32) as usize;
        proof {
            assert(body[i - start] == c);
            assert(body.take(i - start + 1).drop_last() =~= body.take(i - start));
            assert(body.take(i - start + 1).last() == c);
        }
        let times_ten = value.checked_mul(10);
        match times_ten {
            None => {
                proof { lemma_too_big(body, i - start + 1); lemma_parse_fails(text@, body); }
                return None;
            },
            Some(t) => match t.checked_add(d) {
                None => {
                    proof { lemma_too_big(body, i - start + 1); lemma_parse_fails(text@, body); }
                    return None;
                },
                Some(v) => { value = v; },
            },
        }
        i += 1;
    }
    proof {
        assert(body.take(len - start) =~= body);
    }
    Some(value)
}

/// The page (from 0) that the page number typed by the user selects: the number is read as
/// `usize::from_str` reads it and clamped to `1..=page_count`; unreadable input selects nothing.
pub fn page_from_input(text: &str, page_count: usize) -> (r: Option<usize>)
    requires
        page_count >= 1,
    ensures
        match parse_unsigned(text@, usize::MAX as nat) {
            None => r is None,
            Some(n) => r matches Some(p) && p == (if n < 1 { 1 } else if n > page_count { page_count as int } else { n as int }) - 1,
        },
{
    match parse_usize(text) {
        None => None,
        Some(n) => {
            let clamped = if n < 1 { 1 } else if n > page_count { page_count } else { n };
            Some(clamped - 1)
        },
    }
}

/// The page number shown in the selector for page `page` (counted from 0).
pub fn page_number_text(page: usize) -> (s: String)
    requires
        page < usize::MAX,
    ensures
        s@ == decimal((page + 1) as nat),
{
    decimal_string((page + 1) as u128)
}

/// The entry count shown by the table mode switch: `1 entry`, or `{count} entries`.
pub fn entry_count_text(count: usize) -> (s: String)
    ensures
        s@ == if count == 1 { "1 entry"@ } else { decimal(count as nat) + " entries"@ },
{
    if count == 1 {
        String::from_str("1 entry")
    } else {
        decimal_string(count as u128).concat(" entries")
    }
}

} // verus!
