//! Human-readable rendering of integers: digit grouping and abbreviation.

use vstd::prelude::*;
use vstd::string::StrSliceExecFns;
use vstd::string::StringExecFns;

use crate::pages::{all_digits, digits_value, is_digit};

verus! {

/// The character of a single decimal digit.
pub open spec fn digit_char(d: nat) -> char {
    if d == 0 { '0' }
    else if d == 1 { '1' }
    else if d == 2 { '2' }
    else if d == 3 { '3' }
    else if d == 4 { '4' }
    else if d == 5 { '5' }
    else if d == 6 { '6' }
    else if d == 7 { '7' }
    else if d == 8 { '8' }
    else { '9' }
}

/// The decimal representation of a natural number, without leading zeros.
pub open spec fn decimal(n: nat) -> Seq<char>
    decreases n,
{
    if n < 10 {
        seq![digit_char(n)]
    } else {
        decimal(n / 10).push(digit_char(n % 10))
    }
}

/// Decimal representation of an integer, with a leading `-` when negative.
pub open spec fn signed_decimal(v: int) -> Seq<char> {
    if v < 0 {
        seq!['-'] + decimal((-v) as nat)
    } else {
        decimal(v as nat)
    }
}

/// Splits a digit string into groups of 3 counted from the end, separated by single spaces.
pub open spec fn group_thousands(s: Seq<char>) -> Seq<char>
    decreases s.len(),
{
    if s.len() <= 3 {
        s
    } else {
        group_thousands(s.subrange(0, s.len() - 3)) + seq![' '] + s.subrange(s.len() - 3, s.len() as int)
    }
}

/// What `render_int` produces for the value `v`.
pub open spec fn grouped_decimal(v: int) -> Seq<char> {
    if v < 0 {
        seq!['-'] + group_thousands(decimal((-v) as nat))
    } else {
        group_thousands(decimal(v as nat))
    }
}

/// What `abbreviate_int` produces for the value `v`.
pub open spec fn abbreviated_decimal(v: int) -> Seq<char> {
    if v < 0 {
        signed_decimal(v)
    } else if v <= 999 {
        decimal(v as nat)
    } else if v <= 999_999 {
        decimal((v / 1_000) as nat).push('K')
    } else if v <= 999_999_999 {
        decimal((v / 1_000_000) as nat).push('M')
    } else {
        grouped_decimal(v / 1_000_000_000).push('B')
    }
}

/// The sequence with every space removed.
pub open spec fn without_spaces(s: Seq<char>) -> Seq<char> {
    s.filter(|c: char| c != ' ')
}

fn digit_str(d: u128) -> (s: &'static str)
    requires
        d < 10,
    ensures
        s@ == seq![digit_char(d as nat)],
{
    proof {
        reveal_strlit("0");
        reveal_strlit("1");
        reveal_strlit("2");
        reveal_strlit("3");
        reveal_strlit("4");
        reveal_strlit("5");
        reveal_strlit("6");
        reveal_strlit("7");
        reveal_strlit("8");
        reveal_strlit("9");
    }
    if d == 0 { "0" }
    else if d == 1 { "1" }
    else if d == 2 { "2" }
    else if d == 3 { "3" }
    else if d == 4 { "4" }
    else if d == 5 { "5" }
    else if d == 6 { "6" }
    else if d == 7 { "7" }
    else if d == 8 { "8" }
    else { "9" }
}

/// The decimal representation of `n`.
pub fn decimal_string(n: u128) -> (s: String)
    ensures
        s@ == decimal(n as nat),
    decreases n,
{
    if n < 10 {
        String::from_str(digit_str(n))
    } else {
        let mut s = decimal_string(n / 10);
        s.append(digit_str(n % 10));
        s
    }
}

/// The decimal representation of `v`, with a leading `-` when negative.
pub fn signed_decimal_string(v: i128) -> (s: String)
    requires
        v > i128::MIN,
    ensures
        s@ == signed_decimal(v as int),
{
    if v < 0 {
        proof { reveal_strlit("-"); }
        let digits = decimal_string((-v) as u128);
        String::from_str("-").concat(digits.as_str())
    } else {
        decimal_string(v as u128)
    }
}

fn group_str(s: &str) -> (r: String)
    ensures
        r@ == group_thousands(s@),
    decreases s@.len(),
{
    let len = s.unicode_len();
    if len <= 3 {
        String::from_str(s)
    } else {
        let head = s.substring_char(0, len - 3);
        let tail = s.substring_char(len - 3, len);
        let mut r = group_str(head);
        proof { reveal_strlit(" "); }
        r.append(" ");
        r.append(tail);
        r
    }
}

/// Digits of `n` in groups of 3, separated by spaces.
pub fn render_unsigned(n: u128) -> (s: String)
    ensures
        s@ == grouped_decimal(n as int),
{
    let digits = decimal_string(n);
    group_str(digits.as_str())
}

/// Digits of `|v|` in groups of 3, separated by spaces, after a `-` when negative.
pub fn render_signed(v: i128) -> (s: String)
    requires
        v > i128::MIN,
    ensures
        s@ == grouped_decimal(v as int),
{
    if v < 0 {
        let digits = decimal_string((-v) as u128);
        let grouped = group_str(digits.as_str());
        proof { reveal_strlit("-"); }
        String::from_str("-").concat(grouped.as_str())
    } else {
        render_unsigned(v as u128)
    }
}

/// Abbreviation of a value: plain below 1000, then thousands (`K`), millions (`M`)
/// and, from a billion on, billions rendered with digit grouping (`B`).
pub fn abbreviate_value(v: i128) -> (s: String)
    requires
        v > i128::MIN,
    ensures
        s@ == abbreviated_decimal(v as int),
{
    proof {
        reveal_strlit("K");
        reveal_strlit("M");
        reveal_strlit("B");
    }
    if v < 0 {
        signed_decimal_string(v)
    } else if v <= 999 {
        decimal_string(v as u128)
    } else if v <= 999_999 {
        decimal_string((v / 1_000) as u128).concat("K")
    } else if v <= 999_999_999 {
        decimal_string((v / 1_000_000) as u128).concat("M")
    } else {
        render_signed(v / 1_000_000_000).concat("B")
    }
}


/// Abbreviation of an unsigned value, as `abbreviate_value` for the full `u128` range.
pub fn abbreviate_unsigned(n: u128) -> (s: String)
    ensures
        s@ == abbreviated_decimal(n as int),
{
    proof {
        reveal_strlit("K");
        reveal_strlit("M");
        reveal_strlit("B");
    }
    if n <= 999 {
        decimal_string(n)
    } else if n <= 999_999 {
        decimal_string(n / 1_000).concat("K")
    } else if n <= 999_999_999 {
        decimal_string(n / 1_000_000).concat("M")
    } else {
        render_unsigned(n / 1_000_000_000).concat("B")
    }
}

/// Rendering of integers for display.
pub trait RenderNumber {
    /// The mathematical value of the number.
    spec fn int_value(&self) -> int;

    /// Whether `render_int` is defined for this value.
    spec fn renderable(&self) -> bool;

    /// Whether `abbreviate_int` is defined for this value.
    spec fn abbreviable(&self) -> bool;

    /// Render a large integer in a human-readable way:
    /// digits are arranged in groups of 3, with spaces in between.
    fn render_int(&self) -> (s: String)
        requires
            self.renderable(),
        ensures
            s@ == grouped_decimal(self.int_value()),
    ;

    /// Render a large integer in an abbreviated form:
    /// for example 21370 becomes `21K`.
    fn abbreviate_int(&self) -> (s: String)
        requires
            self.abbreviable(),
        ensures
            s@ == abbreviated_decimal(self.int_value()),
    ;
}

/// A value below 1000 has at most three digits, so grouping leaves it as it is.
pub proof fn lemma_small_values_are_not_grouped(n: nat)
    requires
        n < 1000,
    ensures
        decimal(n).len() <= 3,
        group_thousands(decimal(n)) == decimal(n),
{
    if n >= 10 {
        assert(decimal(n) == decimal(n / 10).push(digit_char(n % 10)));
        if n / 10 >= 10 {
            assert(decimal(n / 10) == decimal(n / 100).push(digit_char((n / 10) % 10)));
            assert(n / 100 < 10);
        }
    }
}

/// `render_int` of a value whose magnitude is below 1000 is its plain decimal form.
pub proof fn lemma_grouped_small(v: int)
    requires
        -1000 < v < 1000,
    ensures
        grouped_decimal(v) == signed_decimal(v),
{
    if v < 0 {
        lemma_small_values_are_not_grouped((-v) as nat);
    } else {
        lemma_small_values_are_not_grouped(v as nat);
    }
}

/// No character of the sequence is a space.
pub open spec fn spaceless(s: Seq<char>) -> bool {
    forall|i: int| 0 <= i < s.len() ==> s[i] != ' '
}

proof fn lemma_spaceless_unchanged(s: Seq<char>)
    requires
        spaceless(s),
    ensures
        without_spaces(s) == s,
    decreases s.len(),
{
    reveal(Seq::filter);
    if s.len() > 0 {
        lemma_spaceless_unchanged(s.drop_last());
        assert(s.drop_last().push(s.last()) == s);
    }
}

proof fn lemma_decimal_spaceless(n: nat)
    ensures
        spaceless(decimal(n)),
        decimal(n).len() >= 1,
    decreases n,
{
    if n >= 10 {
        lemma_decimal_spaceless(n / 10);
    }
}

proof fn lemma_group_strips_back(s: Seq<char>)
    requires
        spaceless(s),
    ensures
        without_spaces(group_thousands(s)) == s,
    decreases s.len(),
{
    let p = |c: char| c != ' ';
    if s.len() <= 3 {
        lemma_spaceless_unchanged(s);
    } else {
        let head = s.subrange(0, s.len() - 3);
        let tail = s.subrange(s.len() - 3, s.len() as int);
        lemma_group_strips_back(head);
        lemma_spaceless_unchanged(tail);
        Seq::filter_distributes_over_add(group_thousands(head) + seq![' '], tail, p);
        Seq::filter_distributes_over_add(group_thousands(head), seq![' '], p);
        reveal_with_fuel(Seq::filter, 2);
        assert(seq![' '].filter(p) == Seq::<char>::empty());
        assert(head + tail == s);
    }
}

/// Digit grouping only inserts spaces: removing them from `render_int`'s output gives
/// back the plain decimal form of the value.
pub proof fn lemma_grouping_only_inserts_spaces(v: int)
    ensures
        without_spaces(grouped_decimal(v)) == signed_decimal(v),
{
    let p = |c: char| c != ' ';
    if v < 0 {
        let d = decimal((-v) as nat);
        lemma_decimal_spaceless((-v) as nat);
        lemma_group_strips_back(d);
        Seq::filter_distributes_over_add(seq!['-'], group_thousands(d), p);
        reveal_with_fuel(Seq::filter, 2);
        assert(seq!['-'].filter(p) == seq!['-']);
    } else {
        lemma_decimal_spaceless(v as nat);
        lemma_group_strips_back(decimal(v as nat));
    }
}

/// In grouped output, the last group always has three digits when there is more than one group:
/// a space is followed by exactly three non-space characters at the end.
pub proof fn lemma_last_group_has_three_digits(v: nat)
    requires
        v >= 1000,
    ensures
        ({
            let g = group_thousands(decimal(v));
            &&& g.len() >= 4
            &&& g[g.len() - 4] == ' '
            &&& spaceless(g.subrange(g.len() - 3, g.len() as int))
        }),
{
    lemma_decimal_spaceless(v);
    assert(decimal(v) == decimal(v / 10).push(digit_char(v % 10)));
    assert(decimal(v / 10) == decimal(v / 100).push(digit_char((v / 10) % 10)));
    assert(decimal(v / 100) == decimal(v / 1000).push(digit_char((v / 100) % 10)));
    lemma_decimal_spaceless(v / 1000);
    let g = group_thousands(decimal(v));
    let s = decimal(v);
    assert(s.len() > 3);
    assert(g.subrange(g.len() - 3, g.len() as int) == s.subrange(s.len() - 3, s.len() as int));
}

/// A string of decimal digits as the decimal form of a number is written: at least one digit,
/// and no leading zero unless the number is 0.
pub open spec fn plain_digits(s: Seq<char>) -> bool {
    &&& s.len() >= 1
    &&& all_digits(s)
    &&& (s[0] == '0' ==> s.len() == 1)
}

/// The decimal form of `n` reads back as `n`: it is plain digits whose value is `n`.
pub proof fn lemma_decimal_reads_back(n: nat)
    ensures
        plain_digits(decimal(n)),
        digits_value(decimal(n)) == n,
    decreases n,
{
    if n < 10 {
        let s = decimal(n);
        assert(s.drop_last() =~= Seq::<char>::empty());
        assert(digits_value(s.drop_last()) == 0);
    } else {
        lemma_decimal_reads_back(n / 10);
        let s = decimal(n);
        let h = decimal(n / 10);
        assert(s == h.push(digit_char(n % 10)));
        assert(s.drop_last() =~= h);
        assert(s.last() == digit_char(n % 10));
        assert forall|i: int| 0 <= i < s.len() implies is_digit(#[trigger] s[i]) by {
            if i < h.len() {
                assert(s[i] == h[i]);
            }
        }
        assert(s[0] == h[0]);
        assert(h.len() >= 1);
        if h[0] == '0' {
            assert(h.len() == 1);
            assert(h.drop_last() =~= Seq::<char>::empty());
            assert(h.last() == '0');
            assert(digits_value(h.drop_last()) == 0);
            assert(digits_value(h) == digits_value(h.drop_last()) * 10
                + ((h.last() as u32 - '0' as u32) as nat));
            assert(digits_value(h) == 0);
            assert(false);
        }
    }
}

/// What `abbreviate_int` shows reads back as the value, cut to its unit: the plain decimal
/// form below 1000 (with `-` before negative values, which are not abbreviated); from 1000,
/// the whole thousands followed by `K`; from a million, the whole millions followed by `M`;
/// from a billion, the whole billions, grouped by spaces, followed by `B`.
pub proof fn lemma_abbreviation_reads_back(v: int)
    ensures
        v < 0 ==> abbreviated_decimal(v)[0] == '-' && plain_digits(abbreviated_decimal(v).skip(1))
            && digits_value(abbreviated_decimal(v).skip(1)) == -v,
        0 <= v <= 999 ==> plain_digits(abbreviated_decimal(v)) && digits_value(abbreviated_decimal(v)) == v,
        1_000 <= v <= 999_999 ==> abbreviated_decimal(v).last() == 'K'
            && plain_digits(abbreviated_decimal(v).drop_last())
            && digits_value(abbreviated_decimal(v).drop_last()) == v / 1_000,
        1_000_000 <= v <= 999_999_999 ==> abbreviated_decimal(v).last() == 'M'
            && plain_digits(abbreviated_decimal(v).drop_last())
            && digits_value(abbreviated_decimal(v).drop_last()) == v / 1_000_000,
        1_000_000_000 <= v ==> abbreviated_decimal(v).last() == 'B'
            && plain_digits(without_spaces(abbreviated_decimal(v).drop_last()))
            && digits_value(without_spaces(abbreviated_decimal(v).drop_last())) == v / 1_000_000_000,
{
    let a = abbreviated_decimal(v);
    if v < 0 {
        lemma_decimal_reads_back((-v) as nat);
        assert(a.skip(1) =~= decimal((-v) as nat));
    } else if v <= 999 {
        lemma_decimal_reads_back(v as nat);
    } else if v <= 999_999 {
        lemma_decimal_reads_back((v / 1_000) as nat);
        assert(a.drop_last() =~= decimal((v / 1_000) as nat));
    } else if v <= 999_999_999 {
        lemma_decimal_reads_back((v / 1_000_000) as nat);
        assert(a.drop_last() =~= decimal((v / 1_000_000) as nat));
    } else {
        let b = v / 1_000_000_000;
        lemma_decimal_reads_back(b as nat);
        lemma_grouping_only_inserts_spaces(b);
        assert(a.drop_last() =~= grouped_decimal(b));
    }
}

impl RenderNumber for u8 {
    open spec fn int_value(&self) -> int { *self as int }
    open spec fn renderable(&self) -> bool { true }
    open spec fn abbreviable(&self) -> bool { true }

    fn render_int(&self) -> (s: String) {
        // a u8 never reaches 4 digits
        proof { lemma_grouped_small(*self as int); }
        decimal_string(*self as u128)
    }

    fn abbreviate_int(&self) -> (s: String) {
        decimal_string(*self as u128)
    }
}

impl RenderNumber for i8 {
    open spec fn int_value(&self) -> int { *self as int }
    open spec fn renderable(&self) -> bool { true }
    open spec fn abbreviable(&self) -> bool { true }

    fn render_int(&self) -> (s: String) {
        // an i8 never reaches 4 digits
        proof { lemma_grouped_small(*self as int); }
        signed_decimal_string(*self as i128)
    }

    fn abbreviate_int(&self) -> (s: String) {
        signed_decimal_string(*self as i128)
    }
}

impl RenderNumber for u16 {
    open spec fn int_value(&self) -> int { *self as int }
    open spec fn renderable(&self) -> bool { true }
    open spec fn abbreviable(&self) -> bool { true }

    fn render_int(&self) -> (s: String) {
        render_unsigned(*self as u128)
    }

    fn abbreviate_int(&self) -> (s: String) {
        abbreviate_unsigned(*self as u128)
    }
}

impl RenderNumber for i16 {
    open spec fn int_value(&self) -> int { *self as int }
    open spec fn renderable(&self) -> bool { *self != i16::MIN }
    open spec fn abbreviable(&self) -> bool { *self != i16::MIN }

    fn render_int(&self) -> (s: String) {
        render_signed(*self as i128)
    }

    fn abbreviate_int(&self) -> (s: String) {
        abbreviate_value(*self as i128)
    }
}

impl RenderNumber for u32 {
    open spec fn int_value(&self) -> int { *self as int }
    open spec fn renderable(&self) -> bool { true }
    open spec fn abbreviable(&self) -> bool { true }

    fn render_int(&self) -> (s: String) {
        render_unsigned(*self as u128)
    }

    fn abbreviate_int(&self) -> (s: String) {
        abbreviate_unsigned(*self as u128)
    }
}

impl RenderNumber for u64 {
    open spec fn int_value(&self) -> int { *self as int }
    open spec fn renderable(&self) -> bool { true }
    open spec fn abbreviable(&self) -> bool { true }

    fn render_int(&self) -> (s: String) {
        render_unsigned(*self as u128)
    }

    fn abbreviate_int(&self) -> (s: String) {
        abbreviate_unsigned(*self as u128)
    }
}

impl RenderNumber for u128 {
    open spec fn int_value(&self) -> int { *self as int }
    open spec fn renderable(&self) -> bool { true }
    open spec fn abbreviable(&self) -> bool { true }

    fn render_int(&self) -> (s: String) {
        render_unsigned(*self)
    }

    fn abbreviate_int(&self) -> (s: String) {
        abbreviate_unsigned(*self)
    }
}

impl RenderNumber for usize {
    open spec fn int_value(&self) -> int { *self as int }
    open spec fn renderable(&self) -> bool { true }
    open spec fn abbreviable(&self) -> bool { true }

    fn render_int(&self) -> (s: String) {
        render_unsigned(*self as u128)
    }

    fn abbreviate_int(&self) -> (s: String) {
        abbreviate_unsigned(*self as u128)
    }
}

impl RenderNumber for i32 {
    open spec fn int_value(&self) -> int { *self as int }
    open spec fn renderable(&self) -> bool { *self != i32::MIN }
    open spec fn abbreviable(&self) -> bool { *self >= 0 }

    fn render_int(&self) -> (s: String) {
        render_signed(*self as i128)
    }

    fn abbreviate_int(&self) -> (s: String) {
        abbreviate_value(*self as i128)
    }
}

impl RenderNumber for i64 {
    open spec fn int_value(&self) -> int { *self as int }
    open spec fn renderable(&self) -> bool { *self != i64::MIN }
    open spec fn abbreviable(&self) -> bool { *self >= 0 }

    fn render_int(&self) -> (s: String) {
        render_signed(*self as i128)
    }

    fn abbreviate_int(&self) -> (s: String) {
        abbreviate_value(*self as i128)
    }
}

impl RenderNumber for i128 {
    open spec fn int_value(&self) -> int { *self as int }
    open spec fn renderable(&self) -> bool { *self != i128::MIN }
    open spec fn abbreviable(&self) -> bool { *self >= 0 }

    fn render_int(&self) -> (s: String) {
        render_signed(*self)
    }

    fn abbreviate_int(&self) -> (s: String) {
        abbreviate_value(*self)
    }
}

impl RenderNumber for isize {
    open spec fn int_value(&self) -> int { *self as int }
    open spec fn renderable(&self) -> bool { *self != isize::MIN }
    open spec fn abbreviable(&self) -> bool { *self >= 0 }

    fn render_int(&self) -> (s: String) {
        render_signed(*self as i128)
    }

    fn abbreviate_int(&self) -> (s: String) {
        abbreviate_value(*self as i128)
    }
}

} // verus!
