//! Text as sequences of characters: splitting at a separator, and numbers
//! written in decimal.

use vstd::arithmetic::power;
use vstd::prelude::*;
use vstd::slice::slice_subrange;

verus! {

/// `String::push` appends the character to the end of the string.
pub assume_specification[ String::push ](s: &mut String, c: char)
    ensures
        final(s)@ == old(s)@.push(c),
;

/// The characters of an optional string.
pub open spec fn chars_of_option(s: Option<&str>) -> Option<Seq<char>> {
    match s {
        Some(t) => Some(t@),
        None => None,
    }
}

/// The characters of a string, one by one.
pub fn chars(s: &str) -> (r: Vec<char>)
    ensures
        r@ == s@,
{
    let mut out: Vec<char> = Vec::new();
    for c in it: s.chars()
        invariant
            it.seq() == s@,
            out@ == it.seq().take(it.index() as int),
    {
        out.push(c);
    }
    out
}

/// Whether two strings hold the same characters.
pub fn same_text(a: &str, b: &str) -> (r: bool)
    ensures
        r == (a@ == b@),
{
    let x: Vec<char> = chars(a);
    let y: Vec<char> = chars(b);
    if x.len() != y.len() {
        return false;
    }
    let mut i: usize = 0;
    while i < x.len()
        invariant
            x@ == a@,
            y@ == b@,
            x@.len() == y@.len(),
            i <= x@.len(),
            forall|j: int| 0 <= j < i ==> x@[j] == y@[j],
        decreases x@.len() - i,
    {
        if x[i] != y[i] {
            return false;
        }
        i += 1;
    }
    assert(a@ =~= b@);
    true
}

/// Whether an optional string is present and holds exactly these characters.
pub fn is_text(a: &Option<String>, b: &str) -> (r: bool)
    ensures
        r == (a.deep_view() == Some(b@)),
{
    match a {
        Some(t) => same_text(t.as_str(), b),
        None => false,
    }
}

// ---------------------------------------------------------------------------
// Splitting
// ---------------------------------------------------------------------------

/// Position of the first `c` in `s`; the length of `s` where there is none.
pub open spec fn first_index(s: Seq<char>, c: char) -> int
    decreases s.len(),
{
    if s.len() == 0 || s[0] == c {
        0
    } else {
        1 + first_index(s.drop_first(), c)
    }
}

/// What stands before the first `c`; all of `s` where there is none.
pub open spec fn before(s: Seq<char>, c: char) -> Seq<char> {
    s.take(first_index(s, c))
}

/// What stands behind the first `c`, where there is one.
pub open spec fn after(s: Seq<char>, c: char) -> Option<Seq<char>> {
    if first_index(s, c) < s.len() {
        Some(s.skip(first_index(s, c) + 1))
    } else {
        None
    }
}

/// The pieces that `c` separates, where there are three of them.
pub open spec fn three_pieces(s: Seq<char>, c: char) -> Option<(Seq<char>, Seq<char>, Seq<char>)> {
    match after(s, c) {
        Some(t) => match after(t, c) {
            Some(u) if after(u, c) is None => Some((before(s, c), before(t, c), u)),
            _ => None,
        },
        None => None,
    }
}

pub proof fn lemma_first_index(s: Seq<char>, c: char, i: int)
    requires
        0 <= i <= s.len(),
        forall|j: int| 0 <= j < i ==> s[j] != c,
        i == s.len() || s[i] == c,
    ensures
        first_index(s, c) == i,
    decreases s.len(),
{
    if i > 0 {
        assert forall|j: int| 0 <= j < i - 1 implies s.drop_first()[j] != c by {
            assert(s.drop_first()[j] == s[j + 1]);
        }
        lemma_first_index(s.drop_first(), c, i - 1);
    }
}

pub proof fn lemma_first_index_bounds(s: Seq<char>, c: char)
    ensures
        0 <= first_index(s, c) <= s.len(),
        first_index(s, c) < s.len() ==> s[first_index(s, c)] == c,
        forall|j: int| 0 <= j < first_index(s, c) ==> s[j] != c,
    decreases s.len(),
{
    if s.len() != 0 && s[0] != c {
        lemma_first_index_bounds(s.drop_first(), c);
        assert forall|j: int| 0 <= j < first_index(s, c) implies s[j] != c by {
            if j > 0 {
                assert(s[j] == s.drop_first()[j - 1]);
            }
        }
    }
}

/// Text that follows behind a separator changes nothing before it.
pub proof fn lemma_split_found(s: Seq<char>, tail: Seq<char>, c: char)
    requires
        after(s, c) is Some,
    ensures
        before(s + tail, c) == before(s, c),
        after(s + tail, c) == Some(after(s, c)->0 + tail),
{
    let i = first_index(s, c);
    lemma_first_index_bounds(s, c);
    lemma_first_index(s + tail, c, i);
    assert((s + tail).take(i) =~= s.take(i));
    assert((s + tail).skip(i + 1) =~= s.skip(i + 1) + tail);
}

/// Text without the separator goes into the first piece as a whole.
pub proof fn lemma_split_missing(s: Seq<char>, tail: Seq<char>, c: char)
    requires
        after(s, c) is None,
    ensures
        before(s + tail, c) == s + before(tail, c),
        after(s + tail, c) == after(tail, c),
{
    let i = first_index(tail, c);
    lemma_first_index_bounds(s, c);
    lemma_first_index_bounds(tail, c);
    lemma_first_index(s + tail, c, s.len() + i);
    assert((s + tail).take(s.len() + i) =~= s + tail.take(i));
    if i < tail.len() {
        assert((s + tail).skip(s.len() + i + 1) =~= tail.skip(i + 1));
    }
}

/// A separator splits its two sides, where the left one holds no other.
pub proof fn lemma_split_at(left: Seq<char>, right: Seq<char>, c: char)
    requires
        forall|i: int| 0 <= i < left.len() ==> left[i] != c,
    ensures
        before(left + (seq![c] + right), c) == left,
        after(left + (seq![c] + right), c) == Some(right),
{
    let s = left + (seq![c] + right);
    lemma_first_index(s, c, left.len() as int);
    assert(s.take(left.len() as int) =~= left);
    assert(s.skip(left.len() as int + 1) =~= right);
}

/// Text without the separator is one piece.
pub proof fn lemma_split_none(s: Seq<char>, c: char)
    requires
        forall|i: int| 0 <= i < s.len() ==> s[i] != c,
    ensures
        before(s, c) == s,
        after(s, c) is None,
{
    lemma_first_index(s, c, s.len() as int);
    assert(s.take(s.len() as int) =~= s);
}

/// What stands behind a separator is part of the text.
pub proof fn lemma_after_is_part(s: Seq<char>, c: char)
    requires
        after(s, c) is Some,
    ensures
        forall|i: int|
            0 <= i < after(s, c)->0.len() ==> #[trigger] after(s, c)->0[i] == s[first_index(s, c)
                + 1 + i],
        0 <= first_index(s, c),
        after(s, c)->0.len() == s.len() - first_index(s, c) - 1,
{
    lemma_first_index_bounds(s, c);
}

/// Splits at the first `c`: what stands before it, and what stands behind it.
pub fn split_first<'a>(s: &'a [char], c: char) -> (r: (&'a [char], Option<&'a [char]>))
    ensures
        r.0@ == before(s@, c),
        r.1 is Some <==> after(s@, c) is Some,
        r.1 is Some ==> r.1->0@ == after(s@, c)->0,
{
    let mut i: usize = 0;
    while i < s.len() && s[i] != c
        invariant
            i <= s@.len(),
            forall|j: int| 0 <= j < i ==> s@[j] != c,
        decreases s@.len() - i,
    {
        i += 1;
    }
    proof {
        lemma_first_index(s@, c, i as int);
    }
    if i < s.len() {
        (slice_subrange(s, 0, i), Some(slice_subrange(s, i + 1, s.len())))
    } else {
        (s, None)
    }
}

/// The three pieces between occurrences of `c`; `None` where there are fewer, or
/// more.
pub fn split_three<'a>(s: &'a [char], c: char) -> (r: Option<(&'a [char], &'a [char], &'a [char])>)
    ensures
        r is Some <==> three_pieces(s@, c) is Some,
        r matches Some(p) ==> three_pieces(s@, c) == Some((p.0@, p.1@, p.2@)),
{
    match split_first(s, c) {
        (first, Some(rest)) => match split_first(rest, c) {
            (second, Some(third)) => match split_first(third, c) {
                (_, None) => Some((first, second, third)),
                _ => None,
            },
            _ => None,
        },
        _ => None,
    }
}

// ---------------------------------------------------------------------------
// Decimal numbers
// ---------------------------------------------------------------------------

pub open spec fn is_digit(c: char) -> bool {
    '0' <= c <= '9'
}

pub open spec fn digit_value(c: char) -> nat {
    (c as nat - '0' as nat) as nat
}

/// One digit or more, and nothing else.
pub open spec fn is_number(s: Seq<char>) -> bool {
    &&& s.len() > 0
    &&& forall|i: int| 0 <= i < s.len() ==> is_digit(#[trigger] s[i])
}

/// The number that a sequence of digits writes, most significant digit first.
pub open spec fn number_value(s: Seq<char>) -> nat
    decreases s.len(),
{
    if s.len() == 0 {
        0
    } else {
        number_value(s.drop_last()) * 10 + digit_value(s.last())
    }
}

/// An unsigned number as text: digits behind an optional `+`, of a value that
/// fits in 64 bits.
pub open spec fn unsigned_number(s: Seq<char>) -> Option<u64> {
    let body = if s.len() > 0 && s[0] == '+' {
        s.drop_first()
    } else {
        s
    };
    if is_number(body) && number_value(body) <= u64::MAX {
        Some(number_value(body) as u64)
    } else {
        None
    }
}

/// A number as text: digits and nothing else, of a value that fits in 63 bits.
pub open spec fn plain_number(s: Seq<char>) -> Option<i64> {
    if is_number(s) && number_value(s) <= i64::MAX {
        Some(number_value(s) as i64)
    } else {
        None
    }
}

pub proof fn lemma_number_has_no(s: Seq<char>, c: char)
    requires
        is_number(s),
        !is_digit(c),
    ensures
        forall|i: int| 0 <= i < s.len() ==> s[i] != c,
{
    assert forall|i: int| 0 <= i < s.len() implies s[i] != c by {
        assert(is_digit(s[i]));
    }
}

pub proof fn lemma_not_a_number(s: Seq<char>, i: int)
    requires
        0 <= i < s.len(),
        !is_digit(s[i]),
    ensures
        !is_number(s),
{
}

/// Longer prefixes write larger numbers.
proof fn lemma_number_value_of_prefix(s: Seq<char>, i: int)
    requires
        0 <= i <= s.len(),
    ensures
        number_value(s.take(i)) <= number_value(s),
    decreases s.len() - i,
{
    if i == s.len() {
        assert(s.take(i) =~= s);
    } else {
        lemma_number_value_of_prefix(s, i + 1);
        assert(s.take(i + 1).drop_last() =~= s.take(i));
    }
}

/// The value of a run of digits; `None` where there is no digit, where there
/// is anything else, or where the value does not fit.
fn parse_digits(s: &[char]) -> (r: Option<u64>)
    ensures
        r == if is_number(s@) && number_value(s@) <= u64::MAX {
            Some(number_value(s@) as u64)
        } else {
            None::<u64>
        },
{
    if s.len() == 0 {
        return None;
    }
    let mut value: u64 = 0;
    let mut i: usize = 0;
    while i < s.len()
        invariant
            i <= s@.len(),
            forall|j: int| 0 <= j < i ==> is_digit(#[trigger] s@[j]),
            value == number_value(s@.take(i as int)),
        decreases s@.len() - i,
    {
        let c: char = s[i];
        if !('0' <= c && c <= '9') {
            assert(!is_digit(s@[i as int]));
            return None;
        }
        let digit: u64 = (c as u32 - '0' as u32) as u64;
        proof {
            assert(s@.take(i + 1).drop_last() =~= s@.take(i as int));
            lemma_number_value_of_prefix(s@, i + 1);
        }
        match value.checked_mul(10) {
            Some(scaled) => match scaled.checked_add(digit) {
                Some(next) => {
                    value = next;
                },
                None => {
                    return None;
                },
            },
            None => {
                return None;
            },
        }
        i += 1;
    }
    assert(s@.take(i as int) =~= s@);
    Some(value)
}

/// Reads an unsigned number.
pub fn parse_unsigned(s: &[char]) -> (r: Option<u64>)
    ensures
        r == unsigned_number(s@),
{
    if s.len() > 0 && s[0] == '+' {
        assert(s@.subrange(1, s@.len() as int) =~= s@.drop_first());
        parse_digits(slice_subrange(s, 1, s.len()))
    } else {
        parse_digits(s)
    }
}

/// Whether a text is digits, one or more, and nothing else.
pub fn all_digits(s: &[char]) -> (r: bool)
    ensures
        r == is_number(s@),
{
    if s.len() == 0 {
        return false;
    }
    let mut i: usize = 0;
    while i < s.len()
        invariant
            i <= s@.len(),
            forall|j: int| 0 <= j < i ==> is_digit(#[trigger] s@[j]),
        decreases s@.len() - i,
    {
        if !('0' <= s[i] && s[i] <= '9') {
            assert(!is_digit(s@[i as int]));
            return false;
        }
        i += 1;
    }
    true
}

/// Reads a number that is digits and nothing else.
pub fn parse_plain(s: &[char]) -> (r: Option<i64>)
    ensures
        r == plain_number(s@),
{
    match parse_digits(s) {
        Some(value) => {
            if value <= 0x7fff_ffff_ffff_ffff {
                Some(value as i64)
            } else {
                None
            }
        },
        None => None,
    }
}

/// The digit that writes `d`, for `d` below ten.
pub open spec fn digit_char(d: nat) -> char {
    ('0' as nat + d) as char
}

/// A number written in decimal, without leading zeros.
pub open spec fn decimal(n: nat) -> Seq<char>
    decreases n,
{
    if n < 10 {
        seq![digit_char(n)]
    } else {
        decimal(n / 10).push(digit_char(n % 10))
    }
}

/// Appends a number in decimal.
pub fn push_decimal(out: &mut String, n: u128)
    ensures
        final(out)@ == old(out)@ + decimal(n as nat),
    decreases n,
{
    if n >= 10 {
        push_decimal(out, n / 10);
    }
    let digit: u8 = (n % 10) as u8;
    out.push((48 + digit) as char);
    assert(out@ =~= old(out)@ + decimal(n as nat));
}

/// What `decimal` writes is a number, and reads back as the number it was
/// given.
pub proof fn law_decimal_reads_back(n: nat)
    ensures
        is_number(decimal(n)),
        number_value(decimal(n)) == n,
    decreases n,
{
    if n < 10 {
        assert(decimal(n).drop_last() =~= Seq::empty());
        assert(number_value(decimal(n).drop_last()) == 0);
    } else {
        law_decimal_reads_back(n / 10);
        assert(decimal(n).drop_last() =~= decimal(n / 10));
        assert forall|i: int| 0 <= i < decimal(n).len() implies is_digit(#[trigger] decimal(n)[i]) by {
            if i < decimal(n).len() - 1 {
                assert(decimal(n)[i] == decimal(n / 10)[i]);
            }
        }
    }
}

// ---------------------------------------------------------------------------
// Laws of numbers
// ---------------------------------------------------------------------------

/// There are ten digits, and each of them writes the number that it is known
/// for.
pub proof fn law_ten_digits(c: char)
    ensures
        is_digit(c) <==> (c == '0' || c == '1' || c == '2' || c == '3' || c == '4' || c == '5'
            || c == '6' || c == '7' || c == '8' || c == '9'),
        number_value(seq!['0']) == 0,
        number_value(seq!['1']) == 1,
        number_value(seq!['2']) == 2,
        number_value(seq!['3']) == 3,
        number_value(seq!['4']) == 4,
        number_value(seq!['5']) == 5,
        number_value(seq!['6']) == 6,
        number_value(seq!['7']) == 7,
        number_value(seq!['8']) == 8,
        number_value(seq!['9']) == 9,
{
    lemma_one_digit('0');
    lemma_one_digit('1');
    lemma_one_digit('2');
    lemma_one_digit('3');
    lemma_one_digit('4');
    lemma_one_digit('5');
    lemma_one_digit('6');
    lemma_one_digit('7');
    lemma_one_digit('8');
    lemma_one_digit('9');
}

proof fn lemma_one_digit(c: char)
    ensures
        number_value(seq![c]) == digit_value(c),
{
    assert(seq![c].drop_last() =~= Seq::<char>::empty());
    assert(seq![c].last() == c);
    assert(number_value(seq![c].drop_last()) == 0);
}

/// Digits count by their place: what stands before others counts ten times as
/// much for each of them.
pub proof fn law_digits_count_by_place(high: Seq<char>, low: Seq<char>)
    ensures
        number_value(high + low) == number_value(high) * power::pow(10, low.len())
            + number_value(low),
    decreases low.len(),
{
    let h = number_value(high) as int;
    if low.len() == 0 {
        power::lemma_pow0(10);
        assert(high + low =~= high);
        assert(h * 1 == h);
    } else {
        let rest = low.drop_last();
        let p = power::pow(10, rest.len());
        law_digits_count_by_place(high, rest);
        assert((high + low).drop_last() =~= high + rest);
        reveal(power::pow);
        assert(power::pow(10, low.len()) == 10 * p);
        assert((h * p) * 10 == h * (10 * p)) by (nonlinear_arith);
    }
}

/// Zeros in front of a number change nothing.
pub proof fn law_leading_zeros_count_nothing(s: Seq<char>)
    ensures
        number_value(seq!['0'] + s) == number_value(s),
{
    lemma_one_digit('0');
    law_digits_count_by_place(seq!['0'], s);
    assert(0 * power::pow(10, s.len()) == 0);
}

/// Numbers are written without leading zeros.
pub proof fn law_decimal_has_no_leading_zero(n: nat)
    requires
        n > 0,
    ensures
        decimal(n)[0] != '0',
    decreases n,
{
    if n >= 10 {
        law_decimal_has_no_leading_zero(n / 10);
        law_decimal_reads_back(n / 10);
        assert(decimal(n)[0] == decimal(n / 10)[0]);
    }
}

/// Digits are read as the number that they write where it fits, and as no other;
/// one plus in front of them is let pass where a sign is, and nothing else is
/// read as a number.
pub proof fn law_numbers_are_read_for_what_they_write(s: Seq<char>)
    ensures
        is_number(s) && number_value(s) <= u64::MAX ==> {
            &&& unsigned_number(s) is Some
            &&& unsigned_number(s)->0 == number_value(s)
        },
        is_number(s) && number_value(s) <= i64::MAX ==> {
            &&& plain_number(s) is Some
            &&& plain_number(s)->0 == number_value(s)
        },
        is_number(s) ==> unsigned_number(seq!['+'] + s) == unsigned_number(s),
        is_number(s) && number_value(s) > u64::MAX ==> unsigned_number(s) is None,
        is_number(s) && number_value(s) > i64::MAX ==> plain_number(s) is None,
        !is_number(s) ==> plain_number(s) is None,
        !is_number(s) ==> unsigned_number(seq!['+'] + s) is None,
        !is_number(s) && (s.len() == 0 || s[0] != '+') ==> unsigned_number(s) is None,
{
    assert((seq!['+'] + s).drop_first() =~= s);
    if is_number(s) {
        assert(is_digit(s[0]));
    }
}

/// A text is a number if it has a character and every character of it is a
/// digit.
pub proof fn law_numbers_are_made_of_digits(s: Seq<char>, i: int)
    requires
        0 <= i < s.len(),
    ensures
        !is_number(Seq::<char>::empty()),
        is_number(s) ==> is_digit(s[i]),
        is_number(s.take(i + 1)) <==> (i == 0 || is_number(s.take(i))) && is_digit(s[i]),
{
    let t = s.take(i + 1);
    assert(t[i] == s[i]);
    if i > 0 {
        assert forall|k: int| 0 <= k < i implies t[k] == s.take(i)[k] by {}
        if is_number(t) {
            assert forall|k: int| 0 <= k < i implies is_digit(#[trigger] s.take(i)[k]) by {
                assert(is_digit(t[k]));
            }
        }
        if is_number(s.take(i)) && is_digit(s[i]) {
            assert forall|k: int| 0 <= k < i + 1 implies is_digit(#[trigger] t[k]) by {
                if k < i {
                    assert(is_digit(s.take(i)[k]));
                }
            }
        }
    } else if is_digit(s[0]) {
        assert forall|k: int| 0 <= k < t.len() implies is_digit(#[trigger] t[k]) by {}
    }
}

/// The pieces between separators hold no separator, and make up the text again.
pub proof fn law_pieces_make_up_the_text(s: Seq<char>, c: char)
    ensures
        after(s, c) matches Some(rest) ==> s == before(s, c) + seq![c] + rest,
        after(s, c) is None ==> s == before(s, c),
        !before(s, c).contains(c),
        three_pieces(s, c) matches Some(p) ==> {
            &&& s == p.0 + seq![c] + p.1 + seq![c] + p.2
            &&& !p.0.contains(c) && !p.1.contains(c) && !p.2.contains(c)
        },
{
    lemma_cut(s, c);
    if three_pieces(s, c) is Some {
        let rest = after(s, c)->0;
        lemma_cut(rest, c);
        let last = after(rest, c)->0;
        lemma_cut(last, c);
        let p = three_pieces(s, c)->0;
        assert(s =~= p.0 + seq![c] + p.1 + seq![c] + p.2);
    }
}

proof fn lemma_cut(s: Seq<char>, c: char)
    ensures
        after(s, c) matches Some(rest) ==> s == before(s, c) + seq![c] + rest,
        after(s, c) is None ==> s == before(s, c),
        !before(s, c).contains(c),
{
    let i = first_index(s, c);
    lemma_first_index_bounds(s, c);
    if after(s, c) is Some {
        assert(s =~= before(s, c) + seq![c] + after(s, c)->0);
    } else {
        assert(s =~= before(s, c));
    }
    assert forall|j: int| 0 <= j < before(s, c).len() implies before(s, c)[j] != c by {
        assert(before(s, c)[j] == s[j]);
    }
}

} // verus!
