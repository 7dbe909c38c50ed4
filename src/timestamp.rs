//! Strict decoder for the UTC timestamps the code host emits:
//! `YYYY-MM-DDTHH:MM:SS[.fraction]Z`, surrounding white space allowed.
use crate::calendar::{days_from_civil, days_from_civil_spec, lemma_days_bound};
use crate::text::{digit_value, is_ascii_digit};
use vstd::prelude::*;

verus! {

/// An optional machine integer as a mathematical one.
pub open spec fn int_of(r: Option<i64>) -> Option<int> {
    match r {
        Some(v) => Some(v as int),
        None => None,
    }
}

/// Characters with the Unicode `White_Space` property.
pub open spec fn is_white_space(c: char) -> bool {
    ('\u{9}' <= c <= '\u{d}') || c == ' ' || c == '\u{85}' || c == '\u{a0}' || c == '\u{1680}'
        || ('\u{2000}' <= c <= '\u{200a}') || c == '\u{2028}' || c == '\u{2029}' || c
        == '\u{202f}' || c == '\u{205f}' || c == '\u{3000}'
}

pub open spec fn trim_start_spec(s: Seq<char>) -> Seq<char>
    decreases s.len(),
{
    if s.len() > 0 && is_white_space(s[0]) {
        trim_start_spec(s.drop_first())
    } else {
        s
    }
}

pub open spec fn trim_end_spec(s: Seq<char>) -> Seq<char>
    decreases s.len(),
{
    if s.len() > 0 && is_white_space(s.last()) {
        trim_end_spec(s.drop_last())
    } else {
        s
    }
}

/// The text without leading and trailing white space.
pub open spec fn trim_spec(s: Seq<char>) -> Seq<char> {
    trim_end_spec(trim_start_spec(s))
}

/// The text up to its first `.`, or all of it.
pub open spec fn before_dot(s: Seq<char>) -> Seq<char>
    decreases s.len(),
{
    if s.len() == 0 {
        s
    } else if s[0] == '.' {
        Seq::empty()
    } else {
        seq![s[0]] + before_dot(s.drop_first())
    }
}

pub open spec fn all_digits(s: Seq<char>) -> bool {
    forall|i: int| 0 <= i < s.len() ==> is_ascii_digit(s[i])
}

/// The value of a run of decimal digits.
pub open spec fn digits_value(s: Seq<char>) -> int
    decreases s.len(),
{
    if s.len() == 0 {
        0
    } else {
        digits_value(s.drop_last()) * 10 + digit_value(s.last())
    }
}

/// An unsigned integer field: an optional `+`, then one or more digits.
pub open spec fn unsigned_field(s: Seq<char>) -> Option<int> {
    let b = if s.len() > 0 && s[0] == '+' {
        s.drop_first()
    } else {
        s
    };
    if b.len() > 0 && all_digits(b) {
        Some(digits_value(b))
    } else {
        None
    }
}

/// A signed integer field: an optional `+` or `-`, then one or more digits.
pub open spec fn signed_field(s: Seq<char>) -> Option<int> {
    if s.len() > 0 && s[0] == '-' {
        let b = s.drop_first();
        if b.len() > 0 && all_digits(b) {
            Some(-digits_value(b))
        } else {
            None
        }
    } else {
        unsigned_field(s)
    }
}

/// The `YYYY-MM-DDTHH:MM:SS` part of a timestamp: trimmed, ending in `Z`,
/// with the `Z` and any fraction removed.
pub open spec fn timestamp_main(s: Seq<char>) -> Option<Seq<char>> {
    let t = trim_spec(s);
    if t.len() == 0 || t.last() != 'Z' {
        None
    } else {
        Some(before_dot(t.drop_last()))
    }
}

pub open spec fn has_separators(m: Seq<char>) -> bool {
    m.len() == 19 && m[4] == '-' && m[7] == '-' && m[10] == 'T' && m[13] == ':' && m[16] == ':'
}

/// Seconds since the epoch of the timestamp `s`, or `None` when it is not in
/// the accepted form. Hours, minutes and seconds are not range-checked.
pub open spec fn timestamp_spec(s: Seq<char>) -> Option<int> {
    match timestamp_main(s) {
        None => None,
        Some(m) => if !has_separators(m) {
            None
        } else {
            match (
                signed_field(m.subrange(0, 4)),
                unsigned_field(m.subrange(5, 7)),
                unsigned_field(m.subrange(8, 10)),
                unsigned_field(m.subrange(11, 13)),
                unsigned_field(m.subrange(14, 16)),
                unsigned_field(m.subrange(17, 19)),
            ) {
                (Some(y), Some(mo), Some(d), Some(h), Some(mi), Some(se)) => if 1 <= mo <= 12 && 1
                    <= d <= 31 {
                    Some(days_from_civil_spec(y, mo, d) * 86400 + h * 3600 + mi * 60 + se)
                } else {
                    None
                },
                _ => None,
            }
        },
    }
}

fn is_white_space_char(c: char) -> (r: bool)
    ensures
        r == is_white_space(c),
{
    ('\u{9}' <= c && c <= '\u{d}') || c == ' ' || c == '\u{85}' || c == '\u{a0}' || c
        == '\u{1680}' || ('\u{2000}' <= c && c <= '\u{200a}') || c == '\u{2028}' || c
        == '\u{2029}' || c == '\u{202f}' || c == '\u{205f}' || c == '\u{3000}'
}

/// Reads the digits of `s[start..end]`, at most four of them.
fn parse_digits(s: &str, start: usize, end: usize) -> (r: Option<i64>)
    requires
        start <= end <= s@.len(),
        end - start <= 4,
    ensures
        r matches Some(v) ==> all_digits(s@.subrange(start as int, end as int)) && v
            == digits_value(s@.subrange(start as int, end as int)),
        r is None ==> !all_digits(s@.subrange(start as int, end as int)),
        r matches Some(v) ==> 0 <= v < 10000,
{
    let mut acc: i64 = 0;
    let mut i: usize = start;
    while i < end
        invariant
            start <= i <= end <= s@.len(),
            end - start <= 4,
            all_digits(s@.subrange(start as int, i as int)),
            acc == digits_value(s@.subrange(start as int, i as int)),
            0 <= acc < 10000,
            i - start <= 3 ==> acc < 1000,
            i - start <= 2 ==> acc < 100,
            i - start <= 1 ==> acc < 10,
            i - start == 0 ==> acc == 0,
        decreases end - i,
    {
        let c = s.get_char(i);
        if !('0' <= c && c <= '9') {
            assert(!is_ascii_digit(s@.subrange(start as int, end as int)[i - start]));
            return None;
        }
        let ghost prev = s@.subrange(start as int, i as int);
        let ghost next = s@.subrange(start as int, i + 1);
        assert(next.drop_last() =~= prev);
        acc = acc * 10 + (c as u32 - '0' as u32) as i64;
        i = i + 1;
    }
    Some(acc)
}

/// Reads the integer field `s[start..end]`, at most four characters, with an
/// optional leading `+`, and with `-` too when `signed`.
fn parse_field(s: &str, start: usize, end: usize, signed: bool) -> (r: Option<i64>)
    requires
        start <= end <= s@.len(),
        end - start <= 4,
    ensures
        signed ==> int_of(r) == signed_field(s@.subrange(start as int, end as int)),
        !signed ==> int_of(r) == unsigned_field(
            s@.subrange(start as int, end as int),
        ),
        r matches Some(v) ==> -10000 < v < 10000,
{
    let ghost f = s@.subrange(start as int, end as int);
    if start == end {
        return None;
    }
    let c = s.get_char(start);
    if c == '+' || (signed && c == '-') {
        assert(f.drop_first() =~= s@.subrange(start + 1, end as int));
        if start + 1 == end {
            return None;
        }
        match parse_digits(s, start + 1, end) {
            Some(v) => if c == '-' {
                Some(-v)
            } else {
                Some(v)
            },
            None => None,
        }
    } else {
        parse_digits(s, start, end)
    }
}

/// Seconds since the epoch of a `YYYY-MM-DDTHH:MM:SS[.fraction]Z` timestamp.
/// A fraction of a second is dropped, never rounded. Any other offset than
/// `Z`, a main part that is not 19 characters long, a misplaced separator or
/// a field that is not an integer gives `None`, as does a month outside
/// 1..=12 or a day outside 1..=31.
pub fn parse_github_datetime_to_unix(s: &str) -> (r: Option<i64>)
    ensures
        int_of(r) == timestamp_spec(s@),
{
    let n = s.unicode_len();
    let mut a: usize = 0;
    assert(s@.subrange(0, n as int) =~= s@);
    while a < n && is_white_space_char(s.get_char(a))
        invariant
            n == s@.len(),
            a <= n,
            trim_start_spec(s@) == trim_start_spec(s@.subrange(a as int, n as int)),
        decreases n - a,
    {
        assert(s@.subrange(a as int, n as int).drop_first() =~= s@.subrange(a + 1, n as int));
        a = a + 1;
    }
    assert(trim_start_spec(s@) == s@.subrange(a as int, n as int));
    let mut b: usize = n;
    while b > a && is_white_space_char(s.get_char(b - 1))
        invariant
            n == s@.len(),
            a <= b <= n,
            trim_spec(s@) == trim_end_spec(s@.subrange(a as int, b as int)),
        decreases b,
    {
        assert(s@.subrange(a as int, b as int).drop_last() =~= s@.subrange(a as int, b - 1));
        b = b - 1;
    }
    let ghost t = s@.subrange(a as int, b as int);
    assert(trim_spec(s@) == t);
    if b == a || s.get_char(b - 1) != 'Z' {
        return None;
    }
    let ghost body = s@.subrange(a as int, b - 1);
    assert(t.drop_last() =~= body);
    let mut k: usize = a;
    while k < b - 1 && s.get_char(k) != '.'
        invariant
            a <= k <= b - 1,
            b <= n == s@.len(),
            body == s@.subrange(a as int, b - 1),
            before_dot(body) == s@.subrange(a as int, k as int) + before_dot(
                s@.subrange(k as int, b - 1),
            ),
        decreases b - k,
    {
        let ghost rest = s@.subrange(k as int, b - 1);
        assert(rest.drop_first() =~= s@.subrange(k + 1, b - 1));
        assert(s@.subrange(a as int, k + 1) =~= s@.subrange(a as int, k as int) + seq![rest[0]]);
        k = k + 1;
    }
    assert(before_dot(s@.subrange(k as int, b - 1)) =~= Seq::<char>::empty());
    let ghost m = s@.subrange(a as int, k as int);
    assert(before_dot(body) =~= m);
    assert(timestamp_main(s@) == Some(m));
    if k - a != 19 {
        return None;
    }
    if s.get_char(a + 4) != '-' || s.get_char(a + 7) != '-' || s.get_char(a + 10) != 'T'
        || s.get_char(a + 13) != ':' || s.get_char(a + 16) != ':' {
        return None;
    }
    assert(has_separators(m));
    assert(m.subrange(0, 4) =~= s@.subrange(a as int, a + 4));
    assert(m.subrange(5, 7) =~= s@.subrange(a + 5, a + 7));
    assert(m.subrange(8, 10) =~= s@.subrange(a + 8, a + 10));
    assert(m.subrange(11, 13) =~= s@.subrange(a + 11, a + 13));
    assert(m.subrange(14, 16) =~= s@.subrange(a + 14, a + 16));
    assert(m.subrange(17, 19) =~= s@.subrange(a + 17, a + 19));
    let year = match parse_field(s, a, a + 4, true) {
        Some(v) => v,
        None => return None,
    };
    let month = match parse_field(s, a + 5, a + 7, false) {
        Some(v) => v,
        None => return None,
    };
    let day = match parse_field(s, a + 8, a + 10, false) {
        Some(v) => v,
        None => return None,
    };
    let hour = match parse_field(s, a + 11, a + 13, false) {
        Some(v) => v,
        None => return None,
    };
    let minute = match parse_field(s, a + 14, a + 16, false) {
        Some(v) => v,
        None => return None,
    };
    let second = match parse_field(s, a + 17, a + 19, false) {
        Some(v) => v,
        None => return None,
    };
    let days = match days_from_civil(year as i32, month as i32, day as i32) {
        Some(d) => d,
        None => return None,
    };
    proof {
        lemma_days_bound(year as int, month as int, day as int);
    }
    Some(days * 86400 + hour * 3600 + minute * 60 + second)
}

} // verus!
