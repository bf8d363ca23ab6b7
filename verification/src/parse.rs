//! Reading numbers from text.

use crate::text::{chars_of, trim_chars, trimmed};
use vstd::prelude::*;

verus! {

/// The character is a decimal digit.
pub open spec fn is_digit(c: char) -> bool {
    '0' <= c <= '9'
}

/// The value of a decimal digit.
pub open spec fn digit_value(c: char) -> int {
    c as u32 - '0' as u32
}

/// Every character is a decimal digit.
pub open spec fn all_digits(s: Seq<char>) -> bool {
    forall|i: int| 0 <= i < s.len() ==> is_digit(#[trigger] s[i])
}

/// The number that a run of digits writes.
pub open spec fn digits_value(s: Seq<char>) -> int
    decreases s.len(),
{
    if s.len() == 0 {
        0
    } else {
        10 * digits_value(s.drop_last()) + digit_value(s.last())
    }
}

/// The text carries a sign in front.
pub open spec fn has_sign(text: Seq<char>) -> bool {
    text.len() > 0 && (text[0] == '+' || text[0] == '-')
}

/// The text without its sign.
pub open spec fn unsigned_part(text: Seq<char>) -> Seq<char> {
    if has_sign(text) {
        text.drop_first()
    } else {
        text
    }
}

/// The whole number that a text writes: an optional sign and then one or
/// more digits, and nothing else.
pub open spec fn parsed_integer(text: Seq<char>) -> Option<int> {
    let body = unsigned_part(text);
    if body.len() == 0 || !all_digits(body) {
        None
    } else if text[0] == '-' {
        Some(-digits_value(body))
    } else {
        Some(digits_value(body))
    }
}

/// The whole number that a text writes, if an `i64` can hold it.
pub open spec fn parsed_i64(text: Seq<char>) -> Option<int> {
    match parsed_integer(text) {
        Some(v) => if i64::MIN <= v <= i64::MAX {
            Some(v)
        } else {
            None
        },
        None => None,
    }
}

/// A run of digits never writes a negative number.
pub proof fn lemma_digits_value_nonnegative(s: Seq<char>)
    requires
        all_digits(s),
    ensures
        0 <= digits_value(s),
    decreases s.len(),
{
    if s.len() > 0 {
        assert(all_digits(s.drop_last())) by {
            assert forall|i: int| 0 <= i < s.drop_last().len() implies is_digit(
                #[trigger] s.drop_last()[i],
            ) by {
                assert(s.drop_last()[i] == s[i]);
            }
        }
        lemma_digits_value_nonnegative(s.drop_last());
        assert(is_digit(s[s.len() - 1]));
    }
}

/// The number that the digits of `chars` from `from` on write, held to
/// `limit + 1` once it exceeds `limit`; nothing when a character is no
/// digit.
fn read_digits(chars: &Vec<char>, from: usize, limit: u128) -> (r: Option<u128>)
    requires
        from <= chars.len(),
        limit <= 0xffff_ffff_ffff_ffff_ffff,
    ensures
        match r {
            Some(v) => all_digits(chars@.skip(from as int)) && (if digits_value(
                chars@.skip(from as int),
            ) > limit {
                v == limit + 1
            } else {
                v == digits_value(chars@.skip(from as int))
            }),
            None => !all_digits(chars@.skip(from as int)),
        },
{
    let ghost body = chars@.skip(from as int);
    let mut value: u128 = 0;
    let mut i: usize = from;
    assert(body.take(0) =~= Seq::<char>::empty());
    while i < chars.len()
        invariant
            from <= i <= chars.len(),
            limit <= 0xffff_ffff_ffff_ffff_ffff,
            body == chars@.skip(from as int),
            all_digits(body.take(i - from)),
            value <= limit + 1,
            if digits_value(body.take(i - from)) > limit {
                value == limit + 1
            } else {
                value == digits_value(body.take(i - from))
            },
        decreases chars.len() - i,
    {
        let c = chars[i];
        assert(body[i - from] == c);
        if !('0' <= c && c <= '9') {
            assert(!is_digit(body[i - from]));
            return None;
        }
        proof {
            let next = body.take(i - from + 1);
            assert(next.drop_last() =~= body.take(i - from));
            assert(next.last() == c);
            assert forall|k: int| 0 <= k < next.len() implies is_digit(#[trigger] next[k]) by {
                if k < i - from {
                    assert(next[k] == body.take(i - from)[k]);
                }
            }
            lemma_digits_value_nonnegative(body.take(i - from));
        }
        let d: u128 = (c as u32 - '0' as u32) as u128;
        if value > limit {
            value = limit + 1;
        } else {
            let next_value: u128 = 10 * value + d;
            value = if next_value > limit {
                limit + 1
            } else {
                next_value
            };
        }
        i += 1;
    }
    assert(body.take(body.len() as int) =~= body);
    Some(value)
}

/// Reads a whole number that an `i64` can hold.
pub fn parse_i64(text: &str) -> (r: Option<i64>)
    ensures
        match r {
            Some(v) => parsed_i64(text@) == Some(v as int),
            None => parsed_i64(text@) is None,
        },
{
    let chars = chars_of(text);
    let signed = chars.len() > 0 && (chars[0] == '+' || chars[0] == '-');
    let from: usize = if signed {
        1
    } else {
        0
    };
    proof {
        if signed {
            assert(chars@.skip(1) =~= chars@.drop_first());
        } else {
            assert(chars@.skip(0) =~= chars@);
        }
    }
    if chars.len() == from {
        return None;
    }
    let negative = signed && chars[0] == '-';
    let limit: u128 = 0x8000_0000_0000_0000;
    match read_digits(&chars, from, limit) {
        None => None,
        Some(v) => {
            if negative {
                if v > limit {
                    None
                } else if v == limit {
                    Some(i64::MIN)
                } else {
                    Some(-(v as i64))
                }
            } else {
                if v >= limit {
                    None
                } else {
                    Some(v as i64)
                }
            }
        },
    }
}

/// The position of the first `.` in the text, or its length.
pub open spec fn point_at(text: Seq<char>) -> int
    decreases text.len(),
{
    if text.len() == 0 || text[0] == '.' {
        0
    } else {
        1 + point_at(text.drop_first())
    }
}

/// The first six digits behind the point as millionths; missing digits
/// count as zeros and further digits are dropped.
pub open spec fn fraction_ppm(frac: Seq<char>) -> int {
    let d = |i: int|
        if i < frac.len() {
            digit_value(frac[i])
        } else {
            0
        };
    100_000 * d(0) + 10_000 * d(1) + 1_000 * d(2) + 100 * d(3) + 10 * d(4) + d(5)
}

/// The decimal fraction that a text writes, in millionths and rounded
/// toward zero: an optional sign, digits, and optionally a point and more
/// digits, with at least one digit in all. Nothing when the text is
/// something else or the number is too large for `limit`.
pub open spec fn parsed_ppm(text: Seq<char>, limit: int) -> Option<int> {
    let body = unsigned_part(text);
    let at = point_at(body);
    let whole = body.take(at);
    let frac = if at < body.len() {
        body.skip(at + 1)
    } else {
        Seq::<char>::empty()
    };
    if whole.len() + frac.len() == 0 || !all_digits(whole) || !all_digits(frac) || digits_value(
        whole,
    ) > limit {
        None
    } else {
        let magnitude = 1_000_000 * digits_value(whole) + fraction_ppm(frac);
        if text[0] == '-' {
            Some(-magnitude)
        } else {
            Some(magnitude)
        }
    }
}

fn digit_at(chars: &Vec<char>, at: usize) -> (d: i64)
    requires
        at >= chars.len() || is_digit(chars@[at as int]),
    ensures
        d == (if at < chars@.len() {
            digit_value(chars@[at as int])
        } else {
            0
        }),
        0 <= d <= 9,
{
    if at < chars.len() {
        (chars[at] as u32 - '0' as u32) as i64
    } else {
        0
    }
}

/// Reads a decimal fraction in millionths whose whole part is at most a
/// million.
pub fn parse_ppm(text: &str) -> (r: Option<i64>)
    ensures
        match r {
            Some(v) => parsed_ppm(text@, 1_000_000) == Some(v as int),
            None => parsed_ppm(text@, 1_000_000) is None,
        },
{
    let chars = chars_of(text);
    let signed = chars.len() > 0 && (chars[0] == '+' || chars[0] == '-');
    let negative = signed && chars[0] == '-';
    let mut body: Vec<char> = Vec::new();
    let mut i: usize = if signed {
        1
    } else {
        0
    };
    let from = i;
    while i < chars.len()
        invariant
            from <= i <= chars.len(),
            body@ == chars@.subrange(from as int, i as int),
        decreases chars.len() - i,
    {
        body.push(chars[i]);
        assert(chars@.subrange(from as int, i + 1) =~= chars@.subrange(from as int, i as int).push(
            chars@[i as int],
        ));
        i += 1;
    }
    assert(body@ =~= unsigned_part(text@)) by {
        if signed {
            assert(chars@.subrange(1, chars@.len() as int) =~= chars@.drop_first());
        } else {
            assert(chars@.subrange(0, chars@.len() as int) =~= chars@);
        }
    }
    let mut at: usize = 0;
    assert(body@.skip(0) =~= body@);
    while at < body.len() && body[at] != '.'
        invariant
            at <= body.len(),
            point_at(body@) == at + point_at(body@.skip(at as int)),
        decreases body.len() - at,
    {
        assert(body@.skip(at as int)[0] == body@[at as int]);
        assert(body@.skip(at as int).drop_first() =~= body@.skip(at + 1));
        at += 1;
    }
    proof {
        let rest = body@.skip(at as int);
        if at < body.len() {
            assert(rest[0] == body@[at as int]);
        }
        assert(point_at(rest) == 0);
    }
    let mut whole: Vec<char> = Vec::new();
    let mut k: usize = 0;
    while k < at
        invariant
            k <= at <= body.len(),
            whole@ == body@.take(k as int),
        decreases at - k,
    {
        whole.push(body[k]);
        assert(body@.take(k + 1) =~= body@.take(k as int).push(body@[k as int]));
        k += 1;
    }
    let mut frac: Vec<char> = Vec::new();
    if at < body.len() {
        let mut j: usize = at + 1;
        while j < body.len()
            invariant
                at + 1 <= j <= body.len(),
                frac@ == body@.subrange(at + 1, j as int),
            decreases body.len() - j,
        {
            frac.push(body[j]);
            assert(body@.subrange(at + 1, j + 1) =~= body@.subrange(at + 1, j as int).push(
                body@[j as int],
            ));
            j += 1;
        }
        assert(body@.subrange(at + 1, body@.len() as int) =~= body@.skip(at + 1));
    }
    if whole.len() + frac.len() == 0 {
        return None;
    }
    assert(whole@.skip(0) =~= whole@);
    assert(frac@.skip(0) =~= frac@);
    let whole_value: u128 = match read_digits(&whole, 0, 1_000_000) {
        None => {
            return None;
        },
        Some(v) => v,
    };
    match read_digits(&frac, 0, 0) {
        None => {
            return None;
        },
        Some(_) => {},
    }
    if whole_value > 1_000_000 {
        return None;
    }
    let magnitude: i64 = 1_000_000 * (whole_value as i64) + 100_000 * digit_at(&frac, 0) + 10_000
        * digit_at(&frac, 1) + 1_000 * digit_at(&frac, 2) + 100 * digit_at(&frac, 3) + 10
        * digit_at(&frac, 4) + digit_at(&frac, 5);
    if negative {
        Some(-magnitude)
    } else {
        Some(magnitude)
    }
}

} // verus!
