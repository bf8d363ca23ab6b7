//! Small operations on text, stated over sequences of characters.

use vstd::prelude::*;
use vstd::string::StringExecFns;

verus! {

/// `String::push` appends one character and changes nothing else.
pub assume_specification[ String::push ](s: &mut String, c: char)
    ensures
        final(s)@ == old(s)@.push(c),
;

/// The texts held by a sequence of strings.
pub open spec fn texts(strings: Seq<String>) -> Seq<Seq<char>> {
    Seq::new(strings.len(), |i: int| strings[i]@)
}

/// The characters of `s`, in order.
pub fn chars_of(s: &str) -> (v: Vec<char>)
    ensures
        v@ == s@,
{
    let mut v: Vec<char> = Vec::new();
    let source = s.chars();
    for c in it: source
        invariant
            it.seq() == s@,
            v@ == it.seq().take(it.index()),
    {
        v.push(c);
        assert(it.seq().take(it.index() + 1) =~= it.seq().take(it.index()).push(c));
    }
    assert(s@.take(s@.len() as int) =~= s@);
    v
}

/// The string that holds exactly the characters of `v`.
pub fn string_of(v: &Vec<char>) -> (s: String)
    ensures
        s@ == v@,
{
    let mut s = String::new();
    let mut i: usize = 0;
    while i < v.len()
        invariant
            i <= v.len(),
            s@ == v@.take(i as int),
        decreases v.len() - i,
    {
        s.push(v[i]);
        assert(v@.take(i + 1) =~= v@.take(i as int).push(v@[i as int]));
        i += 1;
    }
    assert(v@.take(v@.len() as int) =~= v@);
    s
}

/// Whether two texts hold the same characters.
pub fn same_text(a: &str, b: &str) -> (eq: bool)
    ensures
        eq == (a@ == b@),
{
    let x = a.to_owned();
    let y = b.to_owned();
    x == y
}

/// What `str::to_lowercase` returns for a text.
pub uninterp spec fn lowercase(text: Seq<char>) -> Seq<char>;

/// What `str::to_uppercase` returns for a text.
pub uninterp spec fn uppercase(text: Seq<char>) -> Seq<char>;

/// `str::to_lowercase` of the standard library: the lower-case form of `s`
/// under the Unicode case mapping. The result is given the name
/// `lowercase` and nothing more is claimed of it.
#[verifier::external_body]
pub(crate) fn to_lowercase(s: &str) -> (r: String)
    ensures
        r@ == lowercase(s@),
{
    s.to_lowercase()
}

/// `str::to_uppercase` of the standard library: the upper-case form of `s`
/// under the Unicode case mapping. The result is given the name
/// `uppercase` and nothing more is claimed of it.
#[verifier::external_body]
pub(crate) fn to_uppercase(s: &str) -> (r: String)
    ensures
        r@ == uppercase(s@),
{
    s.to_uppercase()
}

/// `needle` stands in `hay` at position `at`.
pub open spec fn occurs_at(hay: Seq<char>, needle: Seq<char>, at: int) -> bool {
    0 <= at && at + needle.len() <= hay.len() && hay.subrange(at, at + needle.len()) == needle
}

/// `needle` stands somewhere in `hay`. The empty text stands in every text.
pub open spec fn contains_text(hay: Seq<char>, needle: Seq<char>) -> bool {
    exists|at: int| occurs_at(hay, needle, at)
}

/// Whether `needle` stands in `hay` at position `at`.
fn matches_at(hay: &Vec<char>, needle: &Vec<char>, at: usize) -> (r: bool)
    requires
        at + needle.len() <= hay.len(),
    ensures
        r == occurs_at(hay@, needle@, at as int),
{
    let mut j: usize = 0;
    while j < needle.len()
        invariant
            j <= needle.len(),
            at + needle.len() <= hay.len(),
            forall|k: int| 0 <= k < j ==> hay@[at + k] == needle@[k],
        decreases needle.len() - j,
    {
        if hay[at + j] != needle[j] {
            assert(hay@.subrange(at as int, at + needle.len())[j as int] != needle@[j as int]);
            return false;
        }
        j += 1;
    }
    assert(hay@.subrange(at as int, at + needle.len()) =~= needle@);
    true
}

/// Whether `needle` stands somewhere in `hay`.
pub fn contains_chars(hay: &Vec<char>, needle: &Vec<char>) -> (r: bool)
    ensures
        r == contains_text(hay@, needle@),
{
    if needle.len() > hay.len() {
        return false;
    }
    let last: usize = hay.len() - needle.len();
    let mut at: usize = 0;
    loop
        invariant
            at <= last,
            last == hay.len() - needle.len(),
            needle.len() <= hay.len(),
            forall|k: int| 0 <= k < at ==> !occurs_at(hay@, needle@, k),
        decreases last - at,
    {
        if matches_at(hay, needle, at) {
            return true;
        }
        if at == last {
            return false;
        }
        at += 1;
    }
}

/// Whether `needle` stands somewhere in `hay`.
pub fn contains(hay: &str, needle: &str) -> (r: bool)
    ensures
        r == contains_text(hay@, needle@),
{
    let h = chars_of(hay);
    let n = chars_of(needle);
    contains_chars(&h, &n)
}

/// The character with ASCII capitals turned into small letters.
pub open spec fn ascii_lower_char(c: char) -> char {
    if 'A' <= c <= 'Z' {
        ((c as u8) + 32) as char
    } else {
        c
    }
}

/// The text with ASCII capitals turned into small letters.
pub open spec fn ascii_lower(text: Seq<char>) -> Seq<char> {
    Seq::new(text.len(), |i: int| ascii_lower_char(text[i]))
}

/// The character with ASCII capitals turned into small letters.
pub fn to_ascii_lower_char(c: char) -> (r: char)
    ensures
        r == ascii_lower_char(c),
{
    if 'A' <= c && c <= 'Z' {
        ((c as u8) + 32) as char
    } else {
        c
    }
}

/// The characters with ASCII capitals turned into small letters.
pub fn ascii_lower_chars(text: &Vec<char>) -> (r: Vec<char>)
    ensures
        r@ == ascii_lower(text@),
{
    let mut r: Vec<char> = Vec::new();
    let mut i: usize = 0;
    while i < text.len()
        invariant
            i <= text.len(),
            r@.len() == i,
            forall|j: int| 0 <= j < i ==> r@[j] == ascii_lower_char(text@[j]),
        decreases text.len() - i,
    {
        r.push(to_ascii_lower_char(text[i]));
        i += 1;
    }
    assert(r@ =~= ascii_lower(text@));
    r
}

/// Whether two character sequences are equal.
pub fn same_chars(a: &Vec<char>, b: &Vec<char>) -> (eq: bool)
    ensures
        eq == (a@ == b@),
{
    if a.len() != b.len() {
        return false;
    }
    let mut i: usize = 0;
    while i < a.len()
        invariant
            i <= a.len(),
            a.len() == b.len(),
            forall|j: int| 0 <= j < i ==> a@[j] == b@[j],
        decreases a.len() - i,
    {
        if a[i] != b[i] {
            return false;
        }
        i += 1;
    }
    assert(a@ =~= b@);
    true
}

/// Whether two texts are equal once ASCII capitals are turned into small
/// letters.
pub fn eq_ignore_ascii_case(a: &str, b: &str) -> (eq: bool)
    ensures
        eq == (ascii_lower(a@) == ascii_lower(b@)),
{
    let x = ascii_lower_chars(&chars_of(a));
    let y = ascii_lower_chars(&chars_of(b));
    same_chars(&x, &y)
}

/// White space in the sense of Unicode's `White_Space` property, which
/// is what trimming removes.
pub open spec fn is_space(c: char) -> bool {
    let u = c as u32;
    (0x9 <= u <= 0xd) || u == 0x20 || u == 0x85 || u == 0xa0 || u == 0x1680 || (0x2000 <= u
        <= 0x200a) || u == 0x2028 || u == 0x2029 || u == 0x202f || u == 0x205f || u == 0x3000
}

/// Whether `c` is white space.
pub fn is_space_char(c: char) -> (r: bool)
    ensures
        r == is_space(c),
{
    let u: u32 = c as u32;
    (0x9 <= u && u <= 0xd) || u == 0x20 || u == 0x85 || u == 0xa0 || u == 0x1680 || (0x2000 <= u
        && u <= 0x200a) || u == 0x2028 || u == 0x2029 || u == 0x202f || u == 0x205f || u == 0x3000
}

/// The text without the white space at its start.
pub open spec fn trimmed_start(text: Seq<char>) -> Seq<char>
    decreases text.len(),
{
    if text.len() > 0 && is_space(text[0]) {
        trimmed_start(text.drop_first())
    } else {
        text
    }
}

/// The text without the white space at its end.
pub open spec fn trimmed_end(text: Seq<char>) -> Seq<char>
    decreases text.len(),
{
    if text.len() > 0 && is_space(text.last()) {
        trimmed_end(text.drop_last())
    } else {
        text
    }
}

/// The text without the white space at either end.
pub open spec fn trimmed(text: Seq<char>) -> Seq<char> {
    trimmed_end(trimmed_start(text))
}

/// The characters without the white space at either end.
pub fn trim_chars(text: &Vec<char>) -> (r: Vec<char>)
    ensures
        r@ == trimmed(text@),
{
    let mut start: usize = 0;
    assert(text@.subrange(0, text@.len() as int) =~= text@);
    while start < text.len() && is_space_char(text[start])
        invariant
            start <= text.len(),
            trimmed_start(text@) == trimmed_start(text@.subrange(start as int, text@.len() as int)),
        decreases text.len() - start,
    {
        assert(text@.subrange(start as int, text@.len() as int).drop_first() =~= text@.subrange(
            start + 1,
            text@.len() as int,
        ));
        start += 1;
    }
    proof {
        let rest = text@.subrange(start as int, text@.len() as int);
        if rest.len() > 0 {
            assert(rest[0] == text@[start as int]);
        }
        assert(trimmed_start(rest) == rest);
    }
    let mut end: usize = text.len();
    while end > start && is_space_char(text[end - 1])
        invariant
            start <= end <= text.len(),
            trimmed_start(text@) == text@.subrange(start as int, text@.len() as int),
            trimmed(text@) == trimmed_end(text@.subrange(start as int, end as int)),
        decreases end,
    {
        assert(text@.subrange(start as int, end as int).drop_last() =~= text@.subrange(
            start as int,
            end - 1,
        ));
        end -= 1;
    }
    proof {
        let kept = text@.subrange(start as int, end as int);
        if kept.len() > 0 {
            assert(kept.last() == text@[end - 1]);
        }
        assert(trimmed_end(kept) == kept);
    }
    let mut r: Vec<char> = Vec::new();
    let mut i: usize = start;
    assert(text@.subrange(start as int, start as int) =~= Seq::<char>::empty());
    while i < end
        invariant
            start <= i <= end <= text.len(),
            r@ == text@.subrange(start as int, i as int),
        decreases end - i,
    {
        r.push(text[i]);
        assert(text@.subrange(start as int, i + 1) =~= text@.subrange(start as int, i as int).push(
            text@[i as int],
        ));
        i += 1;
    }
    r
}

/// The part of the text before the first `mark`; the whole text when it
/// holds none.
pub open spec fn before_char(text: Seq<char>, mark: char) -> Seq<char>
    decreases text.len(),
{
    if text.len() == 0 || text[0] == mark {
        Seq::empty()
    } else {
        seq![text[0]] + before_char(text.drop_first(), mark)
    }
}

/// The part of `text` before the first `mark`.
pub fn prefix_before(text: &str, mark: char) -> (r: String)
    ensures
        r@ == before_char(text@, mark),
{
    let chars = chars_of(text);
    let mut out: Vec<char> = Vec::new();
    let mut i: usize = 0;
    assert(chars@.skip(0) =~= chars@);
    while i < chars.len() && chars[i] != mark
        invariant
            i <= chars.len(),
            out@ == chars@.take(i as int),
            before_char(chars@, mark) == out@ + before_char(chars@.skip(i as int), mark),
        decreases chars.len() - i,
    {
        assert(chars@.skip(i as int)[0] == chars@[i as int]);
        assert(chars@.skip(i as int).drop_first() =~= chars@.skip(i + 1));
        out.push(chars[i]);
        assert(chars@.take(i + 1) =~= chars@.take(i as int).push(chars@[i as int]));
        assert(chars@.take(i as int) + (seq![chars@[i as int]] + before_char(
            chars@.skip(i + 1),
            mark,
        )) =~= chars@.take(i + 1) + before_char(chars@.skip(i + 1), mark));
        i += 1;
    }
    proof {
        let rest = chars@.skip(i as int);
        if i < chars.len() {
            assert(rest[0] == chars@[i as int]);
        }
        assert(before_char(rest, mark) =~= Seq::<char>::empty());
        assert(out@ + Seq::<char>::empty() =~= out@);
    }
    string_of(&out)
}

/// The text without the `mark`s at its end.
pub open spec fn without_trailing(text: Seq<char>, mark: char) -> Seq<char>
    decreases text.len(),
{
    if text.len() > 0 && text.last() == mark {
        without_trailing(text.drop_last(), mark)
    } else {
        text
    }
}

/// The characters without the `mark`s at their end.
pub fn strip_trailing(text: &Vec<char>, mark: char) -> (r: Vec<char>)
    ensures
        r@ == without_trailing(text@, mark),
{
    let mut end: usize = text.len();
    assert(text@.take(end as int) =~= text@);
    while end > 0 && text[end - 1] == mark
        invariant
            end <= text.len(),
            without_trailing(text@, mark) == without_trailing(text@.take(end as int), mark),
        decreases end,
    {
        assert(text@.take(end as int).drop_last() =~= text@.take(end - 1));
        end -= 1;
    }
    proof {
        let kept = text@.take(end as int);
        if kept.len() > 0 {
            assert(kept.last() == text@[end - 1]);
        }
    }
    let mut r: Vec<char> = Vec::new();
    let mut i: usize = 0;
    while i < end
        invariant
            i <= end <= text.len(),
            r@ == text@.take(i as int),
        decreases end - i,
    {
        r.push(text[i]);
        assert(text@.take(i + 1) =~= text@.take(i as int).push(text@[i as int]));
        i += 1;
    }
    r
}

/// A web address as it is used: trimmed, and without slashes at its
/// end.
pub open spec fn normalized_url(raw: Seq<char>) -> Seq<char> {
    without_trailing(trimmed(raw), '/')
}

/// Trims `raw` and drops the slashes at its end.
pub fn normalize_url(raw: &str) -> (r: String)
    ensures
        r@ == normalized_url(raw@),
{
    let t = trim_chars(&chars_of(raw));
    string_of(&strip_trailing(&t, '/'))
}

/// The character that writes the digit `d`.
pub open spec fn digit_char(d: int) -> char {
    if d == 0 {
        '0'
    } else if d == 1 {
        '1'
    } else if d == 2 {
        '2'
    } else if d == 3 {
        '3'
    } else if d == 4 {
        '4'
    } else if d == 5 {
        '5'
    } else if d == 6 {
        '6'
    } else if d == 7 {
        '7'
    } else if d == 8 {
        '8'
    } else {
        '9'
    }
}

/// The decimal digits of `n`, most significant first, without leading zeros.
pub open spec fn digits(n: nat) -> Seq<char>
    decreases n,
{
    if n < 10 {
        seq![digit_char(n as int)]
    } else {
        digits(n / 10).push(digit_char((n % 10) as int))
    }
}

/// `n` written in decimal, with a leading `-` when negative.
pub open spec fn decimal(n: int) -> Seq<char> {
    if n < 0 {
        seq!['-'] + digits((-n) as nat)
    } else {
        digits(n as nat)
    }
}

fn digit_of(d: u8) -> (c: char)
    requires
        d < 10,
    ensures
        c == digit_char(d as int),
{
    if d == 0 {
        '0'
    } else if d == 1 {
        '1'
    } else if d == 2 {
        '2'
    } else if d == 3 {
        '3'
    } else if d == 4 {
        '4'
    } else if d == 5 {
        '5'
    } else if d == 6 {
        '6'
    } else if d == 7 {
        '7'
    } else if d == 8 {
        '8'
    } else {
        '9'
    }
}

/// Appends the decimal digits of `n` to `out`.
pub fn push_digits(out: &mut String, n: u128)
    ensures
        final(out)@ == old(out)@ + digits(n as nat),
{
    let mut rest: u128 = n;
    let mut tail: Vec<char> = Vec::new();
    while rest >= 10
        invariant
            digits(n as nat) == digits(rest as nat) + tail@,
        decreases rest,
    {
        let d: u8 = (rest % 10) as u8;
        let c = digit_of(d);
        tail.insert(0, c);
        proof {
            let before = tail@.remove(0);
            assert(tail@ =~= seq![c] + before);
            assert(digits(rest as nat) == digits((rest / 10) as nat).push(c));
            assert(digits((rest / 10) as nat).push(c) + before =~= digits((rest / 10) as nat)
                + tail@);
        }
        rest = rest / 10;
    }
    let c = digit_of(rest as u8);
    out.push(c);
    let mut i: usize = 0;
    while i < tail.len()
        invariant
            i <= tail.len(),
            rest < 10,
            c == digit_char(rest as int),
            digits(n as nat) == digits(rest as nat) + tail@,
            out@ == old(out)@ + (seq![c] + tail@.take(i as int)),
        decreases tail.len() - i,
    {
        out.push(tail[i]);
        assert(tail@.take(i + 1) =~= tail@.take(i as int).push(tail@[i as int]));
        assert(old(out)@ + (seq![c] + tail@.take(i as int)).push(tail@[i as int]) =~= (old(out)@
            + (seq![c] + tail@.take(i as int))).push(tail@[i as int]));
        assert((seq![c] + tail@.take(i as int)).push(tail@[i as int]) =~= seq![c] + tail@.take(
            i as int,
        ).push(tail@[i as int]));
        i += 1;
    }
    assert(tail@.take(tail@.len() as int) =~= tail@);
    assert(old(out)@ + seq![c] =~= old(out)@.push(c));
}

/// Appends `n` in decimal to `out`.
pub fn push_decimal(out: &mut String, n: i128)
    ensures
        final(out)@ == old(out)@ + decimal(n as int),
{
    if n < 0 {
        out.push('-');
        let magnitude: u128 = if n == i128::MIN {
            0x8000_0000_0000_0000_0000_0000_0000_0000u128
        } else {
            (-n) as u128
        };
        push_digits(out, magnitude);
        assert(old(out)@.push('-') + digits(magnitude as nat) =~= old(out)@ + (seq!['-'] + digits(
            magnitude as nat,
        )));
    } else {
        push_digits(out, n as u128);
    }
}

/// `n` written in decimal.
pub fn decimal_string(n: i128) -> (s: String)
    ensures
        s@ == decimal(n as int),
{
    let mut s = String::new();
    push_decimal(&mut s, n);
    assert(Seq::<char>::empty() + decimal(n as int) =~= decimal(n as int));
    s
}

/// `num / den` in hundredths, rounded to the nearest hundredth, a half
/// away from zero.
pub open spec fn hundredths(num: int, den: int) -> int {
    if num >= 0 {
        (200 * num + den) / (2 * den)
    } else {
        -((200 * (-num) + den) / (2 * den))
    }
}

/// A number of hundredths written with two decimals, as in `12.05`.
pub open spec fn fixed2(h: int) -> Seq<char> {
    let m = if h < 0 {
        -h
    } else {
        h
    };
    let sign = if h < 0 {
        seq!['-']
    } else {
        Seq::<char>::empty()
    };
    sign + digits((m / 100) as nat) + seq!['.', digit_char((m / 10) % 10), digit_char(m % 10)]
}

/// `num / den` rounded to the nearest whole number, a half away from
/// zero.
pub open spec fn rounded_div(num: int, den: int) -> int {
    if num >= 0 {
        (2 * num + den) / (2 * den)
    } else {
        -((2 * (-num) + den) / (2 * den))
    }
}

/// A number of thousandths written with three decimals, as in `0.125`.
pub open spec fn fixed3(t: int) -> Seq<char> {
    let m = if t < 0 {
        -t
    } else {
        t
    };
    let sign = if t < 0 {
        seq!['-']
    } else {
        Seq::<char>::empty()
    };
    sign + digits((m / 1000) as nat) + seq![
        '.',
        digit_char((m / 100) % 10),
        digit_char((m / 10) % 10),
        digit_char(m % 10),
    ]
}

/// Appends a number of thousandths, written with three decimals.
pub fn push_fixed3(out: &mut String, t: i128)
    requires
        t > i128::MIN,
    ensures
        final(out)@ == old(out)@ + fixed3(t as int),
{
    let m: u128 = if t < 0 {
        (-t) as u128
    } else {
        t as u128
    };
    if t < 0 {
        out.push('-');
    }
    let ghost signed = out@;
    push_digits(out, m / 1000);
    out.push('.');
    out.push(digit_of(((m / 100) % 10) as u8));
    out.push(digit_of(((m / 10) % 10) as u8));
    out.push(digit_of((m % 10) as u8));
    proof {
        let sign = if t < 0 {
            seq!['-']
        } else {
            Seq::<char>::empty()
        };
        assert(signed =~= old(out)@ + sign);
        let tail = seq![
            '.',
            digit_char(((m / 100) % 10) as int),
            digit_char(((m / 10) % 10) as int),
            digit_char((m % 10) as int),
        ];
        assert(out@ =~= old(out)@ + (sign + digits((m / 1000) as nat) + tail));
    }
}

/// `num / den` rounded to the nearest whole number, a half away from
/// zero.
pub fn round_div(num: i128, den: i128) -> (r: i128)
    requires
        den > 0,
        -0x2000_0000_0000_0000_0000_0000_0000_0000 < num < 0x2000_0000_0000_0000_0000_0000_0000_0000,
        den < 0x2000_0000_0000_0000_0000_0000_0000_0000,
    ensures
        r == rounded_div(num as int, den as int),
{
    if num >= 0 {
        (2 * num + den) / (2 * den)
    } else {
        -((2 * (-num) + den) / (2 * den))
    }
}

/// Appends a number of hundredths, written with two decimals.
pub fn push_fixed2(out: &mut String, h: i128)
    requires
        h > i128::MIN,
    ensures
        final(out)@ == old(out)@ + fixed2(h as int),
{
    let m: u128 = if h < 0 {
        (-h) as u128
    } else {
        h as u128
    };
    if h < 0 {
        out.push('-');
    }
    let ghost signed = out@;
    push_digits(out, m / 100);
    out.push('.');
    out.push(digit_of(((m / 10) % 10) as u8));
    out.push(digit_of((m % 10) as u8));
    proof {
        let sign = if h < 0 {
            seq!['-']
        } else {
            Seq::<char>::empty()
        };
        assert(signed =~= old(out)@ + sign);
        let tail = seq!['.', digit_char(((m / 10) % 10) as int), digit_char((m % 10) as int)];
        assert(out@ =~= old(out)@ + (sign + digits((m / 100) as nat) + tail));
    }
}

/// Appends `num / den` with two decimals.
pub fn push_ratio(out: &mut String, num: i64, den: i64)
    requires
        den > 0,
    ensures
        final(out)@ == old(out)@ + fixed2(hundredths(num as int, den as int)),
{
    let n: i128 = num as i128;
    let d: i128 = den as i128;
    let h: i128 = if n >= 0 {
        (200 * n + d) / (2 * d)
    } else {
        -((200 * (-n) + d) / (2 * d))
    };
    push_fixed2(out, h);
}

/// Appends `piece` to `out`.
pub fn push_text(out: &mut String, piece: &str)
    ensures
        final(out)@ == old(out)@ + piece@,
{
    out.append(piece);
}

} // verus!
