//! Text helpers shared by the line parser and the reply renderers.
//!
//! All contracts are stated over the character sequence of a string.

use vstd::prelude::*;

verus! {

/// The characters with Unicode's `White_Space` property.
pub open spec fn is_whitespace(c: char) -> bool {
    ||| ('\u{9}' <= c && c <= '\u{d}')
    ||| c == ' '
    ||| c == '\u{85}'
    ||| c == '\u{a0}'
    ||| c == '\u{1680}'
    ||| ('\u{2000}' <= c && c <= '\u{200a}')
    ||| c == '\u{2028}'
    ||| c == '\u{2029}'
    ||| c == '\u{202f}'
    ||| c == '\u{205f}'
    ||| c == '\u{3000}'
}

/// Whether `c` is a whitespace character.
pub fn char_is_whitespace(c: char) -> (b: bool)
    ensures
        b == is_whitespace(c),
{
    ('\u{9}' <= c && c <= '\u{d}') || c == ' ' || c == '\u{85}' || c == '\u{a0}' || c
        == '\u{1680}' || ('\u{2000}' <= c && c <= '\u{200a}') || c == '\u{2028}' || c
        == '\u{2029}' || c == '\u{202f}' || c == '\u{205f}' || c == '\u{3000}'
}

/// How many characters from position `i` on stand before the first
/// whitespace character or the end of `s`.
pub open spec fn word_len(s: Seq<char>, i: int) -> nat
    decreases s.len() - i,
{
    if 0 <= i < s.len() && !is_whitespace(s[i]) {
        1 + word_len(s, i + 1)
    } else {
        0
    }
}

/// The maximal runs of characters other than whitespace that start at
/// position `i` of `s` or later, in order.
pub open spec fn words_from(s: Seq<char>, i: int) -> Seq<Seq<char>>
    decreases s.len() - i,
    via words_from_terminates
{
    if i < 0 || i >= s.len() {
        Seq::empty()
    } else if is_whitespace(s[i]) {
        words_from(s, i + 1)
    } else {
        let end = i + word_len(s, i);
        seq![s.subrange(i, end)] + words_from(s, end)
    }
}

#[via_fn]
proof fn words_from_terminates(s: Seq<char>, i: int) {
    if 0 <= i < s.len() {
        lemma_word_len_bounds(s, i);
    }
}

/// The words of `s`: its maximal runs of characters other than whitespace.
pub open spec fn words(s: Seq<char>) -> Seq<Seq<char>> {
    words_from(s, 0)
}

/// How many whitespace characters end `s`.
pub open spec fn trailing_whitespace(s: Seq<char>) -> nat
    decreases s.len(),
{
    if s.len() > 0 && is_whitespace(s.last()) {
        1 + trailing_whitespace(s.drop_last())
    } else {
        0
    }
}

/// `s` without the whitespace at its end.
pub open spec fn trim_end(s: Seq<char>) -> Seq<char> {
    s.take(s.len() - trailing_whitespace(s))
}

/// `words` joined by `sep`: the separator stands between neighbours only.
pub open spec fn joined(words: Seq<Seq<char>>, sep: Seq<char>) -> Seq<char>
    decreases words.len(),
{
    if words.len() == 0 {
        Seq::empty()
    } else if words.len() == 1 {
        words[0]
    } else {
        joined(words.drop_last(), sep) + sep + words.last()
    }
}

/// The decimal digit for `d`, which is below ten.
pub open spec fn digit(d: nat) -> char {
    if d == 0 {
        '0'
    } else if d == 1 {
        '1'
    } else if d == 2 {
        '2'
    } else if d == 3 {
        '3'
    } else if d == 4 {
        '4'
    } else if d == 5 {
        '5'
    } else if d == 6 {
        '6'
    } else if d == 7 {
        '7'
    } else if d == 8 {
        '8'
    } else {
        '9'
    }
}

/// The decimal numeral of `n`, without leading zeros.
pub open spec fn decimal(n: nat) -> Seq<char>
    decreases n,
{
    if n < 10 {
        seq![digit(n)]
    } else {
        decimal(n / 10).push(digit(n % 10))
    }
}

/// What `str::to_uppercase` makes of a string: Unicode's full upper-case
/// mapping, which this library does not spell out.
pub uninterp spec fn uppercase(s: Seq<char>) -> Seq<char>;

/// `String::push`: appends one character to the string.
#[verifier::external_body]
pub(crate) fn push_char(s: &mut String, c: char)
    ensures
        final(s)@ == old(s)@.push(c),
{
    s.push(c)
}

/// `str::to_uppercase`: the result is a function of the text alone, named
/// `uppercase`.
#[verifier::external_body]
pub(crate) fn to_uppercase(s: &str) -> (r: String)
    ensures
        r@ == uppercase(s@),
{
    s.to_uppercase()
}

/// Whether `s` begins with the character `c`.
pub open spec fn starts_with(s: Seq<char>, c: char) -> bool {
    s.len() > 0 && s[0] == c
}

/// Whether `s` begins with the character `c`.
pub fn begins_with(s: &str, c: char) -> (b: bool)
    ensures
        b == starts_with(s@, c),
{
    let chars = chars_of(s);
    chars.len() > 0 && chars[0] == c
}

/// Whether `s` holds no character.
pub fn is_empty(s: &str) -> (b: bool)
    ensures
        b == (s@.len() == 0),
{
    s.is_empty()
}

/// The characters of `s`, in order.
pub fn chars_of(s: &str) -> (v: Vec<char>)
    ensures
        v@ == s@,
{
    let mut v: Vec<char> = Vec::new();
    for c in it: s.chars()
        invariant
            v@ == it.seq().take(it.index() as int),
            it.seq() == s@,
    {
        v.push(c);
    }
    v
}

/// The string made of the characters `v[from..to]`.
pub fn string_of(v: &Vec<char>, from: usize, to: usize) -> (s: String)
    requires
        from <= to <= v.len(),
    ensures
        s@ == v@.subrange(from as int, to as int),
{
    let mut s = String::new();
    let mut i: usize = from;
    while i < to
        invariant
            from <= i <= to <= v.len(),
            s@ == v@.subrange(from as int, i as int),
        decreases to - i,
    {
        push_char(&mut s, v[i]);
        i += 1;
        assert(v@.subrange(from as int, i as int) == v@.subrange(from as int, i as int - 1).push(
            v@[i as int - 1],
        ));
    }
    s
}

/// A copy of `s`.
pub fn owned(s: &str) -> (r: String)
    ensures
        r@ == s@,
{
    String::from_str(s)
}

/// A word ends at the first whitespace character or at the end of `s`.
pub proof fn lemma_word_len_bounds(s: Seq<char>, i: int)
    requires
        0 <= i <= s.len(),
    ensures
        i + word_len(s, i) <= s.len(),
        forall|k: int| i <= k < i + word_len(s, i) ==> !is_whitespace(#[trigger] s[k]),
        i + word_len(s, i) < s.len() ==> is_whitespace(s[i + word_len(s, i)]),
    decreases s.len() - i,
{
    if i < s.len() && !is_whitespace(s[i]) {
        lemma_word_len_bounds(s, i + 1);
    }
}

/// Splits `line` at whitespace into its words.
pub fn split_whitespace(line: &str) -> (out: Vec<String>)
    ensures
        out.deep_view() == words(line@),
{
    let chars = chars_of(line);
    let mut out: Vec<String> = Vec::new();
    let mut i: usize = 0;
    assert(out.deep_view() == Seq::<Seq<char>>::empty());
    while i < chars.len()
        invariant
            i <= chars.len(),
            chars@ == line@,
            words(line@) == out.deep_view() + words_from(chars@, i as int),
        decreases chars.len() - i,
    {
        if char_is_whitespace(chars[i]) {
            i += 1;
        } else {
            let mut j: usize = i + 1;
            proof {
                lemma_word_len_bounds(chars@, i as int);
            }
            while j < chars.len() && !char_is_whitespace(chars[j])
                invariant
                    i < j <= chars.len(),
                    i + word_len(chars@, i as int) == j + word_len(chars@, j as int),
                decreases chars.len() - j,
            {
                j += 1;
            }
            let word = string_of(&chars, i, j);
            let ghost before = out.deep_view();
            out.push(word);
            proof {
                assert(out.deep_view() == before.push(word@));
                assert(before.push(word@) + words_from(chars@, j as int) == before + (seq![word@]
                    + words_from(chars@, j as int)));
            }
            i = j;
        }
    }
    out
}

/// Joins `words` with `sep` between neighbours.
pub fn join(words: &Vec<String>, sep: &str) -> (r: String)
    ensures
        r@ == joined(words.deep_view(), sep@),
{
    let mut r = String::new();
    let mut i: usize = 0;
    let ghost all = words.deep_view();
    assert(all.take(0) == Seq::<Seq<char>>::empty());
    while i < words.len()
        invariant
            i <= words.len(),
            all == words.deep_view(),
            r@ == joined(all.take(i as int), sep@),
        decreases words.len() - i,
    {
        if i > 0 {
            r.append(sep);
        }
        r.append(words[i].as_str());
        proof {
            let next = all.take(i as int + 1);
            assert(next.drop_last() == all.take(i as int));
            assert(next.last() == words[i as int]@);
            if i == 0 {
                assert(Seq::<char>::empty() + words[0]@ == words[0]@);
            }
        }
        i += 1;
    }
    assert(all.take(words.len() as int) == all);
    r
}

/// Joins the words `words[from..]` with `sep` between neighbours.
pub fn join_from(words: &Vec<String>, from: usize, sep: &str) -> (r: String)
    requires
        from <= words.len(),
    ensures
        r@ == joined(words.deep_view().skip(from as int), sep@),
{
    let mut r = String::new();
    let mut i: usize = from;
    let ghost all = words.deep_view().skip(from as int);
    assert(all.take(0) == Seq::<Seq<char>>::empty());
    while i < words.len()
        invariant
            from <= i <= words.len(),
            all == words.deep_view().skip(from as int),
            r@ == joined(all.take(i - from), sep@),
        decreases words.len() - i,
    {
        if i > from {
            r.append(sep);
        }
        r.append(words[i].as_str());
        proof {
            let next = all.take(i - from + 1);
            assert(next.drop_last() == all.take(i - from));
            assert(next.last() == words[i as int]@);
            if i == from {
                assert(Seq::<char>::empty() + words[i as int]@ == words[i as int]@);
            }
        }
        i += 1;
    }
    assert(all.take(words.len() - from) == all);
    r
}

fn digit_char(d: u64) -> (c: char)
    requires
        d < 10,
    ensures
        c == digit(d as nat),
{
    if d == 0 {
        '0'
    } else if d == 1 {
        '1'
    } else if d == 2 {
        '2'
    } else if d == 3 {
        '3'
    } else if d == 4 {
        '4'
    } else if d == 5 {
        '5'
    } else if d == 6 {
        '6'
    } else if d == 7 {
        '7'
    } else if d == 8 {
        '8'
    } else {
        '9'
    }
}

/// The decimal numeral of `n`.
pub fn decimal_string(n: u64) -> (r: String)
    ensures
        r@ == decimal(n as nat),
    decreases n,
{
    if n < 10 {
        let mut r = String::new();
        push_char(&mut r, digit_char(n));
        assert(Seq::<char>::empty().push(digit(n as nat)) == seq![digit(n as nat)]);
        r
    } else {
        let mut r = decimal_string(n / 10);
        push_char(&mut r, digit_char(n % 10));
        r
    }
}

/// The value of a decimal digit.
pub open spec fn digit_value(c: char) -> Option<nat> {
    if '0' <= c && c <= '9' {
        Some((c as nat - '0' as nat) as nat)
    } else {
        None
    }
}

/// The number that the decimal digits `s` spell, where `s` holds digits
/// only. No digits spell zero.
pub open spec fn digits_value(s: Seq<char>) -> Option<nat>
    decreases s.len(),
{
    if s.len() == 0 {
        Some(0)
    } else {
        match (digits_value(s.drop_last()), digit_value(s.last())) {
            (Some(v), Some(d)) => Some(v * 10 + d),
            _ => None,
        }
    }
}

/// `s` without the plus sign in front of it, if it has one.
pub open spec fn unsigned(s: Seq<char>) -> Seq<char> {
    if starts_with(s, '+') {
        s.skip(1)
    } else {
        s
    }
}

/// The number that `s` spells as a `u32`: decimal digits, at least one,
/// with or without a plus sign in front, and a value that fits.
pub open spec fn u32_value(s: Seq<char>) -> Option<u32> {
    let digits = unsigned(s);
    if digits.len() == 0 {
        None
    } else {
        match digits_value(digits) {
            Some(v) => if v <= u32::MAX {
                Some(v as u32)
            } else {
                None
            },
            None => None,
        }
    }
}

proof fn lemma_digits_prefix(s: Seq<char>, i: int)
    requires
        0 <= i <= s.len(),
        digits_value(s) is Some,
    ensures
        digits_value(s.take(i)) is Some,
        digits_value(s.take(i))->0 <= digits_value(s)->0,
    decreases s.len() - i,
{
    if i == s.len() {
        assert(s.take(i) =~= s);
    } else {
        assert(s.drop_last().take(i) =~= s.take(i));
        lemma_digits_prefix(s.drop_last(), i);
    }
}

/// Reads `s` as a `u32`.
pub fn parse_u32(s: &str) -> (r: Option<u32>)
    ensures
        r == u32_value(s@),
{
    let chars = chars_of(s);
    let start: usize = if chars.len() > 0 && chars[0] == '+' {
        1
    } else {
        0
    };
    if start == chars.len() {
        return None;
    }
    let ghost digits = unsigned(s@);
    assert(digits =~= chars@.skip(start as int));
    let mut value: u64 = 0;
    let mut i: usize = start;
    assert(digits.take(0) =~= Seq::empty());
    while i < chars.len()
        invariant
            start <= i <= chars.len(),
            start < chars.len(),
            digits == unsigned(s@),
            digits == chars@.skip(start as int),
            digits_value(digits.take(i - start)) == Some(value as nat),
            value <= u32::MAX,
        decreases chars.len() - i,
    {
        let c = chars[i];
        let ghost next = digits.take(i - start + 1);
        assert(next.drop_last() =~= digits.take(i - start));
        assert(next.last() == c);
        if !('0' <= c && c <= '9') {
            proof {
                assert(digit_value(c) is None);
                assert(digits_value(next) is None);
                if digits_value(digits) is Some {
                    lemma_digits_prefix(digits, i - start + 1);
                }
            }
            return None;
        }
        let d = (c as u32 - '0' as u32) as u64;
        assert(digit_value(c) == Some(d as nat));
        value = value * 10 + d;
        assert(digits_value(next) == Some(value as nat));
        if value > 0xffff_ffff {
            proof {
                if digits_value(digits) is Some {
                    lemma_digits_prefix(digits, i - start + 1);
                }
            }
            return None;
        }
        i += 1;
    }
    assert(digits.take(chars.len() - start) =~= digits);
    Some(value as u32)
}

} // verus!
