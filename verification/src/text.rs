//! Text helpers shared by the data model: conversion between strings and
//! character vectors, decimal rendering of numbers, and the removal of
//! commas from fields that become part of a CSV row.

use vstd::prelude::*;
use vstd::string::*;

verus! {

/// Appends one character to a string.
///
/// Trusted: wraps `String::push` of the standard library, which appends the
/// given character to the end of the string and changes nothing before it.
#[verifier::external_body]
pub(crate) fn push_char(s: &mut String, c: char)
    ensures
        final(s)@ == old(s)@.push(c),
{
    s.push(c)
}

/// The characters of a string, in order.
pub fn chars_of(s: &str) -> (v: Vec<char>)
    ensures
        v@ == s@,
{
    broadcast use vstd::string::group_string_axioms;

    let mut v: Vec<char> = Vec::new();
    for c in it: s.chars()
        invariant
            it.seq() == s@,
            v@ == it.seq().take(it.index() as int),
    {
        v.push(c);
    }
    v
}

/// The string made of the given characters, in order.
pub fn string_of(chars: &Vec<char>) -> (s: String)
    ensures
        s@ == chars@,
{
    let mut s = String::new();
    let mut i: usize = 0;
    while i < chars.len()
        invariant
            i <= chars.len(),
            s@ == chars@.take(i as int),
        decreases chars.len() - i,
    {
        push_char(&mut s, chars[i]);
        i += 1;
        assert(chars@.take(i as int) == chars@.take(i - 1).push(chars@[i - 1]));
    }
    s
}

/// Whether two string slices hold the same characters.
pub fn str_eq(a: &str, b: &str) -> (r: bool)
    ensures
        r == (a@ == b@),
{
    a.to_owned() == b.to_owned()
}

/// `a` followed by `b`.
pub fn joined(a: &str, b: &str) -> (s: String)
    ensures
        s@ == a@ + b@,
{
    let mut s = a.to_owned();
    s.append(b);
    s
}

/// Whether `hay` begins with the characters of `needle`.
pub fn starts_with(hay: &Vec<char>, needle: &Vec<char>) -> (r: bool)
    ensures
        r == needle@.is_prefix_of(hay@),
{
    if needle.len() > hay.len() {
        return false;
    }
    let mut i: usize = 0;
    while i < needle.len()
        invariant
            i <= needle.len(),
            needle.len() <= hay.len(),
            forall|j: int| 0 <= j < i ==> needle@[j] == hay@[j],
        decreases needle.len() - i,
    {
        if needle[i] != hay[i] {
            assert(hay@.subrange(0, needle@.len() as int)[i as int] != needle@[i as int]);
            return false;
        }
        i += 1;
    }
    assert(needle@ =~= hay@.subrange(0, needle@.len() as int));
    true
}

/// The character that stands for a decimal digit.
pub open spec fn spec_digit(d: nat) -> char
    recommends
        d < 10,
{
    seq!['0', '1', '2', '3', '4', '5', '6', '7', '8', '9'][d as int]
}

/// The decimal numeral of a natural number, without leading zeros.
pub open spec fn spec_decimal(n: nat) -> Seq<char>
    decreases n,
{
    if n < 10 {
        seq![spec_digit(n)]
    } else {
        spec_decimal(n / 10).push(spec_digit(n % 10))
    }
}

fn digit(d: usize) -> (c: char)
    requires
        d < 10,
    ensures
        c == spec_digit(d as nat),
{
    if d == 0 {
        '0'
    } else if d == 1 {
        '1'
    } else if d == 2 {
        '2'
    } else if d == 3 {
        '3'
    } else if d == 4 {
        '4'
    } else if d == 5 {
        '5'
    } else if d == 6 {
        '6'
    } else if d == 7 {
        '7'
    } else if d == 8 {
        '8'
    } else {
        '9'
    }
}

/// Appends the decimal numeral of `n` to `s`.
pub fn push_decimal(s: &mut String, n: usize)
    ensures
        final(s)@ == old(s)@ + spec_decimal(n as nat),
    decreases n,
{
    if n >= 10 {
        push_decimal(s, n / 10);
    }
    push_char(s, digit(n % 10));
}

/// The decimal numeral of `n`.
pub fn decimal(n: usize) -> (s: String)
    ensures
        s@ == spec_decimal(n as nat),
{
    let mut s = String::new();
    push_decimal(&mut s, n);
    s
}

/// A field as it is written into a CSV row: the same characters, in the same
/// order, with every comma left out.
pub open spec fn spec_sanitize_comma(s: Seq<char>) -> Seq<char> {
    s.filter(|c: char| c != ',')
}

/// Removes every comma from a field.
pub fn sanitize_comma(s: &str) -> (r: String)
    ensures
        r@ == spec_sanitize_comma(s@),
{
    let chars = chars_of(s);
    let mut r = String::new();
    let mut i: usize = 0;
    let ghost keep = |c: char| c != ',';
    proof {
        reveal(Seq::filter);
    }
    while i < chars.len()
        invariant
            i <= chars.len(),
            keep == |c: char| c != ',',
            r@ == chars@.take(i as int).filter(keep),
        decreases chars.len() - i,
    {
        let c = chars[i];
        proof {
            reveal(Seq::filter);
            assert(chars@.take(i + 1).drop_last() == chars@.take(i as int));
        }
        if c != ',' {
            push_char(&mut r, c);
        }
        i += 1;
    }
    assert(chars@.take(i as int) == chars@);
    r
}

/// The texts of a sequence of strings.
pub open spec fn spec_strings(v: Seq<String>) -> Seq<Seq<char>> {
    v.map_values(|s: String| s@)
}

/// `s` without the occurrences of `pat`, found from left to right, none
/// overlapping another. An empty `pat` occurs nowhere.
pub open spec fn spec_remove(s: Seq<char>, pat: Seq<char>) -> Seq<char>
    decreases s.len(),
{
    if s.len() == 0 {
        s
    } else if pat.len() > 0 && pat.is_prefix_of(s) {
        spec_remove(s.skip(pat.len() as int), pat)
    } else {
        seq![s[0]] + spec_remove(s.skip(1), pat)
    }
}

fn occurs_at(s: &Vec<char>, at: usize, pat: &Vec<char>) -> (r: bool)
    requires
        at <= s.len(),
    ensures
        r == pat@.is_prefix_of(s@.skip(at as int)),
{
    if pat.len() > s.len() - at {
        return false;
    }
    let mut i: usize = 0;
    while i < pat.len()
        invariant
            i <= pat.len(),
            at + pat.len() <= s.len(),
            forall|j: int| 0 <= j < i ==> pat@[j] == s@[at + j],
        decreases pat.len() - i,
    {
        if pat[i] != s[at + i] {
            assert(s@.skip(at as int).subrange(0, pat@.len() as int)[i as int] != pat@[i as int]);
            return false;
        }
        i += 1;
    }
    assert(pat@ =~= s@.skip(at as int).subrange(0, pat@.len() as int));
    true
}

/// Removes the occurrences of `pat` from `s`.
pub fn remove_all(s: &str, pat: &str) -> (r: String)
    ensures
        r@ == spec_remove(s@, pat@),
{
    let chars = chars_of(s);
    let pat_chars = chars_of(pat);
    let mut r = String::new();
    let mut i: usize = 0;
    assert(chars@.skip(0) == chars@);
    assert(r@ + spec_remove(chars@, pat@) =~= spec_remove(s@, pat@));
    while i < chars.len()
        invariant
            i <= chars.len(),
            chars@ == s@,
            pat_chars@ == pat@,
            r@ + spec_remove(chars@.skip(i as int), pat@) == spec_remove(s@, pat@),
        decreases chars.len() - i,
    {
        let ghost rest = chars@.skip(i as int);
        if pat_chars.len() > 0 && occurs_at(&chars, i, &pat_chars) {
            assert(rest.skip(pat@.len() as int) == chars@.skip(i + pat@.len()));
            i += pat_chars.len();
        } else {
            assert(rest.skip(1) == chars@.skip(i + 1));
            assert(r@.push(chars@[i as int]) + spec_remove(rest.skip(1), pat@) =~= r@ + (
            seq![rest[0]] + spec_remove(rest.skip(1), pat@)));
            push_char(&mut r, chars[i]);
            i += 1;
        }
    }
    assert(r@ + Seq::<char>::empty() =~= r@);
    r
}

/// A sequence that holds no item twice still holds none twice with one
/// more item at its end that it did not hold.
pub proof fn lemma_push_keeps_distinct(s: Seq<Seq<char>>, x: Seq<char>)
    requires
        s.no_duplicates(),
        !s.contains(x),
    ensures
        s.push(x).no_duplicates(),
{
    let t = s.push(x);
    assert forall|a: int, b: int| 0 <= a < t.len() && 0 <= b < t.len() && a != b implies t[a]
        != t[b] by {
        if a < s.len() && b < s.len() {
            assert(s[a] != s[b]);
        } else if a < s.len() {
            assert(s.contains(s[a]));
        } else {
            assert(s.contains(s[b]));
        }
    }
}

/// The items of `s` in the order of their first occurrence, each once.
pub open spec fn spec_distinct(s: Seq<Seq<char>>) -> Seq<Seq<char>>
    decreases s.len(),
{
    if s.len() == 0 {
        s
    } else {
        let r = spec_distinct(s.drop_last());
        if r.contains(s.last()) {
            r
        } else {
            r.push(s.last())
        }
    }
}

/// What [`spec_distinct`] gives holds no item twice, and holds exactly the
/// items of the sequence it was made from.
pub proof fn lemma_distinct(s: Seq<Seq<char>>)
    ensures
        spec_distinct(s).no_duplicates(),
        forall|x: Seq<char>| spec_distinct(s).contains(x) <==> s.contains(x),
    decreases s.len(),
{
    if s.len() > 0 {
        let r = spec_distinct(s.drop_last());
        lemma_distinct(s.drop_last());
        assert forall|x: Seq<char>| spec_distinct(s).contains(x) <==> s.contains(x) by {
            let d = spec_distinct(s);
            if s.contains(x) {
                let i = choose|i: int| 0 <= i < s.len() && s[i] == x;
                if i < s.len() - 1 {
                    assert(s.drop_last()[i] == x);
                    assert(s.drop_last().contains(x));
                    assert(r.contains(x));
                    let j = choose|j: int| 0 <= j < r.len() && r[j] == x;
                    assert(d[j] == x);
                } else if !r.contains(s.last()) {
                    assert(d[r.len() as int] == x);
                }
                assert(d.contains(x));
            }
            if d.contains(x) {
                let j = choose|j: int| 0 <= j < d.len() && d[j] == x;
                if j < r.len() {
                    assert(r[j] == x);
                    assert(r.contains(x));
                    assert(s.drop_last().contains(x));
                    let i = choose|i: int| 0 <= i < s.drop_last().len() && s.drop_last()[i] == x;
                    assert(s[i] == x);
                } else {
                    assert(s[s.len() - 1] == x);
                }
                assert(s.contains(x));
            }
        }
    }
}

/// The number that a decimal digit stands for; none for another
/// character.
pub open spec fn spec_digit_value(c: char) -> Option<nat> {
    if c == '0' {
        Some(0)
    } else if c == '1' {
        Some(1)
    } else if c == '2' {
        Some(2)
    } else if c == '3' {
        Some(3)
    } else if c == '4' {
        Some(4)
    } else if c == '5' {
        Some(5)
    } else if c == '6' {
        Some(6)
    } else if c == '7' {
        Some(7)
    } else if c == '8' {
        Some(8)
    } else if c == '9' {
        Some(9)
    } else {
        None
    }
}

/// The number that a decimal numeral stands for; none for the empty text
/// and for a text that holds anything but digits.
pub open spec fn spec_parse_decimal(s: Seq<char>) -> Option<nat>
    decreases s.len(),
{
    if s.len() == 0 {
        None
    } else {
        match spec_digit_value(s.last()) {
            None => None,
            Some(d) => if s.len() == 1 {
                Some(d)
            } else {
                match spec_parse_decimal(s.drop_last()) {
                    None => None,
                    Some(n) => Some(10 * n + d),
                }
            },
        }
    }
}

/// The numeral of a number stands for that number.
pub proof fn lemma_parse_decimal(n: nat)
    ensures
        spec_parse_decimal(spec_decimal(n)) == Some(n),
    decreases n,
{
    if n >= 10 {
        lemma_parse_decimal(n / 10);
        let front = spec_decimal(n / 10);
        assert(front.len() > 0) by {
            if n / 10 >= 10 {
            }
        }
        assert(spec_decimal(n).drop_last() =~= front);
        assert(spec_digit_value(spec_digit(n % 10)) == Some(n % 10));
    } else {
        assert(spec_digit_value(spec_digit(n)) == Some(n));
    }
}

/// A numeral stands for no less than a shorter beginning of it does.
proof fn lemma_parse_grows(s: Seq<char>, k: int)
    requires
        1 <= k <= s.len(),
        spec_parse_decimal(s) is Some,
    ensures
        spec_parse_decimal(s.take(k)) is Some,
        spec_parse_decimal(s.take(k))->0 <= spec_parse_decimal(s)->0,
    decreases s.len() - k,
{
    if k == s.len() {
        assert(s.take(k) == s);
    } else {
        assert(s.drop_last().take(k) == s.take(k));
        lemma_parse_grows(s.drop_last(), k);
    }
}

fn digit_value(c: char) -> (r: Option<usize>)
    ensures
        match r {
            Some(d) => spec_digit_value(c) == Some(d as nat) && d < 10,
            None => spec_digit_value(c) is None,
        },
{
    if c == '0' {
        Some(0)
    } else if c == '1' {
        Some(1)
    } else if c == '2' {
        Some(2)
    } else if c == '3' {
        Some(3)
    } else if c == '4' {
        Some(4)
    } else if c == '5' {
        Some(5)
    } else if c == '6' {
        Some(6)
    } else if c == '7' {
        Some(7)
    } else if c == '8' {
        Some(8)
    } else if c == '9' {
        Some(9)
    } else {
        None
    }
}

/// The number that a decimal numeral stands for, if the text is one and
/// the number is not too large to hold.
pub fn parse_decimal(s: &str) -> (r: Option<usize>)
    ensures
        match r {
            Some(n) => spec_parse_decimal(s@) == Some(n as nat),
            None => spec_parse_decimal(s@) matches Some(n) ==> n > usize::MAX,
        },
{
    let chars = chars_of(s);
    if chars.len() == 0 {
        return None;
    }
    let mut acc: usize = 0;
    let mut i: usize = 0;
    while i < chars.len()
        invariant
            i <= chars.len(),
            chars@ == s@,
            chars@.len() > 0,
            i > 0 ==> spec_parse_decimal(chars@.take(i as int)) == Some(acc as nat),
            i == 0 ==> acc == 0,
        decreases chars.len() - i,
    {
        let ghost next = chars@.take(i + 1);
        proof {
            assert(next.drop_last() == chars@.take(i as int));
            assert(next.last() == chars@[i as int]);
        }
        let d = match digit_value(chars[i]) {
            Some(d) => d,
            None => {
                proof {
                    if spec_parse_decimal(chars@) is Some {
                        lemma_parse_grows(chars@, i + 1);
                    }
                }
                return None;
            },
        };
        if acc > (usize::MAX - d) / 10 {
            proof {
                if spec_parse_decimal(chars@) is Some {
                    lemma_parse_grows(chars@, i + 1);
                }
            }
            return None;
        }
        acc = 10 * acc + d;
        i += 1;
    }
    assert(chars@.take(i as int) == chars@);
    Some(acc)
}

} // verus!
