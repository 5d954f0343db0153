use vstd::prelude::*;
use vstd::arithmetic::div_mod::lemma_fundamental_div_mod_converse;
use crate::text::{
    chars_equal, chars_eq_ignore_ascii_case, chars_of, decimal, digit_value, eq_ignore_ascii_case,
    find_chars, find_from, first_non_space, end_non_space, is_digit, matches_at, digit_char, push_decimal, string_of, trim_chars, trimmed,
};

verus! {

/// A renderer time string that fits none of the accepted shapes.
#[derive(Debug, Clone, Copy, PartialEq, Eq)]
pub struct TimeParseError;

/// Whether `t[a..b]` is one or two decimal digits.
pub open spec fn field_ok(t: Seq<char>, a: int, b: int) -> bool {
    0 <= a && a < b && b <= t.len() && b - a <= 2 && forall|k: int| a <= k < b ==> is_digit(t[k])
}

pub open spec fn field_value(t: Seq<char>, a: int, b: int) -> nat {
    if b - a == 1 {
        digit_value(t[a])
    } else {
        10 * digit_value(t[a]) + digit_value(t[a + 1])
    }
}

pub open spec fn colon_from(t: Seq<char>, i: int) -> Option<int> {
    find_from(t, seq![':'], i)
}

/// Hours, minutes and seconds read from `SS`, `MM:SS` or `HH:MM:SS`, each part of one or
/// two digits (so `H:MM:SS` and `0:00:01` are read too).
pub open spec fn time_fields(t: Seq<char>) -> Option<(nat, nat, nat)> {
    let n = t.len() as int;
    match colon_from(t, 0) {
        None => if field_ok(t, 0, n) {
            Some((0, 0, field_value(t, 0, n)))
        } else {
            None
        },
        Some(i) => match colon_from(t, i + 1) {
            None => if field_ok(t, 0, i) && field_ok(t, i + 1, n) {
                Some((0, field_value(t, 0, i), field_value(t, i + 1, n)))
            } else {
                None
            },
            Some(j) => if colon_from(t, j + 1) is None && field_ok(t, 0, i) && field_ok(t, i + 1, j)
                && field_ok(t, j + 1, n) {
                Some((field_value(t, 0, i), field_value(t, i + 1, j), field_value(t, j + 1, n)))
            } else {
                None
            },
        },
    }
}

/// Seconds since midnight of a valid clock time.
pub open spec fn clock_seconds(h: nat, m: nat, s: nat) -> Option<nat> {
    if h < 24 && m < 60 && s < 60 {
        Some(h * 3600 + m * 60 + s)
    } else {
        None
    }
}

/// The duration, in seconds, that a renderer time string denotes.
pub open spec fn time_seconds(s: Seq<char>) -> Option<nat> {
    match time_fields(trimmed(s)) {
        Some((h, m, x)) => clock_seconds(h, m, x),
        None => None,
    }
}

/// Values a renderer sends when it does not know the time.
pub open spec fn unknown_time(s: Seq<char>) -> bool {
    let t = trimmed(s);
    t.len() == 0 || t == seq!['0', '0', ':', '0', '0', ':', '0', '0'] || t == seq![
        '0',
        ':',
        '0',
        '0',
        ':',
        '0',
        '0',
    ] || eq_ignore_ascii_case(
        t,
        seq!['N', 'O', 'T', '_', 'I', 'M', 'P', 'L', 'E', 'M', 'E', 'N', 'T', 'E', 'D'],
    )
}

pub open spec fn two_digits(x: nat) -> Seq<char> {
    if x < 10 {
        seq!['0'] + decimal(x)
    } else {
        decimal(x)
    }
}

/// `n` seconds written as `HH:MM:SS`.
pub open spec fn hms_text(n: nat) -> Seq<char> {
    two_digits(n / 3600) + seq![':'] + two_digits((n % 3600) / 60) + seq![':'] + two_digits(
        n % 60,
    )
}

/// Exactly two digits, a colon, two digits, a colon and two digits, naming a valid clock time.
pub open spec fn strict_hms(s: Seq<char>) -> bool {
    &&& s.len() == 8
    &&& is_digit(s[0]) && is_digit(s[1]) && is_digit(s[3]) && is_digit(s[4]) && is_digit(s[6])
        && is_digit(s[7])
    &&& s[2] == ':' && s[5] == ':'
    &&& 10 * digit_value(s[0]) + digit_value(s[1]) < 24
    &&& 10 * digit_value(s[3]) + digit_value(s[4]) < 60
    &&& 10 * digit_value(s[6]) + digit_value(s[7]) < 60
}

/// Relies on chrono's `NaiveTime::from_hms_opt`, which gives a time exactly when the hour is
/// below 24, the minute below 60 and the second below 60.
#[verifier::external_body]
fn is_clock_time(h: u32, m: u32, s: u32) -> (r: bool)
    ensures
        r == (h < 24 && m < 60 && s < 60),
{
    chrono::NaiveTime::from_hms_opt(h, m, s).is_some()
}

fn digit_num(c: char) -> (r: Option<u32>)
    ensures
        match r {
            Some(d) => is_digit(c) && d as nat == digit_value(c),
            None => !is_digit(c),
        },
{
    if '0' <= c && c <= '9' {
        Some((c as u32) - ('0' as u32))
    } else {
        None
    }
}

/// The value of `t[a..b]` where it is one or two digits.
fn field_num(t: &Vec<char>, a: usize, b: usize) -> (r: Option<u32>)
    requires
        a <= b <= t@.len(),
    ensures
        match r {
            Some(x) => field_ok(t@, a as int, b as int) && x as nat == field_value(
                t@,
                a as int,
                b as int,
            ),
            None => !field_ok(t@, a as int, b as int),
        },
{
    if b == a || b - a > 2 {
        return None;
    }
    let d0 = match digit_num(t[a]) {
        Some(d) => d,
        None => return None,
    };
    if b - a == 1 {
        return Some(d0);
    }
    match digit_num(t[a + 1]) {
        Some(d1) => {
            assert forall|k: int| a <= k < b implies is_digit(t@[k]) by {
                if k == a { } else { assert(k == a + 1); }
            }
            Some(10 * d0 + d1)
        },
        None => None,
    }
}

/// Returns true when `s` is one of the values renderers send for an unknown time: empty,
/// `00:00:00`, `0:00:00` or `NOT_IMPLEMENTED` in any letter case, once surrounding
/// whitespace is removed.
pub fn is_unknown_time(s: &str) -> (r: bool)
    ensures
        r == unknown_time(s@),
{
    let v = chars_of(s);
    let t = trim_chars(&v);
    if t.len() == 0 {
        return true;
    }
    let z8 = chars_of("00:00:00");
    let z7 = chars_of("0:00:00");
    let ni = chars_of("NOT_IMPLEMENTED");
    proof {
        reveal_strlit("00:00:00");
        reveal_strlit("0:00:00");
        reveal_strlit("NOT_IMPLEMENTED");
        assert(z8@ =~= seq!['0', '0', ':', '0', '0', ':', '0', '0']);
        assert(z7@ =~= seq!['0', ':', '0', '0', ':', '0', '0']);
        assert(ni@ =~= seq!['N', 'O', 'T', '_', 'I', 'M', 'P', 'L', 'E', 'M', 'E', 'N', 'T', 'E', 'D']);
    }
    chars_equal(&t, &z8) || chars_equal(&t, &z7) || chars_eq_ignore_ascii_case(&t, &ni)
}

/// Reads a renderer time string (`HH:MM:SS`, `H:MM:SS`, `MM:SS` or `SS`, surrounding
/// whitespace ignored) as a number of seconds.
pub fn parse_time_str(s: &str) -> (r: Result<u32, TimeParseError>)
    ensures
        match r {
            Ok(n) => time_seconds(s@) == Some(n as nat),
            Err(_) => time_seconds(s@) is None,
        },
{
    let v = chars_of(s);
    let t = trim_chars(&v);
    let colon = vec![':'];
    assert(colon@ =~= seq![':']);
    let n = t.len();
    let (h, m, x) = match find_chars(&t, &colon, 0) {
        None => match field_num(&t, 0, n) {
            Some(x) => (0u32, 0u32, x),
            None => return Err(TimeParseError),
        },
        Some(i) => {
            let j = find_chars(&t, &colon, i + 1);
            match j {
                None => {
                    let a = field_num(&t, 0, i);
                    let b = field_num(&t, i + 1, n);
                    match (a, b) {
                        (Some(a), Some(b)) => (0u32, a, b),
                        _ => return Err(TimeParseError),
                    }
                },
                Some(j) => {
                    if find_chars(&t, &colon, j + 1).is_some() {
                        return Err(TimeParseError);
                    }
                    let a = field_num(&t, 0, i);
                    let b = field_num(&t, i + 1, j);
                    let c = field_num(&t, j + 1, n);
                    match (a, b, c) {
                        (Some(a), Some(b), Some(c)) => (a, b, c),
                        _ => return Err(TimeParseError),
                    }
                },
            }
        },
    };
    if is_clock_time(h, m, x) {
        Ok(h * 3600 + m * 60 + x)
    } else {
        Err(TimeParseError)
    }
}

fn push_two_digits(out: &mut Vec<char>, x: u32)
    ensures
        final(out)@ == old(out)@ + two_digits(x as nat),
{
    if x < 10 {
        out.push('0');
    }
    push_decimal(out, x as u64);
    proof {
        if x < 10 {
            assert(final(out)@ =~= old(out)@ + two_digits(x as nat));
        }
    }
}

/// Writes `seconds` as `HH:MM:SS` (hours keep every digit they need beyond two).
pub fn format_hms(seconds: u32) -> (r: String)
    ensures
        r@ == hms_text(seconds as nat),
{
    let mut out: Vec<char> = Vec::new();
    push_two_digits(&mut out, seconds / 3600);
    out.push(':');
    push_two_digits(&mut out, (seconds % 3600) / 60);
    out.push(':');
    push_two_digits(&mut out, seconds % 60);
    assert(out@ =~= hms_text(seconds as nat));
    string_of(&out, 0, out.len())
}

proof fn lemma_single_match(s: Seq<char>, c: char, i: int)
    ensures
        matches_at(s, seq![c], i) == (0 <= i < s.len() && s[i] == c),
{
    if 0 <= i < s.len() {
        assert(s.subrange(i, i + 1) =~= seq![s[i]]);
        if s.subrange(i, i + 1) == seq![c] {
            assert(seq![c][0] == c);
        }
    }
}

proof fn lemma_digit_round_trip(c: char)
    requires
        is_digit(c),
    ensures
        digit_char(digit_value(c)) == c,
        digit_value(c) < 10,
{
}

proof fn lemma_two_digits(c0: char, c1: char)
    requires
        is_digit(c0),
        is_digit(c1),
    ensures
        two_digits(10 * digit_value(c0) + digit_value(c1)) == seq![c0, c1],
{
    lemma_digit_round_trip(c0);
    lemma_digit_round_trip(c1);
    let x = 10 * digit_value(c0) + digit_value(c1);
    lemma_fundamental_div_mod_converse(x as int, 10, digit_value(c0) as int, digit_value(c1) as int);
    reveal_with_fuel(decimal, 2);
    if x < 10 {
        assert(digit_value(c0) == 0);
        assert(c0 == '0');
        assert(two_digits(x) =~= seq![c0, c1]);
    } else {
        assert(decimal(x) =~= seq![c0, c1]);
    }
}

/// A time already written as `HH:MM:SS` reads as a duration that writes back as the same
/// text: reading and writing again changes nothing.
pub proof fn lemma_hms_round_trip(s: Seq<char>)
    requires
        strict_hms(s),
    ensures
        time_seconds(s) == Some(
            (10 * digit_value(s[0]) + digit_value(s[1])) * 3600 + (10 * digit_value(s[3])
                + digit_value(s[4])) * 60 + 10 * digit_value(s[6]) + digit_value(s[7]),
        ),
        hms_text(time_seconds(s)->0) == s,
{
    // no surrounding whitespace
    assert(first_non_space(s, 0) == 0);
    assert(end_non_space(s, 0, 8) == 8);
    assert(trimmed(s) =~= s);
    // colons at 2 and 5 only
    lemma_single_match(s, ':', 0);
    lemma_single_match(s, ':', 1);
    lemma_single_match(s, ':', 2);
    lemma_single_match(s, ':', 3);
    lemma_single_match(s, ':', 4);
    lemma_single_match(s, ':', 5);
    lemma_single_match(s, ':', 6);
    lemma_single_match(s, ':', 7);
    reveal_with_fuel(find_from, 4);
    assert(colon_from(s, 0) == Some(2int));
    assert(colon_from(s, 3) == Some(5int));
    assert(colon_from(s, 6) is None);
    assert(field_ok(s, 0, 2));
    assert(field_ok(s, 3, 5));
    assert(field_ok(s, 6, 8));
    let h = field_value(s, 0, 2);
    let m = field_value(s, 3, 5);
    let x = field_value(s, 6, 8);
    assert(time_fields(s) == Some((h, m, x)));
    let n = h * 3600 + m * 60 + x;
    assert(time_seconds(s) == Some(n));
    lemma_fundamental_div_mod_converse(n as int, 3600, h as int, (m * 60 + x) as int);
    lemma_fundamental_div_mod_converse((m * 60 + x) as int, 60, m as int, x as int);
    lemma_fundamental_div_mod_converse(n as int, 60, (h * 60 + m) as int, x as int);
    lemma_two_digits(s[0], s[1]);
    lemma_two_digits(s[3], s[4]);
    lemma_two_digits(s[6], s[7]);
    assert(hms_text(n) =~= s);
}

proof fn lemma_two_digits_shape(x: nat)
    requires
        x < 100,
    ensures
        two_digits(x).len() == 2,
        is_digit(two_digits(x)[0]),
        is_digit(two_digits(x)[1]),
        10 * digit_value(two_digits(x)[0]) + digit_value(two_digits(x)[1]) == x,
{
    reveal_with_fuel(decimal, 2);
    lemma_fundamental_div_mod_converse(x as int, 10, (x / 10) as int, (x % 10) as int);
    if x >= 10 {
        assert(decimal(x) =~= seq![digit_char(x / 10), digit_char(x % 10)]);
    }
}

/// Writing a duration as `HH:MM:SS` normalizes it: the text written reads back as the same
/// duration, and is itself in the strict shape, so writing it again changes nothing.
pub proof fn lemma_normalized_time_is_stable(s: Seq<char>)
    requires
        time_seconds(s) is Some,
    ensures
        strict_hms(hms_text(time_seconds(s)->0)),
        time_seconds(hms_text(time_seconds(s)->0)) == time_seconds(s),
        hms_text(time_seconds(hms_text(time_seconds(s)->0))->0) == hms_text(time_seconds(s)->0),
{
    let n = time_seconds(s)->0;
    assert(n < 86400);
    let h = n / 3600;
    let m = (n % 3600) / 60;
    let x = n % 60;
    lemma_fundamental_div_mod_converse(n as int, 3600, h as int, (n % 3600) as int);
    lemma_fundamental_div_mod_converse((n % 3600) as int, 60, m as int, ((n % 3600) % 60) as int);
    lemma_fundamental_div_mod_converse(n as int, 60, (h * 60 + m) as int, ((n % 3600) % 60) as int);
    assert(h < 24);
    assert(m < 60);
    assert(x < 60);
    lemma_two_digits_shape(h);
    lemma_two_digits_shape(m);
    lemma_two_digits_shape(x);
    let t = hms_text(n);
    assert(t[0] == two_digits(h)[0] && t[1] == two_digits(h)[1]);
    assert(t[3] == two_digits(m)[0] && t[4] == two_digits(m)[1]);
    assert(t[6] == two_digits(x)[0] && t[7] == two_digits(x)[1]);
    assert(strict_hms(t));
    lemma_hms_round_trip(t);
}

} // verus!
