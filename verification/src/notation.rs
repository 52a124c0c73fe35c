//! The WDP notation codec.
//!
//! WDP notation is a shorthand method of referring to an individual timeslot
//! of the timetable. The canonical token has the form `W#D#P#`: a literal
//! `W` followed by the week digit (`1` or `2`), a literal `D` followed by
//! the day letter (`M`, `T`, `W`, `R` for Thursday, or `F`), and a literal
//! `P` followed by the period code (`1`..`5` for the lesson periods, or `T`
//! for tutor time, `B` for break, `L` for lunch). For example, `W1DMP2` is
//! the second period of a week one Monday.
//!
//! [`decode`] additionally accepts the abbreviated form without the literal
//! `D` (`W2RP3`), and an optional leading iteration prefix `I#`, where `#`
//! is one or more digits naming a concrete iteration of the timetable. The
//! prefix is accepted but ignored: a [`TimeSlot`] is iteration independent.
//! Tokens are case sensitive; a lowercase token never decodes.

use vstd::prelude::*;

use crate::timeslot::{ActiveDay, Period, TimeSlot, Week};

verus! {

/// Whether `c` is an ASCII decimal digit.
pub open spec fn spec_is_digit(c: char) -> bool {
    '0' <= c <= '9'
}

/// Whether `c` is an ASCII lowercase letter.
pub open spec fn spec_is_lowercase(c: char) -> bool {
    'a' <= c <= 'z'
}

/// The digit naming a week in a token: `1` for week one, `2` for week two.
pub open spec fn spec_week_digit(w: Week) -> char {
    match w {
        Week::One => '1',
        Week::Two => '2',
    }
}

/// The letter naming an active day in a token: the first letter of the
/// weekday, except `R` for Thursday to disambiguate it from Tuesday.
pub open spec fn spec_day_letter(d: ActiveDay) -> char {
    match d {
        ActiveDay::Monday => 'M',
        ActiveDay::Tuesday => 'T',
        ActiveDay::Wednesday => 'W',
        ActiveDay::Thursday => 'R',
        ActiveDay::Friday => 'F',
    }
}

/// The code naming a period in a token: the period number for the five
/// lesson periods, and `T`, `B`, `L` for tutor time, break and lunch.
pub open spec fn spec_period_code(p: Period) -> char {
    match p {
        Period::Tutor => 'T',
        Period::First => '1',
        Period::Second => '2',
        Period::Break => 'B',
        Period::Third => '3',
        Period::Fourth => '4',
        Period::Lunch => 'L',
        Period::Fifth => '5',
    }
}

/// The week named by a token digit, or [`None`] for any other character.
pub open spec fn spec_week_from_digit(c: char) -> Option<Week> {
    if c == '1' {
        Some(Week::One)
    } else if c == '2' {
        Some(Week::Two)
    } else {
        None
    }
}

/// The active day named by a token letter, or [`None`] for any other
/// character.
pub open spec fn spec_day_from_letter(c: char) -> Option<ActiveDay> {
    if c == 'M' {
        Some(ActiveDay::Monday)
    } else if c == 'T' {
        Some(ActiveDay::Tuesday)
    } else if c == 'W' {
        Some(ActiveDay::Wednesday)
    } else if c == 'R' {
        Some(ActiveDay::Thursday)
    } else if c == 'F' {
        Some(ActiveDay::Friday)
    } else {
        None
    }
}

/// The period named by a token code, or [`None`] for any other character.
pub open spec fn spec_period_from_code(c: char) -> Option<Period> {
    if c == 'T' {
        Some(Period::Tutor)
    } else if c == '1' {
        Some(Period::First)
    } else if c == '2' {
        Some(Period::Second)
    } else if c == 'B' {
        Some(Period::Break)
    } else if c == '3' {
        Some(Period::Third)
    } else if c == '4' {
        Some(Period::Fourth)
    } else if c == 'L' {
        Some(Period::Lunch)
    } else if c == '5' {
        Some(Period::Fifth)
    } else {
        None
    }
}

/// The canonical token of a slot: `W`, the week digit, `D`, the day letter,
/// `P`, the period code.
pub open spec fn spec_encode(s: TimeSlot) -> Seq<char> {
    seq![
        'W',
        spec_week_digit(s.week),
        'D',
        spec_day_letter(s.day),
        'P',
        spec_period_code(s.period),
    ]
}

/// The slot named by one week digit, one day letter and one period code, or
/// [`None`] if any of the three characters is unrecognized.
pub open spec fn spec_combine(wc: char, dc: char, pc: char) -> Option<TimeSlot> {
    match (spec_week_from_digit(wc), spec_day_from_letter(dc), spec_period_from_code(pc)) {
        (Some(week), Some(day), Some(period)) => Some(TimeSlot { week, day, period }),
        _ => None,
    }
}

/// The slot named by a token body (a token with any iteration prefix
/// already removed): either the canonical six-character form `W#D#P#`, or
/// the abbreviated five-character form without the literal `D`.
pub open spec fn spec_decode_body(t: Seq<char>) -> Option<TimeSlot> {
    if t.len() == 6 && t[0] == 'W' && t[2] == 'D' && t[4] == 'P' {
        spec_combine(t[1], t[3], t[5])
    } else if t.len() == 5 && t[0] == 'W' && t[3] == 'P' {
        spec_combine(t[1], t[2], t[4])
    } else {
        None
    }
}

/// The sequence with its longest prefix of decimal digits removed.
pub open spec fn spec_skip_digits(t: Seq<char>) -> Seq<char>
    decreases t.len(),
{
    if t.len() > 0 && spec_is_digit(t[0]) {
        spec_skip_digits(t.drop_first())
    } else {
        t
    }
}

/// The slot named by a token: the token body after an optional iteration
/// prefix `I` followed by one or more digits, or [`None`] if the token is
/// malformed.
pub open spec fn spec_decode(t: Seq<char>) -> Option<TimeSlot> {
    if t.len() >= 2 && t[0] == 'I' && spec_is_digit(t[1]) {
        spec_decode_body(spec_skip_digits(t.subrange(1, t.len() as int)))
    } else if t.len() >= 1 && t[0] == 'I' {
        None
    } else {
        spec_decode_body(t)
    }
}

/// Whether a character sequence is a canonical token: the exact uppercase
/// `W#D#P#` form produced by [`encode`], with no iteration prefix.
pub open spec fn spec_is_canonical(t: Seq<char>) -> bool {
    &&& t.len() == 6
    &&& t[0] == 'W'
    &&& t[2] == 'D'
    &&& t[4] == 'P'
    &&& spec_week_from_digit(t[1]) is Some
    &&& spec_day_from_letter(t[3]) is Some
    &&& spec_period_from_code(t[5]) is Some
}

fn week_digit_str(w: Week) -> (r: &'static str)
    ensures
        r@ == seq![spec_week_digit(w)],
{
    proof {
        reveal_strlit("1");
        reveal_strlit("2");
    }
    let r = match w {
        Week::One => "1",
        Week::Two => "2",
    };
    proof {
        assert(r@ =~= seq![spec_week_digit(w)]);
    }
    r
}

fn day_letter_str(d: ActiveDay) -> (r: &'static str)
    ensures
        r@ == seq![spec_day_letter(d)],
{
    proof {
        reveal_strlit("M");
        reveal_strlit("T");
        reveal_strlit("W");
        reveal_strlit("R");
        reveal_strlit("F");
    }
    let r = match d {
        ActiveDay::Monday => "M",
        ActiveDay::Tuesday => "T",
        ActiveDay::Wednesday => "W",
        ActiveDay::Thursday => "R",
        ActiveDay::Friday => "F",
    };
    proof {
        assert(r@ =~= seq![spec_day_letter(d)]);
    }
    r
}

fn period_code_str(p: Period) -> (r: &'static str)
    ensures
        r@ == seq![spec_period_code(p)],
{
    proof {
        reveal_strlit("T");
        reveal_strlit("1");
        reveal_strlit("2");
        reveal_strlit("B");
        reveal_strlit("3");
        reveal_strlit("4");
        reveal_strlit("L");
        reveal_strlit("5");
    }
    let r = match p {
        Period::Tutor => "T",
        Period::First => "1",
        Period::Second => "2",
        Period::Break => "B",
        Period::Third => "3",
        Period::Fourth => "4",
        Period::Lunch => "L",
        Period::Fifth => "5",
    };
    proof {
        assert(r@ =~= seq![spec_period_code(p)]);
    }
    r
}

fn week_from_digit(c: char) -> (r: Option<Week>)
    ensures
        r == spec_week_from_digit(c),
{
    if c == '1' {
        Some(Week::One)
    } else if c == '2' {
        Some(Week::Two)
    } else {
        None
    }
}

fn day_from_letter(c: char) -> (r: Option<ActiveDay>)
    ensures
        r == spec_day_from_letter(c),
{
    if c == 'M' {
        Some(ActiveDay::Monday)
    } else if c == 'T' {
        Some(ActiveDay::Tuesday)
    } else if c == 'W' {
        Some(ActiveDay::Wednesday)
    } else if c == 'R' {
        Some(ActiveDay::Thursday)
    } else if c == 'F' {
        Some(ActiveDay::Friday)
    } else {
        None
    }
}

fn period_from_code(c: char) -> (r: Option<Period>)
    ensures
        r == spec_period_from_code(c),
{
    if c == 'T' {
        Some(Period::Tutor)
    } else if c == '1' {
        Some(Period::First)
    } else if c == '2' {
        Some(Period::Second)
    } else if c == 'B' {
        Some(Period::Break)
    } else if c == '3' {
        Some(Period::Third)
    } else if c == '4' {
        Some(Period::Fourth)
    } else if c == 'L' {
        Some(Period::Lunch)
    } else if c == '5' {
        Some(Period::Fifth)
    } else {
        None
    }
}

fn is_digit_char(c: char) -> (r: bool)
    ensures
        r == spec_is_digit(c),
{
    c >= '0' && c <= '9'
}

/// Parses the token body starting at character `start` of `token`.
fn decode_body(token: &str, start: usize) -> (r: Option<TimeSlot>)
    requires
        start <= token@.len(),
    ensures
        r == spec_decode_body(token@.subrange(start as int, token@.len() as int)),
{
    let n = token.unicode_len();
    let ghost body = token@.subrange(start as int, token@.len() as int);
    let len = n - start;
    if len == 6 {
        if token.get_char(start) == 'W' && token.get_char(start + 2) == 'D' && token.get_char(
            start + 4,
        ) == 'P' {
            let week = week_from_digit(token.get_char(start + 1));
            let day = day_from_letter(token.get_char(start + 3));
            let period = period_from_code(token.get_char(start + 5));
            match (week, day, period) {
                (Some(week), Some(day), Some(period)) => Some(TimeSlot { week, day, period }),
                _ => None,
            }
        } else {
            None
        }
    } else if len == 5 {
        if token.get_char(start) == 'W' && token.get_char(start + 3) == 'P' {
            let week = week_from_digit(token.get_char(start + 1));
            let day = day_from_letter(token.get_char(start + 2));
            let period = period_from_code(token.get_char(start + 4));
            match (week, day, period) {
                (Some(week), Some(day), Some(period)) => Some(TimeSlot { week, day, period }),
                _ => None,
            }
        } else {
            None
        }
    } else {
        None
    }
}

/// Decodes a WDP notation token to the [`TimeSlot`] it names.
///
/// Returns [`None`] on any malformed token: a wrong shape, an unrecognized
/// letter or digit, or lowercase input. An iteration prefix `I#` is
/// accepted and ignored.
pub fn decode(token: &str) -> (r: Option<TimeSlot>)
    ensures
        r == spec_decode(token@),
{
    let n = token.unicode_len();
    if n >= 1 && token.get_char(0) == 'I' {
        if n >= 2 && is_digit_char(token.get_char(1)) {
            let ghost tail = token@.subrange(1, n as int);
            let mut start: usize = 1;
            loop
                invariant
                    1 <= start <= n,
                    n == token@.len(),
                    spec_is_digit(token@[1]),
                    spec_skip_digits(tail) == spec_skip_digits(
                        token@.subrange(start as int, n as int),
                    ),
                ensures
                    1 <= start <= n,
                    spec_skip_digits(tail) == token@.subrange(start as int, n as int),
                decreases n - start,
            {
                if start >= n {
                    proof {
                        assert(token@.subrange(start as int, n as int).len() == 0);
                    }
                    break;
                }
                let c = token.get_char(start);
                if !is_digit_char(c) {
                    break;
                }
                proof {
                    assert(token@.subrange(start as int, n as int).drop_first() =~= token@.subrange(
                        start as int + 1,
                        n as int,
                    ));
                }
                start += 1;
            }
            decode_body(token, start)
        } else {
            None
        }
    } else {
        decode_body(token, 0)
    }
}

/// Encodes a slot as its canonical WDP notation token.
///
/// The encoding is total and produces the canonical uppercase `W#D#P#`
/// form; [`decode`] inverts it, as [`lemma_encode_decode`] states.
pub fn encode(slot: TimeSlot) -> (r: String)
    ensures
        r@ == spec_encode(slot),
{
    let mut s = String::from_str("W");
    s.append(week_digit_str(slot.week));
    s.append("D");
    s.append(day_letter_str(slot.day));
    s.append("P");
    s.append(period_code_str(slot.period));
    proof {
        reveal_strlit("W");
        reveal_strlit("D");
        reveal_strlit("P");
        assert(s@ =~= spec_encode(slot));
    }
    s
}

/// Decoding the canonical token of any slot yields that slot back:
/// `spec_decode(spec_encode(s)) == Some(s)` for every `s`.
pub proof fn lemma_encode_decode(s: TimeSlot)
    ensures
        spec_decode(spec_encode(s)) == Some(s),
{
    let t = spec_encode(s);
    assert(spec_week_from_digit(spec_week_digit(s.week)) == Some(s.week));
    assert(spec_day_from_letter(spec_day_letter(s.day)) == Some(s.day));
    assert(spec_period_from_code(spec_period_code(s.period)) == Some(s.period));
}

/// Every canonical token round-trips through the codec: it decodes to a
/// slot whose encoding is the token itself, character for character.
pub proof fn lemma_decode_encode(t: Seq<char>)
    requires
        spec_is_canonical(t),
    ensures
        spec_decode(t) matches Some(s) && spec_encode(s) == t,
{
    let s = spec_decode_body(t).unwrap();
    assert(spec_encode(s) =~= t);
}

proof fn lemma_skip_digits_shape(t: Seq<char>)
    ensures
        spec_skip_digits(t).len() <= t.len(),
        spec_skip_digits(t) =~= t.subrange(
            t.len() - spec_skip_digits(t).len(),
            t.len() as int,
        ),
        forall|j: int|
            0 <= j < t.len() - spec_skip_digits(t).len() ==> spec_is_digit(#[trigger] t[j]),
    decreases t.len(),
{
    if t.len() > 0 && spec_is_digit(t[0]) {
        lemma_skip_digits_shape(t.drop_first());
        let m = spec_skip_digits(t).len();
        assert(t.drop_first().subrange(t.len() - 1 - m, t.len() - 1) =~= t.subrange(
            t.len() - m,
            t.len() as int,
        ));
        assert forall|j: int| 0 <= j < t.len() - m implies spec_is_digit(#[trigger] t[j]) by {
            if j > 0 {
                assert(spec_is_digit(t.drop_first()[j - 1]));
            }
        }
    }
}

proof fn lemma_body_no_lowercase(t: Seq<char>)
    requires
        spec_decode_body(t) is Some,
    ensures
        forall|i: int| 0 <= i < t.len() ==> !spec_is_lowercase(#[trigger] t[i]),
{
}

/// A token that contains a lowercase letter anywhere never decodes: every
/// character of a token that decodes successfully is an uppercase letter
/// or a digit.
pub proof fn lemma_decode_rejects_lowercase(t: Seq<char>)
    requires
        spec_decode(t) is Some,
    ensures
        forall|i: int| 0 <= i < t.len() ==> !spec_is_lowercase(#[trigger] t[i]),
{
    if t.len() >= 2 && t[0] == 'I' && spec_is_digit(t[1]) {
        let tail = t.subrange(1, t.len() as int);
        let body = spec_skip_digits(tail);
        lemma_skip_digits_shape(tail);
        lemma_body_no_lowercase(body);
        assert forall|i: int| 0 <= i < t.len() implies !spec_is_lowercase(#[trigger] t[i]) by {
            if i == 0 {
                assert(t[i] == 'I');
            } else if i < t.len() - body.len() {
                assert(spec_is_digit(tail[i - 1]));
                assert(t[i] == tail[i - 1]);
            } else {
                assert(t[i] == body[i - (t.len() - body.len())]);
            }
        }
    } else {
        lemma_body_no_lowercase(t);
    }
}

} // verus!
