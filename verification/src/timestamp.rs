//! Reading the moment of a play. A moment is written as the provider writes
//! it: `2024-01-01T00:00:00Z`, with a `T` or a space between day and time,
//! and after the seconds an optional fraction and an optional `Z`. Plays are
//! ordered by the second; a text that is no such moment has no key.

use vstd::prelude::*;

verus! {

/// The value of a decimal digit.
pub open spec fn digit_value(c: char) -> Option<int> {
    if c == '0' {
        Some(0)
    } else if c == '1' {
        Some(1)
    } else if c == '2' {
        Some(2)
    } else if c == '3' {
        Some(3)
    } else if c == '4' {
        Some(4)
    } else if c == '5' {
        Some(5)
    } else if c == '6' {
        Some(6)
    } else if c == '7' {
        Some(7)
    } else if c == '8' {
        Some(8)
    } else if c == '9' {
        Some(9)
    } else {
        None
    }
}

/// The number that the `count` characters from `at` on spell in decimal, if
/// all of them are digits.
pub open spec fn number_at(text: Seq<char>, at: int, count: nat) -> Option<int>
    decreases count,
{
    if count == 0 {
        Some(0)
    } else {
        match (number_at(text, at, (count - 1) as nat), digit_value(text[at + count - 1])) {
            (Some(front), Some(last)) => Some(front * 10 + last),
            _ => None,
        }
    }
}

/// Whether `body` is a fraction of a second, or nothing: a `.` and at least
/// one digit.
pub open spec fn fraction_ok(body: Seq<char>) -> bool {
    body.len() == 0 || (body.len() >= 2 && body[0] == '.' && forall|i: int|
        1 <= i < body.len() ==> digit_value(#[trigger] body[i]) is Some)
}

/// Whether `rest` may follow the seconds: a fraction or nothing, then `Z` or
/// nothing.
pub open spec fn suffix_ok(rest: Seq<char>) -> bool {
    if rest.len() > 0 && rest.last() == 'Z' {
        fraction_ok(rest.drop_last())
    } else {
        fraction_ok(rest)
    }
}

/// Whether the marks between the numbers of a moment are in place.
pub open spec fn marks_ok(text: Seq<char>) -> bool {
    text[4] == '-' && text[7] == '-' && (text[10] == 'T' || text[10] == ' ') && text[13] == ':'
        && text[16] == ':'
}

/// The key of a moment: its year, month, day, hour, minute and second as one
/// number, so that a later moment has a larger key. `None` for a text that
/// does not spell a moment.
pub open spec fn stamp_key(text: Seq<char>) -> Option<int> {
    if text.len() < 19 {
        None
    } else {
        match (
            number_at(text, 0, 4),
            number_at(text, 5, 2),
            number_at(text, 8, 2),
            number_at(text, 11, 2),
            number_at(text, 14, 2),
            number_at(text, 17, 2),
        ) {
            (Some(year), Some(month), Some(day), Some(hour), Some(minute), Some(second)) => {
                if marks_ok(text) && 1 <= month <= 12 && 1 <= day <= 31 && hour <= 23 && minute
                    <= 59 && second <= 59 && suffix_ok(text.skip(19)) {
                    Some(((((year * 100 + month) * 100 + day) * 100 + hour) * 100 + minute) * 100
                        + second)
                } else {
                    None
                }
            },
            _ => None,
        }
    }
}

/// The rank by which plays are ordered: one more than the key of the moment,
/// and zero for a play without a moment or with one that cannot be read, so
/// that such plays come after all others.
pub open spec fn stamp_rank(date: Option<Seq<char>>) -> int {
    match date {
        Some(text) => match stamp_key(text) {
            Some(key) => key + 1,
            None => 0,
        },
        None => 0,
    }
}

fn digit_of(c: char) -> (value: Option<u64>)
    ensures
        match value {
            Some(v) => digit_value(c) == Some(v as int) && v <= 9,
            None => digit_value(c) is None,
        },
{
    if c == '0' {
        Some(0)
    } else if c == '1' {
        Some(1)
    } else if c == '2' {
        Some(2)
    } else if c == '3' {
        Some(3)
    } else if c == '4' {
        Some(4)
    } else if c == '5' {
        Some(5)
    } else if c == '6' {
        Some(6)
    } else if c == '7' {
        Some(7)
    } else if c == '8' {
        Some(8)
    } else if c == '9' {
        Some(9)
    } else {
        None
    }
}

fn read_number(chars: &Vec<char>, at: usize, count: usize) -> (value: Option<u64>)
    requires
        count <= 4,
        at + count <= chars.len(),
    ensures
        match value {
            Some(v) => number_at(chars@, at as int, count as nat) == Some(v as int) && v < 10000,
            None => number_at(chars@, at as int, count as nat) is None,
        },
{
    let mut value: u64 = 0;
    let mut i: usize = 0;
    let ghost mut bound: int = 1;
    while i < count
        invariant
            i <= count <= 4,
            at + count <= chars.len(),
            number_at(chars@, at as int, i as nat) == Some(value as int),
            bound == (if i == 0 {
                1int
            } else if i == 1 {
                10int
            } else if i == 2 {
                100int
            } else if i == 3 {
                1000int
            } else {
                10000int
            }),
            value < bound,
        decreases count - i,
    {
        match digit_of(chars[at + i]) {
            Some(d) => {
                value = value * 10 + d;
            },
            None => {
                proof {
                    missing_digit_spoils(chars@, at as int, i as nat, count as nat);
                }
                return None;
            },
        }
        i += 1;
        proof {
            bound = bound * 10;
        }
    }
    Some(value)
}

/// A character that is no digit spoils every number that reaches over it.
proof fn missing_digit_spoils(text: Seq<char>, at: int, i: nat, count: nat)
    requires
        i < count,
        digit_value(text[at + i]) is None,
    ensures
        number_at(text, at, count) is None,
    decreases count,
{
    if count > i + 1 {
        missing_digit_spoils(text, at, i, (count - 1) as nat);
    }
}

fn suffix_fits(chars: &Vec<char>) -> (fits: bool)
    requires
        chars.len() >= 19,
    ensures
        fits == suffix_ok(chars@.skip(19)),
{
    let ghost rest = chars@.skip(19);
    let mut end = chars.len();
    if end > 19 && chars[end - 1] == 'Z' {
        end -= 1;
    }
    let ghost body = chars@.subrange(19, end as int);
    proof {
        if end < chars.len() {
            assert(rest.last() == 'Z');
            assert(rest.drop_last() == body);
        } else {
            assert(rest == body);
            assert(rest.len() > 0 ==> rest.last() == chars@[chars.len() - 1]);
        }
    }
    if end == 19 {
        return true;
    }
    if chars[19] != '.' || end < 21 {
        assert(body[0] == chars@[19]);
        return false;
    }
    let mut i: usize = 20;
    while i < end
        invariant
            20 <= i <= end <= chars.len(),
            body == chars@.subrange(19, end as int),
            body[0] == '.',
            suffix_ok(chars@.skip(19)) == fraction_ok(body),
            forall|j: int| 1 <= j < i - 19 ==> digit_value(#[trigger] body[j]) is Some,
        decreases end - i,
    {
        assert(body[i - 19] == chars@[i as int]);
        if digit_of(chars[i]).is_none() {
            return false;
        }
        i += 1;
    }
    true
}

fn chars_of(text: &str) -> (chars: Vec<char>)
    ensures
        chars@ == text@,
{
    let mut chars: Vec<char> = Vec::new();
    for c in it: text.chars()
        invariant
            it.seq() == text@,
            chars@ == text@.take(it.index() as int),
    {
        chars.push(c);
        proof {
            assert(text@.take(it.index() + 1) == text@.take(it.index() as int).push(c));
        }
    }
    proof {
        assert(text@.take(text@.len() as int) == text@);
    }
    chars
}

/// Reads the key of a moment.
pub fn read_stamp(text: &str) -> (key: Option<u64>)
    ensures
        match key {
            Some(k) => stamp_key(text@) == Some(k as int),
            None => stamp_key(text@) is None,
        },
{
    let chars = chars_of(text);
    if chars.len() < 19 {
        return None;
    }
    let year = read_number(&chars, 0, 4);
    let month = read_number(&chars, 5, 2);
    let day = read_number(&chars, 8, 2);
    let hour = read_number(&chars, 11, 2);
    let minute = read_number(&chars, 14, 2);
    let second = read_number(&chars, 17, 2);
    match (year, month, day, hour, minute, second) {
        (Some(year), Some(month), Some(day), Some(hour), Some(minute), Some(second)) => {
            let marks = chars[4] == '-' && chars[7] == '-' && (chars[10] == 'T' || chars[10] == ' ')
                && chars[13] == ':' && chars[16] == ':';
            if marks && 1 <= month && month <= 12 && 1 <= day && day <= 31 && hour <= 23 && minute
                <= 59 && second <= 59 && suffix_fits(&chars) {
                Some(
                    ((((year * 100 + month) * 100 + day) * 100 + hour) * 100 + minute) * 100
                        + second,
                )
            } else {
                None
            }
        },
        _ => None,
    }
}

/// The rank of a play's moment.
pub fn rank_of(date: &Option<String>) -> (rank: u64)
    ensures
        rank as int == stamp_rank(crate::model::opt_text(*date)),
{
    match date {
        Some(text) => match read_stamp(text.as_str()) {
            Some(key) => {
                proof {
                    stamp_key_is_bounded(text@);
                }
                key + 1
            },
            None => 0,
        },
        None => 0,
    }
}

/// The key of a moment has at most fourteen digits.
pub proof fn stamp_key_is_bounded(text: Seq<char>)
    ensures
        stamp_key(text) matches Some(key) ==> 0 <= key < 100_000_000_000_000,
{
    if stamp_key(text) is Some {
        number_is_bounded(text, 0, 4);
        number_is_bounded(text, 11, 2);
        number_is_bounded(text, 14, 2);
        number_is_bounded(text, 17, 2);
    }
}

/// A number of `count` digits is below the `count`-th power of ten.
proof fn number_is_bounded(text: Seq<char>, at: int, count: nat)
    requires
        count <= 4,
    ensures
        number_at(text, at, count) matches Some(n) ==> 0 <= n < (if count == 0 {
            1int
        } else if count == 1 {
            10int
        } else if count == 2 {
            100int
        } else if count == 3 {
            1000int
        } else {
            10000int
        }),
    decreases count,
{
    if count > 0 {
        number_is_bounded(text, at, (count - 1) as nat);
    }
}

} // verus!
