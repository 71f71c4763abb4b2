//! What holds of the grammar: what is written the way the bot writes it reads
//! back as what was written.

use vstd::prelude::*;

use crate::controller::action::parser::{
    add_at, date_at, digit_run, digits_value, lemma_digit_run, list_at, optional_recurrence_at,
    optional_time_at, parsed, recurrence_at, remove_at, time_at,
};
use crate::controller::action::Command;
use crate::db::types::{ChatId, Moment, Recurrence, RecurrenceUnit};
use crate::text::{
    decimal, digit_char, digit_of, is_digit, is_space, lemma_skip_shift, lemma_skip_spaces,
    lemma_trim_end_at, skip_spaces, two_digits,
};

verus! {

/// The run of digits at a place of `s` is the run at that place of what
/// remains of `s` after `n` characters.
pub proof fn lemma_digit_run_shift(s: Seq<char>, n: int, i: int, max: nat)
    requires
        0 <= n <= s.len(),
        0 <= i,
    ensures
        digit_run(s, n + i, max) == digit_run(s.skip(n), i, max),
    decreases max,
{
    if max > 0 && n + i < s.len() {
        assert(s.skip(n)[i] == s[n + i]);
        lemma_digit_run_shift(s, n, i + 1, (max - 1) as nat);
    }
}

/// The value of digits at a place of `s` is the value at that place of what
/// remains of `s` after `n` characters.
pub proof fn lemma_digits_value_shift(s: Seq<char>, n: int, i: int, count: nat)
    requires
        0 <= n <= s.len(),
        0 <= i,
        n + i + count <= s.len(),
    ensures
        digits_value(s, n + i, count) == digits_value(s.skip(n), i, count),
    decreases count,
{
    if count > 0 {
        assert(s.skip(n)[i + count - 1] == s[n + i + count - 1]);
        lemma_digits_value_shift(s, n, i, (count - 1) as nat);
    }
}

/// A time at a place of `s` is the time at that place of what remains of `s`
/// after `n` characters.
pub proof fn lemma_time_shift(s: Seq<char>, n: int, i: int)
    requires
        0 <= n <= s.len(),
        0 <= i <= s.len() - n,
    ensures
        time_at(s, n + i) == (match time_at(s.skip(n), i) {
            Some((time, end)) => Some((time, end + n)),
            None => None,
        }),
{
    let rest = s.skip(n);
    lemma_skip_shift(s, n, i);
    lemma_skip_spaces(rest, i);
    let j = skip_spaces(rest, i);
    lemma_digit_run_shift(s, n, j, 2);
    lemma_digit_run_shift(s, n, j + 3, 2);
    lemma_digit_run(rest, j, 2);
    lemma_digit_run(rest, j + 3, 2);
    if digit_run(rest, j, 2) == 2 {
        lemma_digits_value_shift(s, n, j, 2);
    }
    if digit_run(rest, j + 3, 2) == 2 {
        lemma_digits_value_shift(s, n, j + 3, 2);
    }
    if j + 2 < rest.len() {
        assert(rest[j + 2] == s[n + j + 2]);
    }
}

/// A recurrence at a place of `s` is the recurrence at that place of what
/// remains of `s` after `n` characters.
pub proof fn lemma_recurrence_shift(s: Seq<char>, n: int, i: int)
    requires
        0 <= n <= s.len(),
        0 <= i <= s.len() - n,
    ensures
        recurrence_at(s, n + i) == (match recurrence_at(s.skip(n), i) {
            Some((recurrence, end)) => Some((recurrence, end + n)),
            None => None,
        }),
{
    let rest = s.skip(n);
    lemma_skip_shift(s, n, i);
    lemma_skip_spaces(rest, i);
    let j = skip_spaces(rest, i);
    if j < rest.len() {
        assert(rest[j] == s[n + j]);
    }
    lemma_digit_run_shift(s, n, j + 1, 2);
    lemma_digit_run(rest, j + 1, 2);
    let run = digit_run(rest, j + 1, 2);
    if run >= 1 {
        lemma_digits_value_shift(s, n, j + 1, run);
    }
    let k = j + 1 + run;
    if 0 <= k < rest.len() {
        assert(rest[k] == s[n + k]);
    }
}

proof fn lemma_digit_chars(d: int)
    requires
        0 <= d <= 9,
    ensures
        is_digit(digit_char(d)),
        digit_of(digit_char(d)) == d,
        !is_space(digit_char(d)),
        RecurrenceUnit::of_letter(digit_char(d)) is None,
        digit_char(d) != '+',
        digit_char(d) != '-',
        digit_char(d) != ':',
{
}

proof fn lemma_letters(unit: RecurrenceUnit)
    ensures
        !is_digit(unit.letter()),
        !is_space(unit.letter()),
        RecurrenceUnit::of_letter(unit.letter()) == Some(unit),
{
}

/// The numeral of a number below one thousand.
proof fn lemma_decimal_small(n: nat)
    requires
        n < 1000,
    ensures
        n < 10 ==> decimal(n) == seq![digit_char(n as int)],
        10 <= n < 100 ==> decimal(n) == seq![digit_char(n as int / 10), digit_char(n as int % 10)],
        100 <= n ==> decimal(n) == seq![
            digit_char(n as int / 100),
            digit_char(n as int / 10 % 10),
            digit_char(n as int % 10),
        ],
{
    reveal_with_fuel(decimal, 4);
    if 10 <= n < 100 {
        assert(decimal(n) == decimal(n / 10).push(digit_char((n % 10) as int)));
        assert(decimal(n) == seq![digit_char(n as int / 10), digit_char(n as int % 10)]);
    } else if 100 <= n {
        let m = n / 10;
        assert(decimal(m) == seq![digit_char(m as int / 10), digit_char(m as int % 10)]);
        assert(decimal(n) == decimal(m).push(digit_char((n % 10) as int)));
        assert(decimal(n) == seq![
            digit_char(n as int / 100),
            digit_char(n as int / 10 % 10),
            digit_char(n as int % 10),
        ]);
    }
}

/// A recurrence as it is written reads as itself, whatever follows it, if
/// its amount is at least one and below the ceiling of its unit. If its
/// amount is zero, or at or above the ceiling, what is written does not
/// read as a recurrence.
pub proof fn lemma_recurrence_reads_back(recurrence: Recurrence, rest: Seq<char>)
    ensures
        recurrence_at(recurrence.text() + rest, 0) == (if recurrence.wf() {
            Some((recurrence, recurrence.text().len() as int))
        } else {
            None
        }),
{
    let s = recurrence.text() + rest;
    let n = recurrence.amount as nat;
    let letter = recurrence.unit.letter();
    lemma_decimal_small(n);
    lemma_letters(recurrence.unit);
    assert(s[0] == '+');
    assert(skip_spaces(s, 0) == 0);
    if n < 10 {
        lemma_digit_chars(n as int);
        assert(recurrence.text() == seq!['+', digit_char(n as int), letter]);
        assert(s[1] == digit_char(n as int));
        assert(s[2] == letter);
        assert(digit_run(s, 1, 2) == 1) by {
            reveal_with_fuel(digit_run, 3);
        }
        assert(digits_value(s, 1, 1) == n) by {
            reveal_with_fuel(digits_value, 3);
        }
    } else if n < 100 {
        lemma_digit_chars(n as int / 10);
        lemma_digit_chars(n as int % 10);
        assert(recurrence.text() == seq![
            '+',
            digit_char(n as int / 10),
            digit_char(n as int % 10),
            letter,
        ]);
        assert(s[1] == digit_char(n as int / 10));
        assert(s[2] == digit_char(n as int % 10));
        assert(s[3] == letter);
        assert(digit_run(s, 1, 2) == 2) by {
            reveal_with_fuel(digit_run, 3);
        }
        assert(digits_value(s, 1, 2) == n) by {
            reveal_with_fuel(digits_value, 3);
        }
    } else {
        lemma_digit_chars(n as int / 100);
        lemma_digit_chars(n as int / 10 % 10);
        lemma_digit_chars(n as int % 10);
        assert(recurrence.text() == seq![
            '+',
            digit_char(n as int / 100),
            digit_char(n as int / 10 % 10),
            digit_char(n as int % 10),
            letter,
        ]);
        assert(s[1] == digit_char(n as int / 100));
        assert(s[2] == digit_char(n as int / 10 % 10));
        assert(s[3] == digit_char(n as int % 10));
        assert(digit_run(s, 1, 2) == 2) by {
            reveal_with_fuel(digit_run, 3);
        }
    }
}

/// A plus sign and the letter of a unit, with no amount between them, read
/// as one of that unit, whatever follows.
pub proof fn lemma_recurrence_of_one(unit: RecurrenceUnit, rest: Seq<char>)
    ensures
        recurrence_at(seq!['+', unit.letter()] + rest, 0) == Some(
            (Recurrence { amount: 1, unit }, 2int),
        ),
{
    let s = seq!['+', unit.letter()] + rest;
    lemma_letters(unit);
    assert(s[0] == '+');
    assert(s[1] == unit.letter());
    assert(skip_spaces(s, 0) == 0);
    assert(digit_run(s, 1, 2) == 0);
}

proof fn lemma_two_digits(n: int)
    requires
        0 <= n < 100,
    ensures
        two_digits(n).len() == 2,
        is_digit(two_digits(n)[0]),
        is_digit(two_digits(n)[1]),
        digit_of(two_digits(n)[0]) * 10 + digit_of(two_digits(n)[1]) == n,
{
    lemma_digit_chars(n / 10);
    lemma_digit_chars(n % 10);
}

/// A date as it is written reads as itself, whatever follows it, in the
/// years that are written with four digits.
pub proof fn lemma_date_reads_back(date: Moment, rest: Seq<char>)
    requires
        crate::db::types::is_calendar_date(date.year, date.month, date.day),
        0 <= date.year <= 9999,
    ensures
        date.date_text().len() == 10,
        date_at(date.date_text() + rest, 0) == Some(((date.year, date.month, date.day), 10int)),
{
    let s = date.date_text() + rest;
    let hi = two_digits(date.year / 100);
    let lo = two_digits(date.year % 100);
    let mo = two_digits(date.month);
    let da = two_digits(date.day);
    lemma_two_digits(date.year / 100);
    lemma_two_digits(date.year % 100);
    lemma_two_digits(date.month);
    lemma_two_digits(date.day);
    assert(date.date_text() == seq![
        hi[0],
        hi[1],
        lo[0],
        lo[1],
        '-',
        mo[0],
        mo[1],
        '-',
        da[0],
        da[1],
    ]);
    assert(s[0] == hi[0] && s[1] == hi[1] && s[2] == lo[0] && s[3] == lo[1]);
    assert(s[4] == '-' && s[5] == mo[0] && s[6] == mo[1] && s[7] == '-');
    assert(s[8] == da[0] && s[9] == da[1]);
    assert(skip_spaces(s, 0) == 0);
    assert(digit_run(s, 0, 4) == 4) by {
        reveal_with_fuel(digit_run, 5);
    }
    assert(digit_run(s, 5, 2) == 2) by {
        reveal_with_fuel(digit_run, 3);
    }
    assert(digit_run(s, 8, 2) == 2) by {
        reveal_with_fuel(digit_run, 3);
    }
    assert(digits_value(s, 0, 4) == date.year) by {
        reveal_with_fuel(digits_value, 5);
    }
    assert(digits_value(s, 5, 2) == date.month) by {
        reveal_with_fuel(digits_value, 3);
    }
    assert(digits_value(s, 8, 2) == date.day) by {
        reveal_with_fuel(digits_value, 3);
    }
}

/// A time as it is written reads as itself, whatever follows it.
pub proof fn lemma_time_reads_back(time: Moment, rest: Seq<char>)
    requires
        crate::db::types::is_time_of_day(time.hour, time.minute, 0),
    ensures
        time.time_text().len() == 5,
        time_at(time.time_text() + rest, 0) == Some(((time.hour, time.minute), 5int)),
{
    let s = time.time_text() + rest;
    let ho = two_digits(time.hour);
    let mi = two_digits(time.minute);
    lemma_two_digits(time.hour);
    lemma_two_digits(time.minute);
    assert(time.time_text() == seq![ho[0], ho[1], ':', mi[0], mi[1]]);
    assert(s[0] == ho[0] && s[1] == ho[1] && s[2] == ':' && s[3] == mi[0] && s[4] == mi[1]);
    assert(skip_spaces(s, 0) == 0);
    assert(digit_run(s, 0, 2) == 2) by {
        reveal_with_fuel(digit_run, 3);
    }
    assert(digit_run(s, 3, 2) == 2) by {
        reveal_with_fuel(digit_run, 3);
    }
    assert(digits_value(s, 0, 2) == time.hour) by {
        reveal_with_fuel(digits_value, 3);
    }
    assert(digits_value(s, 3, 2) == time.minute) by {
        reveal_with_fuel(digits_value, 3);
    }
}

/// The text of a date, a space, a time, a space and a message reads as the
/// request to be reminded of that message at that moment, once.
///
/// This holds of a moment on the minute in a year that is written with four
/// digits, and of a message that is not empty and does not end in
/// whitespace. It does not hold where the text reads otherwise: where the
/// message begins like a recurrence, which is then taken as one, or where
/// the text begins with the list or the remove form, which go first.
pub proof fn lemma_timed_reminder_reads_back(
    list_keyword: Seq<char>,
    remove_keyword: Seq<char>,
    chat: ChatId,
    due: Moment,
    message: Seq<char>,
)
    requires
        due.valid(),
        0 <= due.year <= 9999,
        due.second == 0,
        message.len() > 0,
        !is_space(message.last()),
        recurrence_at(message, 0) is None,
        list_at(due.text() + seq![' '] + message, list_keyword) is None,
        remove_at(due.text() + seq![' '] + message, remove_keyword) is None,
    ensures
        parsed(list_keyword, remove_keyword, chat, due.text() + seq![' '] + message) == Some(
            Command::Add { due, recurrence: None, message, chat },
        ),
{
    let s = due.text() + seq![' '] + message;
    let after_date = seq![' '] + due.time_text() + seq![' '] + message;
    let after_time = seq![' '] + message;
    lemma_date_reads_back(due, after_date);
    lemma_time_reads_back(due, after_time);
    assert(s == due.date_text() + after_date);
    assert(s.len() == 17 + message.len());
    assert(s[10] == ' ');
    assert(s.skip(11) == due.time_text() + after_time);
    lemma_time_shift(s, 11, 0);
    assert(optional_time_at(s, 10) == ((due.hour, due.minute), 16int));
    assert(s[16] == ' ');
    assert(s.skip(17) == message);
    lemma_recurrence_shift(s, 17, 0);
    assert(optional_recurrence_at(s, 16) == (None::<Recurrence>, 16int));
    lemma_trim_end_at(message, message.len() as int);
    assert(message.take(message.len() as int) == message);
    assert(add_at(s, chat) == Some(Command::Add { due, recurrence: None, message, chat }));
    assert(skip_spaces(s, s.len() as int) == s.len());
}

/// The text of a date, a space and a message reads as the request to be
/// reminded of that message at midnight of that day, once.
///
/// This holds of a day in a year that is written with four digits, and of a
/// message that is not empty and does not end in whitespace. It does not
/// hold where the text reads otherwise: where the message begins like a
/// time or like a recurrence, which are then taken as such, or where the
/// text begins with the list or the remove form, which go first.
pub proof fn lemma_dated_reminder_reads_back(
    list_keyword: Seq<char>,
    remove_keyword: Seq<char>,
    chat: ChatId,
    day: Moment,
    message: Seq<char>,
)
    requires
        day.valid(),
        0 <= day.year <= 9999,
        day.hour == 0 && day.minute == 0 && day.second == 0,
        message.len() > 0,
        !is_space(message.last()),
        time_at(message, 0) is None,
        recurrence_at(message, 0) is None,
        list_at(day.date_text() + seq![' '] + message, list_keyword) is None,
        remove_at(day.date_text() + seq![' '] + message, remove_keyword) is None,
    ensures
        parsed(list_keyword, remove_keyword, chat, day.date_text() + seq![' '] + message) == Some(
            Command::Add { due: day, recurrence: None, message, chat },
        ),
{
    let s = day.date_text() + seq![' '] + message;
    let after_date = seq![' '] + message;
    lemma_date_reads_back(day, after_date);
    assert(s == day.date_text() + after_date);
    assert(s.len() == 11 + message.len());
    assert(s[10] == ' ');
    assert(s.skip(11) == message);
    lemma_time_shift(s, 11, 0);
    assert(optional_time_at(s, 10) == ((0int, 0int), 10int));
    lemma_recurrence_shift(s, 11, 0);
    assert(optional_recurrence_at(s, 10) == (None::<Recurrence>, 10int));
    lemma_trim_end_at(message, message.len() as int);
    assert(message.take(message.len() as int) == message);
    assert(add_at(s, chat) == Some(Command::Add { due: day, recurrence: None, message, chat }));
    assert(skip_spaces(s, s.len() as int) == s.len());
}

/// What a text asks for comes from the conversation that the text came
/// from, and is well-formed: a day of the calendar, a time of day on the
/// minute, and a recurrence, if any, of at least one and below the ceiling of
/// its unit.
pub proof fn lemma_parsed_is_valid(
    list_keyword: Seq<char>,
    remove_keyword: Seq<char>,
    chat: ChatId,
    s: Seq<char>,
)
    requires
        parsed(list_keyword, remove_keyword, chat, s) is Some,
    ensures
        parsed(list_keyword, remove_keyword, chat, s).unwrap().chat() == chat,
        parsed(list_keyword, remove_keyword, chat, s).unwrap().valid(),
        parsed(list_keyword, remove_keyword, chat, s).unwrap() matches Command::Add { due, .. }
            ==> due.second == 0,
        parsed(list_keyword, remove_keyword, chat, s).unwrap() matches Command::Remove { id, .. }
            ==> 0 <= id <= i32::MAX,
{
}

} // verus!
