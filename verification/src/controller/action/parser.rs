//! The grammar of commands.
//!
//! A text is read as the first of three forms whose beginning it shows, and
//! nothing but whitespace may follow what was read:
//!
//! - list: whitespace, the list keyword;
//! - remove: whitespace, the remove keyword, whitespace, digits;
//! - add: whitespace, a date `YYYY-MM-DD`, then, each after whitespace and
//!   only if it reads as such, a time `HH:MM` and a recurrence `+N<unit>`,
//!   then one whitespace character and the message.
//!
//! Keywords match without regard to ASCII case. A time or a recurrence that
//! does not read as one is not an error: it is left to the message.

use vstd::prelude::*;

use crate::config::Commands;
use crate::controller::action::{Action, AddReminder, Command, ListReminders, RemoveReminder};
use crate::db::types::{
    date_exists, is_calendar_date, is_time_of_day, time_exists, ChatId, DueTimestamp, Moment,
    Recurrence, RecurrenceUnit,
};
use crate::text::{
    ascii_lower, chars_of, digit_of, digit_value, is_digit, is_space, is_whitespace, skip_spaces,
    skip_whitespace, string_of, to_ascii_lower, trim_end, trim_end_from,
};

verus! {

/// A text that is no command.
#[derive(Debug, Clone, PartialEq, Eq, Hash)]
pub struct ParseError {
    /// The text.
    pub input: String,
}

/// Whether `s` holds the character `c` at `i`.
pub open spec fn token_at(s: Seq<char>, i: int, c: char) -> bool {
    0 <= i < s.len() && s[i] == c
}

/// The number of digits that `s` holds from `i` on without a break, counted
/// up to `max`.
pub open spec fn digit_run(s: Seq<char>, i: int, max: nat) -> nat
    decreases max,
{
    if max > 0 && 0 <= i < s.len() && is_digit(s[i]) {
        1 + digit_run(s, i + 1, (max - 1) as nat)
    } else {
        0
    }
}

/// The number that the `n` digits of `s` from `i` on write in decimal.
pub open spec fn digits_value(s: Seq<char>, i: int, n: nat) -> nat
    decreases n,
{
    if n == 0 {
        0
    } else {
        (digits_value(s, i, (n - 1) as nat) * 10 + digit_of(s[i + n - 1])) as nat
    }
}

/// A number of `min` to `max` digits at `i`, as many as there are: its value
/// and where it ends.
pub open spec fn number_at(s: Seq<char>, i: int, min: nat, max: nat) -> Option<(nat, int)> {
    let n = digit_run(s, i, max);
    if n >= min {
        Some((digits_value(s, i, n), i + n))
    } else {
        None
    }
}

/// A date at `i`, after whitespace: four digits, a dash, two digits, a dash,
/// two digits, naming a day of the calendar. Its year, month and day, and
/// where it ends.
pub open spec fn date_at(s: Seq<char>, i: int) -> Option<((int, int, int), int)> {
    let j = skip_spaces(s, i);
    if digit_run(s, j, 4) == 4 && token_at(s, j + 4, '-') && digit_run(s, j + 5, 2) == 2
        && token_at(s, j + 7, '-') && digit_run(s, j + 8, 2) == 2 {
        let year = digits_value(s, j, 4) as int;
        let month = digits_value(s, j + 5, 2) as int;
        let day = digits_value(s, j + 8, 2) as int;
        if is_calendar_date(year, month, day) {
            Some(((year, month, day), j + 10))
        } else {
            None
        }
    } else {
        None
    }
}

/// A time at `i`, after whitespace: two digits, a colon, two digits, naming
/// an hour and a minute of the day. Its hour and minute, and where it ends.
pub open spec fn time_at(s: Seq<char>, i: int) -> Option<((int, int), int)> {
    let j = skip_spaces(s, i);
    if digit_run(s, j, 2) == 2 && token_at(s, j + 2, ':') && digit_run(s, j + 3, 2) == 2 {
        let hour = digits_value(s, j, 2) as int;
        let minute = digits_value(s, j + 3, 2) as int;
        if is_time_of_day(hour, minute, 0) {
            Some(((hour, minute), j + 5))
        } else {
            None
        }
    } else {
        None
    }
}

/// A recurrence at `i`, after whitespace: a plus sign, one or two digits for
/// the amount or none for an amount of one, and the letter of a unit whose
/// ceiling the amount stays below, the amount being at least one. The
/// recurrence, and where it ends.
pub open spec fn recurrence_at(s: Seq<char>, i: int) -> Option<(Recurrence, int)> {
    let j = skip_spaces(s, i);
    if token_at(s, j, '+') {
        let (amount, k) = match number_at(s, j + 1, 1, 2) {
            Some((amount, k)) => (amount as int, k),
            None => (1, j + 1),
        };
        if 0 <= k < s.len() {
            match RecurrenceUnit::of_letter(s[k]) {
                Some(unit) => if 1 <= amount < unit.ceiling() {
                    Some((Recurrence { amount: amount as u8, unit }, k + 1))
                } else {
                    None
                },
                None => None,
            }
        } else {
            None
        }
    } else {
        None
    }
}

/// The time that follows one whitespace character at `i`, and where it ends;
/// midnight, and `i`, where none does.
pub open spec fn optional_time_at(s: Seq<char>, i: int) -> ((int, int), int) {
    if 0 <= i < s.len() && is_space(s[i]) && time_at(s, i + 1) is Some {
        time_at(s, i + 1).unwrap()
    } else {
        ((0, 0), i)
    }
}

/// The recurrence that follows one whitespace character at `i`, and where
/// it ends; none, and `i`, where none does.
pub open spec fn optional_recurrence_at(s: Seq<char>, i: int) -> (Option<Recurrence>, int) {
    if 0 <= i < s.len() && is_space(s[i]) && recurrence_at(s, i + 1) is Some {
        (Some(recurrence_at(s, i + 1).unwrap().0), recurrence_at(s, i + 1).unwrap().1)
    } else {
        (None, i)
    }
}

/// Whether `s` holds the characters of `keyword` from `i` on, ASCII letters
/// compared without regard to case.
pub open spec fn keyword_at(s: Seq<char>, i: int, keyword: Seq<char>) -> bool {
    &&& 0 <= i
    &&& i + keyword.len() <= s.len()
    &&& forall|k: int|
        0 <= k < keyword.len() ==> ascii_lower(#[trigger] s[i + k]) == ascii_lower(keyword[k])
}

/// The list form at the start of `s`: where it ends.
pub open spec fn list_at(s: Seq<char>, keyword: Seq<char>) -> Option<int> {
    let j = skip_spaces(s, 0);
    if keyword_at(s, j, keyword) {
        Some(j + keyword.len())
    } else {
        None
    }
}

/// The remove form at the start of `s`: the identifier, which is all the
/// digits there are and no more than `i32::MAX`, and where it ends.
pub open spec fn remove_at(s: Seq<char>, keyword: Seq<char>) -> Option<(int, int)> {
    let j = skip_spaces(s, 0);
    if keyword_at(s, j, keyword) {
        let k = skip_spaces(s, j + keyword.len());
        let n = digit_run(s, k, s.len());
        if n >= 1 && digits_value(s, k, n) <= i32::MAX {
            Some((digits_value(s, k, n) as int, k + n))
        } else {
            None
        }
    } else {
        None
    }
}

/// The add form, which takes all of `s`: after the date, the optional time
/// and the optional recurrence comes one whitespace character, and what
/// follows it, at least one character, is the message, less its trailing
/// whitespace.
pub open spec fn add_at(s: Seq<char>, chat: ChatId) -> Option<Command> {
    match date_at(s, 0) {
        Some(((year, month, day), a)) => {
            let ((hour, minute), b) = optional_time_at(s, a);
            let (recurrence, c) = optional_recurrence_at(s, b);
            if 0 <= c && c + 1 < s.len() && is_space(s[c]) {
                Some(
                    Command::Add {
                        due: Moment { year, month, day, hour, minute, second: 0 },
                        recurrence,
                        message: trim_end(s.skip(c + 1)),
                        chat,
                    },
                )
            } else {
                None
            }
        },
        None => None,
    }
}

/// The first of the list, remove and add forms that `s` begins with, and
/// where it ends.
pub open spec fn command_at(
    list_keyword: Seq<char>,
    remove_keyword: Seq<char>,
    chat: ChatId,
    s: Seq<char>,
) -> Option<(Command, int)> {
    match list_at(s, list_keyword) {
        Some(end) => Some((Command::List { chat }, end)),
        None => match remove_at(s, remove_keyword) {
            Some((id, end)) => Some((Command::Remove { id, chat }, end)),
            None => match add_at(s, chat) {
                Some(command) => Some((command, s.len() as int)),
                None => None,
            },
        },
    }
}

/// What the text `s` from the conversation `chat` asks for: the form it
/// begins with, if only whitespace follows that form.
pub open spec fn parsed(
    list_keyword: Seq<char>,
    remove_keyword: Seq<char>,
    chat: ChatId,
    s: Seq<char>,
) -> Option<Command> {
    match command_at(list_keyword, remove_keyword, chat, s) {
        Some((command, end)) => if skip_spaces(s, end) == s.len() {
            Some(command)
        } else {
            None
        },
        None => None,
    }
}

/// Ten to the power of `n`.
pub open spec fn pow10(n: nat) -> nat
    decreases n,
{
    if n == 0 {
        1
    } else {
        10 * pow10((n - 1) as nat)
    }
}

proof fn lemma_pow10_grows(n: nat, m: nat)
    requires
        n <= m,
    ensures
        pow10(n) <= pow10(m),
    decreases m,
{
    if n < m {
        lemma_pow10_grows(n, (m - 1) as nat);
    }
}

proof fn lemma_digits_value_bound(s: Seq<char>, i: int, n: nat)
    requires
        0 <= i,
        i + n <= s.len(),
        forall|k: int| i <= k < i + n ==> is_digit(#[trigger] s[k]),
    ensures
        digits_value(s, i, n) < pow10(n),
    decreases n,
{
    if n > 0 {
        lemma_digits_value_bound(s, i, (n - 1) as nat);
        assert(is_digit(s[i + n - 1]));
    }
}

/// A run of digits is no longer than it may be, lies within the text, is
/// made of digits, and is followed by none unless it is as long as it may be.
pub proof fn lemma_digit_run(s: Seq<char>, i: int, max: nat)
    requires
        0 <= i,
    ensures
        digit_run(s, i, max) <= max,
        i + digit_run(s, i, max) <= s.len() || digit_run(s, i, max) == 0,
        forall|k: int| i <= k < i + digit_run(s, i, max) ==> is_digit(#[trigger] s[k]),
        digit_run(s, i, max) < max && i + digit_run(s, i, max) < s.len() ==> !is_digit(
            s[i + digit_run(s, i, max)],
        ),
    decreases max,
{
    if max > 0 && i < s.len() && is_digit(s[i]) {
        lemma_digit_run(s, i + 1, (max - 1) as nat);
    }
}

/// Whether `c1` and `c2` are the same character, ASCII letters compared
/// without regard to case.
pub fn case_insensitive(c1: char, c2: char) -> (same: bool)
    ensures
        same == (ascii_lower(c1) == ascii_lower(c2)),
{
    to_ascii_lower(c1) == to_ascii_lower(c2)
}

/// Where the whitespace that `s` holds from `pos` on ends.
pub fn spaces(s: &Vec<char>, pos: usize) -> (end: usize)
    requires
        pos <= s@.len(),
    ensures
        end == skip_spaces(s@, pos as int),
        pos <= end <= s@.len(),
{
    skip_whitespace(s, pos)
}

/// Reads a number of `min` to `max` digits at `pos`, as many as there are:
/// its value and where it ends.
pub fn fixed_width_u32(s: &Vec<char>, pos: usize, min: u8, max: u8) -> (r: Option<(u32, usize)>)
    requires
        pos <= s@.len(),
        min <= max <= 9,
    ensures
        match r {
            Some((value, end)) => number_at(s@, pos as int, min as nat, max as nat) == Some(
                (value as nat, end as int),
            ) && end <= s@.len() && end == pos + digit_run(s@, pos as int, max as nat),
            None => number_at(s@, pos as int, min as nat, max as nat) is None,
        },
{
    let mut count: u8 = 0;
    let mut value: u32 = 0;
    let mut i = pos;
    while count < max && i < s.len()
        invariant_except_break
            digit_run(s@, pos as int, max as nat) == count + digit_run(
                s@,
                i as int,
                (max - count) as nat,
            ),
        invariant
            count <= max <= 9,
            i == pos + count,
            i <= s@.len(),
            forall|k: int| pos <= k < i ==> is_digit(#[trigger] s@[k]),
            value == digits_value(s@, pos as int, count as nat),
            value < pow10(count as nat),
        ensures
            digit_run(s@, pos as int, max as nat) == count,
        decreases max - count,
    {
        match digit_value(s[i]) {
            Some(d) => {
                proof {
                    lemma_pow10_grows(count as nat, 8);
                    assert(pow10(8) == 100_000_000) by {
                        reveal_with_fuel(pow10, 9);
                    }
                }
                value = value * 10 + d;
                count += 1;
                i += 1;
            },
            None => {
                break ;
            },
        }
    }
    if count >= min {
        Some((value, i))
    } else {
        None
    }
}

/// Reads a date at `pos`, after whitespace: its year, month and day, and
/// where it ends.
pub fn date(s: &Vec<char>, pos: usize) -> (r: Option<((i32, u32, u32), usize)>)
    requires
        pos <= s@.len(),
    ensures
        match r {
            Some(((year, month, day), end)) => date_at(s@, pos as int) == Some(
                ((year as int, month as int, day as int), end as int),
            ) && end <= s@.len(),
            None => date_at(s@, pos as int) is None,
        },
{
    let start = spaces(s, pos);
    proof {
        lemma_digit_run(s@, start as int, 4);
        lemma_digit_run(s@, start + 5, 2);
        lemma_digit_run(s@, start + 8, 2);
    }
    let (year, a) = match fixed_width_u32(s, start, 4, 4) {
        Some(read) => read,
        None => {
            return None;
        },
    };
    if a >= s.len() || s[a] != '-' {
        return None;
    }
    let (month, b) = match fixed_width_u32(s, a + 1, 2, 2) {
        Some(read) => read,
        None => {
            return None;
        },
    };
    if b >= s.len() || s[b] != '-' {
        return None;
    }
    let (day, c) = match fixed_width_u32(s, b + 1, 2, 2) {
        Some(read) => read,
        None => {
            return None;
        },
    };
    proof {
        lemma_digits_value_bound(s@, start as int, 4);
        reveal_with_fuel(pow10, 5);
    }
    if date_exists(year as i32, month, day) {
        Some(((year as i32, month, day), c))
    } else {
        None
    }
}

/// Reads a time at `pos`, after whitespace: its hour and minute, and where
/// it ends.
pub fn time(s: &Vec<char>, pos: usize) -> (r: Option<((u32, u32), usize)>)
    requires
        pos <= s@.len(),
    ensures
        match r {
            Some(((hour, minute), end)) => time_at(s@, pos as int) == Some(
                ((hour as int, minute as int), end as int),
            ) && end <= s@.len(),
            None => time_at(s@, pos as int) is None,
        },
{
    let start = spaces(s, pos);
    proof {
        lemma_digit_run(s@, start as int, 2);
        lemma_digit_run(s@, start + 3, 2);
    }
    let (hour, a) = match fixed_width_u32(s, start, 2, 2) {
        Some(read) => read,
        None => {
            return None;
        },
    };
    if a >= s.len() || s[a] != ':' {
        return None;
    }
    let (minute, b) = match fixed_width_u32(s, a + 1, 2, 2) {
        Some(read) => read,
        None => {
            return None;
        },
    };
    if time_exists(hour, minute, 0) {
        Some(((hour, minute), b))
    } else {
        None
    }
}

/// Reads a recurrence at `pos`, after whitespace, and where it ends.
pub fn recurrence(s: &Vec<char>, pos: usize) -> (r: Option<(Recurrence, usize)>)
    requires
        pos <= s@.len(),
    ensures
        match r {
            Some((recurrence, end)) => recurrence_at(s@, pos as int) == Some(
                (recurrence, end as int),
            ) && end <= s@.len() && recurrence.wf(),
            None => recurrence_at(s@, pos as int) is None,
        },
{
    let start = spaces(s, pos);
    if start >= s.len() || s[start] != '+' {
        return None;
    }
    let (amount, at) = match fixed_width_u32(s, start + 1, 1, 2) {
        Some(read) => read,
        None => (1, start + 1),
    };
    proof {
        lemma_digit_run(s@, start + 1, 2);
        lemma_digits_value_bound(s@, start + 1, digit_run(s@, start + 1, 2));
        reveal_with_fuel(pow10, 3);
    }
    if at >= s.len() {
        return None;
    }
    match RecurrenceUnit::from_letter(s[at]) {
        Some(unit) => match Recurrence::new(amount as u8, unit) {
            Some(recurrence) => Some((recurrence, at + 1)),
            None => None,
        },
        None => None,
    }
}

/// Whether `s` holds `word` at `pos`, ASCII letters compared without regard
/// to case.
fn keyword(s: &Vec<char>, pos: usize, word: &Vec<char>) -> (found: bool)
    requires
        pos <= s@.len(),
    ensures
        found == keyword_at(s@, pos as int, word@),
{
    let n = s.len();
    if word.len() > n - pos {
        return false;
    }
    let mut k: usize = 0;
    while k < word.len()
        invariant
            pos + word@.len() <= s@.len() <= usize::MAX,
            0 <= k <= word@.len(),
            forall|j: int|
                0 <= j < k ==> ascii_lower(#[trigger] s@[pos + j]) == ascii_lower(word@[j]),
        decreases word@.len() - k,
    {
        if !case_insensitive(word[k], s[pos + k]) {
            return false;
        }
        k += 1;
    }
    true
}

/// Reads the list form at the start of `s`, and where it ends.
pub fn list_command(s: &Vec<char>, command: &Vec<char>, chat_id: ChatId) -> (r: Option<
    (ListReminders, usize),
>)
    ensures
        match r {
            Some((list, end)) => list_at(s@, command@) == Some(end as int) && end <= s@.len()
                && list.chat_id == chat_id,
            None => list_at(s@, command@) is None,
        },
{
    let n = s.len();
    let start = spaces(s, 0);
    if keyword(s, start, command) {
        Some((ListReminders { chat_id }, start + command.len()))
    } else {
        None
    }
}

/// Reads the remove form at the start of `s`, and where it ends.
pub fn remove_command(s: &Vec<char>, command: &Vec<char>, chat_id: ChatId) -> (r: Option<
    (RemoveReminder, usize),
>)
    ensures
        match r {
            Some((remove, end)) => remove_at(s@, command@) == Some(
                (remove.reminder_id as int, end as int),
            ) && end <= s@.len() && remove.chat_id == chat_id,
            None => remove_at(s@, command@) is None,
        },
{
    let n = s.len();
    let start = spaces(s, 0);
    if !keyword(s, start, command) {
        return None;
    }
    let first = spaces(s, start + command.len());
    let mut i = first;
    let mut value: i32 = 0;
    let ghost total = digit_run(s@, first as int, s@.len());
    proof {
        lemma_digit_run(s@, first as int, s@.len());
    }
    while i < s.len()
        invariant
            start == skip_spaces(s@, 0),
            keyword_at(s@, start as int, command@),
            first == skip_spaces(s@, start + command@.len()),
            first <= i <= s@.len(),
            i <= first + total,
            total == digit_run(s@, first as int, s@.len()),
            first + total <= s@.len(),
            forall|k: int| first <= k < first + total ==> is_digit(#[trigger] s@[k]),
            first + total < s@.len() ==> !is_digit(s@[first + total]),
            value == digits_value(s@, first as int, (i - first) as nat),
        ensures
            i == first + total,
        decreases s@.len() - i,
    {
        match digit_value(s[i]) {
            Some(d) => {
                assert(i < first + total);
                if value > (i32::MAX - d as i32) / 10 {
                    proof {
                        let read = (i - first + 1) as nat;
                        lemma_digits_value_grows(s@, first as int, read, total);
                        assert(digits_value(s@, first as int, read) == value * 10 + d);
                        assert(value * 10 + d > i32::MAX);
                    }
                    return None;
                }
                value = value * 10 + d as i32;
                i += 1;
            },
            None => {
                break ;
            },
        }
    }
    if i > first {
        Some((RemoveReminder { reminder_id: value, chat_id }, i))
    } else {
        None
    }
}

/// The value of a run of digits is no less than that of any beginning of it.
proof fn lemma_digits_value_grows(s: Seq<char>, i: int, n: nat, m: nat)
    requires
        0 <= i,
        n <= m,
        i + m <= s.len(),
        forall|k: int| i <= k < i + m ==> is_digit(#[trigger] s[k]),
    ensures
        digits_value(s, i, n) <= digits_value(s, i, m),
    decreases m,
{
    if n < m {
        lemma_digits_value_grows(s, i, n, (m - 1) as nat);
        assert(is_digit(s[i + m - 1]));
    }
}

/// Reads the add form, which takes all of `s`.
pub fn add_command(s: &Vec<char>, chat_id: ChatId) -> (r: Option<AddReminder>)
    ensures
        match r {
            Some(add) => add_at(s@, chat_id) == Some(add@) && add@.valid() && add.due.wf(),
            None => add_at(s@, chat_id) is None,
        },
{
    let ((year, month, day), a) = match date(s, 0) {
        Some(read) => read,
        None => {
            return None;
        },
    };
    let mut hour: u32 = 0;
    let mut minute: u32 = 0;
    let mut b = a;
    if a < s.len() && is_whitespace(s[a]) {
        match time(s, a + 1) {
            Some(((h, m), end)) => {
                hour = h;
                minute = m;
                b = end;
            },
            None => {},
        }
    }
    let mut recurs: Option<Recurrence> = None;
    let mut c = b;
    if b < s.len() && is_whitespace(s[b]) {
        match recurrence(s, b + 1) {
            Some((r, end)) => {
                recurs = Some(r);
                c = end;
            },
            None => {},
        }
    }
    if c >= s.len() || !is_whitespace(s[c]) {
        return None;
    }
    if c + 1 >= s.len() {
        return None;
    }
    let end = trim_end_from(s, c + 1);
    let message = string_of(s, c + 1, end);
    match DueTimestamp::from_ymd_hms(year, month, day, hour, minute, 0) {
        Some(due) => Some(AddReminder { due, recurrence: recurs, message, chat_id }),
        None => None,
    }
}

/// Reads `input`, a text from the conversation `chat_id`, as a command.
pub fn parse(commands: &Commands, chat_id: ChatId, input: &str) -> (r: Result<Action, ParseError>)
    ensures
        match r {
            Ok(action) => parsed(commands.list_command@, commands.remove_command@, chat_id, input@)
                == Some(action@) && action@.valid(),
            Err(error) => parsed(commands.list_command@, commands.remove_command@, chat_id, input@)
                is None && error.input@ == input@,
        },
{
    let s = chars_of(input);
    let list_keyword = chars_of(commands.list_command.as_str());
    let remove_keyword = chars_of(commands.remove_command.as_str());
    let (action, end) = match list_command(&s, &list_keyword, chat_id) {
        Some((list, end)) => (Action::ListReminders(list), end),
        None => match remove_command(&s, &remove_keyword, chat_id) {
            Some((remove, end)) => (Action::RemoveReminder(remove), end),
            None => match add_command(&s, chat_id) {
                Some(add) => (Action::AddReminder(add), s.len()),
                None => {
                    return Err(ParseError { input: input.to_owned() });
                },
            },
        },
    };
    if spaces(&s, end) == s.len() {
        Ok(action)
    } else {
        Err(ParseError { input: input.to_owned() })
    }
}

} // verus!
