//! The lines that tell the details of a todo.

use vstd::prelude::*;
use vstd::string::StringExecFns;

use crate::datetime::Timestamp;
use crate::display::hex::{lower_hex_digit, lower_hex_str};
use crate::todo::sql::Todo;

verus! {

/// What `chrono` writes for a date and time under a format: the text of
/// `chrono::NaiveDateTime::format`, or `None` where the seconds and
/// nanoseconds are no date and time that `chrono` holds, or where it reports
/// an error in the format.
pub uninterp spec fn chrono_format(time: Timestamp, format: Seq<char>) -> Option<Seq<char>>;

/// Calls `chrono::DateTime::from_timestamp` and, on the date and time it
/// gives, `chrono::NaiveDateTime::format`, and lets `chrono` write the text.
/// The contract gives the outcome its name: the same time under the same
/// format is written in the same way every time.
#[verifier::external_body]
fn write_time(time: &Timestamp, format: &str) -> (written: Option<String>)
    ensures
        match written {
            Some(text) => chrono_format(*time, format@) == Some(text@),
            None => chrono_format(*time, format@) is None,
        },
{
    let moment = match chrono::DateTime::from_timestamp(time.secs, time.nanos) {
        Some(moment) => moment.naive_utc(),
        None => return None,
    };
    let mut text = String::new();
    match moment.format(format).write_to(&mut text) {
        Ok(()) => Some(text),
        Err(_) => None,
    }
}

/// The format in which times are shown, as in `Mon Jan 15, 2024 10:30am`.
pub open spec fn shown_format() -> Seq<char> {
    "%a %b %-d, %Y %-I:%M%P"@
}

/// What separates the parts of a line.
pub open spec fn part_separator() -> Seq<char> {
    " \u{2022} "@
}

/// The digits of a number that is not negative.
pub open spec fn digits_text(value: int) -> Seq<char>
    decreases value,
{
    if value < 10 {
        seq![lower_hex_digit(value)]
    } else {
        digits_text(value / 10).push(lower_hex_digit(value % 10))
    }
}

/// A number in decimal digits, with `-` before a negative one.
pub open spec fn decimal_text(value: int) -> Seq<char> {
    if value < 0 {
        seq!['-'] + digits_text(-value)
    } else {
        digits_text(value)
    }
}

/// The parts, with `separator` between each two of them.
pub open spec fn joined(parts: Seq<Seq<char>>, separator: Seq<char>) -> Seq<char>
    decreases parts.len(),
{
    if parts.len() == 0 {
        Seq::empty()
    } else if parts.len() == 1 {
        parts[0]
    } else {
        joined(parts.drop_last(), separator) + separator + parts.last()
    }
}

/// A time with what it is the time of before it, as in
/// `Due: Mon Jan 15, 2024 10:30am`; `None` where the time cannot be written.
pub open spec fn dated_text(prefix: Seq<char>, time: Timestamp) -> Option<Seq<char>> {
    match chrono_format(time, shown_format()) {
        Some(written) => Some(prefix + ": "@ + written),
        None => None,
    }
}

/// The one part that a time gives, or none where there is no time or it
/// cannot be written.
pub open spec fn dated_part(prefix: Seq<char>, time: Option<Timestamp>) -> Seq<Seq<char>> {
    match time {
        Some(time) => match dated_text(prefix, time) {
            Some(text) => seq![text],
            None => Seq::empty(),
        },
        None => Seq::empty(),
    }
}

/// Where a todo takes place, where to read more, and how long it takes: a
/// part for each that the todo holds.
pub open spec fn detail_parts(todo: Todo) -> Seq<Seq<char>> {
    (match todo.location {
        Some(location) => seq!["\u{1F4CD} "@ + location@],
        None => Seq::empty(),
    }) + (match todo.url {
        Some(url) => seq!["\u{1F517} "@ + url@],
        None => Seq::empty(),
    }) + (match todo.estimated_minutes {
        Some(minutes) => seq!["\u{23F1}\u{FE0F}  "@ + decimal_text(minutes as int) + "min"@],
        None => Seq::empty(),
    })
}

/// When a todo was created, updated and completed: a part for each of these
/// times that the todo holds.
pub open spec fn timestamp_parts(todo: Todo) -> Seq<Seq<char>> {
    dated_part("Created"@, todo.created_at) + dated_part("Updated"@, todo.updated_at) + dated_part(
        "Completed"@,
        todo.completed_at,
    )
}

/// The one line that parts give, or none where there are no parts.
pub open spec fn line_of(parts: Seq<Seq<char>>) -> Seq<Seq<char>> {
    if parts.len() > 0 {
        seq![joined(parts, part_separator())]
    } else {
        Seq::empty()
    }
}

/// The lines that tell the details of a todo: its description, a line of
/// its details and a line of its times, each where there is something to
/// tell.
pub open spec fn additional_lines(todo: Todo) -> Seq<Seq<char>> {
    (match todo.description {
        Some(description) => seq![description@],
        None => Seq::empty(),
    }) + line_of(detail_parts(todo)) + line_of(timestamp_parts(todo))
}

/// The texts of `lines`.
pub open spec fn texts_of(lines: Seq<String>) -> Seq<Seq<char>> {
    Seq::new(lines.len(), |at: int| lines[at]@)
}

/// The format in which times are shown.
pub fn datetime_format() -> (format: &'static str)
    ensures
        format@ == shown_format(),
{
    "%a %b %-d, %Y %-I:%M%P"
}

/// A time with what it is the time of before it.
pub fn format_datetime(prefix: &str, time: &Timestamp) -> (text: Option<String>)
    ensures
        match text {
            Some(text) => dated_text(prefix@, *time) == Some(text@),
            None => dated_text(prefix@, *time) is None,
        },
{
    match write_time(time, datetime_format()) {
        Some(written) => {
            let mut text = prefix.to_string();
            text.append(": ");
            text.append(written.as_str());
            Some(text)
        },
        None => None,
    }
}

/// Appends the digits of `value`.
fn push_digits(text: &mut String, value: u32)
    ensures
        final(text)@ == old(text)@ + digits_text(value as int),
    decreases value,
{
    let ghost before = text@;
    if value >= 10 {
        push_digits(text, value / 10);
    }
    text.append(lower_hex_str((value % 10) as u8));
    proof {
        if value >= 10 {
            assert(text@ =~= before + digits_text(value as int));
        } else {
            assert(text@ =~= before + digits_text(value as int));
        }
    }
}

/// A number in decimal digits.
pub fn i32_text(value: i32) -> (text: String)
    ensures
        text@ == decimal_text(value as int),
{
    let mut text = String::new();
    if value < 0 {
        text.append("-");
        proof {
            reveal_strlit("-");
        }
        let size = (-(value as i64)) as u32;
        push_digits(&mut text, size);
        assert(text@ =~= decimal_text(value as int));
    } else {
        push_digits(&mut text, value as u32);
        assert(text@ =~= decimal_text(value as int));
    }
    text
}

/// The parts, with ` • ` between each two of them.
pub fn join_parts(parts: &Vec<String>) -> (line: String)
    ensures
        line@ == joined(texts_of(parts@), part_separator()),
{
    let mut line = String::new();
    let mut at: usize = 0;
    let ghost texts = texts_of(parts@);
    proof {
        assert(texts.take(0) =~= Seq::<Seq<char>>::empty());
    }
    while at < parts.len()
        invariant
            at <= parts.len(),
            texts == texts_of(parts@),
            line@ == joined(texts.take(at as int), part_separator()),
        decreases parts.len() - at,
    {
        proof {
            assert(texts.take(at + 1).drop_last() =~= texts.take(at as int));
            assert(texts.take(at + 1).last() == parts@[at as int]@);
        }
        if at > 0 {
            line.append(" \u{2022} ");
        }
        line.append(parts[at].as_str());
        proof {
            if at == 0 {
                assert(texts.take(1)[0] == parts@[0]@);
                assert(line@ =~= parts@[0]@);
            }
        }
        at += 1;
    }
    proof {
        assert(texts.take(parts.len() as int) =~= texts);
    }
    line
}

/// Appends the part that a time gives, if it gives one.
fn push_dated_part(parts: &mut Vec<String>, prefix: &str, time: &Option<Timestamp>)
    ensures
        texts_of(final(parts)@) == texts_of(old(parts)@) + dated_part(prefix@, *time),
{
    let ghost before = texts_of(parts@);
    match time {
        Some(time) => match format_datetime(prefix, time) {
            Some(text) => {
                parts.push(text);
                assert(texts_of(parts@) =~= before + seq![text@]);
            },
            None => {
                assert(texts_of(parts@) =~= before + Seq::<Seq<char>>::empty());
            },
        },
        None => {
            assert(texts_of(parts@) =~= before + Seq::<Seq<char>>::empty());
        },
    }
}

/// Appends the line that parts give, if there are any.
fn push_line(lines: &mut Vec<String>, parts: &Vec<String>)
    ensures
        texts_of(final(lines)@) == texts_of(old(lines)@) + line_of(texts_of(parts@)),
{
    let ghost before = texts_of(lines@);
    if !parts.is_empty() {
        let line = join_parts(parts);
        lines.push(line);
        assert(texts_of(lines@) =~= before + seq![line@]);
    } else {
        assert(texts_of(lines@) =~= before + Seq::<Seq<char>>::empty());
    }
}

/// The lines that tell the details of a todo.
pub fn create_additional_lines(todo: &Todo) -> (lines: Vec<String>)
    ensures
        texts_of(lines@) == additional_lines(*todo),
{
    let mut lines: Vec<String> = Vec::new();
    match &todo.description {
        Some(description) => {
            lines.push(description.clone());
        },
        None => {},
    }
    let ghost described = texts_of(lines@);
    assert(described =~= (match todo.description {
        Some(description) => seq![description@],
        None => Seq::empty(),
    }));

    let mut detail: Vec<String> = Vec::new();
    match &todo.location {
        Some(location) => {
            let mut part = "\u{1F4CD} ".to_string();
            part.append(location.as_str());
            detail.push(part);
        },
        None => {},
    }
    match &todo.url {
        Some(url) => {
            let mut part = "\u{1F517} ".to_string();
            part.append(url.as_str());
            detail.push(part);
        },
        None => {},
    }
    match todo.estimated_minutes {
        Some(minutes) => {
            let mut part = "\u{23F1}\u{FE0F}  ".to_string();
            part.append(i32_text(minutes).as_str());
            part.append("min");
            detail.push(part);
        },
        None => {},
    }
    assert(texts_of(detail@) =~= detail_parts(*todo));
    push_line(&mut lines, &detail);

    let mut times: Vec<String> = Vec::new();
    assert(texts_of(times@) =~= Seq::<Seq<char>>::empty());
    push_dated_part(&mut times, "Created", &todo.created_at);
    push_dated_part(&mut times, "Updated", &todo.updated_at);
    push_dated_part(&mut times, "Completed", &todo.completed_at);
    assert(texts_of(times@) =~= timestamp_parts(*todo));
    push_line(&mut lines, &times);
    lines
}

} // verus!
