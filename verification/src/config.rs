//! The project that a `.tudu` file names. Such a file holds a line like
//! `PROJECT_ID=123`.

use vstd::prelude::*;

use crate::text::{chars_of, parse_i32, parsed_i32};

verus! {

/// The start of the line that names the project.
pub open spec fn project_key() -> Seq<char> {
    "PROJECT_ID="@
}

/// The white space that is cut from both ends of a value: the characters
/// with the Unicode property `White_Space`.
pub open spec fn is_white_space(c: char) -> bool {
    let code = c as int;
    ||| 0x09 <= code <= 0x0d
    ||| code == 0x20
    ||| code == 0x85
    ||| code == 0xa0
    ||| code == 0x1680
    ||| 0x2000 <= code <= 0x200a
    ||| code == 0x2028
    ||| code == 0x2029
    ||| code == 0x202f
    ||| code == 0x205f
    ||| code == 0x3000
}

/// The number of white space characters at the start of `text`.
pub open spec fn leading_white_space(text: Seq<char>) -> int
    decreases text.len(),
{
    if text.len() > 0 && is_white_space(text[0]) {
        1 + leading_white_space(text.drop_first())
    } else {
        0
    }
}

/// The number of white space characters at the end of `text`.
pub open spec fn trailing_white_space(text: Seq<char>) -> int
    decreases text.len(),
{
    if text.len() > 0 && is_white_space(text.last()) {
        1 + trailing_white_space(text.drop_last())
    } else {
        0
    }
}

/// `text` without the white space at its start and at its end.
pub open spec fn trimmed(text: Seq<char>) -> Seq<char> {
    let start = leading_white_space(text);
    if start == text.len() {
        Seq::empty()
    } else {
        text.subrange(start, text.len() - trailing_white_space(text))
    }
}

/// `line` starts with the key.
pub open spec fn has_project_key(line: Seq<char>) -> bool {
    line.len() >= project_key().len() && line.subrange(0, project_key().len() as int)
        == project_key()
}

/// The project that a line names: the line starts with the key, and what
/// follows is, but for white space around it, an integer.
pub open spec fn line_project_id(line: Seq<char>) -> Option<i32> {
    if has_project_key(line) {
        parsed_i32(trimmed(line.skip(project_key().len() as int)))
    } else {
        None
    }
}

/// The project that the first of `lines` that names one names.
pub open spec fn configured_project_id(lines: Seq<String>) -> Option<i32>
    decreases lines.len(),
{
    if lines.len() == 0 {
        None
    } else if line_project_id(lines[0]@) is Some {
        line_project_id(lines[0]@)
    } else {
        configured_project_id(lines.drop_first())
    }
}

/// Whether a character is white space.
pub fn is_whitespace_char(c: char) -> (r: bool)
    ensures
        r == is_white_space(c),
{
    let code = c as u32;
    (0x09 <= code && code <= 0x0d) || code == 0x20 || code == 0x85 || code == 0xa0 || code
        == 0x1680 || (0x2000 <= code && code <= 0x200a) || code == 0x2028 || code == 0x2029
        || code == 0x202f || code == 0x205f || code == 0x3000
}

/// The white space at the start of `text` ends where the first other
/// character stands.
proof fn lemma_leading_white_space(text: Seq<char>, count: int)
    requires
        0 <= count <= text.len(),
        forall|i: int| 0 <= i < count ==> is_white_space(#[trigger] text[i]),
        count < text.len() ==> !is_white_space(text[count]),
    ensures
        leading_white_space(text) == count,
    decreases count,
{
    if count > 0 {
        let rest = text.drop_first();
        assert forall|i: int| 0 <= i < count - 1 implies is_white_space(#[trigger] rest[i]) by {
            assert(rest[i] == text[i + 1]);
        }
        if count < text.len() {
            assert(rest[count - 1] == text[count]);
        }
        lemma_leading_white_space(rest, count - 1);
    }
}

/// The white space at the end of `text` starts behind the last other
/// character.
proof fn lemma_trailing_white_space(text: Seq<char>, count: int)
    requires
        0 <= count <= text.len(),
        forall|i: int| text.len() - count <= i < text.len() ==> is_white_space(#[trigger] text[i]),
        count < text.len() ==> !is_white_space(text[text.len() - count - 1]),
    ensures
        trailing_white_space(text) == count,
    decreases count,
{
    if count > 0 {
        let rest = text.drop_last();
        assert forall|i: int| rest.len() - (count - 1) <= i < rest.len() implies is_white_space(
            #[trigger] rest[i],
        ) by {
            assert(rest[i] == text[i]);
        }
        if count < text.len() {
            assert(rest[rest.len() - (count - 1) - 1] == text[text.len() - count - 1]);
        }
        assert(is_white_space(text[text.len() - 1]));
        lemma_trailing_white_space(rest, count - 1);
    }
}

/// Whether the characters of a line start with the key.
fn starts_with_key(line: &Vec<char>) -> (r: bool)
    ensures
        r == has_project_key(line@),
{
    let key = "PROJECT_ID=";
    proof {
        reveal_strlit("PROJECT_ID=");
    }
    if line.len() < 11 {
        return false;
    }
    let mut at: usize = 0;
    while at < 11
        invariant
            at <= 11 <= line.len(),
            key@ == project_key(),
            key@.len() == 11,
            forall|i: int| 0 <= i < at ==> #[trigger] line@[i] == key@[i],
        decreases 11 - at,
    {
        if line[at] != key.get_char(at) {
            assert(line@.subrange(0, 11)[at as int] == line@[at as int]);
            return false;
        }
        at += 1;
    }
    assert(line@.subrange(0, 11) =~= project_key());
    true
}

/// The project that a line names.
pub fn project_id_of_line(line: &str) -> (id: Option<i32>)
    ensures
        id == line_project_id(line@),
{
    let chars = chars_of(line);
    if !starts_with_key(&chars) {
        return None;
    }
    proof {
        reveal_strlit("PROJECT_ID=");
    }
    let ghost value = chars@.skip(11);
    let mut start: usize = 11;
    while start < chars.len() && is_whitespace_char(chars[start])
        invariant
            11 <= start <= chars.len(),
            forall|i: int| 11 <= i < start ==> is_white_space(#[trigger] chars@[i]),
        decreases chars.len() - start,
    {
        start += 1;
    }
    proof {
        assert forall|i: int| 0 <= i < start - 11 implies is_white_space(#[trigger] value[i]) by {
            assert(value[i] == chars@[i + 11]);
        }
        lemma_leading_white_space(value, start - 11);
    }
    if start == chars.len() {
        assert(trimmed(value) =~= chars@.subrange(start as int, start as int));
        return parse_i32(&chars, start, start);
    }
    let mut end: usize = chars.len();
    while end > start + 1 && is_whitespace_char(chars[end - 1])
        invariant
            11 <= start < end <= chars.len(),
            !is_white_space(chars@[start as int]),
            forall|i: int| end <= i < chars.len() ==> is_white_space(#[trigger] chars@[i]),
        decreases end,
    {
        end -= 1;
    }
    proof {
        assert forall|i: int| value.len() - (chars.len() - end) <= i < value.len() implies is_white_space(
            #[trigger] value[i],
        ) by {
            assert(value[i] == chars@[i + 11]);
        }
        assert(value[value.len() - (chars.len() - end) - 1] == chars@[end - 1]);
        lemma_trailing_white_space(value, chars.len() - end);
        assert(trimmed(value) =~= chars@.subrange(start as int, end as int));
    }
    parse_i32(&chars, start, end)
}

/// The project that the lines of a `.tudu` file name: the one of the first
/// line that names one.
pub fn project_id_from_lines(lines: &Vec<String>) -> (id: Option<i32>)
    ensures
        id == configured_project_id(lines@),
{
    let mut at: usize = 0;
    proof {
        assert(lines@.skip(0) =~= lines@);
    }
    while at < lines.len()
        invariant
            at <= lines.len(),
            configured_project_id(lines@) == configured_project_id(lines@.skip(at as int)),
        decreases lines.len() - at,
    {
        proof {
            assert(lines@.skip(at as int).drop_first() =~= lines@.skip(at + 1));
        }
        match project_id_of_line(lines[at].as_str()) {
            Some(id) => {
                return Some(id);
            },
            None => {},
        }
        at += 1;
    }
    None
}

} // verus!
