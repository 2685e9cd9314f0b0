//! The arguments of the commands, and the values that are checked as they
//! are read from the command line.

use std::str::FromStr;
use vstd::prelude::*;
use vstd::string::StringExecFns;

use crate::datetime::{chrono_parse, now, parse_with_format, Timestamp};
use crate::display::hex::{all_hex_digits, hex_value, lemma_hash_and_digits_read, HexColor};
use crate::error::{TuduError, TuduResult};
use crate::text::{parse_integer, parsed_i32};

verus! {

/// The error type of the `url` crate, `url::ParseError`. Nothing is known of
/// a value of it here.
#[verifier::external_type_specification]
#[verifier::external_body]
pub struct ExUrlError(url::ParseError);

/// The error type of `chrono`'s parsers, `chrono::ParseError`. Nothing is
/// known of a value of it here.
#[verifier::external_type_specification]
#[verifier::external_body]
pub struct ExChronoError(chrono::ParseError);

/// What `url::Url::parse` makes of a text: the URL as the `url` crate writes
/// it, or `None` where it reports an error.
pub uninterp spec fn url_parse(text: Seq<char>) -> Option<Seq<char>>;

/// Calls `url::Url::parse`. The contract gives the outcome its name: the
/// same text is read in the same way every time. A URL comes back as the
/// text that the crate writes for it, an error as the crate reports it.
#[verifier::external_body]
fn parse_url(text: &str) -> (parsed: Result<String, url::ParseError>)
    ensures
        match parsed {
            Ok(url) => url_parse(text@) == Some(url@),
            Err(_) => url_parse(text@) is None,
        },
{
    match url::Url::parse(text) {
        Ok(url) => Ok(url.to_string()),
        Err(error) => Err(error),
    }
}

/// A URL that has been checked: the text that the `url` crate writes for it.
#[derive(Debug, Clone)]
pub struct ValidUrl(pub String);

impl ValidUrl {
    /// Accepts what `url::Url::parse` accepts, and keeps the URL as that
    /// crate writes it.
    pub fn parse(s: &str) -> (result: Result<ValidUrl, url::ParseError>)
        ensures
            match result {
                Ok(valid) => url_parse(s@) == Some(valid.0@),
                Err(_) => url_parse(s@) is None,
            },
    {
        match parse_url(s) {
            Ok(url) => Ok(ValidUrl(url)),
            Err(error) => Err(error),
        }
    }
}

impl FromStr for ValidUrl {
    type Err = url::ParseError;

    fn from_str(s: &str) -> (result: Result<Self, Self::Err>)
        ensures
            match result {
                Ok(valid) => url_parse(s@) == Some(valid.0@),
                Err(_) => url_parse(s@) is None,
            },
    {
        ValidUrl::parse(s)
    }
}

/// A date and time read from the command line.
#[derive(Debug, Clone, Copy)]
pub struct ValidDateTime(pub Timestamp);

/// The number of formats in which a date and time is tried.
pub const DATETIME_FORMATS: usize = 7;

/// The formats in which a date and time is tried, in this order. An index
/// behind the last stands for the last.
pub open spec fn datetime_format_text(index: int) -> Seq<char> {
    if index == 0 {
        "%m/%d/%y %I:%M%p"@
    } else if index == 1 {
        "%Y-%m-%d %H:%M:%S"@
    } else if index == 2 {
        "%Y-%m-%d %H:%M"@
    } else if index == 3 {
        "%m/%d/%Y %H:%M:%S"@
    } else if index == 4 {
        "%m/%d/%Y %H:%M"@
    } else if index == 5 {
        "%d/%m/%Y %H:%M:%S"@
    } else {
        "%d/%m/%Y %H:%M"@
    }
}

/// What each of the formats makes of `text`.
pub open spec fn datetime_candidates(text: Seq<char>) -> Seq<Option<Timestamp>> {
    Seq::new(DATETIME_FORMATS as nat, |index: int| chrono_parse(text, datetime_format_text(index)))
}

/// The first of `candidates` that holds a date and time.
pub open spec fn first_parsed(candidates: Seq<Option<Timestamp>>) -> Option<Timestamp>
    decreases candidates.len(),
{
    if candidates.len() == 0 {
        None
    } else if candidates[0] is Some {
        candidates[0]
    } else {
        first_parsed(candidates.drop_first())
    }
}

/// The format at `index`.
pub fn datetime_format(index: usize) -> (format: &'static str)
    ensures
        format@ == datetime_format_text(index as int),
{
    match index {
        0 => "%m/%d/%y %I:%M%p",
        1 => "%Y-%m-%d %H:%M:%S",
        2 => "%Y-%m-%d %H:%M",
        3 => "%m/%d/%Y %H:%M:%S",
        4 => "%m/%d/%Y %H:%M",
        5 => "%d/%m/%Y %H:%M:%S",
        _ => "%d/%m/%Y %H:%M",
    }
}

impl ValidDateTime {
    /// The date and time of the first candidate that holds one; `fallback`
    /// where none does.
    pub fn resolve(candidates: &Vec<Option<Timestamp>>, fallback: Timestamp) -> (resolved:
        ValidDateTime)
        ensures
            resolved.0 == (match first_parsed(candidates@) {
                Some(parsed) => parsed,
                None => fallback,
            }),
    {
        let mut at: usize = 0;
        proof {
            assert(candidates@.skip(0) =~= candidates@);
        }
        while at < candidates.len()
            invariant
                at <= candidates.len(),
                first_parsed(candidates@) == first_parsed(candidates@.skip(at as int)),
            decreases candidates.len() - at,
        {
            proof {
                assert(candidates@.skip(at as int).drop_first() =~= candidates@.skip(at + 1));
            }
            match candidates[at] {
                Some(parsed) => {
                    return ValidDateTime(parsed);
                },
                None => {},
            }
            at += 1;
        }
        ValidDateTime(fallback)
    }

    /// Reads a date and time in the first of the formats that fits, and
    /// tries no format behind it. Where none fits, and only then, the clock
    /// is read: the result is the time of the call.
    pub fn parse(s: &str) -> (parsed: ValidDateTime)
        ensures
            first_parsed(datetime_candidates(s@)) matches Some(read) ==> parsed.0 == read,
            first_parsed(datetime_candidates(s@)) is None ==> parsed.0.well_formed(),
    {
        let mut candidates: Vec<Option<Timestamp>> = Vec::new();
        let mut index: usize = 0;
        proof {
            assert(datetime_candidates(s@).skip(0) =~= datetime_candidates(s@));
        }
        while index < DATETIME_FORMATS
            invariant
                index <= DATETIME_FORMATS,
                candidates.len() == index,
                forall|i: int|
                    0 <= i < index ==> #[trigger] candidates@[i] == datetime_candidates(s@)[i],
                first_parsed(datetime_candidates(s@)) == first_parsed(
                    datetime_candidates(s@).skip(index as int),
                ),
            decreases DATETIME_FORMATS - index,
        {
            let ghost all = datetime_candidates(s@);
            proof {
                assert(all.skip(index as int).drop_first() =~= all.skip(index + 1));
                assert(all.skip(index as int)[0] == all[index as int]);
            }
            let candidate = parse_with_format(s, datetime_format(index));
            match candidate {
                Some(read) => {
                    return ValidDateTime(read);
                },
                None => {},
            }
            candidates.push(candidate);
            index += 1;
        }
        assert(candidates@ =~= datetime_candidates(s@));
        ValidDateTime::resolve(&candidates, now())
    }
}

/// Enforces errors to just be a default value of now
impl FromStr for ValidDateTime {
    type Err = chrono::ParseError;

    fn from_str(s: &str) -> (result: Result<Self, Self::Err>)
        ensures
            result is Ok,
            first_parsed(datetime_candidates(s@)) matches Some(read) ==> result->Ok_0.0 == read,
            first_parsed(datetime_candidates(s@)) is None ==> result->Ok_0.0.well_formed(),
    {
        Ok(ValidDateTime::parse(s))
    }
}

/// The text of a color as it is given on the command line.
#[derive(Debug, Clone)]
pub struct ValidHexColor(pub String);

impl ValidHexColor {
    /// A color is written as `#` and three or six hexadecimal digits.
    pub open spec fn well_formed(text: Seq<char>) -> bool {
        &&& text.len() == 4 || text.len() == 7
        &&& text[0] == '#'
        &&& all_hex_digits(text.skip(1))
    }

    /// What is said of a text that is no color.
    pub open spec fn complaint(text: Seq<char>) -> Seq<char> {
        "Invalid hex color format: "@ + text + ". Expected format: #RRGGBB or #RGB"@
    }

    /// Accepts a color written as `#RGB` or `#RRGGBB`, and keeps the text as
    /// it is. Any other text is refused with a message that quotes it.
    pub fn parse(s: &str) -> (result: Result<ValidHexColor, String>)
        ensures
            match result {
                Ok(color) => Self::well_formed(s@) && color.0@ == s@,
                Err(message) => !Self::well_formed(s@) && message@ == Self::complaint(s@),
            },
    {
        if is_hex_color(s) {
            Ok(ValidHexColor(s.to_string()))
        } else {
            let mut message = "Invalid hex color format: ".to_string();
            message.append(s);
            message.append(". Expected format: #RRGGBB or #RGB");
            Err(message)
        }
    }
}

/// What the command line accepts as a color reads as a color wherever a
/// color is read.
pub proof fn lemma_valid_color_reads(text: Seq<char>)
    requires
        ValidHexColor::well_formed(text),
    ensures
        HexColor::parsed(text) is Ok,
{
    lemma_hash_and_digits_read(text);
}

impl FromStr for ValidHexColor {
    type Err = String;

    fn from_str(s: &str) -> (result: Result<Self, Self::Err>)
        ensures
            match result {
                Ok(color) => Self::well_formed(s@) && color.0@ == s@,
                Err(message) => !Self::well_formed(s@) && message@ == Self::complaint(s@),
            },
    {
        ValidHexColor::parse(s)
    }
}

/// Whether a text is `#` and three or six hexadecimal digits.
fn is_hex_color(text: &str) -> (r: bool)
    ensures
        r == ValidHexColor::well_formed(text@),
{
    let length = text.unicode_len();
    if length != 4 && length != 7 {
        return false;
    }
    if text.get_char(0) != '#' {
        return false;
    }
    let mut at: usize = 1;
    while at < length
        invariant
            1 <= at <= length,
            length == text@.len(),
            forall|i: int| 1 <= i < at ==> crate::display::hex::hex_digit_value(#[trigger] text@[i]) is Some,
        decreases length - at,
    {
        if hex_value(text.get_char(at)).is_none() {
            assert(text@.skip(1)[at - 1] == text@[at as int]);
            return false;
        }
        at += 1;
    }
    assert forall|i: int| 0 <= i < text@.skip(1).len() implies crate::display::hex::hex_digit_value(
        #[trigger] text@.skip(1)[i],
    ) is Some by {
        assert(text@.skip(1)[i] == text@[i + 1]);
    }
    true
}

/// An estimate of the time that a todo takes, in minutes: an integer that is
/// not negative.
#[derive(Debug, Clone, Copy)]
pub struct ValidMinutes {
    minutes: i32,
}

impl ValidMinutes {
    #[verifier::type_invariant]
    spec fn not_negative(self) -> bool {
        self.minutes >= 0
    }

    /// The number of minutes.
    pub closed spec fn value(self) -> i32 {
        self.minutes
    }

    /// The estimate that a text stands for: an integer that is not negative.
    pub open spec fn accepted(text: Seq<char>) -> Option<i32> {
        match parsed_i32(text) {
            Some(minutes) => if minutes >= 0 {
                Some(minutes)
            } else {
                None
            },
            None => None,
        }
    }

    /// What is said of a text that is no estimate.
    pub open spec fn complaint(text: Seq<char>) -> Seq<char> {
        "Invalid estimate: "@ + text + ". Expected a number of minutes, zero or more"@
    }

    /// An estimate of `minutes`, unless they are negative.
    pub fn new(minutes: i32) -> (estimate: Option<ValidMinutes>)
        ensures
            match estimate {
                Some(estimate) => minutes >= 0 && estimate.value() == minutes,
                None => minutes < 0,
            },
    {
        if minutes >= 0 {
            Some(ValidMinutes { minutes })
        } else {
            None
        }
    }

    /// The number of minutes, which is never negative.
    pub fn get(&self) -> (minutes: i32)
        ensures
            minutes == self.value(),
            minutes >= 0,
    {
        proof {
            use_type_invariant(self);
        }
        self.minutes
    }

    /// Accepts an integer that is not negative: an optional `+` and digits.
    /// Any other text, a negative number among them, is refused with a
    /// message that quotes it.
    pub fn parse(s: &str) -> (result: Result<ValidMinutes, String>)
        ensures
            match result {
                Ok(estimate) => Self::accepted(s@) == Some(estimate.value()),
                Err(message) => Self::accepted(s@) is None && message@ == Self::complaint(s@),
            },
    {
        match parse_integer(s) {
            Some(minutes) => match ValidMinutes::new(minutes) {
                Some(estimate) => {
                    return Ok(estimate);
                },
                None => {},
            },
            None => {},
        }
        let mut message = "Invalid estimate: ".to_string();
        message.append(s);
        message.append(". Expected a number of minutes, zero or more");
        Err(message)
    }
}

impl FromStr for ValidMinutes {
    type Err = String;

    fn from_str(s: &str) -> (result: Result<Self, Self::Err>)
        ensures
            match result {
                Ok(estimate) => Self::accepted(s@) == Some(estimate.value()),
                Err(message) => Self::accepted(s@) is None && message@ == Self::complaint(s@),
            },
    {
        ValidMinutes::parse(s)
    }
}

/// The arguments that the commands take.
#[derive(Debug, Clone, Copy, PartialEq, Eq, Structural)]
pub enum TuduArg {
    Prompt,
    Name,
    Description,
    Color,
    ProjectId,
    ParentId,
    TodoId,
    Status,
    Title,
    Priority,
    DueDate,
    EstimatedMinutes,
    Location,
    Url,
    GreaterThan,
    LessThan,
}

/// The kind of value that an argument takes.
#[derive(Debug, Clone, Copy, PartialEq, Eq, Structural)]
pub enum ArgValue {
    /// A text that is not empty.
    Text,
    /// A color, as `ValidHexColor` reads it.
    Color,
    /// An integer.
    Integer,
    /// A number of minutes, as `ValidMinutes` reads it.
    Minutes,
    /// A priority.
    Priority,
    /// A status.
    Status,
    /// A date and time, as `ValidDateTime` reads it.
    DateTime,
    /// A URL, as `ValidUrl` reads it.
    Url,
    /// No value: the argument is a flag that is set by being given.
    Flag,
}

impl TuduArg {
    /// The name under which the argument is given and looked up.
    pub open spec fn name_text(self) -> Seq<char> {
        match self {
            TuduArg::Prompt => "prompt"@,
            TuduArg::Name => "name"@,
            TuduArg::Description => "description"@,
            TuduArg::Color => "color"@,
            TuduArg::ProjectId => "project_id"@,
            TuduArg::ParentId => "parent_id"@,
            TuduArg::TodoId => "todo_id"@,
            TuduArg::Status => "status"@,
            TuduArg::Title => "title"@,
            TuduArg::Priority => "priority"@,
            TuduArg::DueDate => "due_date"@,
            TuduArg::EstimatedMinutes => "estimated_minutes"@,
            TuduArg::Location => "location"@,
            TuduArg::Url => "url"@,
            TuduArg::GreaterThan => "greater_than"@,
            TuduArg::LessThan => "less_than"@,
        }
    }

    /// What the help says of the argument.
    pub open spec fn about_text(self) -> Seq<char> {
        match self {
            TuduArg::Prompt => "A magical prompt to bend the application to your will. (WIP)"@,
            TuduArg::Name => "The name of your project. Make it memorable!"@,
            TuduArg::Description => "A space for all the juicy details and notes."@,
            TuduArg::Color =>
                "Give your project a splash of color with a hex code (e.g., #ff0000)."@,
            TuduArg::ProjectId =>
                "The project this todo belongs to. Keeps things tidy! Can be set through `.tudu` config"@,
            TuduArg::ParentId =>
                "The parent task if this is a subtask. For when you need to break it down."@,
            TuduArg::TodoId => "A specific todo id"@,
            TuduArg::Status => "How is this todo going"@,
            TuduArg::Title => "A short, snappy title for your task."@,
            TuduArg::Priority => "How critical is this todo? Higher numbers mean more urgency."@,
            TuduArg::DueDate => "The deadline for this todo. Don't miss it! Default to `now`"@,
            TuduArg::EstimatedMinutes =>
                "Your best guess on how long this will take, in minutes."@,
            TuduArg::Location => "Where does this todo need to happen? (e.g., 'Office', 'Home')."@,
            TuduArg::Url => "A link to a related resource, like a ticket or a document."@,
            TuduArg::GreaterThan => "A greater than comparison"@,
            TuduArg::LessThan => "A less than comparison"@,
        }
    }

    /// The kind of value that the argument takes.
    pub open spec fn value_kind(self) -> ArgValue {
        match self {
            TuduArg::Prompt | TuduArg::Name | TuduArg::Description | TuduArg::Title
            | TuduArg::Location => ArgValue::Text,
            TuduArg::Color => ArgValue::Color,
            TuduArg::ProjectId | TuduArg::ParentId | TuduArg::TodoId => ArgValue::Integer,
            TuduArg::EstimatedMinutes => ArgValue::Minutes,
            TuduArg::Priority => ArgValue::Priority,
            TuduArg::Status => ArgValue::Status,
            TuduArg::DueDate => ArgValue::DateTime,
            TuduArg::Url => ArgValue::Url,
            TuduArg::GreaterThan | TuduArg::LessThan => ArgValue::Flag,
        }
    }

    /// The value that the argument has where the command line does not give
    /// it: the default priority, and the status of a todo not yet started.
    pub open spec fn default_text(self) -> Option<Seq<char>> {
        match self {
            TuduArg::Priority => Some("medium"@),
            TuduArg::Status => Some("to-do"@),
            _ => None,
        }
    }

    /// The name under which the argument is given and looked up.
    pub fn name(&self) -> (text: &'static str)
        ensures
            text@ == self.name_text(),
    {
        match self {
            TuduArg::Prompt => "prompt",
            TuduArg::Name => "name",
            TuduArg::Description => "description",
            TuduArg::Color => "color",
            TuduArg::ProjectId => "project_id",
            TuduArg::ParentId => "parent_id",
            TuduArg::TodoId => "todo_id",
            TuduArg::Status => "status",
            TuduArg::Title => "title",
            TuduArg::Priority => "priority",
            TuduArg::DueDate => "due_date",
            TuduArg::EstimatedMinutes => "estimated_minutes",
            TuduArg::Location => "location",
            TuduArg::Url => "url",
            TuduArg::GreaterThan => "greater_than",
            TuduArg::LessThan => "less_than",
        }
    }

    /// What the help says of the argument.
    pub fn about(&self) -> (text: &'static str)
        ensures
            text@ == self.about_text(),
    {
        match self {
            TuduArg::Prompt => "A magical prompt to bend the application to your will. (WIP)",
            TuduArg::Name => "The name of your project. Make it memorable!",
            TuduArg::Description => "A space for all the juicy details and notes.",
            TuduArg::Color =>
                "Give your project a splash of color with a hex code (e.g., #ff0000).",
            TuduArg::ProjectId =>
                "The project this todo belongs to. Keeps things tidy! Can be set through `.tudu` config",
            TuduArg::ParentId =>
                "The parent task if this is a subtask. For when you need to break it down.",
            TuduArg::TodoId => "A specific todo id",
            TuduArg::Status => "How is this todo going",
            TuduArg::Title => "A short, snappy title for your task.",
            TuduArg::Priority => "How critical is this todo? Higher numbers mean more urgency.",
            TuduArg::DueDate => "The deadline for this todo. Don't miss it! Default to `now`",
            TuduArg::EstimatedMinutes => "Your best guess on how long this will take, in minutes.",
            TuduArg::Location => "Where does this todo need to happen? (e.g., 'Office', 'Home').",
            TuduArg::Url => "A link to a related resource, like a ticket or a document.",
            TuduArg::GreaterThan => "A greater than comparison",
            TuduArg::LessThan => "A less than comparison",
        }
    }

    /// The kind of value that the argument takes.
    pub fn value(&self) -> (kind: ArgValue)
        ensures
            kind == self.value_kind(),
    {
        match self {
            TuduArg::Prompt | TuduArg::Name | TuduArg::Description | TuduArg::Title
            | TuduArg::Location => ArgValue::Text,
            TuduArg::Color => ArgValue::Color,
            TuduArg::ProjectId | TuduArg::ParentId | TuduArg::TodoId => ArgValue::Integer,
            TuduArg::EstimatedMinutes => ArgValue::Minutes,
            TuduArg::Priority => ArgValue::Priority,
            TuduArg::Status => ArgValue::Status,
            TuduArg::DueDate => ArgValue::DateTime,
            TuduArg::Url => ArgValue::Url,
            TuduArg::GreaterThan | TuduArg::LessThan => ArgValue::Flag,
        }
    }

    /// The value that the argument has where the command line does not give
    /// it.
    pub fn default_value(&self) -> (text: Option<&'static str>)
        ensures
            match text {
                Some(value) => self.default_text() == Some(value@),
                None => self.default_text() is None,
            },
    {
        match self {
            TuduArg::Priority => Some("medium"),
            TuduArg::Status => Some("to-do"),
            _ => None,
        }
    }
}

/// The project of a command: the one given with it or, where none is given,
/// the one that the configuration names. Without either the required
/// argument is missing.
pub fn parse_required_project_id(given: Option<i32>, configured: Option<i32>) -> (result: TuduResult<
    i32,
>)
    ensures
        match result {
            Ok(id) => given == Some(id) || (given is None && configured == Some(id)),
            Err(error) => given is None && configured is None && error
                == TuduError::RequiredArgumentError,
        },
{
    match given {
        Some(id) => Ok(id),
        None => match configured {
            Some(id) => Ok(id),
            None => Err(TuduError::RequiredArgumentError),
        },
    }
}

} // verus!
