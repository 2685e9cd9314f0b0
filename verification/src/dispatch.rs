//! Which operation a command line asks for.

use vstd::prelude::*;

use crate::error::{TuduError, TuduResult};
use crate::text::same_text;

verus! {

/// What a command acts on.
#[derive(Debug, Clone, Copy, PartialEq, Eq, Structural)]
pub enum Noun {
    Todo,
    Project,
}

/// What a command does.
#[derive(Debug, Clone, Copy, PartialEq, Eq, Structural)]
pub enum Action {
    New,
    Update,
    Close,
    View,
    List,
}

/// What the program is asked to do.
#[derive(Debug, Clone, Copy, PartialEq, Eq, Structural)]
pub enum Operation {
    /// Bring the store up to date.
    Migrations,
    /// Act on todos or on projects.
    Run(Action, Noun),
}

impl Noun {
    /// The noun that a word names.
    pub open spec fn named(word: Seq<char>) -> Option<Noun> {
        if word == "todo"@ {
            Some(Noun::Todo)
        } else if word == "project"@ {
            Some(Noun::Project)
        } else {
            None
        }
    }

    /// The noun that a word names.
    pub fn from_name(word: &str) -> (noun: Option<Noun>)
        ensures
            noun == Self::named(word@),
    {
        if same_text(word, "todo") {
            Some(Noun::Todo)
        } else if same_text(word, "project") {
            Some(Noun::Project)
        } else {
            None
        }
    }
}

impl Action {
    /// The action that a word names.
    pub open spec fn named(word: Seq<char>) -> Option<Action> {
        if word == "new"@ {
            Some(Action::New)
        } else if word == "update"@ {
            Some(Action::Update)
        } else if word == "close"@ {
            Some(Action::Close)
        } else if word == "view"@ {
            Some(Action::View)
        } else if word == "list"@ {
            Some(Action::List)
        } else {
            None
        }
    }

    /// The action that a word names.
    pub fn from_name(word: &str) -> (action: Option<Action>)
        ensures
            action == Self::named(word@),
    {
        if same_text(word, "new") {
            Some(Action::New)
        } else if same_text(word, "update") {
            Some(Action::Update)
        } else if same_text(word, "close") {
            Some(Action::Close)
        } else if same_text(word, "view") {
            Some(Action::View)
        } else if same_text(word, "list") {
            Some(Action::List)
        } else {
            None
        }
    }
}

/// What the words of a command line ask for: `command` is the first word
/// and `noun` the second, where they are given.
pub open spec fn routed(prompt_given: bool, command: Option<Seq<char>>, noun: Option<Seq<char>>) -> Result<
    Operation,
    TuduError,
> {
    if prompt_given {
        Err(TuduError::InProgressError)
    } else {
        match command {
            None => Err(TuduError::CommandRequiredError),
            Some(command) => if command == "migrations"@ {
                Ok(Operation::Migrations)
            } else {
                match Action::named(command) {
                    None => Err(TuduError::CommandNotFoundError),
                    Some(action) => match noun {
                        None => Err(TuduError::CommandRequiredError),
                        Some(noun) => match Noun::named(noun) {
                            None => Err(TuduError::CommandNotFoundError),
                            Some(noun) => Ok(Operation::Run(action, noun)),
                        },
                    },
                }
            },
        }
    }
}

/// The words of a command line, as views.
pub open spec fn word_of(word: Option<&str>) -> Option<Seq<char>> {
    match word {
        Some(word) => Some(word@),
        None => None,
    }
}

/// Decides what a command line asks for. A prompt is answered with
/// `InProgressError` whatever else is given. Without a prompt a command is
/// required, and so is a noun behind every command but `migrations`; a word
/// that names no command or no noun is answered with `CommandNotFoundError`.
pub fn route(prompt_given: bool, command: Option<&str>, noun: Option<&str>) -> (operation:
    TuduResult<Operation>)
    ensures
        operation == routed(prompt_given, word_of(command), word_of(noun)),
{
    if prompt_given {
        return Err(TuduError::InProgressError);
    }
    let command = match command {
        Some(command) => command,
        None => {
            return Err(TuduError::CommandRequiredError);
        },
    };
    if same_text(command, "migrations") {
        return Ok(Operation::Migrations);
    }
    let action = match Action::from_name(command) {
        Some(action) => action,
        None => {
            return Err(TuduError::CommandNotFoundError);
        },
    };
    let noun = match noun {
        Some(noun) => noun,
        None => {
            return Err(TuduError::CommandRequiredError);
        },
    };
    match Noun::from_name(noun) {
        Some(noun) => Ok(Operation::Run(action, noun)),
        None => Err(TuduError::CommandNotFoundError),
    }
}

} // verus!
