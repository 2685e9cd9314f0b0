//! The errors that a command can end in, with the texts shown for each.

use vstd::prelude::*;

verus! {

pub type TuduResult<T> = Result<T, TuduError>;

#[derive(Debug)]
pub enum TuduError {
    /// The prompt is not available yet.
    InProgressError,
    /// The command is not known.
    CommandNotFoundError,
    /// No command was given.
    CommandRequiredError,
    /// A required argument is missing.
    RequiredArgumentError,
    /// The store failed; the message is the store's.
    DatabaseError(String),
    /// The action is not supported; the message says which.
    UnSupportedError(String),
}

/// What the store reported, where a query or a change failed.
#[derive(Debug)]
pub enum StoreFailure {
    /// The database refused the statement; the message is the database's.
    Database(String),
    /// A query that expects a row found none.
    NotFound,
    /// A value read from the store could not be decoded.
    Deserialization(String),
    /// A value could not be encoded for the store.
    Serialization(String),
    /// Any other failure.
    Untracked,
}

impl TuduError {
    /// The name of the error.
    pub open spec fn name_text(self) -> Seq<char> {
        match self {
            TuduError::InProgressError => "InProgressError"@,
            TuduError::CommandNotFoundError => "CommandNotFoundError"@,
            TuduError::CommandRequiredError => "CommandRequiredError"@,
            TuduError::RequiredArgumentError => "RequiredArgumentError"@,
            TuduError::DatabaseError(_) => "DatabaseError"@,
            TuduError::UnSupportedError(_) => "UnSupportedError"@,
        }
    }

    /// The sentence that describes the error.
    pub open spec fn description_text(self) -> Seq<char> {
        match self {
            TuduError::InProgressError =>
                "Coming soon! \u{1F680} The 'prompt' feature is the first step towards an AI-powered future for `tudu` and is not yet available. Please use one of the existing commands for now."@,
            TuduError::CommandNotFoundError =>
                "The command you entered was not found. Please check your spelling and try again."@,
            TuduError::CommandRequiredError => "A command is required. Please enter a command."@,
            TuduError::RequiredArgumentError =>
                "A required argument is missing. Please provide the required argument."@,
            TuduError::DatabaseError(_) => "An error occurred in your database. {0}"@,
            TuduError::UnSupportedError(_) =>
                "Sorry! The action you tried is currently unsupported. {0}"@,
        }
    }

    /// What the user is asked to do next.
    pub open spec fn cta_text(self) -> Seq<char> {
        match self {
            TuduError::DatabaseError(_) =>
                "Please check your database configuration and try again."@,
            TuduError::UnSupportedError(_) => "Please try again!!"@,
            _ => "Try running `tudu --help` for a list of commands"@,
        }
    }

    /// The message that the error carries, if it carries one.
    pub open spec fn detail(self) -> Option<Seq<char>> {
        match self {
            TuduError::DatabaseError(message) => Some(message@),
            TuduError::UnSupportedError(message) => Some(message@),
            _ => None,
        }
    }

    /// The name of the error.
    pub fn name(&self) -> (text: &'static str)
        ensures
            text@ == self.name_text(),
    {
        match self {
            TuduError::InProgressError => "InProgressError",
            TuduError::CommandNotFoundError => "CommandNotFoundError",
            TuduError::CommandRequiredError => "CommandRequiredError",
            TuduError::RequiredArgumentError => "RequiredArgumentError",
            TuduError::DatabaseError(_) => "DatabaseError",
            TuduError::UnSupportedError(_) => "UnSupportedError",
        }
    }

    /// The sentence that describes the error.
    pub fn description(&self) -> (text: &'static str)
        ensures
            text@ == self.description_text(),
    {
        match self {
            TuduError::InProgressError =>
                "Coming soon! \u{1F680} The 'prompt' feature is the first step towards an AI-powered future for `tudu` and is not yet available. Please use one of the existing commands for now.",
            TuduError::CommandNotFoundError =>
                "The command you entered was not found. Please check your spelling and try again.",
            TuduError::CommandRequiredError => "A command is required. Please enter a command.",
            TuduError::RequiredArgumentError =>
                "A required argument is missing. Please provide the required argument.",
            TuduError::DatabaseError(_) => "An error occurred in your database. {0}",
            TuduError::UnSupportedError(_) =>
                "Sorry! The action you tried is currently unsupported. {0}",
        }
    }

    /// What the user is asked to do next.
    pub fn cta(&self) -> (text: &'static str)
        ensures
            text@ == self.cta_text(),
    {
        match self {
            TuduError::DatabaseError(_) => "Please check your database configuration and try again.",
            TuduError::UnSupportedError(_) => "Please try again!!",
            _ => "Try running `tudu --help` for a list of commands",
        }
    }

    /// The message of a store failure.
    pub open spec fn failure_message(failure: StoreFailure) -> Seq<char> {
        match failure {
            StoreFailure::Database(message) => message@,
            StoreFailure::NotFound =>
                "No rows were returned by a query expected to return at least one row."@,
            StoreFailure::Deserialization(message) => message@,
            StoreFailure::Serialization(message) => message@,
            StoreFailure::Untracked => "An untracked error occurred."@,
        }
    }

    /// Every store failure is a `DatabaseError`. It keeps the store's own
    /// message where the store gave one.
    pub fn from_store_failure(failure: StoreFailure) -> (error: TuduError)
        ensures
            error is DatabaseError,
            error.detail() == Some(Self::failure_message(failure)),
    {
        match failure {
            StoreFailure::Database(message) => TuduError::DatabaseError(message),
            StoreFailure::NotFound => TuduError::DatabaseError(
                "No rows were returned by a query expected to return at least one row.".to_string(),
            ),
            StoreFailure::Deserialization(message) => TuduError::DatabaseError(message),
            StoreFailure::Serialization(message) => TuduError::DatabaseError(message),
            StoreFailure::Untracked => TuduError::DatabaseError(
                "An untracked error occurred.".to_string(),
            ),
        }
    }
}

/// The error type of the `diesel` crate, `diesel::result::Error`. Nothing is
/// known of a value of it here.
#[verifier::external_type_specification]
#[verifier::external_body]
pub struct ExStoreError(diesel::result::Error);

/// What a `diesel::result::Error` reports: which of its variants it is, and
/// the message of a variant that carries one. A value of that type has no
/// view, so the name is over the value itself.
pub uninterp spec fn store_failure_of(error: diesel::result::Error) -> StoreFailure;

/// Tells the variants of `diesel::result::Error` apart and takes the message
/// out of those that carry one: what the database says of a statement it
/// refused, and what the cause says of a value that could not be decoded or
/// encoded. The contract gives the outcome its name: the same error reports
/// the same every time.
#[verifier::external_body]
fn store_failure(error: diesel::result::Error) -> (failure: StoreFailure)
    ensures
        failure == store_failure_of(error),
{
    match error {
        diesel::result::Error::DatabaseError(_, information) => StoreFailure::Database(
            information.message().to_string(),
        ),
        diesel::result::Error::NotFound => StoreFailure::NotFound,
        diesel::result::Error::DeserializationError(cause) => StoreFailure::Deserialization(
            cause.to_string(),
        ),
        diesel::result::Error::SerializationError(cause) => StoreFailure::Serialization(
            cause.to_string(),
        ),
        _ => StoreFailure::Untracked,
    }
}

impl From<diesel::result::Error> for TuduError {
    /// Whatever the store reported, the error is a `DatabaseError`, and its
    /// message is the message of what the store reported: the store's own
    /// where it gave one, the fixed sentence for a missing row or for a
    /// failure of another kind.
    fn from(value: diesel::result::Error) -> (error: Self)
        ensures
            error is DatabaseError,
            error.detail() == Some(Self::failure_message(store_failure_of(value))),
    {
        TuduError::from_store_failure(store_failure(value))
    }
}

/// `From` has no model over a value of `diesel`'s error type; what holds of
/// the conversion is stated with `from` itself.
impl vstd::std_specs::convert::FromSpecImpl<diesel::result::Error> for TuduError {
    open spec fn obeys_from_spec() -> bool {
        false
    }

    open spec fn from_spec(value: diesel::result::Error) -> Self {
        arbitrary()
    }
}

} // verus!
