use tudu::error::{StoreFailure, TuduError};

fn detail(error: &TuduError) -> Option<&str> {
    match error {
        TuduError::DatabaseError(message) => Some(message),
        TuduError::UnSupportedError(message) => Some(message),
        _ => None,
    }
}

#[test]
fn error_names() {
    assert_eq!(TuduError::InProgressError.name(), "InProgressError");
    assert_eq!(TuduError::CommandNotFoundError.name(), "CommandNotFoundError");
    assert_eq!(TuduError::CommandRequiredError.name(), "CommandRequiredError");
    assert_eq!(TuduError::RequiredArgumentError.name(), "RequiredArgumentError");
    assert_eq!(TuduError::DatabaseError("x".to_string()).name(), "DatabaseError");
    assert_eq!(TuduError::UnSupportedError("x".to_string()).name(), "UnSupportedError");
}

#[test]
fn error_descriptions() {
    assert_eq!(
        TuduError::InProgressError.description(),
        "Coming soon! \u{1F680} The 'prompt' feature is the first step towards an AI-powered future for `tudu` and is not yet available. Please use one of the existing commands for now."
    );
    assert_eq!(
        TuduError::CommandNotFoundError.description(),
        "The command you entered was not found. Please check your spelling and try again."
    );
    assert_eq!(
        TuduError::CommandRequiredError.description(),
        "A command is required. Please enter a command."
    );
    assert_eq!(
        TuduError::RequiredArgumentError.description(),
        "A required argument is missing. Please provide the required argument."
    );
    assert_eq!(
        TuduError::DatabaseError("locked".to_string()).description(),
        "An error occurred in your database. {0}"
    );
    assert_eq!(
        TuduError::UnSupportedError("no".to_string()).description(),
        "Sorry! The action you tried is currently unsupported. {0}"
    );
}

#[test]
fn error_calls_to_action() {
    let help = "Try running `tudu --help` for a list of commands";
    assert_eq!(TuduError::InProgressError.cta(), help);
    assert_eq!(TuduError::CommandNotFoundError.cta(), help);
    assert_eq!(TuduError::CommandRequiredError.cta(), help);
    assert_eq!(TuduError::RequiredArgumentError.cta(), help);
    assert_eq!(
        TuduError::DatabaseError("x".to_string()).cta(),
        "Please check your database configuration and try again."
    );
    assert_eq!(TuduError::UnSupportedError("x".to_string()).cta(), "Please try again!!");
}

#[test]
fn store_failures_become_database_errors() {
    let cases = [
        (StoreFailure::Database("UNIQUE constraint failed".to_string()), "UNIQUE constraint failed"),
        (
            StoreFailure::NotFound,
            "No rows were returned by a query expected to return at least one row.",
        ),
        (StoreFailure::Deserialization("bad date".to_string()), "bad date"),
        (StoreFailure::Serialization("too early".to_string()), "too early"),
        (StoreFailure::Untracked, "An untracked error occurred."),
    ];
    for (failure, message) in cases {
        let error = TuduError::from_store_failure(failure);
        assert!(matches!(error, TuduError::DatabaseError(_)));
        assert_eq!(detail(&error), Some(message));
    }
}

#[test]
fn diesel_errors_become_database_errors() {
    let not_found = TuduError::from(diesel::result::Error::NotFound);
    assert!(matches!(not_found, TuduError::DatabaseError(_)));
    assert_eq!(
        detail(&not_found),
        Some("No rows were returned by a query expected to return at least one row.")
    );

    let refused = TuduError::from(diesel::result::Error::DatabaseError(
        diesel::result::DatabaseErrorKind::UniqueViolation,
        Box::new("UNIQUE constraint failed: projects.name".to_string()),
    ));
    assert_eq!(detail(&refused), Some("UNIQUE constraint failed: projects.name"));

    let unread = TuduError::from(diesel::result::Error::DeserializationError(
        "Unrecognized variant".into(),
    ));
    assert_eq!(detail(&unread), Some("Unrecognized variant"));

    let unwritten =
        TuduError::from(diesel::result::Error::SerializationError("date out of range".into()));
    assert_eq!(detail(&unwritten), Some("date out of range"));

    for other in [
        diesel::result::Error::RollbackTransaction,
        diesel::result::Error::AlreadyInTransaction,
        diesel::result::Error::NotInTransaction,
        diesel::result::Error::BrokenTransactionManager,
        diesel::result::Error::QueryBuilderError("no changes".into()),
    ] {
        let error: TuduError = other.into();
        assert!(matches!(error, TuduError::DatabaseError(_)));
        assert_eq!(detail(&error), Some("An untracked error occurred."));
    }
}
