use tudu::dispatch::{route, Action, Noun, Operation};
use tudu::error::TuduError;

#[test]
fn a_prompt_is_not_available_yet() {
    assert!(matches!(route(true, None, None), Err(TuduError::InProgressError)));
    assert!(matches!(route(true, Some("new"), Some("todo")), Err(TuduError::InProgressError)));
    assert!(matches!(route(true, Some("migrations"), None), Err(TuduError::InProgressError)));
}

#[test]
fn a_command_is_required() {
    assert!(matches!(route(false, None, None), Err(TuduError::CommandRequiredError)));
    assert!(matches!(route(false, None, Some("todo")), Err(TuduError::CommandRequiredError)));
    assert!(matches!(route(false, Some("new"), None), Err(TuduError::CommandRequiredError)));
    assert!(matches!(route(false, Some("list"), None), Err(TuduError::CommandRequiredError)));
}

#[test]
fn unknown_words_are_not_found() {
    assert!(matches!(route(false, Some("delete"), Some("todo")), Err(TuduError::CommandNotFoundError)));
    assert!(matches!(route(false, Some("delete"), None), Err(TuduError::CommandNotFoundError)));
    assert!(matches!(route(false, Some("New"), Some("todo")), Err(TuduError::CommandNotFoundError)));
    assert!(matches!(route(false, Some(""), Some("todo")), Err(TuduError::CommandNotFoundError)));
    assert!(matches!(route(false, Some("new"), Some("task")), Err(TuduError::CommandNotFoundError)));
    assert!(matches!(route(false, Some("new"), Some("todos")), Err(TuduError::CommandNotFoundError)));
}

#[test]
fn migrations_need_no_noun() {
    assert_eq!(route(false, Some("migrations"), None).unwrap(), Operation::Migrations);
    assert_eq!(route(false, Some("migrations"), Some("todo")).unwrap(), Operation::Migrations);
}

#[test]
fn every_action_runs_on_every_noun() {
    let actions = [
        ("new", Action::New),
        ("update", Action::Update),
        ("close", Action::Close),
        ("view", Action::View),
        ("list", Action::List),
    ];
    let nouns = [("todo", Noun::Todo), ("project", Noun::Project)];
    for (action_name, action) in actions {
        for (noun_name, noun) in nouns {
            assert_eq!(
                route(false, Some(action_name), Some(noun_name)).unwrap(),
                Operation::Run(action, noun)
            );
        }
    }
}

#[test]
fn words_name_actions_and_nouns() {
    assert_eq!(Action::from_name("view"), Some(Action::View));
    assert_eq!(Action::from_name("views"), None);
    assert_eq!(Action::from_name("migrations"), None);
    assert_eq!(Noun::from_name("project"), Some(Noun::Project));
    assert_eq!(Noun::from_name("todo"), Some(Noun::Todo));
    assert_eq!(Noun::from_name("tod"), None);
}
