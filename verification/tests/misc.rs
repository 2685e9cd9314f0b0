use tudu::display::style::{
    heading_color, priority_color, priority_tag, status_color, status_tag,
};
use tudu::display::{HexColor, Prefix};
use tudu::todo::sql::{TodoPriority, TodoStatus};
use tudu::infrastructure::env::AIModelEnv;
use tudu::text::{chars_of, parse_integer, same_text};

#[test]
fn prefix_labels() {
    assert_eq!(Prefix::New.label(), "New");
    assert_eq!(Prefix::Update.label(), "Updated");
    assert_eq!(Prefix::Close.label(), "Closed");
}

#[test]
fn model_environment_holds_key_and_model() {
    let env = AIModelEnv::new("secret".to_string(), "small".to_string());
    assert_eq!(env.api_key(), "secret");
    assert_eq!(env.model(), "small");
}

#[test]
fn texts_compare_by_their_characters() {
    assert!(same_text("", ""));
    assert!(same_text("todo", "todo"));
    assert!(!same_text("todo", "todos"));
    assert!(!same_text("todo", "toda"));
    assert!(same_text("\u{e9}t\u{e9}", "\u{e9}t\u{e9}"));
    assert!(!same_text("e\u{301}", "\u{e9}"));
    assert_eq!(chars_of("a\u{1F680}b"), vec!['a', '\u{1F680}', 'b']);
    assert_eq!(chars_of(""), Vec::<char>::new());
}

#[test]
fn priorities_and_statuses_have_their_colors() {
    assert_eq!(Ok(priority_color(TodoPriority::Low)), HexColor::from_hex("#198754"));
    assert_eq!(Ok(priority_color(TodoPriority::Medium)), HexColor::from_hex("#0DCAF0"));
    assert_eq!(Ok(priority_color(TodoPriority::High)), HexColor::from_hex("#FFC107"));
    assert_eq!(Ok(priority_color(TodoPriority::Urgent)), HexColor::from_hex("#DC3545"));
    assert_eq!(Ok(status_color(TodoStatus::ToDo)), HexColor::from_hex("#CED4DA"));
    assert_eq!(Ok(status_color(TodoStatus::InProgress)), HexColor::from_hex("#0D6EFD"));
    assert_eq!(Ok(status_color(TodoStatus::Done)), HexColor::from_hex("#198754"));
    assert_eq!(Ok(status_color(TodoStatus::Blocked)), HexColor::from_hex("#DC3545"));
    assert_eq!(Ok(status_color(TodoStatus::OnHold)), HexColor::from_hex("#FFC107"));
    assert_eq!(Ok(status_color(TodoStatus::Cancelled)), HexColor::from_hex("#6C757D"));
    assert_eq!(Ok(heading_color()), HexColor::from_hex("#2596be"));
}

#[test]
fn priorities_and_statuses_have_their_tags() {
    assert_eq!(priority_tag(TodoPriority::Low), "[P0]");
    assert_eq!(priority_tag(TodoPriority::Medium), "[P1]");
    assert_eq!(priority_tag(TodoPriority::High), "[P2]");
    assert_eq!(priority_tag(TodoPriority::Urgent), "[P3]");
    assert_eq!(status_tag(TodoStatus::ToDo), "[ToDo] ");
    assert_eq!(status_tag(TodoStatus::InProgress), "[InProgress] ");
    assert_eq!(status_tag(TodoStatus::Cancelled), "[Cancelled] ");
}

#[test]
fn integers_are_read_as_the_standard_library_reads_them() {
    assert_eq!(parse_integer("42"), Some(42));
    assert_eq!(parse_integer("-42"), Some(-42));
    assert_eq!(parse_integer("+42"), Some(42));
    assert_eq!(parse_integer("2147483647"), Some(i32::MAX));
    assert_eq!(parse_integer("-2147483648"), Some(i32::MIN));
    assert_eq!(parse_integer("2147483648"), None);
    assert_eq!(parse_integer(""), None);
    for text in ["0", "-0", "+", "-", "1a", "a1", " 1", "1 ", "00000000000000000001", "--1"] {
        assert_eq!(parse_integer(text), text.parse::<i32>().ok(), "{:?}", text);
    }
}
