//! The tags and colors under which priorities and statuses are shown.

use vstd::prelude::*;
use vstd::string::StringExecFns;

use crate::display::detail::{decimal_text, i32_text};
use crate::display::hex::HexColor;
use crate::todo::sql::{TodoPriority, TodoStatus};

verus! {

/// The color of a priority: green, cyan, yellow and red, from the lowest to
/// the highest.
pub open spec fn priority_shade(priority: TodoPriority) -> HexColor {
    match priority {
        TodoPriority::Low => HexColor { r: 0x19, g: 0x87, b: 0x54 },
        TodoPriority::Medium => HexColor { r: 0x0d, g: 0xca, b: 0xf0 },
        TodoPriority::High => HexColor { r: 0xff, g: 0xc1, b: 0x07 },
        TodoPriority::Urgent => HexColor { r: 0xdc, g: 0x35, b: 0x45 },
    }
}

/// The color of a status.
pub open spec fn status_shade(status: TodoStatus) -> HexColor {
    match status {
        TodoStatus::ToDo => HexColor { r: 0xce, g: 0xd4, b: 0xda },
        TodoStatus::InProgress => HexColor { r: 0x0d, g: 0x6e, b: 0xfd },
        TodoStatus::Done => HexColor { r: 0x19, g: 0x87, b: 0x54 },
        TodoStatus::Blocked => HexColor { r: 0xdc, g: 0x35, b: 0x45 },
        TodoStatus::OnHold => HexColor { r: 0xff, g: 0xc1, b: 0x07 },
        TodoStatus::Cancelled => HexColor { r: 0x6c, g: 0x75, b: 0x7d },
    }
}

/// The tag of a priority: `[P0]` for the lowest, up to `[P3]`.
pub open spec fn priority_tag_text(priority: TodoPriority) -> Seq<char> {
    "[P"@ + decimal_text(priority.ordinal()) + "]"@
}

/// The tag of a status: its name in brackets, and a space.
pub open spec fn status_tag_text(status: TodoStatus) -> Seq<char> {
    "["@ + status.name_text() + "] "@
}

/// The color of a priority.
pub fn priority_color(priority: TodoPriority) -> (color: HexColor)
    ensures
        color == priority_shade(priority),
{
    match priority {
        TodoPriority::Low => HexColor::new(0x19, 0x87, 0x54),
        TodoPriority::Medium => HexColor::new(0x0d, 0xca, 0xf0),
        TodoPriority::High => HexColor::new(0xff, 0xc1, 0x07),
        TodoPriority::Urgent => HexColor::new(0xdc, 0x35, 0x45),
    }
}

/// The color of a status.
pub fn status_color(status: TodoStatus) -> (color: HexColor)
    ensures
        color == status_shade(status),
{
    match status {
        TodoStatus::ToDo => HexColor::new(0xce, 0xd4, 0xda),
        TodoStatus::InProgress => HexColor::new(0x0d, 0x6e, 0xfd),
        TodoStatus::Done => HexColor::new(0x19, 0x87, 0x54),
        TodoStatus::Blocked => HexColor::new(0xdc, 0x35, 0x45),
        TodoStatus::OnHold => HexColor::new(0xff, 0xc1, 0x07),
        TodoStatus::Cancelled => HexColor::new(0x6c, 0x75, 0x7d),
    }
}

/// The color of a heading that has none of its own.
pub fn heading_color() -> (color: HexColor)
    ensures
        color == (HexColor { r: 0x25, g: 0x96, b: 0xbe }),
{
    HexColor::new(0x25, 0x96, 0xbe)
}

/// The tag of a priority.
pub fn priority_tag(priority: TodoPriority) -> (tag: String)
    ensures
        tag@ == priority_tag_text(priority),
{
    let mut tag = "[P".to_string();
    tag.append(i32_text(priority.to_sql()).as_str());
    tag.append("]");
    tag
}

/// The tag of a status.
pub fn status_tag(status: TodoStatus) -> (tag: String)
    ensures
        tag@ == status_tag_text(status),
{
    let mut tag = "[".to_string();
    tag.append(status.name());
    tag.append("] ");
    tag
}

} // verus!
