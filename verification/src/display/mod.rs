//! What the display of records needs besides the records: colors and the
//! prefixes of messages.

pub mod detail;
pub mod hex;
pub mod message;
pub mod style;

pub use hex::{HexColor, HexColorError};
pub use message::Prefix;
