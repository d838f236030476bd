//! Terminal-control layer for a line-oriented text editor: VT100 escape
//! sequence encoding, raw-mode line-discipline configuration, single-byte
//! key reading, and the cursor-position-report protocol used to discover
//! the terminal's size.

pub mod error;
pub mod esc;
pub mod key;
pub mod mode;
pub mod util;
