//! Bloom's verified core: the command-line decision that lends the terminal
//! to the program, and the state machines behind two widgets, the numeric
//! entry field and the indeterminate loading spinner.
//!
//! Floating-point geometry, drawing and platform calls live outside this
//! crate; what stays here is every decision those parts take, over plain
//! values.

pub mod cli;
pub mod widgets;

pub use cli::{attach_console, console_requested, is_info_flag, Cli};
