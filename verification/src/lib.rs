//! The input-cursor layer beneath a parsing-expression-grammar rule engine.
//!
//! A grammar engine drives a cursor over a fixed text through a small
//! capability set: query the text's length, query and set the read position,
//! and attempt to match a literal at the current position. Backtracking is
//! built entirely from saving a position before a tentative branch and
//! restoring it when the branch fails, so a failed match must never move the
//! position. The [`Input`] trait states these obligations; [`StringInput`]
//! is the in-memory implementation.
//!
//! Positions and lengths are measured in characters throughout.

pub mod input;
pub mod string_input;

pub use input::Input;
pub use input::match_at;
pub use string_input::StringInput;
