//! Shell integration for PowerShell: the text that, once evaluated by the
//! shell, loads the base integration script and installs the search key
//! bindings that the caller asked for.
//!
//! Everything here is a pure function of its arguments. The caller supplies
//! the base script and says whether the global "no-bind" signal is present;
//! the library resolves the two key bindings and builds the text. Writing that
//! text to the terminal is left to the caller.

pub mod init;
pub mod script;
pub mod toggles;

pub use crate::init::{init, init_static, init_static_text};
pub use crate::script::{bool_literal, config_line, emit};
pub use crate::toggles::resolve;
