//! Shell completion commands: the supported shells, how a `--shell` value
//! names one of them, and the dispatch of the `completions` subcommands.

pub mod completions;
pub mod shell;

pub use completions::{exit_code, handle_completions, install, show, uninstall, CompletionsCommand};
pub use shell::Shell;
