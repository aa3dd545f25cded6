//! The `completions` subcommands and their dispatch.

use vstd::prelude::*;

use crate::shell::Shell;

verus! {

/// The error that `std::io` operations report; the handlers may fail with it.
#[verifier::external_type_specification]
#[verifier::external_body]
pub struct ExIoError(std::io::Error);

/// A parsed `completions` subcommand.
#[derive(Debug, Clone, Copy, PartialEq, Eq, Structural)]
pub enum CompletionsCommand {
    /// `completions install --shell <shell>`
    Install { shell: Shell },
    /// `completions uninstall`
    Uninstall,
    /// `completions show`
    Show,
}

/// Whether the handler of `command` succeeds. No handler does fallible work,
/// so every command succeeds.
pub open spec fn command_succeeds(command: CompletionsCommand) -> bool {
    match command {
        CompletionsCommand::Install { .. } => true,
        CompletionsCommand::Uninstall => true,
        CompletionsCommand::Show => true,
    }
}

/// The process exit status after a handler succeeded or failed.
pub open spec fn exit_status(succeeded: bool) -> int {
    if succeeded {
        0
    } else {
        1
    }
}

/// Installs completion support for `shell`. Nothing needs to be done, so it
/// always succeeds.
pub fn install(shell: Shell) -> (r: std::io::Result<()>)
    ensures
        r is Ok,
{
    Ok(())
}

/// Removes installed completion support. Nothing needs to be done, so it
/// always succeeds.
pub fn uninstall() -> (r: std::io::Result<()>)
    ensures
        r is Ok,
{
    Ok(())
}

/// Shows completion information. There is nothing to show: it does nothing
/// and cannot fail.
pub fn show() {
}

/// Runs the handler of `command` and hands back what it reported. A caller
/// that gets an error reports it and exits with `exit_code` of the result.
pub fn handle_completions(command: CompletionsCommand) -> (r: std::io::Result<()>)
    ensures
        (r is Ok) == command_succeeds(command),
        r is Ok,
{
    match command {
        CompletionsCommand::Install { shell } => install(shell),
        CompletionsCommand::Uninstall => uninstall(),
        CompletionsCommand::Show => {
            show();
            Ok(())
        },
    }
}

/// The process exit status for what a handler reported: 0 on success, 1 on
/// failure.
pub fn exit_code(r: &std::io::Result<()>) -> (code: i32)
    ensures
        code == exit_status(r is Ok),
{
    match r {
        Ok(_) => 0,
        Err(_) => 1,
    }
}

/// Every `completions` command succeeds, and the process exits with status 0
/// after it.
pub proof fn lemma_command_exits_zero(command: CompletionsCommand)
    ensures
        command_succeeds(command),
        exit_status(command_succeeds(command)) == 0,
{
}

} // verus!
