use clap::builder::PossibleValuesParser;
use clap::{Arg, Command};
use completions::Shell;

fn install_command() -> Command {
    let names: Vec<&'static str> = Shell::value_variants().iter().map(|s| s.name()).collect();
    Command::new("completions").subcommand(
        Command::new("install").arg(
            Arg::new("shell")
                .long("shell")
                .required(true)
                .value_parser(PossibleValuesParser::new(names)),
        ),
    )
}

fn parse_install_shell(value: &str) -> Option<Shell> {
    let matches = install_command()
        .try_get_matches_from(["completions", "install", "--shell", value])
        .ok()?;
    let install = matches.subcommand_matches("install")?;
    let given = install.get_one::<String>("shell")?;
    Shell::from_flag(given, false)
}

#[test]
fn value_variants_lists_every_shell_in_order() {
    assert_eq!(
        Shell::value_variants(),
        vec![Shell::Bash, Shell::Zsh, Shell::Fish, Shell::Elvish, Shell::PowerShell]
    );
}

#[test]
fn names_of_shells() {
    assert_eq!(Shell::Bash.name(), "bash");
    assert_eq!(Shell::Zsh.name(), "zsh");
    assert_eq!(Shell::Fish.name(), "fish");
    assert_eq!(Shell::Elvish.name(), "elvish");
    assert_eq!(Shell::PowerShell.name(), "powershell");
}

#[test]
fn each_flag_value_selects_its_shell() {
    assert_eq!(Shell::from_flag("bash", false), Some(Shell::Bash));
    assert_eq!(Shell::from_flag("zsh", false), Some(Shell::Zsh));
    assert_eq!(Shell::from_flag("fish", false), Some(Shell::Fish));
    assert_eq!(Shell::from_flag("elvish", false), Some(Shell::Elvish));
    assert_eq!(Shell::from_flag("powershell", false), Some(Shell::PowerShell));
}

#[test]
fn every_name_selects_its_shell_with_or_without_case() {
    for shell in Shell::value_variants() {
        assert_eq!(Shell::from_flag(shell.name(), false), Some(shell));
        assert_eq!(Shell::from_flag(shell.name(), true), Some(shell));
    }
}

#[test]
fn upper_case_matches_only_when_case_is_ignored() {
    assert_eq!(Shell::from_flag("BASH", false), None);
    assert_eq!(Shell::from_flag("BASH", true), Some(Shell::Bash));
    assert_eq!(Shell::from_flag("PowerShell", true), Some(Shell::PowerShell));
    assert_eq!(Shell::from_flag("PowerShell", false), None);
}

#[test]
fn unknown_values_select_no_shell() {
    assert_eq!(Shell::from_flag("", false), None);
    assert_eq!(Shell::from_flag("", true), None);
    assert_eq!(Shell::from_flag("tcsh", false), None);
    assert_eq!(Shell::from_flag("power-shell", false), None);
    assert_eq!(Shell::from_flag("bash ", true), None);
    assert_eq!(Shell::from_flag("bas", false), None);
}

#[test]
fn shell_flag_parsed_through_clap() {
    assert_eq!(parse_install_shell("bash"), Some(Shell::Bash));
    assert_eq!(parse_install_shell("zsh"), Some(Shell::Zsh));
    assert_eq!(parse_install_shell("fish"), Some(Shell::Fish));
    assert_eq!(parse_install_shell("elvish"), Some(Shell::Elvish));
    assert_eq!(parse_install_shell("powershell"), Some(Shell::PowerShell));
    assert_eq!(parse_install_shell("ksh"), None);
}
