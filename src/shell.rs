//! The shells for which completions are supported, and the parsing of the
//! value given to `--shell`.

use vstd::prelude::*;

verus! {

/// A shell family for which completion scripts can be generated.
#[derive(Debug, Clone, Copy, PartialEq, Eq, Structural)]
pub enum Shell {
    Bash,
    Zsh,
    Fish,
    Elvish,
    PowerShell,
}

/// Every shell, in the order in which a `--shell` value is tried against them.
pub open spec fn all_shells() -> Seq<Shell> {
    seq![Shell::Bash, Shell::Zsh, Shell::Fish, Shell::Elvish, Shell::PowerShell]
}

/// The `--shell` value that names `shell`.
pub open spec fn shell_name(shell: Shell) -> Seq<char> {
    match shell {
        Shell::Bash => "bash"@,
        Shell::Zsh => "zsh"@,
        Shell::Fish => "fish"@,
        Shell::Elvish => "elvish"@,
        Shell::PowerShell => "powershell"@,
    }
}

/// A character with ASCII upper case letters taken to lower case, as a code point.
pub open spec fn ascii_folded(c: char) -> u32 {
    if 65 <= (c as u32) && (c as u32) <= 90 {
        (c as u32 + 32) as u32
    } else {
        c as u32
    }
}

/// Two strings are equal up to the case of ASCII letters.
pub open spec fn eq_ignore_ascii_case(a: Seq<char>, b: Seq<char>) -> bool {
    &&& a.len() == b.len()
    &&& forall|i: int| 0 <= i < a.len() ==> #[trigger] ascii_folded(a[i]) == ascii_folded(b[i])
}

/// Whether `input` names the value `name`, exactly or, with `ignore_case`, up
/// to the case of ASCII letters.
pub open spec fn value_matches(name: Seq<char>, input: Seq<char>, ignore_case: bool) -> bool {
    if ignore_case {
        eq_ignore_ascii_case(name, input)
    } else {
        name == input
    }
}

/// The shell that a `--shell` value selects: the first in `all_shells()` whose
/// name it matches, if any.
pub open spec fn parsed_shell(input: Seq<char>, ignore_case: bool) -> Option<Shell> {
    if value_matches(shell_name(Shell::Bash), input, ignore_case) {
        Some(Shell::Bash)
    } else if value_matches(shell_name(Shell::Zsh), input, ignore_case) {
        Some(Shell::Zsh)
    } else if value_matches(shell_name(Shell::Fish), input, ignore_case) {
        Some(Shell::Fish)
    } else if value_matches(shell_name(Shell::Elvish), input, ignore_case) {
        Some(Shell::Elvish)
    } else if value_matches(shell_name(Shell::PowerShell), input, ignore_case) {
        Some(Shell::PowerShell)
    } else {
        None
    }
}

/// Relies on clap's `PossibleValue::matches`: a possible value built by
/// `PossibleValue::new`, with no aliases, matches `input` when the two are
/// equal, or, with `ignore_case`, when `str::eq_ignore_ascii_case` holds.
#[verifier::external_body]
fn possible_value_matches(name: &'static str, input: &str, ignore_case: bool) -> (r: bool)
    ensures
        r == value_matches(name@, input@, ignore_case),
{
    clap::builder::PossibleValue::new(name).matches(input, ignore_case)
}

impl Shell {
    /// Every shell, in the order in which a `--shell` value is tried against them.
    pub fn value_variants() -> (r: Vec<Shell>)
        ensures
            r@ == all_shells(),
    {
        let r = vec![Shell::Bash, Shell::Zsh, Shell::Fish, Shell::Elvish, Shell::PowerShell];
        assert(r@ =~= all_shells());
        r
    }

    /// The `--shell` value that names this shell.
    pub fn name(&self) -> (r: &'static str)
        ensures
            r@ == shell_name(*self),
    {
        match self {
            Shell::Bash => "bash",
            Shell::Zsh => "zsh",
            Shell::Fish => "fish",
            Shell::Elvish => "elvish",
            Shell::PowerShell => "powershell",
        }
    }

    /// The shell that a `--shell` value selects, or `None` where it names none.
    pub fn from_flag(input: &str, ignore_case: bool) -> (r: Option<Shell>)
        ensures
            r == parsed_shell(input@, ignore_case),
    {
        let variants = Shell::value_variants();
        let mut i: usize = 0;
        while i < variants.len()
            invariant
                variants@ == all_shells(),
                0 <= i <= variants.len(),
                forall|j: int|
                    0 <= j < i ==> !value_matches(shell_name(#[trigger] variants@[j]), input@, ignore_case),
            decreases variants.len() - i,
        {
            let shell = variants[i];
            if possible_value_matches(shell.name(), input, ignore_case) {
                return Some(shell);
            }
            i = i + 1;
        }
        None
    }
}

/// The name of every shell, given as the `--shell` value, selects that shell,
/// whether or not ASCII case is ignored.
pub proof fn lemma_name_selects_shell(shell: Shell, ignore_case: bool)
    ensures
        parsed_shell(shell_name(shell), ignore_case) == Some(shell),
{
    reveal_strlit("bash");
    reveal_strlit("zsh");
    reveal_strlit("fish");
    reveal_strlit("elvish");
    reveal_strlit("powershell");
    assert(value_matches(shell_name(shell), shell_name(shell), ignore_case));
    assert("zsh"@.len() == 3 && "elvish"@.len() == 6 && "powershell"@.len() == 10);
    assert(ascii_folded("bash"@[0]) != ascii_folded("fish"@[0]));
}

} // verus!
