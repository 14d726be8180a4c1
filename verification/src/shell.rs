use vstd::prelude::*;

use crate::error::{Error, ErrorKind};

verus! {

/// The shells through which a path can be opened.
#[derive(Debug, Clone, Copy)]
pub enum WindowsShell {
    /// PowerShell (`pwsh`).
    Powershell,
    /// Nushell (`nu`).
    Nushell,
    /// Command Prompt (`cmd`).
    Cmd,
}

/// The upper-case form of an ASCII letter; any other character is kept.
pub open spec fn ascii_upper(c: char) -> char {
    if 'a' <= c && c <= 'z' {
        ((c as int) - 32) as char
    } else {
        c
    }
}

/// A string with its ASCII letters turned to upper case.
pub open spec fn ascii_upper_seq(s: Seq<char>) -> Seq<char> {
    s.map_values(|c: char| ascii_upper(c))
}

/// The shell that a name stands for, compared without regard to the case
/// of ASCII letters: `PWSH` or `POWERSHELL`, `NU` or `NUSHELL`, `CMD` or
/// `COMMANDPROMPT`.
pub open spec fn shell_named(name: Seq<char>) -> Option<WindowsShell> {
    let u = ascii_upper_seq(name);
    if u == "PWSH"@ || u == "POWERSHELL"@ {
        Some(WindowsShell::Powershell)
    } else if u == "NU"@ || u == "NUSHELL"@ {
        Some(WindowsShell::Nushell)
    } else if u == "CMD"@ || u == "COMMANDPROMPT"@ {
        Some(WindowsShell::Cmd)
    } else {
        None
    }
}

/// Whether `name`, with its ASCII letters in upper case, is `target`.
fn upper_equals(name: &str, target: &str) -> (r: bool)
    ensures
        r == (ascii_upper_seq(name@) == target@),
{
    let n = name.unicode_len();
    let t = target.unicode_len();
    if n != t {
        return false;
    }
    let mut i: usize = 0;
    while i < n
        invariant
            n == name@.len(),
            t == target@.len(),
            n == t,
            i <= n,
            forall|j: int| 0 <= j < i ==> ascii_upper(#[trigger] name@[j]) == target@[j],
        decreases n - i,
    {
        let c = name.get_char(i);
        let d = target.get_char(i);
        let u = if 'a' <= c && c <= 'z' {
            ((c as u8) - 32) as char
        } else {
            c
        };
        if u != d {
            assert(ascii_upper_seq(name@)[i as int] != target@[i as int]);
            return false;
        }
        i = i + 1;
    }
    assert(ascii_upper_seq(name@) =~= target@);
    true
}

impl WindowsShell {
    /// The command that starts each shell.
    pub open spec fn command_name(self) -> Seq<char> {
        match self {
            WindowsShell::Powershell => "pwsh"@,
            WindowsShell::Nushell => "nu"@,
            WindowsShell::Cmd => "cmd"@,
        }
    }

    /// The command that starts this shell: `pwsh`, `nu` or `cmd`.
    pub fn as_str(self) -> (s: &'static str)
        ensures
            s@ == self.command_name(),
    {
        match self {
            WindowsShell::Powershell => "pwsh",
            WindowsShell::Nushell => "nu",
            WindowsShell::Cmd => "cmd",
        }
    }

    /// The shell that `name` stands for, without regard to the case of ASCII
    /// letters; an error of kind `SHELL_NOT_FOUND` whose message is `name`
    /// where it names none.
    pub fn try_from_name(name: &str) -> (r: Result<WindowsShell, Error>)
        ensures
            match r {
                Ok(shell) => shell_named(name@) == Some(shell),
                Err(e) => shell_named(name@) is None && e.spec_kind() == ErrorKind::SHELL_NOT_FOUND
                    && e.spec_message() == name@,
            },
    {
        if upper_equals(name, "PWSH") || upper_equals(name, "POWERSHELL") {
            Ok(WindowsShell::Powershell)
        } else if upper_equals(name, "NU") || upper_equals(name, "NUSHELL") {
            Ok(WindowsShell::Nushell)
        } else if upper_equals(name, "CMD") || upper_equals(name, "COMMANDPROMPT") {
            Ok(WindowsShell::Cmd)
        } else {
            Err(Error::new(ErrorKind::SHELL_NOT_FOUND, name))
        }
    }
}

impl std::str::FromStr for WindowsShell {
    type Err = Error;

    /// Parses a shell's name as `WindowsShell::try_from_name` does.
    fn from_str(shell: &str) -> (r: Result<Self, Error>)
        ensures
            match r {
                Ok(s) => shell_named(shell@) == Some(s),
                Err(e) => shell_named(shell@) is None && e.spec_kind() == ErrorKind::SHELL_NOT_FOUND
                    && e.spec_message() == shell@,
            },
    {
        WindowsShell::try_from_name(shell)
    }
}

impl TryFrom<&str> for WindowsShell {
    type Error = Error;

    /// Parses a shell's name as `WindowsShell::try_from_name` does.
    fn try_from(shell: &str) -> (r: Result<Self, Error>)
        ensures
            match r {
                Ok(s) => shell_named(shell@) == Some(s),
                Err(e) => shell_named(shell@) is None && e.spec_kind() == ErrorKind::SHELL_NOT_FOUND
                    && e.spec_message() == shell@,
            },
    {
        WindowsShell::try_from_name(shell)
    }
}

impl vstd::std_specs::convert::TryFromSpecImpl<&str> for WindowsShell {
    /// The error that a refused name gives carries a `String`, which no spec
    /// function can build, so `try_from` is described by its own `ensures`
    /// rather than by `try_from_spec`.
    open spec fn obeys_try_from_spec() -> bool {
        false
    }

    open spec fn try_from_spec(v: &str) -> Result<Self, Error> {
        match shell_named(v@) {
            Some(s) => Ok(s),
            None => Err(vstd::pervasive::arbitrary()),
        }
    }
}

/// The command name of every shell is a name of that shell.
pub proof fn lemma_command_name_names_shell(shell: WindowsShell)
    ensures
        shell_named(shell.command_name()) == Some(shell),
{
    reveal_strlit("pwsh");
    reveal_strlit("nu");
    reveal_strlit("cmd");
    reveal_strlit("PWSH");
    reveal_strlit("POWERSHELL");
    reveal_strlit("NU");
    reveal_strlit("NUSHELL");
    reveal_strlit("CMD");
    reveal_strlit("COMMANDPROMPT");
    match shell {
        WindowsShell::Powershell => {
            assert(ascii_upper_seq("pwsh"@) =~= "PWSH"@);
        },
        WindowsShell::Nushell => {
            assert(ascii_upper_seq("nu"@) =~= "NU"@);
            assert(ascii_upper_seq("nu"@) != "PWSH"@);
            assert(ascii_upper_seq("nu"@) != "POWERSHELL"@);
        },
        WindowsShell::Cmd => {
            assert(ascii_upper_seq("cmd"@) =~= "CMD"@);
            assert(ascii_upper_seq("cmd"@) != "PWSH"@);
            assert(ascii_upper_seq("cmd"@) != "POWERSHELL"@);
            assert(ascii_upper_seq("cmd"@) != "NU"@);
            assert(ascii_upper_seq("cmd"@) != "NUSHELL"@);
        },
    }
}

/// Names that agree once their ASCII letters are in upper case name the
/// same shell, or both name none.
pub proof fn lemma_shell_names_ignore_case(a: Seq<char>, b: Seq<char>)
    requires
        ascii_upper_seq(a) == ascii_upper_seq(b),
    ensures
        shell_named(a) == shell_named(b),
{
}

/// A name is taken for a shell only when, with its ASCII letters in upper
/// case, it is one of the six names `PWSH`, `POWERSHELL`, `NU`, `NUSHELL`,
/// `CMD`, `COMMANDPROMPT`, and it is then taken for the shell that this name
/// belongs to; every one of the six is taken.
pub proof fn lemma_recognized_names(name: Seq<char>)
    ensures
        ({
            let u = ascii_upper_seq(name);
            let pwsh = seq!['P', 'W', 'S', 'H'];
            let powershell = seq!['P', 'O', 'W', 'E', 'R', 'S', 'H', 'E', 'L', 'L'];
            let nu = seq!['N', 'U'];
            let nushell = seq!['N', 'U', 'S', 'H', 'E', 'L', 'L'];
            let cmd = seq!['C', 'M', 'D'];
            let prompt = seq!['C', 'O', 'M', 'M', 'A', 'N', 'D', 'P', 'R', 'O', 'M', 'P', 'T'];
            &&& (shell_named(name) == Some(WindowsShell::Powershell) <==> (u == pwsh || u == powershell))
            &&& (shell_named(name) == Some(WindowsShell::Nushell) <==> (u == nu || u == nushell))
            &&& (shell_named(name) == Some(WindowsShell::Cmd) <==> (u == cmd || u == prompt))
            &&& (shell_named(name) is None <==> !(u == pwsh || u == powershell || u == nu || u == nushell
                || u == cmd || u == prompt))
        }),
{
    reveal_strlit("PWSH");
    reveal_strlit("POWERSHELL");
    reveal_strlit("NU");
    reveal_strlit("NUSHELL");
    reveal_strlit("CMD");
    reveal_strlit("COMMANDPROMPT");
    assert("PWSH"@ =~= seq!['P', 'W', 'S', 'H']);
    assert("POWERSHELL"@ =~= seq!['P', 'O', 'W', 'E', 'R', 'S', 'H', 'E', 'L', 'L']);
    assert("NU"@ =~= seq!['N', 'U']);
    assert("NUSHELL"@ =~= seq!['N', 'U', 'S', 'H', 'E', 'L', 'L']);
    assert("CMD"@ =~= seq!['C', 'M', 'D']);
    assert("COMMANDPROMPT"@ =~= seq!['C', 'O', 'M', 'M', 'A', 'N', 'D', 'P', 'R', 'O', 'M', 'P', 'T']);
}

} // verus!
