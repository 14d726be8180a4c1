use vstd::prelude::*;

use crate::command::{open_command, ArgView, CommandArg, CommandView, ShellCommand};
use crate::error::Error;
use crate::shell::{lemma_command_name_names_shell, WindowsShell};

verus! {

/// Where the detection of the shell stands: a shell still to be probed, or
/// the shell that was found.
#[derive(Debug, Clone, Copy)]
pub enum Detection {
    Probe(WindowsShell),
    Detected(WindowsShell),
}

/// The step that follows a probe of `probed`: PowerShell is taken when it
/// answers, else Nushell is probed; Nushell is taken when it answers, else
/// Command Prompt, which is never probed, is taken.
pub open spec fn next_detection(probed: WindowsShell, answered: bool) -> Detection {
    match probed {
        WindowsShell::Powershell => if answered {
            Detection::Detected(WindowsShell::Powershell)
        } else {
            Detection::Probe(WindowsShell::Nushell)
        },
        WindowsShell::Nushell => if answered {
            Detection::Detected(WindowsShell::Nushell)
        } else {
            Detection::Detected(WindowsShell::Cmd)
        },
        WindowsShell::Cmd => Detection::Detected(WindowsShell::Cmd),
    }
}

/// The shell detected when PowerShell answers its probe or not, and Nushell
/// answers its probe or not.
pub open spec fn detected_shell(pwsh_answers: bool, nu_answers: bool) -> WindowsShell {
    if pwsh_answers {
        WindowsShell::Powershell
    } else if nu_answers {
        WindowsShell::Nushell
    } else {
        WindowsShell::Cmd
    }
}

/// The command that asks a shell whether it is there.
pub open spec fn probe_command_view(shell: WindowsShell) -> Option<CommandView> {
    match shell {
        WindowsShell::Powershell => Some(
            CommandView {
                program: "pwsh"@,
                args: seq![ArgView::Plain("-Command"@), ArgView::Plain("$PSVersionTable.PSVersion"@)],
                creation_flags: 0,
            },
        ),
        WindowsShell::Nushell => Some(
            CommandView {
                program: "nu"@,
                args: seq![ArgView::Plain("-c"@), ArgView::Plain("version"@)],
                creation_flags: 0,
            },
        ),
        WindowsShell::Cmd => None,
    }
}

/// The first step of detection: PowerShell is probed first.
pub fn first_detection_step() -> (d: Detection)
    ensures
        d == Detection::Probe(WindowsShell::Powershell),
{
    Detection::Probe(WindowsShell::Powershell)
}

/// The command that probes `shell`; Command Prompt is never probed.
pub fn probe_command(shell: WindowsShell) -> (cmd: Option<ShellCommand>)
    ensures
        match cmd {
            Some(c) => probe_command_view(shell) == Some(c@),
            None => probe_command_view(shell) is None,
        },
{
    match shell {
        WindowsShell::Powershell => {
            let c = ShellCommand {
                program: String::from_str("pwsh"),
                args: vec![
                    CommandArg::Plain(String::from_str("-Command")),
                    CommandArg::Plain(String::from_str("$PSVersionTable.PSVersion")),
                ],
                creation_flags: 0,
            };
            assert(c@.args =~= probe_command_view(shell).unwrap().args);
            Some(c)
        },
        WindowsShell::Nushell => {
            let c = ShellCommand {
                program: String::from_str("nu"),
                args: vec![
                    CommandArg::Plain(String::from_str("-c")),
                    CommandArg::Plain(String::from_str("version")),
                ],
                creation_flags: 0,
            };
            assert(c@.args =~= probe_command_view(shell).unwrap().args);
            Some(c)
        },
        WindowsShell::Cmd => None,
    }
}

/// The step of detection that follows a probe of `probed`, given whether the
/// probe ran and reported success. A shell is taken by parsing its command
/// name, which never fails.
pub fn get_shell(probed: WindowsShell, answered: bool) -> (r: Result<Detection, Error>)
    ensures
        r == Ok::<Detection, Error>(next_detection(probed, answered)),
{
    match probed {
        WindowsShell::Powershell => {
            if answered {
                proof {
                    lemma_command_name_names_shell(WindowsShell::Powershell);
                }
                match WindowsShell::try_from_name("pwsh") {
                    Ok(shell) => Ok(Detection::Detected(shell)),
                    Err(e) => Err(e),
                }
            } else {
                Ok(Detection::Probe(WindowsShell::Nushell))
            }
        },
        WindowsShell::Nushell => {
            let name = if answered {
                "nu"
            } else {
                "cmd"
            };
            proof {
                lemma_command_name_names_shell(WindowsShell::Nushell);
                lemma_command_name_names_shell(WindowsShell::Cmd);
            }
            match WindowsShell::try_from_name(name) {
                Ok(shell) => Ok(Detection::Detected(shell)),
                Err(e) => Err(e),
            }
        },
        WindowsShell::Cmd => {
            proof {
                lemma_command_name_names_shell(WindowsShell::Cmd);
            }
            match WindowsShell::try_from_name("cmd") {
                Ok(shell) => Ok(Detection::Detected(shell)),
                Err(e) => Err(e),
            }
        },
    }
}

/// Detection that starts at its first step and is told how each probe went
/// ends, after at most two probes, with PowerShell where it answers, else
/// Nushell where it answers, else Command Prompt.
pub proof fn lemma_detection_order(pwsh_answers: bool, nu_answers: bool)
    ensures
        next_detection(WindowsShell::Powershell, pwsh_answers) == (if pwsh_answers {
            Detection::Detected(detected_shell(pwsh_answers, nu_answers))
        } else {
            Detection::Probe(WindowsShell::Nushell)
        }),
        !pwsh_answers ==> next_detection(WindowsShell::Nushell, nu_answers) == Detection::Detected(
            detected_shell(pwsh_answers, nu_answers),
        ),
{
}

/// Each probe starts the shell it probes, hands it a script behind the same
/// flag that the shell's open command uses for its script, and passes
/// nothing after that script: PowerShell is asked for
/// `$PSVersionTable.PSVersion`, Nushell for `version`. No creation flag is
/// set on a probe, and Command Prompt is never probed.
pub proof fn lemma_probe_commands(shell: WindowsShell, path: Seq<char>)
    ensures
        match probe_command_view(shell) {
            None => shell is Cmd,
            Some(p) => {
                let o = open_command(shell, path);
                &&& !(shell is Cmd)
                &&& p.program == shell.command_name()
                &&& p.creation_flags == 0
                &&& p.args.len() == 2
                &&& p.args[0] == (if shell is Powershell { o.args[1] } else { o.args[0] })
                &&& p.args[1] == ArgView::Plain(
                    if shell is Powershell {
                        seq!['$', 'P', 'S', 'V', 'e', 'r', 's', 'i', 'o', 'n', 'T', 'a', 'b', 'l', 'e', '.',
                            'P', 'S', 'V', 'e', 'r', 's', 'i', 'o', 'n']
                    } else {
                        seq!['v', 'e', 'r', 's', 'i', 'o', 'n']
                    },
                )
            },
        },
{
    reveal_strlit("$PSVersionTable.PSVersion");
    reveal_strlit("version");
    if shell is Powershell {
        assert("$PSVersionTable.PSVersion"@ =~= seq!['$', 'P', 'S', 'V', 'e', 'r', 's', 'i', 'o', 'n',
            'T', 'a', 'b', 'l', 'e', '.', 'P', 'S', 'V', 'e', 'r', 's', 'i', 'o', 'n']);
    } else if shell is Nushell {
        assert("version"@ =~= seq!['v', 'e', 'r', 's', 'i', 'o', 'n']);
    }
}

} // verus!
