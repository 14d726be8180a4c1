use win_open::command::CommandArg;
use win_open::detect::{first_detection_step, get_shell, probe_command, Detection};
use win_open::WindowsShell;

fn run(pwsh: bool, nu: bool) -> (WindowsShell, usize) {
    let mut step = first_detection_step();
    let mut probes = 0;
    loop {
        match step {
            Detection::Detected(shell) => return (shell, probes),
            Detection::Probe(shell) => {
                probes += 1;
                let answered = match shell {
                    WindowsShell::Powershell => pwsh,
                    WindowsShell::Nushell => nu,
                    WindowsShell::Cmd => false,
                };
                step = get_shell(shell, answered).unwrap();
            }
        }
    }
}

#[test]
fn powershell_is_preferred() {
    let (shell, probes) = run(true, true);
    assert!(matches!(shell, WindowsShell::Powershell));
    assert_eq!(probes, 1);
}

#[test]
fn nushell_comes_second() {
    let (shell, probes) = run(false, true);
    assert!(matches!(shell, WindowsShell::Nushell));
    assert_eq!(probes, 2);
}

#[test]
fn cmd_is_the_fallback() {
    let (shell, probes) = run(false, false);
    assert!(matches!(shell, WindowsShell::Cmd));
    assert_eq!(probes, 2);
}

#[test]
fn probe_commands() {
    let c = probe_command(WindowsShell::Powershell).unwrap();
    assert_eq!(c.program, "pwsh");
    assert!(matches!(&c.args[0], CommandArg::Plain(s) if s == "-Command"));
    assert!(matches!(&c.args[1], CommandArg::Plain(s) if s == "$PSVersionTable.PSVersion"));
    assert_eq!(c.creation_flags, 0);
    let c = probe_command(WindowsShell::Nushell).unwrap();
    assert_eq!(c.program, "nu");
    assert!(matches!(&c.args[0], CommandArg::Plain(s) if s == "-c"));
    assert!(matches!(&c.args[1], CommandArg::Plain(s) if s == "version"));
    assert!(probe_command(WindowsShell::Cmd).is_none());
}

#[test]
fn cmd_step_is_cmd() {
    assert!(matches!(get_shell(WindowsShell::Cmd, true), Ok(Detection::Detected(WindowsShell::Cmd))));
    assert!(matches!(get_shell(WindowsShell::Cmd, false), Ok(Detection::Detected(WindowsShell::Cmd))));
}
