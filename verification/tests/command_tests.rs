use win_open::command::{
    commands, with_command, wrap_in_quotes, wrap_in_quotes_string, CommandArg, ShellCommand,
    CREATE_NEW_PROCESS_GROUP, CREATE_NO_WINDOW,
};
use win_open::WindowsShell;

fn args(cmd: &ShellCommand) -> Vec<(bool, String)> {
    cmd.args
        .iter()
        .map(|a| match a {
            CommandArg::Plain(s) => (false, s.clone()),
            CommandArg::Raw(s) => (true, s.clone()),
        })
        .collect()
}

fn p(s: &str) -> (bool, String) {
    (false, s.to_string())
}

fn r(s: &str) -> (bool, String) {
    (true, s.to_string())
}

#[test]
fn quotes_wrap_the_path() {
    assert_eq!(wrap_in_quotes("C:\\a b.txt"), "\"C:\\a b.txt\"");
    assert_eq!(wrap_in_quotes(""), "\"\"");
    assert_eq!(wrap_in_quotes_string("http://rust-lang.org"), "\"http://rust-lang.org\"");
}

#[test]
fn powershell_command() {
    let cmds = commands(WindowsShell::Powershell, "http://rust-lang.org");
    assert_eq!(cmds.len(), 1);
    let c = &cmds[0];
    assert_eq!(c.program, "pwsh");
    assert_eq!(
        args(c),
        vec![p("-NoProfile"), p("-Command"), p("Start-Process"), p("\"http://rust-lang.org\"")]
    );
    assert_eq!(c.creation_flags, CREATE_NO_WINDOW);
}

#[test]
fn nushell_command() {
    let cmds = commands(WindowsShell::Nushell, "a.txt");
    assert_eq!(cmds.len(), 1);
    assert_eq!(cmds[0].program, "nu");
    assert_eq!(args(&cmds[0]), vec![p("-c"), p("start \"a.txt\"")]);
    assert_eq!(cmds[0].creation_flags, 0x08000000);
}

#[test]
fn cmd_command() {
    let cmds = commands(WindowsShell::Cmd, "a b.txt");
    assert_eq!(cmds.len(), 1);
    assert_eq!(cmds[0].program, "cmd");
    assert_eq!(args(&cmds[0]), vec![p("/c"), p("start"), r("\"\""), r("\"a b.txt\"")]);
}

#[test]
fn with_command_per_shell() {
    let c = with_command(WindowsShell::Powershell, "x", "firefox");
    assert_eq!(c.program, "pwsh");
    assert_eq!(
        args(&c),
        vec![p("-NoProfile"), p("-Command"), p("Start-Process"), p("\"firefox\""), p("\"x\"")]
    );
    let c = with_command(WindowsShell::Nushell, "x", "firefox");
    assert_eq!(c.program, "nu");
    assert_eq!(args(&c), vec![p("-c"), p("run-external \"firefox\" \"x\"")]);
    let c = with_command(WindowsShell::Cmd, "x", "firefox");
    assert_eq!(c.program, "cmd");
    assert_eq!(args(&c), vec![p("/c"), p("start"), r("\"\""), r("\"firefox\""), r("\"x\"")]);
    assert_eq!(c.creation_flags, CREATE_NO_WINDOW);
}

#[test]
fn detached_sets_group_and_no_window_flags() {
    let c = with_command(WindowsShell::Cmd, "x", "y").detached();
    assert_eq!(c.creation_flags, CREATE_NEW_PROCESS_GROUP | CREATE_NO_WINDOW);
    assert_eq!(c.creation_flags, 0x08000200);
    assert_eq!(c.program, "cmd");
    assert_eq!(args(&c).len(), 5);
}

#[test]
fn with_command_starts_the_app_with_the_path() {
    let c = with_command(WindowsShell::Cmd, "a b.txt", "notepad");
    assert_eq!(args(&c), vec![p("/c"), p("start"), r("\"\""), r("\"notepad\""), r("\"a b.txt\"")]);
    let c = with_command(WindowsShell::Powershell, "a.txt", "notepad");
    assert_eq!(
        args(&c),
        vec![p("-NoProfile"), p("-Command"), p("Start-Process"), p("\"notepad\""), p("\"a.txt\"")]
    );
}
