use win_open::{ErrorKind, WindowsShell};

#[test]
fn command_names() {
    assert_eq!(WindowsShell::Powershell.as_str(), "pwsh");
    assert_eq!(WindowsShell::Nushell.as_str(), "nu");
    assert_eq!(WindowsShell::Cmd.as_str(), "cmd");
}

#[test]
fn names_parse_without_regard_to_case() {
    assert!(matches!(WindowsShell::try_from_name("pwsh"), Ok(WindowsShell::Powershell)));
    assert!(matches!(WindowsShell::try_from_name("PowerShell"), Ok(WindowsShell::Powershell)));
    assert!(matches!(WindowsShell::try_from_name("NU"), Ok(WindowsShell::Nushell)));
    assert!(matches!(WindowsShell::try_from_name("nushell"), Ok(WindowsShell::Nushell)));
    assert!(matches!(WindowsShell::try_from_name("Cmd"), Ok(WindowsShell::Cmd)));
    assert!(matches!(WindowsShell::try_from_name("commandprompt"), Ok(WindowsShell::Cmd)));
}

#[test]
fn command_name_parses_back() {
    for shell in [WindowsShell::Powershell, WindowsShell::Nushell, WindowsShell::Cmd] {
        let parsed = WindowsShell::try_from_name(shell.as_str()).unwrap();
        assert_eq!(parsed.as_str(), shell.as_str());
    }
}

#[test]
fn unknown_name_is_shell_not_found_with_the_name() {
    let err = WindowsShell::try_from_name("Bash").unwrap_err();
    assert_eq!(*err.kind(), ErrorKind::SHELL_NOT_FOUND);
    assert_eq!(err.message(), "Bash");
}

#[test]
fn near_names_are_refused() {
    assert!(WindowsShell::try_from_name("pwsh ").is_err());
    assert!(WindowsShell::try_from_name("").is_err());
    assert!(WindowsShell::try_from_name("nü").is_err());
}

#[test]
fn from_str_parses() {
    let shell: WindowsShell = "NUSHELL".parse().unwrap();
    assert!(matches!(shell, WindowsShell::Nushell));
    let err = "zsh".parse::<WindowsShell>().unwrap_err();
    assert_eq!(*err.kind(), ErrorKind::SHELL_NOT_FOUND);
}

#[test]
fn try_into_parses() {
    let shell: Result<WindowsShell, win_open::Error> = "PWSH".try_into();
    assert!(matches!(shell, Ok(WindowsShell::Powershell)));
    let err = WindowsShell::try_from("fish").unwrap_err();
    assert_eq!(*err.kind(), ErrorKind::SHELL_NOT_FOUND);
    assert_eq!(err.message(), "fish");
}
