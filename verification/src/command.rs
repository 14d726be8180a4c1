use vstd::prelude::*;

use crate::shell::WindowsShell;

verus! {

/// The creation flag that keeps a console window from opening.
pub const CREATE_NO_WINDOW: u32 = 0x08000000;

/// The creation flag that starts a process in a group of its own.
pub const CREATE_NEW_PROCESS_GROUP: u32 = 0x00000200;

/// One argument of a command: a plain one, which is quoted as usual when the
/// command line is built, or a raw one, which is put there as it stands.
#[derive(Debug)]
pub enum CommandArg {
    Plain(String),
    Raw(String),
}

/// The abstract value of a [`CommandArg`].
pub enum ArgView {
    Plain(Seq<char>),
    Raw(Seq<char>),
}

impl View for CommandArg {
    type V = ArgView;

    open spec fn view(&self) -> ArgView {
        match self {
            CommandArg::Plain(s) => ArgView::Plain(s@),
            CommandArg::Raw(s) => ArgView::Raw(s@),
        }
    }
}

/// A command to run: the program, its arguments in order, and the creation
/// flags of its process.
#[derive(Debug)]
pub struct ShellCommand {
    pub program: String,
    pub args: Vec<CommandArg>,
    pub creation_flags: u32,
}

/// The abstract value of a [`ShellCommand`].
pub struct CommandView {
    pub program: Seq<char>,
    pub args: Seq<ArgView>,
    pub creation_flags: u32,
}

impl View for ShellCommand {
    type V = CommandView;

    open spec fn view(&self) -> CommandView {
        CommandView {
            program: self.program@,
            args: self.args@.map_values(|a: CommandArg| a@),
            creation_flags: self.creation_flags,
        }
    }
}

/// `s` between double quotes.
pub open spec fn quoted(s: Seq<char>) -> Seq<char> {
    "\""@ + s + "\""@
}

/// The command that opens `path` with its default application through
/// `shell`: `Start-Process "path"` in PowerShell, `start "path"` in Nushell,
/// `start "" "path"` in Command Prompt.
pub open spec fn open_command(shell: WindowsShell, path: Seq<char>) -> CommandView {
    match shell {
        WindowsShell::Powershell => CommandView {
            program: "pwsh"@,
            args: seq![
                ArgView::Plain("-NoProfile"@),
                ArgView::Plain("-Command"@),
                ArgView::Plain("Start-Process"@),
                ArgView::Plain(quoted(path)),
            ],
            creation_flags: CREATE_NO_WINDOW,
        },
        WindowsShell::Nushell => CommandView {
            program: "nu"@,
            args: seq![ArgView::Plain("-c"@), ArgView::Plain("start "@ + quoted(path))],
            creation_flags: CREATE_NO_WINDOW,
        },
        WindowsShell::Cmd => CommandView {
            program: "cmd"@,
            args: seq![
                ArgView::Plain("/c"@),
                ArgView::Plain("start"@),
                ArgView::Raw("\"\""@),
                ArgView::Raw(quoted(path)),
            ],
            creation_flags: CREATE_NO_WINDOW,
        },
    }
}

/// The command that opens `path` with the application `app` through
/// `shell`: each shell starts `app` and hands it `path` as its argument,
/// through `Start-Process "app" "path"` in PowerShell,
/// `run-external "app" "path"` in Nushell, and `start "" "app" "path"` in
/// Command Prompt.
pub open spec fn open_with_command(shell: WindowsShell, path: Seq<char>, app: Seq<char>) -> CommandView {
    match shell {
        WindowsShell::Powershell => CommandView {
            program: "pwsh"@,
            args: seq![
                ArgView::Plain("-NoProfile"@),
                ArgView::Plain("-Command"@),
                ArgView::Plain("Start-Process"@),
                ArgView::Plain(quoted(app)),
                ArgView::Plain(quoted(path)),
            ],
            creation_flags: CREATE_NO_WINDOW,
        },
        WindowsShell::Nushell => CommandView {
            program: "nu"@,
            args: seq![
                ArgView::Plain("-c"@),
                ArgView::Plain("run-external "@ + quoted(app) + " "@ + quoted(path)),
            ],
            creation_flags: CREATE_NO_WINDOW,
        },
        WindowsShell::Cmd => CommandView {
            program: "cmd"@,
            args: seq![
                ArgView::Plain("/c"@),
                ArgView::Plain("start"@),
                ArgView::Raw("\"\""@),
                ArgView::Raw(quoted(app)),
                ArgView::Raw(quoted(path)),
            ],
            creation_flags: CREATE_NO_WINDOW,
        },
    }
}

/// `path` between double quotes.
pub fn wrap_in_quotes(path: &str) -> (r: String)
    ensures
        r@ == quoted(path@),
{
    let mut r = String::from_str("\"");
    r.append(path);
    r.append("\"");
    r
}

/// `path` between double quotes, as text.
pub fn wrap_in_quotes_string(path: &str) -> (r: String)
    ensures
        r@ == quoted(path@),
{
    wrap_in_quotes(path)
}

fn plain(s: &str) -> (a: CommandArg)
    ensures
        a@ == ArgView::Plain(s@),
{
    CommandArg::Plain(String::from_str(s))
}

fn raw(s: &str) -> (a: CommandArg)
    ensures
        a@ == ArgView::Raw(s@),
{
    CommandArg::Raw(String::from_str(s))
}

/// The commands that open `path` with its default application through
/// `shell`, one for each launcher to try.
pub fn commands(shell: WindowsShell, path: &str) -> (cmds: Vec<ShellCommand>)
    ensures
        cmds@.len() == 1,
        cmds@[0]@ == open_command(shell, path@),
{
    let program = String::from_str(shell.as_str());
    let args: Vec<CommandArg> = match shell {
        WindowsShell::Powershell => {
            let q = wrap_in_quotes(path);
            vec![plain("-NoProfile"), plain("-Command"), plain("Start-Process"), CommandArg::Plain(q)]
        },
        WindowsShell::Nushell => {
            let mut script = String::from_str("start ");
            script.append(wrap_in_quotes_string(path).as_str());
            vec![plain("-c"), CommandArg::Plain(script)]
        },
        WindowsShell::Cmd => {
            let q = wrap_in_quotes(path);
            vec![plain("/c"), plain("start"), raw("\"\""), CommandArg::Raw(q)]
        },
    };
    let cmd = ShellCommand { program, args, creation_flags: CREATE_NO_WINDOW };
    assert(cmd@.args =~= open_command(shell, path@).args);
    vec![cmd]
}

/// The command that opens `path` with the application `app` through `shell`.
pub fn with_command(shell: WindowsShell, path: &str, app: &str) -> (cmd: ShellCommand)
    ensures
        cmd@ == open_with_command(shell, path@, app@),
{
    let program = String::from_str(shell.as_str());
    let args: Vec<CommandArg> = match shell {
        WindowsShell::Powershell => {
            let q = wrap_in_quotes(path);
            let qa = wrap_in_quotes(app);
            vec![
                plain("-NoProfile"),
                plain("-Command"),
                plain("Start-Process"),
                CommandArg::Plain(qa),
                CommandArg::Plain(q),
            ]
        },
        WindowsShell::Nushell => {
            let mut script = String::from_str("run-external ");
            script.append(wrap_in_quotes_string(app).as_str());
            script.append(" ");
            script.append(wrap_in_quotes_string(path).as_str());
            vec![plain("-c"), CommandArg::Plain(script)]
        },
        WindowsShell::Cmd => {
            let q = wrap_in_quotes(path);
            let qa = wrap_in_quotes(app);
            vec![plain("/c"), plain("start"), raw("\"\""), CommandArg::Raw(qa), CommandArg::Raw(q)]
        },
    };
    let cmd = ShellCommand { program, args, creation_flags: CREATE_NO_WINDOW };
    assert(cmd@.args =~= open_with_command(shell, path@, app@).args);
    cmd
}

impl ShellCommand {
    /// The same command, set to run detached: in a process group of its own
    /// and without a console window. The flags replace those it had.
    pub fn detached(self) -> (cmd: ShellCommand)
        ensures
            cmd@.program == self@.program,
            cmd@.args == self@.args,
            cmd@.creation_flags == CREATE_NEW_PROCESS_GROUP | CREATE_NO_WINDOW,
    {
        ShellCommand {
            program: self.program,
            args: self.args,
            creation_flags: CREATE_NEW_PROCESS_GROUP | CREATE_NO_WINDOW,
        }
    }
}

/// The text of an argument, whether plain or raw.
pub open spec fn arg_text(a: ArgView) -> Seq<char> {
    match a {
        ArgView::Plain(t) => t,
        ArgView::Raw(t) => t,
    }
}

/// Whether an argument is raw.
pub open spec fn arg_is_raw(a: ArgView) -> bool {
    a is Raw
}

/// Whether `arg` is exactly `text` with one double quote before it and one
/// after it.
pub open spec fn encloses_in_quotes(arg: Seq<char>, text: Seq<char>) -> bool {
    &&& arg.len() == text.len() + 2
    &&& arg[0] == '"'
    &&& arg[arg.len() - 1] == '"'
    &&& arg.subrange(1, arg.len() - 1) == text
}

/// Quoting puts one double quote before the text and one after it, whatever
/// characters the text holds.
pub proof fn lemma_quoted_encloses(text: Seq<char>)
    ensures
        encloses_in_quotes(quoted(text), text),
{
    reveal_strlit("\"");
    assert(quoted(text).subrange(1, quoted(text).len() - 1) =~= text);
}

/// Command Prompt opens every path the same way: `/c start`, then the raw
/// empty window title `""`, then the raw path in double quotes, and nothing
/// more; the title is there whatever characters the path holds, so `start`
/// never takes the path for a title.
pub proof fn lemma_cmd_opens_with_empty_title(path: Seq<char>)
    ensures
        ({
            let c = open_command(WindowsShell::Cmd, path);
            &&& c.program == seq!['c', 'm', 'd']
            &&& c.args.len() == 4
            &&& c.args[0] == ArgView::Plain(seq!['/', 'c'])
            &&& c.args[1] == ArgView::Plain(seq!['s', 't', 'a', 'r', 't'])
            &&& c.args[2] == ArgView::Raw(seq!['"', '"'])
            &&& arg_is_raw(c.args[3])
            &&& encloses_in_quotes(arg_text(c.args[3]), path)
            &&& c.creation_flags == CREATE_NO_WINDOW
        }),
{
    reveal_strlit("cmd");
    reveal_strlit("/c");
    reveal_strlit("start");
    reveal_strlit("\"\"");
    lemma_quoted_encloses(path);
    let c = open_command(WindowsShell::Cmd, path);
    assert(c.program =~= seq!['c', 'm', 'd']);
    assert(arg_text(c.args[0]) =~= seq!['/', 'c']);
    assert(arg_text(c.args[1]) =~= seq!['s', 't', 'a', 'r', 't']);
    assert(arg_text(c.args[2]) =~= seq!['"', '"']);
}

/// PowerShell and Command Prompt hand the path over as the last argument,
/// between double quotes, whatever characters it holds; Nushell's script
/// is `start ` followed by the path between double quotes.
pub proof fn lemma_open_command_quotes_path(shell: WindowsShell, path: Seq<char>)
    ensures
        ({
            let c = open_command(shell, path);
            &&& c.program == shell.command_name()
            &&& c.args.len() > 0
            &&& match shell {
                WindowsShell::Nushell => {
                    &&& c.args.len() == 2
                    &&& !arg_is_raw(c.args[1])
                    &&& arg_text(c.args[1]).subrange(0, 6) == seq!['s', 't', 'a', 'r', 't', ' ']
                    &&& encloses_in_quotes(arg_text(c.args[1]).subrange(6, arg_text(c.args[1]).len() as int), path)
                },
                _ => encloses_in_quotes(arg_text(c.args.last()), path),
            }
        }),
{
    reveal_strlit("start ");
    lemma_quoted_encloses(path);
    let c = open_command(shell, path);
    if shell is Nushell {
        let t = arg_text(c.args[1]);
        assert(t.subrange(0, 6) =~= seq!['s', 't', 'a', 'r', 't', ' ']);
        assert(t.subrange(6, t.len() as int) =~= quoted(path));
    }
}

/// Opening a path with an application starts the application and hands it
/// the path: in PowerShell and Command Prompt the command is the one that
/// opens the path with its default application, with the application,
/// between double quotes and in the same form, put just before the path;
/// in Nushell the script runs the quoted application with the quoted path.
pub proof fn lemma_with_command_starts_app_with_path(shell: WindowsShell, path: Seq<char>, app: Seq<char>)
    ensures
        ({
            let w = open_with_command(shell, path, app);
            let o = open_command(shell, path);
            &&& w.program == o.program
            &&& w.creation_flags == o.creation_flags
            &&& match shell {
                WindowsShell::Nushell => {
                    let t = arg_text(w.args[1]);
                    let n = t.len();
                    &&& w.args.len() == 2
                    &&& w.args[0] == o.args[0]
                    &&& !arg_is_raw(w.args[1])
                    &&& t.subrange(0, 13) == seq!['r', 'u', 'n', '-', 'e', 'x', 't', 'e', 'r', 'n', 'a', 'l', ' ']
                    &&& encloses_in_quotes(t.subrange(13, 15 + app.len() as int), app)
                    &&& t[15 + app.len() as int] == ' '
                    &&& encloses_in_quotes(t.subrange(16 + app.len() as int, n as int), path)
                    &&& n == 18 + app.len() + path.len()
                },
                _ => {
                    let k = o.args.len() - 1;
                    &&& w.args.len() == o.args.len() + 1
                    &&& w.args.subrange(0, k) == o.args.subrange(0, k)
                    &&& w.args.last() == o.args.last()
                    &&& arg_is_raw(w.args[k]) == arg_is_raw(o.args.last())
                    &&& encloses_in_quotes(arg_text(w.args[k]), app)
                },
            }
        }),
{
    reveal_strlit("run-external ");
    reveal_strlit(" ");
    lemma_quoted_encloses(path);
    lemma_quoted_encloses(app);
    let w = open_with_command(shell, path, app);
    let o = open_command(shell, path);
    if shell is Nushell {
        let t = arg_text(w.args[1]);
        assert(t =~= "run-external "@ + quoted(app) + " "@ + quoted(path));
        assert(t.subrange(0, 13) =~= seq!['r', 'u', 'n', '-', 'e', 'x', 't', 'e', 'r', 'n', 'a', 'l', ' ']);
        assert(t.subrange(13, 15 + app.len() as int) =~= quoted(app));
        assert(t.subrange(16 + app.len() as int, t.len() as int) =~= quoted(path));
    } else {
        let k = o.args.len() - 1;
        assert(w.args.subrange(0, k) =~= o.args.subrange(0, k));
    }
}

} // verus!
