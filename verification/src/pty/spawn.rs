//! What is started in a new session: the program, its arguments, its
//! working directory, and what the child does to make the slave device its
//! controlling terminal.

use vstd::prelude::*;
use vstd::string::StringExecFns;
use crate::pty::platform::Platform;
use crate::pty::unix_pty::WindowSize;
use crate::text::{chars_of, string_of, texts};

verus! {

/// The shell that is started where neither the caller nor the environment
/// names one.
pub const DEFAULT_SHELL: &'static str = "/bin/bash";

/// The shell that takes the default shell's place on Windows.
pub const WINDOWS_SHELL: &'static str = "powershell.exe";

/// The argument that makes a shell a login shell, so that it reads the
/// user's profile.
pub const LOGIN_ARGUMENT: &'static str = "-l";

/// The argument that takes the login argument's place on Windows.
pub const WINDOWS_ARGUMENT: &'static str = "-NoExit";

/// The platform's default shell.
pub open spec fn default_shell(platform: Platform) -> Seq<char> {
    if platform == Platform::Windows {
        WINDOWS_SHELL@
    } else {
        DEFAULT_SHELL@
    }
}

/// The argument with which the platform's shells are started where the
/// caller gives none.
pub open spec fn default_argument(platform: Platform) -> Seq<char> {
    if platform == Platform::Windows {
        WINDOWS_ARGUMENT@
    } else {
        LOGIN_ARGUMENT@
    }
}

/// The program of a session: the caller's choice, else the environment's
/// `SHELL`, else the platform's default shell.
pub open spec fn spec_resolve_shell(
    shell: Option<Seq<char>>,
    env_shell: Option<Seq<char>>,
    platform: Platform,
) -> Seq<char> {
    match shell {
        Some(s) => s,
        None => match env_shell {
            Some(e) => e,
            None => default_shell(platform),
        },
    }
}

/// Whether `path` is `~` or begins with `~/`.
pub open spec fn has_tilde_prefix(path: Seq<char>) -> bool {
    path.len() >= 1 && path[0] == '~' && (path.len() == 1 || path[1] == '/')
}

/// `path` with a leading `~` replaced by `home`, where `path` is `~` or
/// begins with `~/` and the home directory is known; `path` itself otherwise.
pub open spec fn spec_expand_tilde(path: Seq<char>, home: Option<Seq<char>>) -> Seq<char> {
    if home is Some && has_tilde_prefix(path) {
        home->0 + path.skip(1)
    } else {
        path
    }
}

/// The arguments of a session: the caller's, verbatim, else the one that
/// makes the shell a login shell.
pub open spec fn spec_shell_args(args: Option<Seq<Seq<char>>>, platform: Platform) -> Seq<
    Seq<char>,
> {
    match args {
        Some(a) => a,
        None => seq![default_argument(platform)],
    }
}

/// One thing the child does between its creation and the start of the
/// program.
#[derive(Clone, Copy, PartialEq, Eq, Structural, Debug)]
pub enum ChildStep {
    /// Start a new process session, detached from any inherited controlling
    /// terminal. A failure ends the child.
    NewSession,
    /// Make `fd` the controlling terminal. A failure ends the child.
    ControllingTerminal { fd: i32 },
    /// Duplicate `from` onto `to`.
    Redirect { from: i32, to: i32 },
    /// Close `fd`.
    Close { fd: i32 },
}

/// What the child does with the slave descriptor `slave`: a new session, the
/// slave as controlling terminal, the slave on standard input, output and
/// error, and the slave itself closed where it is none of those three.
pub open spec fn spec_child_setup(slave: i32) -> Seq<ChildStep> {
    let common = seq![
        ChildStep::NewSession,
        ChildStep::ControllingTerminal { fd: slave },
        ChildStep::Redirect { from: slave, to: 0 },
        ChildStep::Redirect { from: slave, to: 1 },
        ChildStep::Redirect { from: slave, to: 2 },
    ];
    if slave > 2 {
        common.push(ChildStep::Close { fd: slave })
    } else {
        common
    }
}

/// The steps of [`spec_child_setup`], for the host to carry out in the child.
pub fn child_setup(slave: i32) -> (out: Vec<ChildStep>)
    ensures
        out@ == spec_child_setup(slave),
{
    let mut out: Vec<ChildStep> = Vec::new();
    out.push(ChildStep::NewSession);
    out.push(ChildStep::ControllingTerminal { fd: slave });
    out.push(ChildStep::Redirect { from: slave, to: 0 });
    out.push(ChildStep::Redirect { from: slave, to: 1 });
    out.push(ChildStep::Redirect { from: slave, to: 2 });
    if slave > 2 {
        out.push(ChildStep::Close { fd: slave });
    }
    out
}

/// The program to start: `shell` where the caller gave one, else `env_shell`,
/// the value of `SHELL`, where it is set, else the platform's default shell.
pub fn resolve_shell(shell: Option<String>, env_shell: Option<String>, platform: Platform) -> (out:
    String)
    ensures
        out@ == spec_resolve_shell(
            match shell {
                Some(s) => Some(s@),
                None => None,
            },
            match env_shell {
                Some(s) => Some(s@),
                None => None,
            },
            platform,
        ),
{
    match shell {
        Some(s) => s,
        None => match env_shell {
            Some(e) => e,
            None => match platform {
                Platform::Windows => String::from_str(WINDOWS_SHELL),
                _ => String::from_str(DEFAULT_SHELL),
            },
        },
    }
}

/// The arguments to start the program with: `args` verbatim where the caller
/// gave any, else the single argument that asks for a login shell.
pub fn shell_args(args: Option<Vec<String>>, platform: Platform) -> (out: Vec<String>)
    ensures
        texts(out@) == spec_shell_args(
            match args {
                Some(a) => Some(texts(a@)),
                None => None,
            },
            platform,
        ),
{
    match args {
        Some(a) => a,
        None => {
            let mut out: Vec<String> = Vec::new();
            match platform {
                Platform::Windows => out.push(String::from_str(WINDOWS_ARGUMENT)),
                _ => out.push(String::from_str(LOGIN_ARGUMENT)),
            }
            assert(texts(out@) =~= seq![default_argument(platform)]);
            out
        },
    }
}

/// Expands a leading `~` in `path` against the home directory `home`.
pub fn expand_tilde(path: &str, home: Option<&str>) -> (out: String)
    ensures
        out@ == spec_expand_tilde(
            path@,
            match home {
                Some(h) => Some(h@),
                None => None,
            },
        ),
{
    let v = chars_of(path);
    let tilde = v.len() >= 1 && v[0] == '~' && (v.len() == 1 || v[1] == '/');
    match home {
        Some(h) if tilde => {
            let rest = string_of(&v, 1, v.len());
            let mut out = String::from_str(h);
            out.append(rest.as_str());
            assert(v@.subrange(1, v@.len() as int) == path@.skip(1));
            out
        },
        _ => String::from_str(path),
    }
}

/// What a new session starts.
#[derive(Debug, Clone, PartialEq, Eq)]
pub struct SpawnPlan {
    /// The program.
    pub program: String,
    /// Its arguments, without the program's name.
    pub args: Vec<String>,
    /// Its working directory; `None` to inherit the host's.
    pub cwd: Option<String>,
    /// The value of `TERM` in its environment.
    pub term: String,
    /// The geometry of its terminal.
    pub size: WindowSize,
}

/// A [`SpawnPlan`], as contracts see it.
pub struct SpawnPlanView {
    pub program: Seq<char>,
    pub args: Seq<Seq<char>>,
    pub cwd: Option<Seq<char>>,
    pub term: Seq<char>,
    pub size: WindowSize,
}

impl View for SpawnPlan {
    type V = SpawnPlanView;

    open spec fn view(&self) -> SpawnPlanView {
        SpawnPlanView {
            program: self.program@,
            args: texts(self.args@),
            cwd: match self.cwd {
                Some(c) => Some(c@),
                None => None,
            },
            term: self.term@,
            size: self.size,
        }
    }
}

/// What the caller of `create` asks for.
pub struct SpawnOptions {
    /// The shell to run; `None` for the environment's.
    pub shell: Option<String>,
    /// The arguments; `None` for a login shell.
    pub args: Option<Vec<String>>,
    /// The working directory; `None` to inherit.
    pub cwd: Option<String>,
    /// Columns of the terminal. Zero is passed on as it stands.
    pub cols: u16,
    /// Rows of the terminal. Zero is passed on as it stands.
    pub rows: u16,
}

/// What the host's environment says.
pub struct HostEnv {
    /// The kind of host.
    pub platform: Platform,
    /// The value of `SHELL`, where set.
    pub shell: Option<String>,
    /// The home directory, where known.
    pub home: Option<String>,
}

/// The plan that `options` and `env` give, with `term` as terminal type.
pub open spec fn spec_plan(options: SpawnOptions, env: HostEnv, term: Seq<char>) -> SpawnPlanView {
    SpawnPlanView {
        program: spec_resolve_shell(
            match options.shell {
                Some(s) => Some(s@),
                None => None,
            },
            match env.shell {
                Some(s) => Some(s@),
                None => None,
            },
            env.platform,
        ),
        args: spec_shell_args(
            match options.args {
                Some(a) => Some(texts(a@)),
                None => None,
            },
            env.platform,
        ),
        cwd: match options.cwd {
            Some(c) => Some(
                spec_expand_tilde(
                    c@,
                    match env.home {
                        Some(h) => Some(h@),
                        None => None,
                    },
                ),
            ),
            None => None,
        },
        term,
        size: WindowSize { rows: options.rows, cols: options.cols, xpixel: 0, ypixel: 0 },
    }
}

impl SpawnPlan {
    /// Decides what a new session starts: the program by [`resolve_shell`],
    /// the arguments by [`shell_args`], the working directory with a leading
    /// `~` expanded, `term` as the terminal type, and the geometry asked for.
    pub fn new(options: SpawnOptions, env: HostEnv, term: String) -> (out: SpawnPlan)
        ensures
            out@ == spec_plan(options, env, term@),
    {
        let SpawnOptions { shell, args, cwd, cols, rows } = options;
        let HostEnv { platform, shell: env_shell, home } = env;
        let cwd = match cwd {
            Some(c) => {
                let expanded = match &home {
                    Some(h) => expand_tilde(c.as_str(), Some(h.as_str())),
                    None => expand_tilde(c.as_str(), None),
                };
                Some(expanded)
            },
            None => None,
        };
        SpawnPlan {
            program: resolve_shell(shell, env_shell, platform),
            args: shell_args(args, platform),
            cwd,
            term,
            size: WindowSize::new(cols, rows),
        }
    }
}

} // verus!
