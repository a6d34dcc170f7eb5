use abbyterm::pty::platform::Platform;
use abbyterm::pty::spawn::{
    child_setup, expand_tilde, resolve_shell, shell_args, ChildStep, HostEnv, SpawnOptions,
    SpawnPlan, DEFAULT_SHELL, LOGIN_ARGUMENT, WINDOWS_ARGUMENT, WINDOWS_SHELL,
};
use abbyterm::pty::unix_pty::{UnixPty, WindowSize};

fn s(text: &str) -> String {
    text.to_string()
}

#[test]
fn shell_is_the_override_then_the_environment_then_the_default() {
    assert_eq!(resolve_shell(Some(s("/bin/fish")), Some(s("/bin/zsh")), Platform::Linux), "/bin/fish");
    assert_eq!(resolve_shell(None, Some(s("/bin/zsh")), Platform::MacOs), "/bin/zsh");
    assert_eq!(resolve_shell(None, None, Platform::Linux), "/bin/bash");
    assert_eq!(resolve_shell(None, None, Platform::MacOs), "/bin/bash");
    assert_eq!(resolve_shell(None, None, Platform::Other), "/bin/bash");
    assert_eq!(resolve_shell(Some(s("")), Some(s("/bin/zsh")), Platform::Linux), "");
    assert_eq!(DEFAULT_SHELL, "/bin/bash");
}

#[test]
fn windows_has_its_own_defaults() {
    assert_eq!(resolve_shell(None, None, Platform::Windows), "powershell.exe");
    assert_eq!(resolve_shell(None, Some(s("cmd.exe")), Platform::Windows), "cmd.exe");
    assert_eq!(shell_args(None, Platform::Windows), vec![s("-NoExit")]);
    assert_eq!(shell_args(Some(vec![s("/c")]), Platform::Windows), vec![s("/c")]);
    assert_eq!(WINDOWS_SHELL, "powershell.exe");
    assert_eq!(WINDOWS_ARGUMENT, "-NoExit");
}

#[test]
fn absent_arguments_ask_for_a_login_shell() {
    assert_eq!(shell_args(None, Platform::Linux), vec![s("-l")]);
    assert_eq!(shell_args(None, Platform::MacOs), vec![s("-l")]);
    assert_eq!(LOGIN_ARGUMENT, "-l");
}

#[test]
fn given_arguments_are_used_verbatim() {
    assert_eq!(
        shell_args(Some(vec![s("-c"), s("pwd")]), Platform::Linux),
        vec![s("-c"), s("pwd")]
    );
    assert_eq!(shell_args(Some(vec![]), Platform::Linux), Vec::<String>::new());
    assert_eq!(shell_args(Some(vec![s("~"), s("")]), Platform::Linux), vec![s("~"), s("")]);
}

#[test]
fn tilde_is_expanded_against_home() {
    assert_eq!(expand_tilde("~", Some("/home/u")), "/home/u");
    assert_eq!(expand_tilde("~/", Some("/home/u")), "/home/u/");
    assert_eq!(expand_tilde("~/src/app", Some("/home/u")), "/home/u/src/app");
}

#[test]
fn other_paths_are_left_alone() {
    assert_eq!(expand_tilde("/var", Some("/home/u")), "/var");
    assert_eq!(expand_tilde("~other/x", Some("/home/u")), "~other/x");
    assert_eq!(expand_tilde("a/~/b", Some("/home/u")), "a/~/b");
    assert_eq!(expand_tilde("", Some("/home/u")), "");
    assert_eq!(expand_tilde("~/x", None), "~/x");
    assert_eq!(expand_tilde("~", None), "~");
}

#[test]
fn plan_for_pwd_in_var() {
    let options = SpawnOptions {
        shell: Some(s("/bin/sh")),
        args: Some(vec![s("-c"), s("pwd")]),
        cwd: Some(s("/var")),
        cols: 80,
        rows: 24,
    };
    let env = HostEnv { platform: Platform::Linux, shell: Some(s("/bin/zsh")), home: Some(s("/home/u")) };
    let plan = SpawnPlan::new(options, env, s("xterm-256color"));
    assert_eq!(
        plan,
        SpawnPlan {
            program: s("/bin/sh"),
            args: vec![s("-c"), s("pwd")],
            cwd: Some(s("/var")),
            term: s("xterm-256color"),
            size: WindowSize { rows: 24, cols: 80, xpixel: 0, ypixel: 0 },
        }
    );
}

#[test]
fn plan_defaults_to_login_shell_in_inherited_directory() {
    let options = SpawnOptions { shell: None, args: None, cwd: None, cols: 132, rows: 43 };
    let env = HostEnv { platform: Platform::Linux, shell: None, home: None };
    let plan = SpawnPlan::new(options, env, s("vt100"));
    assert_eq!(plan.program, "/bin/bash");
    assert_eq!(plan.args, vec![s("-l")]);
    assert_eq!(plan.cwd, None);
    assert_eq!(plan.term, "vt100");
    assert_eq!(plan.size, WindowSize { rows: 43, cols: 132, xpixel: 0, ypixel: 0 });
}

#[test]
fn plan_expands_the_working_directory() {
    let options =
        SpawnOptions { shell: None, args: None, cwd: Some(s("~/work")), cols: 0, rows: 0 };
    let env = HostEnv { platform: Platform::Linux, shell: Some(s("/bin/zsh")), home: Some(s("/Users/me")) };
    let plan = SpawnPlan::new(options, env, s("xterm"));
    assert_eq!(plan.cwd, Some(s("/Users/me/work")));
    assert_eq!(plan.size, WindowSize { rows: 0, cols: 0, xpixel: 0, ypixel: 0 });
}

#[test]
fn transport_begins_with_plan_and_first_call() {
    let options = SpawnOptions { shell: None, args: None, cwd: None, cols: 80, rows: 24 };
    let env = HostEnv { platform: Platform::Linux, shell: Some(s("/bin/zsh")), home: None };
    let (construction, plan) = UnixPty::new(options, env, s("xterm"), 0o4000);
    assert_eq!(construction.request(), Some(abbyterm::pty::unix_pty::Request::OpenMaster));
    assert_eq!(construction.request_size(), WindowSize::new(80, 24));
    assert_eq!(plan.program, "/bin/zsh");
}

#[test]
fn child_makes_the_slave_its_terminal() {
    assert_eq!(
        child_setup(6),
        vec![
            ChildStep::NewSession,
            ChildStep::ControllingTerminal { fd: 6 },
            ChildStep::Redirect { from: 6, to: 0 },
            ChildStep::Redirect { from: 6, to: 1 },
            ChildStep::Redirect { from: 6, to: 2 },
            ChildStep::Close { fd: 6 },
        ]
    );
}

#[test]
fn child_keeps_a_slave_that_is_a_standard_descriptor() {
    for fd in [0, 1, 2] {
        let steps = child_setup(fd);
        assert_eq!(steps.len(), 5);
        assert!(!steps.contains(&ChildStep::Close { fd }));
    }
    assert_eq!(child_setup(3).len(), 6);
}
