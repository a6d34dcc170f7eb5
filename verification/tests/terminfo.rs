use abbyterm::pty::terminfo::{
    any, candidate_paths, search_dirs, select_term, TERM_256COLOR, TERM_BASIC, TERM_MINIMAL,
};

fn v(items: &[&str]) -> Vec<String> {
    items.iter().map(|s| s.to_string()).collect()
}

#[test]
fn system_directories_are_always_searched() {
    assert_eq!(
        search_dirs(None, None),
        v(&["/etc/terminfo", "/lib/terminfo", "/usr/share/terminfo", "/usr/lib/terminfo"])
    );
}

#[test]
fn override_comes_first_then_the_listed_directories() {
    assert_eq!(
        search_dirs(Some("/home/u/.terminfo"), Some("/opt/ti:/usr/local/share/terminfo")),
        v(&[
            "/home/u/.terminfo",
            "/opt/ti",
            "/usr/local/share/terminfo",
            "/etc/terminfo",
            "/lib/terminfo",
            "/usr/share/terminfo",
            "/usr/lib/terminfo",
        ])
    );
}

#[test]
fn empty_entries_are_passed_over() {
    assert_eq!(
        search_dirs(Some(""), Some(":/a::/b:")),
        v(&["/a", "/b", "/etc/terminfo", "/lib/terminfo", "/usr/share/terminfo", "/usr/lib/terminfo"])
    );
    assert_eq!(search_dirs(None, Some("")).len(), 4);
}

#[test]
fn entry_lies_under_its_letter_or_the_letters_code() {
    assert_eq!(
        candidate_paths(&v(&["/usr/share/terminfo", "/etc/terminfo"]), "xterm-256color"),
        v(&[
            "/usr/share/terminfo/x/xterm-256color",
            "/usr/share/terminfo/78/xterm-256color",
            "/etc/terminfo/x/xterm-256color",
            "/etc/terminfo/78/xterm-256color",
        ])
    );
    assert_eq!(candidate_paths(&v(&[]), "xterm"), Vec::<String>::new());
    assert_eq!(format!("{:x}", 'x' as u32), "78");
}

#[test]
fn any_tells_whether_one_is_true() {
    assert!(!any(&vec![]));
    assert!(!any(&vec![false, false]));
    assert!(any(&vec![false, true]));
    assert!(any(&vec![true]));
}

#[test]
fn terminal_type_falls_back_step_by_step() {
    assert_eq!(select_term(&vec![false, true], &vec![false]), "xterm-256color");
    assert_eq!(select_term(&vec![true], &vec![true]), "xterm-256color");
    assert_eq!(select_term(&vec![false, false], &vec![false, true]), "xterm");
    assert_eq!(select_term(&vec![false], &vec![false]), "vt100");
    assert_eq!(select_term(&vec![], &vec![]), "vt100");
    assert_eq!(TERM_256COLOR, "xterm-256color");
    assert_eq!(TERM_BASIC, "xterm");
    assert_eq!(TERM_MINIMAL, "vt100");
}
