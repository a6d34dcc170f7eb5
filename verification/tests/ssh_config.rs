use abbyterm::ssh_config::read_entry;
use abbyterm::ssh_config::{
    home_or_default, identity_path, parse_ssh_config, set_property, SshHost, DEFAULT_HOME,
};

fn s(text: &str) -> String {
    text.to_string()
}

fn chars(text: &str) -> Vec<char> {
    text.chars().collect()
}

fn bare(name: &str) -> SshHost {
    SshHost { name: s(name), hostname: None, user: None, port: None, identity_file: None }
}

#[test]
fn hosts_are_read_with_their_properties() {
    let content = "\
# work machines
Host web
  HostName web.example.com
  User deploy
  Port 2222
  IdentityFile ~/.ssh/id_web

Host db
\thostname 10.0.0.5
";
    assert_eq!(
        parse_ssh_config(content, "/home/u"),
        vec![
            SshHost {
                name: s("web"),
                hostname: Some(s("web.example.com")),
                user: Some(s("deploy")),
                port: Some(2222),
                identity_file: Some(s("/home/u/.ssh/id_web")),
            },
            SshHost {
                name: s("db"),
                hostname: Some(s("10.0.0.5")),
                user: None,
                port: None,
                identity_file: None,
            },
        ]
    );
}

#[test]
fn pattern_hosts_are_passed_over_with_their_properties() {
    let content = "Host *\n  User root\nHost web-?\n  Port 22\nHost real\n  User me\nHost *.internal\n  User x\n";
    assert_eq!(
        parse_ssh_config(content, "/home/u"),
        vec![SshHost {
            name: s("real"),
            hostname: None,
            user: Some(s("me")),
            port: None,
            identity_file: None,
        }]
    );
}

#[test]
fn properties_before_the_first_host_are_ignored() {
    let content = "User nobody\nPort 1\nHost a\n";
    assert_eq!(parse_ssh_config(content, "/home/u"), vec![bare("a")]);
}

#[test]
fn keys_are_read_without_regard_to_case() {
    let content = "HOST a\nHOSTNAME h\nuSeR u\nPORT 22\nIDENTITYFILE /k\n";
    assert_eq!(
        parse_ssh_config(content, "/home/u"),
        vec![SshHost {
            name: s("a"),
            hostname: Some(s("h")),
            user: Some(s("u")),
            port: Some(22),
            identity_file: Some(s("/k")),
        }]
    );
}

#[test]
fn value_is_the_words_after_the_key_with_one_space_between() {
    let content = "Host   db   backup  \n  User   a    b\n";
    assert_eq!(
        parse_ssh_config(content, "/home/u"),
        vec![SshHost {
            name: s("db backup"),
            hostname: None,
            user: Some(s("a b")),
            port: None,
            identity_file: None,
        }]
    );
}

#[test]
fn port_that_is_no_number_is_no_port() {
    let content = "Host a\n  Port 22\n  Port many\nHost b\n  Port 70000\nHost c\n  Port 65535\n";
    let hosts = parse_ssh_config(content, "/home/u");
    assert_eq!(hosts[0].port, None);
    assert_eq!(hosts[1].port, None);
    assert_eq!(hosts[2].port, Some(65535));
}

#[test]
fn later_property_replaces_earlier() {
    let content = "Host a\n  User one\n  User two\n  ProxyJump bastion\n";
    assert_eq!(parse_ssh_config(content, "/home/u")[0].user, Some(s("two")));
    assert_eq!(parse_ssh_config(content, "/home/u").len(), 1);
}

#[test]
fn empty_and_comment_only_configurations_have_no_host() {
    assert_eq!(parse_ssh_config("", "/home/u"), Vec::<SshHost>::new());
    assert_eq!(parse_ssh_config("# nothing\n\n   \n", "/home/u"), Vec::<SshHost>::new());
    assert_eq!(parse_ssh_config("  # Host hidden\n", "/home/u"), Vec::<SshHost>::new());
}

#[test]
fn host_without_a_name_is_a_host_called_nothing() {
    assert_eq!(parse_ssh_config("Host\n", "/home/u"), vec![bare("")]);
}

#[test]
fn identity_file_is_expanded_only_below_home() {
    assert_eq!(identity_path(&chars("~/.ssh/id"), "/home/u"), "/home/u/.ssh/id");
    assert_eq!(identity_path(&chars("~/"), "/home/u"), "/home/u/");
    assert_eq!(identity_path(&chars("~"), "/home/u"), "~");
    assert_eq!(identity_path(&chars("~other/.ssh/id"), "/home/u"), "~other/.ssh/id");
    assert_eq!(identity_path(&chars("/abs/~/id"), "/home/u"), "/abs/~/id");
    assert_eq!(identity_path(&chars(""), "/home/u"), "");
}

#[test]
fn home_defaults_to_root() {
    assert_eq!(home_or_default(Some(s("/home/u"))), "/home/u");
    assert_eq!(home_or_default(None), "/root");
    assert_eq!(DEFAULT_HOME, "/root");
    assert_eq!(
        parse_ssh_config("Host a\nIdentityFile ~/k\n", &home_or_default(None))[0].identity_file,
        Some(s("/root/k"))
    );
}

#[test]
fn property_is_set_by_its_key() {
    let host = set_property(bare("a"), &s("hostname"), s("h.example"), "/home/u");
    assert_eq!(host.hostname, Some(s("h.example")));
    let host = set_property(host, &s("port"), s("+8022"), "/home/u");
    assert_eq!(host.port, Some(8022));
    let host = set_property(host, &s("port"), s("x"), "/home/u");
    assert_eq!(host.port, None);
    let same = set_property(host.clone(), &s("compression"), s("yes"), "/home/u");
    assert_eq!(same, host);
    let host = set_property(host, &s("Hostname"), s("ignored"), "/home/u");
    assert_eq!(host.hostname, Some(s("h.example")));
}

#[test]
fn windows_line_endings_are_read() {
    let content = "Host a\r\n  User u\r\n";
    assert_eq!(
        parse_ssh_config(content, "/home/u"),
        vec![SshHost {
            name: s("a"),
            hostname: None,
            user: Some(s("u")),
            port: None,
            identity_file: None,
        }]
    );
}

#[test]
fn host_entry_closes_the_host_being_read() {
    let mut hosts: Vec<SshHost> = Vec::new();
    let current = read_entry(&mut hosts, None, &s("host"), s("a"), "/home/u");
    assert_eq!(current, Some(bare("a")));
    assert_eq!(hosts, Vec::<SshHost>::new());
    let current = read_entry(&mut hosts, current, &s("user"), s("me"), "/home/u");
    assert_eq!(current.as_ref().unwrap().user, Some(s("me")));
    let current = read_entry(&mut hosts, current, &s("host"), s("*.lan"), "/home/u");
    assert_eq!(current, None);
    assert_eq!(hosts.len(), 1);
    assert_eq!(hosts[0].name, "a");
    let current = read_entry(&mut hosts, current, &s("user"), s("lost"), "/home/u");
    assert_eq!(current, None);
    let current = read_entry(&mut hosts, current, &s("Host"), s("b"), "/home/u");
    assert_eq!(current, None);
    assert_eq!(hosts.len(), 1);
}
