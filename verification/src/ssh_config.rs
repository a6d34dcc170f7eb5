//! The hosts of an SSH client configuration.
//!
//! The configuration is a list of lines: a `Host` line begins the
//! description of a host, and the lines below it give the host's properties.
//! Hosts whose name is a pattern are passed over, with their properties.

use vstd::prelude::*;
use vstd::string::StringExecFns;
use crate::text::{
    chars_of,
    contains_char,
    join,
    join_from,
    lines,
    lines_of,
    lowercase,
    parse_u16,
    parse_u16_chars,
    str_to_lowercase,
    to_string,
    trim,
    trim_chars,
    views,
    words,
    words_of,
};

verus! {

/// A host of the SSH configuration.
#[derive(Debug, Clone, PartialEq, Eq)]
pub struct SshHost {
    pub name: String,
    pub hostname: Option<String>,
    pub user: Option<String>,
    pub port: Option<u16>,
    pub identity_file: Option<String>,
}

/// An [`SshHost`], as contracts see it.
pub struct SshHostView {
    pub name: Seq<char>,
    pub hostname: Option<Seq<char>>,
    pub user: Option<Seq<char>>,
    pub port: Option<u16>,
    pub identity_file: Option<Seq<char>>,
}

/// The text of `s`, where there is one.
pub open spec fn shown_text(s: Option<String>) -> Option<Seq<char>> {
    match s {
        Some(t) => Some(t@),
        None => None,
    }
}

impl View for SshHost {
    type V = SshHostView;

    open spec fn view(&self) -> SshHostView {
        SshHostView {
            name: self.name@,
            hostname: shown_text(self.hostname),
            user: shown_text(self.user),
            port: self.port,
            identity_file: shown_text(self.identity_file),
        }
    }
}

/// The hosts of `v`, as contracts see them.
pub open spec fn shown_hosts(v: Seq<SshHost>) -> Seq<SshHostView> {
    Seq::new(v.len(), |i: int| v[i]@)
}

/// What has been read of a configuration: the hosts that are complete, and
/// the host whose properties are being read, if any.
pub struct Progress {
    pub hosts: Seq<SshHostView>,
    pub current: Option<SshHostView>,
}

/// The home directory that is assumed where the environment names none.
pub const DEFAULT_HOME: &'static str = "/root";

/// Whether `name` is a pattern rather than the name of one host.
pub open spec fn is_pattern(name: Seq<char>) -> bool {
    name.contains('*') || name.contains('?')
}

/// The path of an identity file: with a leading `~` replaced by `home` where
/// the path begins with `~/`, and as it stands otherwise.
pub open spec fn spec_identity_path(value: Seq<char>, home: Seq<char>) -> Seq<char> {
    if value.len() >= 2 && value[0] == '~' && value[1] == '/' {
        home + value.skip(1)
    } else {
        value
    }
}

/// The host `host` with the property `key` set to `value`. A port that is
/// no number is no port; a key that is none of the four known ones changes
/// nothing.
pub open spec fn with_property(
    host: SshHostView,
    key: Seq<char>,
    value: Seq<char>,
    home: Seq<char>,
) -> SshHostView {
    if key == "hostname"@ {
        SshHostView { hostname: Some(value), ..host }
    } else if key == "user"@ {
        SshHostView { user: Some(value), ..host }
    } else if key == "port"@ {
        SshHostView { port: parse_u16(value), ..host }
    } else if key == "identityfile"@ {
        SshHostView { identity_file: Some(spec_identity_path(value, home)), ..host }
    } else {
        host
    }
}

/// The hosts that are complete once the host being read, if any, is closed.
pub open spec fn closed(progress: Progress) -> Seq<SshHostView> {
    match progress.current {
        Some(host) => progress.hosts.push(host),
        None => progress.hosts,
    }
}

/// A host called `name` of which nothing else is known.
pub open spec fn bare_host(name: Seq<char>) -> SshHostView {
    SshHostView { name, hostname: None, user: None, port: None, identity_file: None }
}

/// What has been read after an entry with the key `key`, which is in lower
/// case, and the value `value`.
///
/// A `host` entry closes the host being read and begins the host that the
/// value names, unless the value is a pattern. Any other entry sets a
/// property of the host being read, if there is one.
pub open spec fn after_entry(
    progress: Progress,
    key: Seq<char>,
    value: Seq<char>,
    home: Seq<char>,
) -> Progress {
    if key == "host"@ {
        Progress {
            hosts: closed(progress),
            current: if is_pattern(value) {
                None
            } else {
                Some(bare_host(value))
            },
        }
    } else {
        match progress.current {
            Some(host) => Progress {
                hosts: progress.hosts,
                current: Some(with_property(host, key, value, home)),
            },
            None => progress,
        }
    }
}

/// What has been read after one more line.
///
/// A blank line and a comment change nothing. The first word of any other
/// line, in lower case, is the key of an entry; the words after it, with one
/// space between them, are the entry's value.
pub open spec fn after_line(progress: Progress, line: Seq<char>, home: Seq<char>) -> Progress {
    let text = trim(line);
    let parts = words(text);
    if text.len() == 0 || text[0] == '#' || parts.len() == 0 {
        progress
    } else {
        after_entry(progress, lowercase(parts[0]), join(parts.skip(1), " "@), home)
    }
}

/// The host being read, as contracts see it.
pub open spec fn shown_host(host: Option<SshHost>) -> Option<SshHostView> {
    match host {
        Some(h) => Some(h@),
        None => None,
    }
}

/// What has been read after all of `all`.
pub open spec fn after_lines(all: Seq<Seq<char>>, home: Seq<char>) -> Progress
    decreases all.len(),
{
    if all.len() == 0 {
        Progress { hosts: Seq::<SshHostView>::empty(), current: None }
    } else {
        after_line(after_lines(all.drop_last(), home), all.last(), home)
    }
}

/// The hosts that the configuration `content` describes.
pub open spec fn spec_parse_ssh_config(content: Seq<char>, home: Seq<char>) -> Seq<SshHostView> {
    closed(after_lines(lines(content), home))
}

/// The home directory against which `~` is expanded: the environment's, or
/// the default where the environment names none.
pub fn home_or_default(home: Option<String>) -> (out: String)
    ensures
        out@ == (match home {
            Some(h) => h@,
            None => DEFAULT_HOME@,
        }),
{
    match home {
        Some(h) => h,
        None => String::from_str(DEFAULT_HOME),
    }
}

/// The path of an identity file, with a leading `~/` expanded against
/// `home`.
pub fn identity_path(value: &Vec<char>, home: &str) -> (out: String)
    ensures
        out@ == spec_identity_path(value@, home@),
{
    if value.len() >= 2 && value[0] == '~' && value[1] == '/' {
        let mut out = String::from_str(home);
        let mut i: usize = 1;
        let ghost start = out@;
        while i < value.len()
            invariant
                1 <= i <= value.len(),
                out@ == start + value@.subrange(1, i as int),
            decreases value.len() - i,
        {
            crate::text::push_char(&mut out, value[i]);
            assert(start + value@.subrange(1, i + 1) =~= (start + value@.subrange(1, i as int)).push(
                value@[i as int],
            ));
            i += 1;
        }
        assert(value@.subrange(1, value@.len() as int) =~= value@.skip(1));
        out
    } else {
        to_string(value)
    }
}

/// Sets the property `key` of `host` to `value`.
pub fn set_property(host: SshHost, key: &String, value: String, home: &str) -> (out: SshHost)
    ensures
        out@ == with_property(host@, key@, value@, home@),
{
    let SshHost { name, hostname, user, port, identity_file } = host;
    if *key == String::from_str("hostname") {
        SshHost { name, hostname: Some(value), user, port, identity_file }
    } else if *key == String::from_str("user") {
        SshHost { name, hostname, user: Some(value), port, identity_file }
    } else if *key == String::from_str("port") {
        let chars = chars_of(value.as_str());
        SshHost { name, hostname, user, port: parse_u16_chars(&chars), identity_file }
    } else if *key == String::from_str("identityfile") {
        let chars = chars_of(value.as_str());
        let path = identity_path(&chars, home);
        SshHost { name, hostname, user, port, identity_file: Some(path) }
    } else {
        SshHost { name, hostname, user, port, identity_file }
    }
}

/// Takes one entry of a configuration: `key`, in lower case, with `value`.
/// `hosts` holds the hosts that are complete and `current` is the host being
/// read; the host being read afterwards is returned.
pub fn read_entry(
    hosts: &mut Vec<SshHost>,
    current: Option<SshHost>,
    key: &String,
    value: String,
    home: &str,
) -> (out: Option<SshHost>)
    ensures
        (Progress { hosts: shown_hosts(final(hosts)@), current: shown_host(out) }) == after_entry(
            Progress { hosts: shown_hosts(old(hosts)@), current: shown_host(current) },
            key@,
            value@,
            home@,
        ),
{
    if *key == String::from_str("host") {
        match current {
            Some(host) => {
                let ghost prev = shown_hosts(hosts@);
                hosts.push(host);
                assert(shown_hosts(hosts@) =~= prev.push(host@));
            },
            None => {},
        }
        let value_chars = chars_of(value.as_str());
        if !contains_char(&value_chars, '*') && !contains_char(&value_chars, '?') {
            Some(SshHost { name: value, hostname: None, user: None, port: None, identity_file: None })
        } else {
            None
        }
    } else {
        match current {
            Some(host) => Some(set_property(host, key, value, home)),
            None => None,
        }
    }
}

/// Reads the hosts of the SSH configuration `content`, in the order in which
/// the configuration names them. `home` is the home directory against which
/// the paths of identity files are expanded.
pub fn parse_ssh_config(content: &str, home: &str) -> (out: Vec<SshHost>)
    ensures
        shown_hosts(out@) == spec_parse_ssh_config(content@, home@),
{
    let chars = chars_of(content);
    let all = lines_of(&chars);
    let mut hosts: Vec<SshHost> = Vec::new();
    let mut current: Option<SshHost> = None;
    let mut i: usize = 0;
    assert(views(all@).take(0) =~= Seq::<Seq<char>>::empty());
    assert(shown_hosts(hosts@) =~= Seq::<SshHostView>::empty());
    while i < all.len()
        invariant
            i <= all.len(),
            after_lines(views(all@).take(i as int), home@) == (Progress {
                hosts: shown_hosts(hosts@),
                current: shown_host(current),
            }),
        decreases all.len() - i,
    {
        proof {
            assert(views(all@).take(i + 1).drop_last() =~= views(all@).take(i as int));
            assert(views(all@).take(i + 1).last() == all@[i as int]@);
        }
        let text = trim_chars(&all[i]);
        let parts = words_of(&text);
        if !(text.len() == 0 || text[0] == '#' || parts.len() == 0) {
            assert(views(parts@)[0] == parts@[0]@);
            let first = to_string(&parts[0]);
            let key = str_to_lowercase(first.as_str());
            let value = join_from(&parts, 1, " ");
            current = read_entry(&mut hosts, current, &key, value, home);
        }
        i += 1;
    }
    assert(views(all@).take(all.len() as int) =~= views(all@));
    match current {
        Some(host) => {
            let ghost prev = shown_hosts(hosts@);
            hosts.push(host);
            assert(shown_hosts(hosts@) =~= prev.push(host@));
        },
        None => {},
    }
    hosts
}

} // verus!
