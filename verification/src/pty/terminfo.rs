//! The terminal type of a new session.
//!
//! The child's `TERM` names a 256-colour entry where the host's terminfo
//! database has one, a basic entry where it has that, and otherwise a minimal
//! entry that every database holds. The database is searched where terminfo
//! itself searches: the `TERMINFO` override, the directories listed in
//! `TERMINFO_DIRS`, then the system's directories.

use vstd::prelude::*;
use vstd::string::StringExecFns;
use crate::text::{chars_of, split, split_chars, string_of, texts, views};

verus! {

/// The 256-colour entry.
pub const TERM_256COLOR: &'static str = "xterm-256color";

/// The basic entry.
pub const TERM_BASIC: &'static str = "xterm";

/// The minimal entry, taken to be always available.
pub const TERM_MINIMAL: &'static str = "vt100";

/// The system's terminfo directories, in the order in which they are
/// searched.
pub open spec fn system_dirs() -> Seq<Seq<char>> {
    seq!["/etc/terminfo"@, "/lib/terminfo"@, "/usr/share/terminfo"@, "/usr/lib/terminfo"@]
}

/// The pieces of `pieces` that are not empty, in order.
pub open spec fn nonempty(pieces: Seq<Seq<char>>) -> Seq<Seq<char>>
    decreases pieces.len(),
{
    if pieces.len() == 0 {
        Seq::<Seq<char>>::empty()
    } else if pieces.last().len() > 0 {
        nonempty(pieces.drop_last()).push(pieces.last())
    } else {
        nonempty(pieces.drop_last())
    }
}

/// The directories to search: `terminfo` where it is set and not empty, then
/// the entries of the colon-separated `terminfo_dirs` that are not empty, then
/// the system's directories.
pub open spec fn spec_search_dirs(
    terminfo: Option<Seq<char>>,
    terminfo_dirs: Option<Seq<char>>,
) -> Seq<Seq<char>> {
    let first = match terminfo {
        Some(t) => nonempty(seq![t]),
        None => Seq::<Seq<char>>::empty(),
    };
    let listed = match terminfo_dirs {
        Some(d) => nonempty(split(d, ':')),
        None => Seq::<Seq<char>>::empty(),
    };
    first + listed + system_dirs()
}

/// The places in which the entry `name`, whose first letter is `x`, may lie
/// below the directories `dirs`: for each directory, in order, the file
/// `x/<name>` and the file `78/<name>`, the letter's code standing for the
/// letter where the file system does not tell upper case from lower.
pub open spec fn spec_candidates(dirs: Seq<Seq<char>>, name: Seq<char>) -> Seq<Seq<char>> {
    Seq::new(
        2 * dirs.len(),
        |i: int|
            if i % 2 == 0 {
                dirs[i / 2] + "/x/"@ + name
            } else {
                dirs[i / 2] + "/78/"@ + name
            },
    )
}

/// Whether one of `found` is true.
pub open spec fn any_found(found: Seq<bool>) -> bool {
    exists|i: int| 0 <= i < found.len() && found[i]
}

/// The terminal type, given for each candidate place of the 256-colour entry
/// and of the basic entry whether a file is there.
pub open spec fn spec_select_term(color: Seq<bool>, basic: Seq<bool>) -> Seq<char> {
    if any_found(color) {
        TERM_256COLOR@
    } else if any_found(basic) {
        TERM_BASIC@
    } else {
        TERM_MINIMAL@
    }
}

/// The directories in which the terminfo database is searched, from the
/// values of `TERMINFO` and `TERMINFO_DIRS`.
pub fn search_dirs(terminfo: Option<&str>, terminfo_dirs: Option<&str>) -> (out: Vec<String>)
    ensures
        texts(out@) == spec_search_dirs(
            match terminfo {
                Some(t) => Some(t@),
                None => None,
            },
            match terminfo_dirs {
                Some(d) => Some(d@),
                None => None,
            },
        ),
{
    let mut out: Vec<String> = Vec::new();
    let ghost first = Seq::<Seq<char>>::empty();
    match terminfo {
        Some(t) => {
            let chars = chars_of(t);
            proof {
                assert(seq![t@].drop_last() =~= Seq::<Seq<char>>::empty());
                assert(nonempty(Seq::<Seq<char>>::empty()) =~= Seq::<Seq<char>>::empty());
            }
            if chars.len() > 0 {
                out.push(String::from_str(t));
                assert(texts(out@) =~= nonempty(seq![t@]));
            } else {
                assert(texts(out@) =~= nonempty(seq![t@]));
            }
            proof {
                first = nonempty(seq![t@]);
            }
        },
        None => {
            assert(texts(out@) =~= first);
        },
    }
    let ghost listed = Seq::<Seq<char>>::empty();
    match terminfo_dirs {
        Some(d) => {
            let chars = chars_of(d);
            let pieces = split_chars(&chars, ':');
            let mut i: usize = 0;
            assert(views(pieces@).take(0) =~= Seq::<Seq<char>>::empty());
            assert(texts(out@) =~= first + nonempty(views(pieces@).take(0)));
            while i < pieces.len()
                invariant
                    i <= pieces.len(),
                    texts(out@) == first + nonempty(views(pieces@).take(i as int)),
                decreases pieces.len() - i,
            {
                let piece = &pieces[i];
                let ghost prev = texts(out@);
                proof {
                    assert(views(pieces@).take(i + 1).drop_last() =~= views(pieces@).take(
                        i as int,
                    ));
                    assert(views(pieces@).take(i + 1).last() == piece@);
                }
                if piece.len() > 0 {
                    let dir = string_of(piece, 0, piece.len());
                    assert(piece@.subrange(0, piece@.len() as int) =~= piece@);
                    out.push(dir);
                    assert(texts(out@) =~= prev.push(piece@));
                    assert(texts(out@) =~= first + nonempty(views(pieces@).take(i + 1)));
                } else {
                    assert(texts(out@) =~= first + nonempty(views(pieces@).take(i + 1)));
                }
                i += 1;
            }
            proof {
                assert(views(pieces@).take(pieces.len() as int) =~= views(pieces@));
                listed = nonempty(split(d@, ':'));
            }
        },
        None => {
            assert(texts(out@) =~= first + listed);
        },
    }
    let ghost prev = texts(out@);
    out.push(String::from_str("/etc/terminfo"));
    out.push(String::from_str("/lib/terminfo"));
    out.push(String::from_str("/usr/share/terminfo"));
    out.push(String::from_str("/usr/lib/terminfo"));
    assert(texts(out@) =~= prev + system_dirs());
    out
}

/// The places in which the terminfo entry `name` may lie below `dirs`. The
/// entries that this library asks for begin with the letter `x`.
pub fn candidate_paths(dirs: &Vec<String>, name: &str) -> (out: Vec<String>)
    ensures
        texts(out@) == spec_candidates(texts(dirs@), name@),
{
    let mut out: Vec<String> = Vec::new();
    let mut i: usize = 0;
    assert(texts(out@) =~= spec_candidates(texts(dirs@).take(0), name@));
    while i < dirs.len()
        invariant
            i <= dirs.len(),
            texts(out@) == spec_candidates(texts(dirs@).take(i as int), name@),
        decreases dirs.len() - i,
    {
        let ghost prev = texts(out@);
        let ghost old_len = out@.len();
        proof {
            assert(texts(dirs@).take(i as int).len() == i);
            assert(prev.len() == 2 * i);
            assert(old_len == prev.len());
        }
        let mut by_letter = dirs[i].clone();
        by_letter.append("/x/");
        by_letter.append(name);
        let mut by_code = dirs[i].clone();
        by_code.append("/78/");
        by_code.append(name);
        out.push(by_letter);
        out.push(by_code);
        proof {
            let now = spec_candidates(texts(dirs@).take(i + 1), name@);
            assert(texts(dirs@).take(i + 1).len() == i + 1);
            assert(out@.len() == old_len + 2);
            assert(texts(out@).len() == now.len());
            assert forall|k: int| 0 <= k < now.len() implies texts(out@)[k] == now[k] by {
                if k < 2 * i {
                    assert(texts(out@)[k] == prev[k]);
                    assert(texts(dirs@).take(i + 1)[k / 2] == texts(dirs@).take(i as int)[k / 2]);
                } else {
                    assert(k / 2 == i);
                    assert(texts(dirs@).take(i + 1)[i as int] == dirs@[i as int]@);
                }
            }
            assert(texts(out@) =~= now);
        }
        i += 1;
    }
    assert(texts(dirs@).take(dirs.len() as int) =~= texts(dirs@));
    out
}

/// Whether one of `found` is true.
pub fn any(found: &Vec<bool>) -> (out: bool)
    ensures
        out == any_found(found@),
{
    let mut i: usize = 0;
    while i < found.len()
        invariant
            i <= found.len(),
            forall|k: int| 0 <= k < i ==> !found@[k],
        decreases found.len() - i,
    {
        if found[i] {
            return true;
        }
        i += 1;
    }
    false
}

/// The terminal type of a new session: the 256-colour entry where a file was
/// found in one of its candidate places, else the basic entry where one was
/// found in one of its places, else the minimal entry.
pub fn select_term(color: &Vec<bool>, basic: &Vec<bool>) -> (out: &'static str)
    ensures
        out@ == spec_select_term(color@, basic@),
{
    if any(color) {
        TERM_256COLOR
    } else if any(basic) {
        TERM_BASIC
    } else {
        TERM_MINIMAL
    }
}

} // verus!
