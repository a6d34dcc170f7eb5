//! The shells that the host offers.

use vstd::prelude::*;
use vstd::string::StringExecFns;
use crate::text::{chars_of, lines, lines_of, string_of, texts, trim, trim_chars, views};

verus! {

/// Whether a trimmed line of the shells file names a shell: it is not empty
/// and no comment.
pub open spec fn is_shell_line(line: Seq<char>) -> bool {
    line.len() > 0 && line[0] != '#'
}

/// The shells among `all`: every line, trimmed, that names one.
pub open spec fn shells_among(all: Seq<Seq<char>>) -> Seq<Seq<char>>
    decreases all.len(),
{
    if all.len() == 0 {
        Seq::<Seq<char>>::empty()
    } else {
        let before = shells_among(all.drop_last());
        let line = trim(all.last());
        if is_shell_line(line) {
            before.push(line)
        } else {
            before
        }
    }
}

/// The shells that the file `content` lists.
pub open spec fn spec_parse_shells(content: Seq<char>) -> Seq<Seq<char>> {
    shells_among(lines(content))
}

/// The shells offered where the host has no shells file.
pub open spec fn spec_default_shells() -> Seq<Seq<char>> {
    seq!["/bin/bash"@, "/bin/sh"@]
}

/// Reads the shells file: one shell per line, blank lines and lines that
/// begin with `#` passed over, white space around a line dropped.
pub fn parse_shells(content: &str) -> (out: Vec<String>)
    ensures
        texts(out@) == spec_parse_shells(content@),
{
    let chars = chars_of(content);
    let all = lines_of(&chars);
    let mut out: Vec<String> = Vec::new();
    let mut i: usize = 0;
    assert(views(all@).take(0) =~= Seq::<Seq<char>>::empty());
    while i < all.len()
        invariant
            i <= all.len(),
            texts(out@) == shells_among(views(all@).take(i as int)),
        decreases all.len() - i,
    {
        let line = trim_chars(&all[i]);
        let ghost prev = texts(out@);
        proof {
            assert(views(all@).take(i + 1).drop_last() =~= views(all@).take(i as int));
            assert(views(all@).take(i + 1).last() == all@[i as int]@);
        }
        if line.len() > 0 && line[0] != '#' {
            let shell = string_of(&line, 0, line.len());
            assert(line@.subrange(0, line@.len() as int) =~= line@);
            out.push(shell);
            assert(texts(out@) =~= prev.push(line@));
        }
        i += 1;
    }
    assert(views(all@).take(all.len() as int) =~= views(all@));
    out
}

/// The shells to offer: those that the shells file lists, or the two default
/// shells where the host has no such file.
pub fn get_available_shells(content: Option<&str>) -> (out: Vec<String>)
    ensures
        texts(out@) == (match content {
            Some(c) => spec_parse_shells(c@),
            None => spec_default_shells(),
        }),
{
    match content {
        Some(c) => parse_shells(c),
        None => {
            let mut out: Vec<String> = Vec::new();
            out.push(String::from_str("/bin/bash"));
            out.push(String::from_str("/bin/sh"));
            assert(texts(out@) =~= spec_default_shells());
            out
        },
    }
}

} // verus!
