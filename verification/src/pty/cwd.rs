//! The working-directory prober: a best-effort lookup of the directory in
//! which a live child currently works.
//!
//! Where the kernel shows a process's working directory as a symbolic link,
//! the link is read. Elsewhere a process-introspection utility is run and its
//! output searched for the working-directory entry. A host with neither is
//! told so; a wrong path is never made up.

use vstd::prelude::*;
use vstd::string::StringExecFns;
use vstd::utf8::{decode_utf8, valid_utf8};
use crate::pty::error::PtyError;
use crate::pty::platform::Platform;
use crate::text::{
    chars_of,
    decimal,
    decimal_string,
    from_utf8_lossy,
    lines,
    lines_of,
    string_of,
    texts,
    utf8_lossy,
    views,
};

verus! {

/// What the host must do to look the directory up.
#[derive(Debug, Clone, PartialEq, Eq)]
pub enum CwdProbe {
    /// Read the symbolic link at `path`.
    ReadLink { path: String },
    /// Run `program` with `args` and collect its standard output.
    Inspect { program: String, args: Vec<String> },
}

/// A [`CwdProbe`], as contracts see it.
pub enum CwdProbeView {
    ReadLink { path: Seq<char> },
    Inspect { program: Seq<char>, args: Seq<Seq<char>> },
}

impl View for CwdProbe {
    type V = CwdProbeView;

    open spec fn view(&self) -> CwdProbeView {
        match self {
            CwdProbe::ReadLink { path } => CwdProbeView::ReadLink { path: path@ },
            CwdProbe::Inspect { program, args } => CwdProbeView::Inspect {
                program: program@,
                args: texts(args@),
            },
        }
    }
}

/// What the host found.
#[derive(Debug, Clone, PartialEq, Eq)]
pub enum ProbeOutcome {
    /// The target of the symbolic link.
    Link(String),
    /// The utility ran: whether it reported success, and its standard output.
    Output { success: bool, stdout: Vec<u8> },
    /// The link could not be read, or the utility could not be run.
    Failed { errno: i32 },
}

/// A [`ProbeOutcome`], as contracts see it.
pub enum ProbeOutcomeView {
    Link(Seq<char>),
    Output { success: bool, stdout: Seq<u8> },
    Failed { errno: i32 },
}

impl View for ProbeOutcome {
    type V = ProbeOutcomeView;

    open spec fn view(&self) -> ProbeOutcomeView {
        match self {
            ProbeOutcome::Link(target) => ProbeOutcomeView::Link(target@),
            ProbeOutcome::Output { success, stdout } => ProbeOutcomeView::Output {
                success: *success,
                stdout: stdout@,
            },
            ProbeOutcome::Failed { errno } => ProbeOutcomeView::Failed { errno: *errno },
        }
    }
}

/// The probe for the process `pid` on `platform`: the link
/// `/proc/<pid>/cwd`, or `lsof -p <pid> -a -d cwd -Fn`, or none.
pub open spec fn spec_cwd_probe(platform: Platform, pid: i32) -> Option<CwdProbeView> {
    match platform {
        Platform::Linux => Some(
            CwdProbeView::ReadLink { path: "/proc/"@ + decimal(pid as int) + "/cwd"@ },
        ),
        Platform::MacOs => Some(
            CwdProbeView::Inspect {
                program: "lsof"@,
                args: seq!["-p"@, decimal(pid as int), "-a"@, "-d"@, "cwd"@, "-Fn"@],
            },
        ),
        Platform::Windows | Platform::Other => None,
    }
}

/// Whether `line` is a name entry of the utility's field output: it begins
/// with `n`.
pub open spec fn is_name_line(line: Seq<char>) -> bool {
    line.len() > 0 && line[0] == 'n'
}

/// What follows the `n` of the first name entry among `all[from..]`, or
/// `None` where there is no name entry.
pub open spec fn first_name_from(all: Seq<Seq<char>>, from: int) -> Option<Seq<char>>
    decreases all.len() - from,
{
    if from < 0 || from >= all.len() {
        None
    } else if is_name_line(all[from]) {
        Some(all[from].skip(1))
    } else {
        first_name_from(all, from + 1)
    }
}

/// The working directory that the utility's field output `text` names.
pub open spec fn spec_lsof_cwd(text: Seq<char>) -> Option<Seq<char>> {
    first_name_from(lines(text), 0)
}

/// The answer of the prober on `platform` to what the host found, where
/// `text` is what the utility's output decodes to.
///
/// A platform without a mechanism is unsupported whatever was found. A probe
/// that could not be made is reported with its error code. A link gives its
/// target. The utility's output gives the first name entry, where the utility
/// reported success; output without such an entry, and an outcome that is not
/// of the platform's mechanism, cannot be interpreted.
pub open spec fn spec_cwd_of(platform: Platform, outcome: ProbeOutcomeView, text: Seq<char>) -> Result<
    Seq<char>,
    PtyError,
> {
    match platform {
        Platform::Windows | Platform::Other => Err(PtyError::Unsupported),
        Platform::Linux => match outcome {
            ProbeOutcomeView::Link(target) => Ok(target),
            ProbeOutcomeView::Failed { errno } => Err(PtyError::ProbeFailed { errno }),
            ProbeOutcomeView::Output { .. } => Err(PtyError::ProbeParse),
        },
        Platform::MacOs => match outcome {
            ProbeOutcomeView::Output { success, stdout } => if !success {
                Err(PtyError::ProbeExit)
            } else {
                match spec_lsof_cwd(text) {
                    Some(path) => Ok(path),
                    None => Err(PtyError::ProbeParse),
                }
            },
            ProbeOutcomeView::Failed { errno } => Err(PtyError::ProbeFailed { errno }),
            ProbeOutcomeView::Link(_) => Err(PtyError::ProbeParse),
        },
    }
}

/// The bytes that the utility printed, where the host ran it; no bytes
/// otherwise.
pub open spec fn printed(outcome: ProbeOutcomeView) -> Seq<u8> {
    match outcome {
        ProbeOutcomeView::Output { stdout, .. } => stdout,
        _ => Seq::<u8>::empty(),
    }
}

/// The answer of the prober on `platform` to what the host found. The
/// utility's output is decoded permissively.
pub open spec fn spec_cwd(platform: Platform, outcome: ProbeOutcomeView) -> Result<
    Seq<char>,
    PtyError,
> {
    spec_cwd_of(platform, outcome, utf8_lossy(printed(outcome)))
}

/// `answer` with the text of a path in place of the path.
pub open spec fn shown_answer(answer: Result<String, PtyError>) -> Result<Seq<char>, PtyError> {
    match answer {
        Ok(path) => Ok(path@),
        Err(e) => Err(e),
    }
}

/// What the host must do to look up the working directory of the process
/// `pid`, or `None` where the platform offers no mechanism.
pub fn cwd_probe(platform: Platform, pid: i32) -> (out: Option<CwdProbe>)
    ensures
        match out {
            Some(probe) => spec_cwd_probe(platform, pid) == Some(probe@),
            None => spec_cwd_probe(platform, pid) is None,
        },
{
    match platform {
        Platform::Linux => {
            let number = decimal_string(pid as i64);
            let mut path = String::from_str("/proc/");
            path.append(number.as_str());
            path.append("/cwd");
            Some(CwdProbe::ReadLink { path })
        },
        Platform::MacOs => {
            let mut args: Vec<String> = Vec::new();
            args.push(String::from_str("-p"));
            args.push(decimal_string(pid as i64));
            args.push(String::from_str("-a"));
            args.push(String::from_str("-d"));
            args.push(String::from_str("cwd"));
            args.push(String::from_str("-Fn"));
            assert(texts(args@) =~= seq![
                "-p"@,
                decimal(pid as int),
                "-a"@,
                "-d"@,
                "cwd"@,
                "-Fn"@,
            ]);
            Some(CwdProbe::Inspect { program: String::from_str("lsof"), args })
        },
        Platform::Windows | Platform::Other => None,
    }
}

/// Searches the utility's field output for the working directory: the first
/// line that begins with `n`, without that letter.
pub fn lsof_cwd(text: &str) -> (out: Option<String>)
    ensures
        match out {
            Some(path) => spec_lsof_cwd(text@) == Some(path@),
            None => spec_lsof_cwd(text@) is None,
        },
{
    let chars = chars_of(text);
    let all = lines_of(&chars);
    let mut i: usize = 0;
    while i < all.len()
        invariant
            i <= all.len(),
            views(all@) == lines(text@),
            first_name_from(lines(text@), 0) == first_name_from(lines(text@), i as int),
        decreases all.len() - i,
    {
        let line = &all[i];
        assert(line@ == views(all@)[i as int]);
        if line.len() > 0 && line[0] == 'n' {
            let path = string_of(line, 1, line.len());
            assert(line@.subrange(1, line@.len() as int) == line@.skip(1));
            return Some(path);
        }
        i += 1;
    }
    None
}

/// The working directory of a child, from what the host's probe found. Where
/// the utility's output is valid UTF-8, the answer is that of the output's
/// own text.
pub fn get_process_cwd(platform: Platform, outcome: ProbeOutcome) -> (out: Result<
    String,
    PtyError,
>)
    ensures
        shown_answer(out) == spec_cwd(platform, outcome@),
        valid_utf8(printed(outcome@)) ==> shown_answer(out) == spec_cwd_of(
            platform,
            outcome@,
            decode_utf8(printed(outcome@)),
        ),
{
    match platform {
        Platform::Windows | Platform::Other => Err(PtyError::Unsupported),
        Platform::Linux => match outcome {
            ProbeOutcome::Link(target) => Ok(target),
            ProbeOutcome::Failed { errno } => Err(PtyError::ProbeFailed { errno }),
            ProbeOutcome::Output { .. } => Err(PtyError::ProbeParse),
        },
        Platform::MacOs => match outcome {
            ProbeOutcome::Output { success, stdout } => {
                if !success {
                    Err(PtyError::ProbeExit)
                } else {
                    let text = from_utf8_lossy(stdout.as_slice());
                    match lsof_cwd(text.as_str()) {
                        Some(path) => Ok(path),
                        None => Err(PtyError::ProbeParse),
                    }
                }
            },
            ProbeOutcome::Failed { errno } => Err(PtyError::ProbeFailed { errno }),
            ProbeOutcome::Link(_) => Err(PtyError::ProbeParse),
        },
    }
}

} // verus!
