//! Per-job orchestration decisions: where a job reads from, where it writes
//! to, under which name, and what remains to do after a successful
//! compression.
//!
//! A job runs through the phases resolving, sniffing, compressing,
//! reporting, and cleaning up. The decisions of each phase are made here on
//! plain values; the surrounding binary opens the handles, moves the bytes,
//! and performs the removal. Jobs run strictly one after another, and the
//! whole run aborts on the first failed job. Bookkeeping after a successful
//! compression is lenient: a metadata query that fails only drops the size
//! report, and a removal that fails only warns; neither ends the job.

use vstd::prelude::*;
use vstd::string::StrSliceExecFns;
use vstd::string::StringExecFns;

use crate::cli::Format;
use crate::cli::Suffix;
use crate::engine;
use crate::sniff;

verus! {

/// Where a job reads its bytes from.
#[derive(Clone, Debug, Eq, PartialEq)]
pub enum SourcePlan {
    /// A regular file at this path.
    FromFile { path: String },
    /// Standard input.
    FromStdin,
}

/// Where a job writes the compressed stream.
#[derive(Clone, Debug, Eq, PartialEq)]
pub enum SinkPlan {
    /// A regular file at this path. Unless `overwrite` is set, the file must
    /// be created exclusively, so that an existing file fails the job before
    /// any byte is written to it; with `overwrite` it is truncated or
    /// created unconditionally.
    ToFile { path: String, overwrite: bool },
    /// Standard output.
    ToStdout,
}

/// A failure that ends a job.
#[derive(Debug)]
pub enum JobError {
    /// Standard input is attached to a terminal and force was not given.
    StdinIsTerminal,
    /// Standard output is attached to a terminal and neither the stdout
    /// flag nor force was given.
    StdoutIsTerminal,
    /// The engine could not compress the data; carries its diagnostic.
    CompressionFailed { detail: String },
}

impl JobError {
    /// The diagnostic text for this failure.
    pub open spec fn spec_message(self) -> Seq<char> {
        match self {
            JobError::StdinIsTerminal => "standard input is a terminal"@,
            JobError::StdoutIsTerminal => "compressed data not written to a terminal"@,
            JobError::CompressionFailed { .. } => "data could not be compressed"@,
        }
    }

    /// Returns the diagnostic text for this failure.
    pub fn message(&self) -> (r: &'static str)
        ensures
            r@ == self.spec_message(),
    {
        match self {
            JobError::StdinIsTerminal => "standard input is a terminal",
            JobError::StdoutIsTerminal => "compressed data not written to a terminal",
            JobError::CompressionFailed { .. } => "data could not be compressed",
        }
    }
}

/// The suffix appended to every source path of a run: the explicit suffix if
/// one is configured, else the format-derived default.
pub open spec fn spec_extension(suffix: Option<Suffix>, format: Format) -> Seq<char> {
    match suffix {
        Some(s) => s.0@,
        None => format.spec_default_suffix(),
    }
}

/// Resolves the suffix policy of a run to the one suffix string it appends.
pub fn resolve_extension(suffix: &Option<Suffix>, format: &Format) -> (r: String)
    ensures
        r@ == spec_extension(*suffix, *format),
{
    match suffix {
        Some(s) => s.0.clone(),
        None => String::from_str(format.default_suffix()),
    }
}

/// Returns the warning owed when the resolved suffix is empty: an empty
/// suffix makes the destination equal to the source path and risks
/// self-overwrite, but it is accepted.
pub fn empty_suffix_warning(ext: &str) -> (r: Option<&'static str>)
    ensures
        r is Some <==> ext@.len() == 0,
        r matches Some(m) ==> m@ == "the suffix is an empty string"@,
{
    if ext.is_empty() {
        Some("the suffix is an empty string")
    } else {
        None
    }
}

/// The destination path: the suffix appended verbatim to the full source
/// path, never replacing an existing extension.
pub open spec fn spec_output_path(path: Seq<char>, ext: Seq<char>) -> Seq<char> {
    path + ext
}

/// Derives the destination path from a source path and the resolved suffix.
pub fn output_path(path: &str, ext: &str) -> (r: String)
    ensures
        r@ == spec_output_path(path@, ext@),
{
    String::from_str(path).concat(ext)
}

/// Expands the configured inputs into the ordered job list: one job per
/// designator, in the order given, or the single implicit standard-input
/// job when none are given.
pub fn expand_designators(input: Option<Vec<String>>) -> (r: Vec<Option<String>>)
    ensures
        match input {
            Some(files) => r@.len() == files@.len() && forall|i: int|
                0 <= i < files@.len() ==> ((#[trigger] r@[i]) matches Some(p) && p@ == files@[i]@),
            None => r@.len() == 1 && r@[0] is None,
        },
{
    match input {
        Some(files) => {
            let mut jobs: Vec<Option<String>> = Vec::new();
            let n = files.len();
            let mut i: usize = 0;
            while i < n
                invariant
                    0 <= i <= n,
                    n == files@.len(),
                    jobs@.len() == i,
                    forall|j: int| 0 <= j < i ==> ((#[trigger] jobs@[j]) matches Some(p)
                        && p@ == files@[j]@),
                decreases n - i,
            {
                jobs.push(Some(files[i].clone()));
                i += 1;
            }
            jobs
        },
        None => {
            let mut jobs: Vec<Option<String>> = Vec::new();
            jobs.push(None);
            jobs
        },
    }
}

/// The suffix policy law: the destination path of a file job equals the
/// source path followed by the explicit suffix when one is configured, else
/// by the format-derived default.
pub proof fn lemma_output_path_suffix_policy(
    path: Seq<char>,
    suffix: Option<Suffix>,
    format: Format,
)
    ensures
        spec_output_path(path, spec_extension(suffix, format)) == path + (match suffix {
            Some(s) => s.0@,
            None => format.spec_default_suffix(),
        }),
{
}

/// Whether an input designator denotes standard input: it is absent, or it
/// is the sentinel `-`.
pub open spec fn spec_designates_stdin(designator: Option<Seq<char>>) -> bool {
    match designator {
        Some(p) => p == "-"@,
        None => true,
    }
}

/// Picks the byte source of a job. A concrete path other than `-` is read
/// as a file; otherwise standard input is read, which fails when it is
/// attached to a terminal and force was not given.
pub fn plan_source(designator: &Option<String>, stdin_is_terminal: bool, force: bool) -> (r:
    Result<SourcePlan, JobError>)
    ensures
        match r {
            Ok(SourcePlan::FromFile { path }) => {
                &&& !spec_designates_stdin(designator.deep_view())
                &&& designator matches Some(p) && path@ == p@
            },
            Ok(SourcePlan::FromStdin) => spec_designates_stdin(designator.deep_view())
                && !(stdin_is_terminal && !force),
            Err(JobError::StdinIsTerminal) => spec_designates_stdin(designator.deep_view())
                && stdin_is_terminal && !force,
            Err(_) => false,
        },
{
    match designator {
        Some(p) => {
            proof {
                reveal_strlit("-");
            }
            let is_dash = p.as_str().unicode_len() == 1 && p.as_str().get_char(0) == '-';
            proof {
                if is_dash {
                    assert(p@ =~= "-"@);
                }
            }
            if is_dash {
                if stdin_is_terminal && !force {
                    Err(JobError::StdinIsTerminal)
                } else {
                    Ok(SourcePlan::FromStdin)
                }
            } else {
                Ok(SourcePlan::FromFile { path: p.clone() })
            }
        },
        None => {
            if stdin_is_terminal && !force {
                Err(JobError::StdinIsTerminal)
            } else {
                Ok(SourcePlan::FromStdin)
            }
        },
    }
}

/// Picks the byte sink of a job. A file source without the stdout override
/// writes to the resolved destination path, exclusively created unless
/// force is given; otherwise standard output is written, which fails when
/// it is attached to a terminal and neither the stdout flag nor force was
/// given.
pub fn plan_sink(
    source: &SourcePlan,
    to_stdout: bool,
    force: bool,
    ext: &str,
    stdout_is_terminal: bool,
) -> (r: Result<SinkPlan, JobError>)
    ensures
        match r {
            Ok(SinkPlan::ToFile { path, overwrite }) => {
                &&& !to_stdout
                &&& overwrite == force
                &&& source matches SourcePlan::FromFile { path: p } && path@
                    == spec_output_path(p@, ext@)
            },
            Ok(SinkPlan::ToStdout) => (to_stdout || source is FromStdin) && !(stdout_is_terminal
                && !(to_stdout || force)),
            Err(JobError::StdoutIsTerminal) => (to_stdout || source is FromStdin)
                && stdout_is_terminal && !(to_stdout || force),
            Err(_) => false,
        },
{
    match source {
        SourcePlan::FromFile { path } => {
            if !to_stdout {
                Ok(SinkPlan::ToFile { path: output_path(path.as_str(), ext), overwrite: force })
            } else if stdout_is_terminal && !(to_stdout || force) {
                Err(JobError::StdoutIsTerminal)
            } else {
                Ok(SinkPlan::ToStdout)
            }
        },
        SourcePlan::FromStdin => {
            if stdout_is_terminal && !(to_stdout || force) {
                Err(JobError::StdoutIsTerminal)
            } else {
                Ok(SinkPlan::ToStdout)
            }
        },
    }
}

/// Whether the source file is removed after a successful compression:
/// removal must be requested, and only a concrete file can be removed.
pub open spec fn spec_should_remove(remove: bool, source: SourcePlan) -> bool {
    remove && source is FromFile
}

/// Decides the cleanup phase of a job.
pub fn should_remove(remove: bool, source: &SourcePlan) -> (r: bool)
    ensures
        r == spec_should_remove(remove, *source),
{
    remove && matches!(source, SourcePlan::FromFile { .. })
}

/// The computed core of one job on a buffered input.
pub struct JobOutcome {
    /// The compressed stream, ready for the sink.
    pub data: Vec<u8>,
    /// The input carried the signature of a well-known compressed format;
    /// advisory only.
    pub already_compressed: bool,
}

/// Runs the computation of one job on the buffered input: probes the
/// signature, then hands the whole buffer to the engine. Success is owed on
/// every input — a signature match never stops the job, and the engine
/// cannot fail on an in-memory buffer; the error arm only propagates a
/// diagnostic should the engine ever report one.
pub fn run_job(iterations: u64, format: &Format, input: &Vec<u8>) -> (r: Result<
    JobOutcome,
    JobError,
>)
    requires
        iterations >= 1,
    ensures
        r is Ok,
        r matches Ok(outcome) ==> outcome.data@ == engine::engine_output(
            iterations,
            format.spec_code(),
            input@,
        ) && outcome.already_compressed == sniff::spec_is_compressed(input@),
{
    let already_compressed = sniff::is_already_compressed(input);
    match engine::engine_compress(iterations, format, input) {
        Ok(data) => Ok(JobOutcome { data, already_compressed }),
        Err(detail) => Err(JobError::CompressionFailed { detail }),
    }
}

} // verus!
