//! Formatting the files named on the command line, one after the other.

use crate::cargo_toml::edition_for;
use crate::cargo_toml::CargoToml;
use crate::error::IoOperation;
use crate::error::XfmtError;
use crate::invocation::rustfmt_command;
use crate::invocation::rustfmt_invocation;
use crate::invocation::Input;
use crate::invocation::InputView;
use crate::invocation::Stream;
use crate::path_ext::absolute_path;
use crate::path_ext::path_to_absolute;
use crate::run::hiding;
use crate::run::started;
use crate::run::Action;
use crate::run::ActionView;
use crate::run::Run;
use crate::run::RunView;
use crate::rustfmt_stdio::plan_view;
use crate::rustfmt_toml::config_for;
use crate::rustfmt_toml::RustfmtToml;
use crate::snapshot::Snapshot;
use crate::text::option_text;
use crate::text::texts;
use vstd::prelude::*;

verus! {

/// What was asked for on the command line.
#[derive(Debug, Clone, PartialEq, Eq)]
pub struct RustfmtOptions {
    /// Only check the formatting.
    pub check: bool,
    /// The files to format, in the order in which they were named.
    pub files: Vec<String>,
    /// Arguments handed on to the formatter as they came.
    pub additional_args: Vec<String>,
}

/// What comes next in a list of files.
#[derive(Debug, Clone, Copy, PartialEq, Eq, Structural)]
pub enum FilesStep {
    /// Format the file at this place of the list.
    Format(usize),
    /// Stop, and exit with this status code.
    Exit(i32),
}

/// The first status code that is not zero.
pub open spec fn first_failure(codes: Seq<i32>) -> Option<i32>
    decreases codes.len(),
{
    if codes.len() == 0 {
        None
    } else if codes[0] != 0 {
        Some(codes[0])
    } else {
        first_failure(codes.drop_first())
    }
}

/// What comes next when `finished` are the status codes of the files
/// formatted so far, in order. The first code that is not zero ends the run
/// with that code, whatever files are left; else the next file is formatted;
/// after the last file the run ends with zero.
pub open spec fn files_step(file_count: nat, finished: Seq<i32>) -> FilesStep {
    match first_failure(finished) {
        Some(code) => FilesStep::Exit(code),
        None => if finished.len() < file_count {
            FilesStep::Format(finished.len() as usize)
        } else {
            FilesStep::Exit(0)
        },
    }
}

/// Says what comes next, given the status codes with which the formatter
/// ended for the files formatted so far.
pub fn rustfmt(options: &RustfmtOptions, finished: &Vec<i32>) -> (r: FilesStep)
    ensures
        r == files_step(options.files@.len(), finished@),
{
    let mut index: usize = 0;
    assert(finished@.skip(0) =~= finished@);
    while index < finished.len()
        invariant
            index <= finished.len(),
            first_failure(finished@) == first_failure(finished@.skip(index as int)),
        decreases finished.len() - index,
    {
        assert(finished@.skip(index as int)[0] == finished@[index as int]);
        assert(finished@.skip(index as int).drop_first() =~= finished@.skip(index + 1));
        if finished[index] != 0 {
            return FilesStep::Exit(finished[index]);
        }
        index += 1;
    }
    if finished.len() < options.files.len() {
        FilesStep::Format(finished.len())
    } else {
        FilesStep::Exit(0)
    }
}

/// The run that formats one file: manifest and configuration are those
/// nearest to the file; the formatter itself is run, fed through a pipe with
/// the text of the file; what it writes is caught and, if it succeeds,
/// replaces the text of the file. Nothing is run where the manifest or the
/// configuration cannot be had, or the file has no absolute path.
pub open spec fn file_plan(
    check: bool,
    additional_args: Seq<Seq<char>>,
    file: Seq<char>,
    fs: Snapshot,
) -> Result<(RunView, ActionView), XfmtError> {
    match edition_for(fs, file) {
        Err(e) => Err(e),
        Ok(edition) => match config_for(fs, file) {
            Err(e) => Err(e),
            Ok(config) => match absolute_path(file, option_text(fs.cwd)) {
                None => Err(XfmtError::Io(IoOperation::CurrentDir)),
                Some(path) => Ok(
                    (
                        started(
                            config,
                            rustfmt_invocation(
                                check,
                                edition,
                                config.config,
                                additional_args,
                                InputView::File(path),
                                Stream::Piped,
                            ),
                            Some(path),
                        ),
                        hiding(config),
                    ),
                ),
            },
        },
    }
}

/// Plans the formatting of one file and returns the run with its first
/// action.
pub fn rustfmt_one(file: &str, options: &RustfmtOptions, fs: &Snapshot) -> (r: Result<
    (Run, Action),
    XfmtError,
>)
    ensures
        plan_view(r) == file_plan(options.check, texts(options.additional_args@), file@, *fs),
{
    let cargo_toml = match CargoToml::read_from(file, fs) {
        Ok(cargo_toml) => cargo_toml,
        Err(e) => {
            return Err(e);
        },
    };
    let rustfmt_toml = match RustfmtToml::read_from(file, fs) {
        Ok(rustfmt_toml) => rustfmt_toml,
        Err(e) => {
            return Err(e);
        },
    };
    let cwd = match &fs.cwd {
        Some(cwd) => Some(cwd.as_str()),
        None => None,
    };
    let input_path = match path_to_absolute(file, cwd) {
        Ok(path) => path,
        Err(e) => {
            return Err(e);
        },
    };
    let invocation = rustfmt_command(
        options.check,
        &cargo_toml.edition,
        rustfmt_toml.config(),
        &options.additional_args,
        Input::File(input_path.clone()),
        Stream::Piped,
    );
    Ok(Run::new(rustfmt_toml, invocation, Some(input_path)))
}

/// The first failure ends the run: where a file ended with a code that is
/// not zero and all before it with zero, the run exits with that code,
/// whatever was noted after it and however many files are left.
pub proof fn lemma_first_failure_stops(file_count: nat, finished: Seq<i32>, k: int)
    requires
        0 <= k < finished.len(),
        finished[k] != 0,
        forall|i: int| 0 <= i < k ==> finished[i] == 0,
    ensures
        files_step(file_count, finished) == FilesStep::Exit(finished[k]),
    decreases k,
{
    if k > 0 {
        let rest = finished.drop_first();
        assert(rest[k - 1] == finished[k]);
        assert forall|i: int| 0 <= i < k - 1 implies rest[i] == 0 by {
            assert(rest[i] == finished[i + 1]);
        }
        lemma_first_failure_stops(file_count, rest, k - 1);
    }
}

/// A file is formatted only when every file before it ended with zero, and
/// it is the next in the list.
pub proof fn lemma_format_follows_success(file_count: nat, finished: Seq<i32>, index: usize)
    requires
        files_step(file_count, finished) == FilesStep::Format(index),
        file_count <= usize::MAX,
    ensures
        index == finished.len(),
        index < file_count,
        forall|i: int| 0 <= i < finished.len() ==> finished[i] == 0,
{
    lemma_no_failure(finished);
}

/// Where there is no first failure, every code is zero.
proof fn lemma_no_failure(codes: Seq<i32>)
    requires
        first_failure(codes) is None,
    ensures
        forall|i: int| 0 <= i < codes.len() ==> codes[i] == 0,
    decreases codes.len(),
{
    if codes.len() > 0 {
        let rest = codes.drop_first();
        lemma_no_failure(rest);
        assert forall|i: int| 0 <= i < codes.len() implies codes[i] == 0 by {
            if i > 0 {
                assert(codes[i] == rest[i - 1]);
            }
        }
    }
}

} // verus!
