//! Formatting the text that arrives on standard input.

use crate::cargo_toml::edition_for;
use crate::cargo_toml::CargoToml;
use crate::error::IoOperation;
use crate::error::XfmtError;
use crate::invocation::rustfmt_command;
use crate::invocation::rustfmt_invocation;
use crate::invocation::Input;
use crate::invocation::InputView;
use crate::invocation::Stream;
use crate::run::hiding;
use crate::run::started;
use crate::run::Action;
use crate::run::ActionView;
use crate::run::Run;
use crate::run::RunView;
use crate::rustfmt_toml::config_for;
use crate::rustfmt_toml::RustfmtToml;
use crate::snapshot::Snapshot;
use crate::text::texts;
use vstd::prelude::*;

verus! {

/// What was asked for on the command line.
#[derive(Debug, Clone, PartialEq, Eq)]
pub struct RustfmtStdioOptions {
    /// Only check the formatting.
    pub check: bool,
    /// Arguments handed on to the formatter as they came.
    pub additional_args: Vec<String>,
}

/// A run with the action that starts it, by their views.
pub open spec fn plan_view(r: Result<(Run, Action), XfmtError>) -> Result<
    (RunView, ActionView),
    XfmtError,
> {
    match r {
        Ok(plan) => Ok((plan.0@, plan.1@)),
        Err(e) => Err(e),
    }
}

/// The run that formats standard input: manifest and configuration are those
/// of the working directory; the formatter itself is run, fed through a pipe
/// with what this process reads, and writes where this process writes.
/// Nothing is run where the working directory is unknown, or the manifest or
/// the configuration cannot be had.
pub open spec fn stdio_plan(check: bool, additional_args: Seq<Seq<char>>, fs: Snapshot) -> Result<
    (RunView, ActionView),
    XfmtError,
> {
    match fs.cwd {
        None => Err(XfmtError::Io(IoOperation::CurrentDir)),
        Some(cwd) => match edition_for(fs, cwd@) {
            Err(e) => Err(e),
            Ok(edition) => match config_for(fs, cwd@) {
                Err(e) => Err(e),
                Ok(config) => Ok(
                    (
                        started(
                            config,
                            rustfmt_invocation(
                                check,
                                edition,
                                config.config,
                                additional_args,
                                InputView::OwnInput,
                                Stream::Inherit,
                            ),
                            None,
                        ),
                        hiding(config),
                    ),
                ),
            },
        },
    }
}

/// Plans the formatting of standard input and returns the run with its
/// first action.
pub fn rustfmt_stdio(options: RustfmtStdioOptions, fs: &Snapshot) -> (r: Result<
    (Run, Action),
    XfmtError,
>)
    ensures
        plan_view(r) == stdio_plan(options.check, texts(options.additional_args@), *fs),
{
    let cwd = match &fs.cwd {
        Some(cwd) => cwd.as_str(),
        None => {
            return Err(XfmtError::Io(IoOperation::CurrentDir));
        },
    };
    let cargo_toml = match CargoToml::read_from(cwd, fs) {
        Ok(cargo_toml) => cargo_toml,
        Err(e) => {
            return Err(e);
        },
    };
    let rustfmt_toml = match RustfmtToml::read_from(cwd, fs) {
        Ok(rustfmt_toml) => rustfmt_toml,
        Err(e) => {
            return Err(e);
        },
    };
    let invocation = rustfmt_command(
        options.check,
        &cargo_toml.edition,
        rustfmt_toml.config(),
        &options.additional_args,
        Input::OwnInput,
        Stream::Inherit,
    );
    Ok(Run::new(rustfmt_toml, invocation, None))
}

} // verus!
