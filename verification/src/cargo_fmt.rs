//! Formatting a whole project through the build tool.

use crate::error::IoOperation;
use crate::error::XfmtError;
use crate::invocation::config_arguments;
use crate::invocation::extend_args;
use crate::invocation::extend_config_args;
use crate::invocation::flag_if;
use crate::invocation::Input;
use crate::invocation::InputView;
use crate::invocation::Invocation;
use crate::invocation::InvocationView;
use crate::invocation::Stream;
use crate::run::hiding;
use crate::run::started;
use crate::run::Action;
use crate::run::ActionView;
use crate::run::Run;
use crate::run::RunView;
use crate::rustfmt_stdio::plan_view;
use crate::rustfmt_toml::config_for;
use crate::rustfmt_toml::RustfmtToml;
use crate::snapshot::Snapshot;
use crate::text::pair_texts;
use crate::text::texts;
use crate::vec_ext::after_first;
use crate::vec_ext::before_first;
use crate::vec_ext::split_at_first_occurrence;
use vstd::prelude::*;

verus! {

/// What was asked for on the command line.
#[derive(Debug, Clone, PartialEq, Eq)]
pub struct CargoFmtOptions {
    /// Only check the formatting.
    pub check: bool,
    /// Arguments for the build tool, then `--`, then arguments for the
    /// formatter.
    pub additional_args: Vec<String>,
}

/// The command that formats a project: the build tool's `fmt`, `--check`
/// if asked for, the additional arguments before the first `--`, then `--`,
/// the entries of the configuration, and the additional arguments after the
/// first `--`. No edition is given: the build tool knows it. All three
/// streams are those of this process.
pub open spec fn cargo_fmt_invocation(
    check: bool,
    entries: Seq<(Seq<char>, Seq<char>)>,
    additional_args: Seq<Seq<char>>,
) -> InvocationView {
    InvocationView {
        program: "cargo"@,
        args: seq!["fmt"@] + flag_if(check, "--check"@) + before_first(additional_args, "--"@)
            + seq!["--"@] + config_arguments(entries) + after_first(additional_args, "--"@),
        stdin: InputView::Inherit,
        stdout: Stream::Inherit,
        stderr: Stream::Inherit,
    }
}

/// Builds the command that formats a project.
pub fn cargo_fmt_command(
    check: bool,
    entries: &Vec<(String, String)>,
    additional_args: Vec<String>,
) -> (r: Invocation)
    ensures
        r@ == cargo_fmt_invocation(check, pair_texts(entries@), texts(additional_args@)),
{
    let separator = "--".to_owned();
    let (additional_cargo_args, additional_rustfmt_args) = split_at_first_occurrence(
        additional_args,
        &separator,
    );
    let mut args: Vec<String> = Vec::new();
    args.push("fmt".to_owned());
    assert(texts(args@) =~= seq!["fmt"@]);
    if check {
        args.push("--check".to_owned());
        assert(texts(args@) =~= seq!["fmt"@] + seq!["--check"@]);
    } else {
        assert(texts(args@) =~= seq!["fmt"@] + Seq::<Seq<char>>::empty());
    }
    extend_args(&mut args, &additional_cargo_args);
    let ghost front = texts(args@);
    args.push(separator);
    assert(texts(args@) =~= front + seq!["--"@]);
    extend_config_args(&mut args, entries);
    extend_args(&mut args, &additional_rustfmt_args);
    Invocation {
        program: "cargo".to_owned(),
        args,
        stdin: Input::Inherit,
        stdout: Stream::Inherit,
        stderr: Stream::Inherit,
    }
}

/// The run that formats the project of the working directory: the
/// configuration is that of the working directory. Nothing is run where the
/// working directory is unknown or the configuration cannot be had.
pub open spec fn project_plan(check: bool, additional_args: Seq<Seq<char>>, fs: Snapshot) -> Result<
    (RunView, ActionView),
    XfmtError,
> {
    match fs.cwd {
        None => Err(XfmtError::Io(IoOperation::CurrentDir)),
        Some(cwd) => match config_for(fs, cwd@) {
            Err(e) => Err(e),
            Ok(config) => Ok(
                (
                    started(
                        config,
                        cargo_fmt_invocation(check, config.config, additional_args),
                        None,
                    ),
                    hiding(config),
                ),
            ),
        },
    }
}

/// Plans the formatting of the project and returns the run with its first
/// action.
pub fn cargo_fmt(options: CargoFmtOptions, fs: &Snapshot) -> (r: Result<(Run, Action), XfmtError>)
    ensures
        plan_view(r) == project_plan(options.check, texts(options.additional_args@), *fs),
{
    let cwd = match &fs.cwd {
        Some(cwd) => cwd.as_str(),
        None => {
            return Err(XfmtError::Io(IoOperation::CurrentDir));
        },
    };
    let rustfmt_toml = match RustfmtToml::read_from(cwd, fs) {
        Ok(rustfmt_toml) => rustfmt_toml,
        Err(e) => {
            return Err(e);
        },
    };
    let invocation = cargo_fmt_command(
        options.check,
        rustfmt_toml.config(),
        options.additional_args,
    );
    Ok(Run::new(rustfmt_toml, invocation, None))
}

} // verus!
