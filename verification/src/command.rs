//! The command line as it was parsed, and the mode it selects.

use crate::cargo_fmt::CargoFmtOptions;
use crate::rustfmt::RustfmtOptions;
use crate::rustfmt_stdio::RustfmtStdioOptions;
use crate::text::same_text;
use crate::text::texts;
use vstd::prelude::*;

verus! {

/// What the command line says.
#[derive(Debug, Clone, PartialEq, Eq)]
pub struct Command {
    /// A configuration file named on the command line.
    pub config: Option<String>,
    /// Only check the formatting.
    pub check: bool,
    /// The files to format.
    pub files: Vec<String>,
    /// Everything after the separator of raw arguments, in order.
    pub additional_args: Vec<String>,
}

/// The three ways to run, each with what it needs from the command line.
#[derive(Debug, Clone, PartialEq, Eq)]
pub enum InvocationMode {
    /// Format the text on standard input.
    Stdio(RustfmtStdioOptions),
    /// Format the given files in place.
    Files(RustfmtOptions),
    /// Format the whole project.
    Project(CargoFmtOptions),
}

/// A mode with its strings as text.
pub enum InvocationModeView {
    Stdio { check: bool, additional_args: Seq<Seq<char>> },
    Files { check: bool, files: Seq<Seq<char>>, additional_args: Seq<Seq<char>> },
    Project { check: bool, additional_args: Seq<Seq<char>> },
}

impl View for InvocationMode {
    type V = InvocationModeView;

    open spec fn view(&self) -> InvocationModeView {
        match *self {
            InvocationMode::Stdio(options) => InvocationModeView::Stdio {
                check: options.check,
                additional_args: texts(options.additional_args@),
            },
            InvocationMode::Files(options) => InvocationModeView::Files {
                check: options.check,
                files: texts(options.files@),
                additional_args: texts(options.additional_args@),
            },
            InvocationMode::Project(options) => InvocationModeView::Project {
                check: options.check,
                additional_args: texts(options.additional_args@),
            },
        }
    }
}

/// The mode that a command line selects: standard input if it is no
/// terminal; else the files, if any were named; else the project.
pub open spec fn selected_mode(
    check: bool,
    files: Seq<Seq<char>>,
    additional_args: Seq<Seq<char>>,
    stdin_is_terminal: bool,
) -> InvocationModeView {
    if !stdin_is_terminal {
        InvocationModeView::Stdio { check, additional_args }
    } else if files.len() > 0 {
        InvocationModeView::Files { check, files, additional_args }
    } else {
        InvocationModeView::Project { check, additional_args }
    }
}

/// The arguments without the name under which the build tool called the
/// program: where the second argument is `xfmt`, the first is dropped.
pub open spec fn own_arguments(args: Seq<Seq<char>>) -> Seq<Seq<char>> {
    if args.len() > 1 && args[1] == "xfmt"@ {
        args.drop_first()
    } else {
        args
    }
}

/// Drops the first argument where the program was called as a subcommand
/// of the build tool, so that both ways of calling parse alike.
pub fn strip_subcommand(args: Vec<String>) -> (r: Vec<String>)
    ensures
        texts(r@) == own_arguments(texts(args@)),
{
    let mut args = args;
    if args.len() > 1 && same_text(args[1].as_str(), "xfmt") {
        let ghost before = texts(args@);
        let _ = args.remove(0);
        assert(texts(args@) =~= before.drop_first());
    }
    args
}

impl Command {
    /// Selects the mode. `stdin_is_terminal` says whether standard input is
    /// an interactive terminal.
    pub fn mode(self, stdin_is_terminal: bool) -> (r: InvocationMode)
        ensures
            r@ == selected_mode(
                self.check,
                texts(self.files@),
                texts(self.additional_args@),
                stdin_is_terminal,
            ),
    {
        if !stdin_is_terminal {
            InvocationMode::Stdio(
                RustfmtStdioOptions { check: self.check, additional_args: self.additional_args },
            )
        } else if self.files.len() > 0 {
            InvocationMode::Files(
                RustfmtOptions {
                    check: self.check,
                    files: self.files,
                    additional_args: self.additional_args,
                },
            )
        } else {
            InvocationMode::Project(
                CargoFmtOptions { check: self.check, additional_args: self.additional_args },
            )
        }
    }
}

} // verus!
