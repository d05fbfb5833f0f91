//! What holds of the three modes together.

use crate::cargo_fmt::project_plan;
use crate::error::XfmtError;
use crate::run::hiding;
use crate::rustfmt::file_plan;
use crate::rustfmt_stdio::stdio_plan;
use crate::run::ActionView;
use crate::run::RunView;
use crate::rustfmt_toml::config_for;
use crate::snapshot::Snapshot;
use vstd::prelude::*;

verus! {

/// Where the configuration cannot be had, whatever the reason, no mode plans
/// a run: no file is renamed and no command is started.
pub proof fn lemma_no_config_no_run(
    check: bool,
    additional_args: Seq<Seq<char>>,
    file: Seq<char>,
    fs: Snapshot,
)
    ensures
        fs.cwd matches Some(cwd) && config_for(fs, cwd@) is Err ==> stdio_plan(
            check,
            additional_args,
            fs,
        ) is Err && project_plan(check, additional_args, fs) is Err,
        fs.cwd is None ==> stdio_plan(check, additional_args, fs) is Err && project_plan(
            check,
            additional_args,
            fs,
        ) is Err,
        config_for(fs, file) is Err ==> file_plan(check, additional_args, file, fs) is Err,
{
}

/// Whether a plan starts as it should: the configuration file visible and
/// in its place, the run coherent, and the first action the rename that
/// hides the file.
pub open spec fn starts_well(plan: Result<(RunView, ActionView), XfmtError>) -> bool {
    plan matches Ok(start) ==> {
        &&& !start.0.config.hidden
        &&& start.0.config.well_formed()
        &&& start.0.coherent()
        &&& start.1 == hiding(start.0.config)
    }
}

/// Every run that a mode plans starts well.
pub proof fn lemma_plans_start_well(
    check: bool,
    additional_args: Seq<Seq<char>>,
    file: Seq<char>,
    fs: Snapshot,
)
    ensures
        starts_well(stdio_plan(check, additional_args, fs)),
        starts_well(project_plan(check, additional_args, fs)),
        starts_well(file_plan(check, additional_args, file, fs)),
{
}

} // verus!
