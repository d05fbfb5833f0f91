//! One command run with the configuration file out of the way.
//!
//! The run decides; the caller acts. Each `Action` is carried out by the
//! caller, who reports what happened as an `Event` and gets the next action,
//! until the action is `Finish`.

use crate::error::IoOperation;
use crate::error::XfmtError;
use crate::invocation::Invocation;
use crate::invocation::InvocationView;
use crate::rustfmt_toml::Rename;
use crate::rustfmt_toml::RustfmtToml;
use crate::rustfmt_toml::RustfmtTomlView;
use crate::text::option_text;
use vstd::prelude::*;

verus! {

/// How far a run has come.
#[derive(Debug, Clone, Copy, PartialEq, Eq, Structural)]
pub enum Phase {
    /// The rename that hides the configuration file is under way.
    Hiding,
    /// The command is under way.
    Running,
    /// The command succeeded and its output is being written to the file.
    Storing,
    /// The rename that brings the configuration file back is under way.
    Restoring,
    /// The run is over.
    Finished,
}

/// What the caller observed when it carried out an action.
#[derive(Debug, Clone, Copy, PartialEq, Eq)]
pub enum Event {
    /// A rename was tried; `true` if it succeeded.
    Renamed(bool),
    /// The command could not be started.
    SpawnFailed,
    /// The command was started, but reading its input, feeding it or waiting
    /// for it failed.
    Failed(IoOperation),
    /// The command ended, with this status code; `None` where it has none,
    /// as after a signal.
    Exited(Option<i32>),
    /// Writing the output was tried; `true` if it succeeded.
    Stored(bool),
}

/// What the caller is to do next.
#[derive(Debug, PartialEq, Eq)]
pub enum Action {
    /// Rename a file.
    Rename(Rename),
    /// Start the command, feed it as it says, and wait for it.
    Spawn(Invocation),
    /// Replace the content of the file at this path by what the command
    /// wrote to its standard output.
    Store(String),
    /// Stop: exit with this status code, or report this error.
    Finish(Result<i32, XfmtError>),
}

/// An action with its strings as text.
pub enum ActionView {
    Rename { from: Seq<char>, to: Seq<char> },
    Spawn(InvocationView),
    Store(Seq<char>),
    Finish(Result<i32, XfmtError>),
}

impl View for Action {
    type V = ActionView;

    open spec fn view(&self) -> ActionView {
        match *self {
            Action::Rename(rename) => ActionView::Rename { from: rename.from@, to: rename.to@ },
            Action::Spawn(invocation) => ActionView::Spawn(invocation@),
            Action::Store(path) => ActionView::Store(path@),
            Action::Finish(outcome) => ActionView::Finish(outcome),
        }
    }
}

/// A command, the configuration that is hidden around it, and how far the
/// run has come.
#[derive(Debug, PartialEq, Eq)]
pub struct Run {
    config: RustfmtToml,
    invocation: Invocation,
    store: Option<String>,
    phase: Phase,
    outcome: Result<i32, XfmtError>,
}

/// A run with its strings as text.
pub struct RunView {
    pub config: RustfmtTomlView,
    pub invocation: InvocationView,
    /// The file that takes the command's output if the command succeeds.
    pub store: Option<Seq<char>>,
    pub phase: Phase,
    /// What the run finishes with, from the moment that is settled.
    pub outcome: Result<i32, XfmtError>,
}

impl View for Run {
    type V = RunView;

    closed spec fn view(&self) -> RunView {
        RunView {
            config: self.config@,
            invocation: self.invocation@,
            store: option_text(self.store),
            phase: self.phase,
            outcome: self.outcome,
        }
    }
}

/// The status code of this process after a child with this status: the
/// child's own, or 1 where it has none.
pub open spec fn exit_code(status: Option<i32>) -> i32 {
    match status {
        Some(code) => code,
        None => 1,
    }
}

/// The run as it starts: about to hide the configuration file.
pub open spec fn started(
    config: RustfmtTomlView,
    invocation: InvocationView,
    store: Option<Seq<char>>,
) -> RunView {
    RunView { config, invocation, store, phase: Phase::Hiding, outcome: Ok(0) }
}

/// The rename that hides the configuration file.
pub open spec fn hiding(config: RustfmtTomlView) -> ActionView {
    ActionView::Rename { from: config.config_path, to: config.shadow_path }
}

/// The rename that brings the configuration file back.
pub open spec fn restoring(config: RustfmtTomlView) -> ActionView {
    ActionView::Rename { from: config.shadow_path, to: config.config_path }
}

/// The command is over, one way or another: bring the file back, and keep
/// what the run will finish with.
pub open spec fn restore(run: RunView, outcome: Result<i32, XfmtError>) -> (RunView, ActionView) {
    (RunView { phase: Phase::Restoring, outcome, ..run }, restoring(run.config))
}

/// The run is over.
pub open spec fn finish(run: RunView, outcome: Result<i32, XfmtError>) -> (RunView, ActionView) {
    (RunView { phase: Phase::Finished, outcome, ..run }, ActionView::Finish(outcome))
}

/// The state after `event`, and the next action.
///
/// The file is hidden, then the command runs, then its output is stored if
/// it succeeded and there is a file to take it, then the file is brought
/// back, then the run finishes. A failed hiding finishes the run at once.
/// Whatever happens to the command, the file is brought back before the run
/// finishes. A run that went well finishes with the child's code; one that
/// went wrong, with its first error. An event that does not answer the
/// action under way counts as the failure of that action.
pub open spec fn step(run: RunView, event: Event) -> (RunView, ActionView) {
    match run.phase {
        Phase::Hiding => match event {
            Event::Renamed(true) => (
                RunView {
                    config: RustfmtTomlView { hidden: true, ..run.config },
                    phase: Phase::Running,
                    ..run
                },
                ActionView::Spawn(run.invocation),
            ),
            _ => finish(run, Err(XfmtError::Io(IoOperation::Rename))),
        },
        Phase::Running => match event {
            Event::Exited(status) => if status == Some(0i32) && run.store is Some {
                (RunView { phase: Phase::Storing, ..run }, ActionView::Store(run.store.unwrap()))
            } else {
                restore(run, Ok(exit_code(status)))
            },
            Event::SpawnFailed => restore(run, Err(XfmtError::SpawnFailure)),
            Event::Failed(operation) => restore(run, Err(XfmtError::Io(operation))),
            _ => restore(run, Err(XfmtError::Io(IoOperation::Child))),
        },
        Phase::Storing => match event {
            Event::Stored(true) => restore(run, Ok(0)),
            _ => restore(run, Err(XfmtError::Io(IoOperation::Write))),
        },
        Phase::Restoring => match event {
            Event::Renamed(true) => finish(
                RunView { config: RustfmtTomlView { hidden: false, ..run.config }, ..run },
                run.outcome,
            ),
            _ => finish(
                run,
                match run.outcome {
                    Ok(_) => Err(XfmtError::Io(IoOperation::Rename)),
                    Err(e) => Err(e),
                },
            ),
        },
        Phase::Finished => (run, ActionView::Finish(run.outcome)),
    }
}

impl RunView {
    /// The flag of the configuration says where the file lies: it is set
    /// from the moment the hiding rename succeeded until the rename back
    /// succeeded. After a run that finished it may still be set: then the
    /// rename back was tried and failed.
    pub open spec fn coherent(self) -> bool {
        match self.phase {
            Phase::Hiding => !self.config.hidden,
            Phase::Running => self.config.hidden,
            Phase::Storing => self.config.hidden,
            Phase::Restoring => self.config.hidden,
            Phase::Finished => true,
        }
    }
}

impl Run {
    /// Starts a run of `invocation` around `config`. `store` names the file
    /// that takes the command's output if the command succeeds. The first
    /// action hides the configuration file.
    pub fn new(config: RustfmtToml, invocation: Invocation, store: Option<String>) -> (r: (
        Run,
        Action,
    ))
        ensures
            r.0@ == started(config@, invocation@, option_text(store)),
            r.1@ == hiding(config@),
    {
        let first = Action::Rename(config.hiding());
        (Run { config, invocation, store, phase: Phase::Hiding, outcome: Ok(0) }, first)
    }

    /// Takes note of `event` and says what to do next.
    pub fn advance(&mut self, event: Event) -> (r: Action)
        ensures
            (final(self)@, r@) == step(old(self)@, event),
    {
        match self.phase {
            Phase::Hiding => match event {
                Event::Renamed(true) => {
                    let _ = self.config.hide_file(true);
                    self.phase = Phase::Running;
                    Action::Spawn(self.invocation.clone_invocation())
                },
                _ => self.finish(Err(XfmtError::Io(IoOperation::Rename))),
            },
            Phase::Running => match event {
                Event::Exited(status) => {
                    let succeeded = match status {
                        Some(code) => code == 0,
                        None => false,
                    };
                    match &self.store {
                        Some(path) if succeeded => {
                            let path = path.clone();
                            self.phase = Phase::Storing;
                            Action::Store(path)
                        },
                        _ => {
                            let code = match status {
                                Some(code) => code,
                                None => 1,
                            };
                            self.restore(Ok(code))
                        },
                    }
                },
                Event::SpawnFailed => self.restore(Err(XfmtError::SpawnFailure)),
                Event::Failed(operation) => self.restore(Err(XfmtError::Io(operation))),
                _ => self.restore(Err(XfmtError::Io(IoOperation::Child))),
            },
            Phase::Storing => match event {
                Event::Stored(true) => self.restore(Ok(0)),
                _ => self.restore(Err(XfmtError::Io(IoOperation::Write))),
            },
            Phase::Restoring => match event {
                Event::Renamed(true) => {
                    let _ = self.config.unhide(true);
                    let outcome = self.outcome;
                    self.finish(outcome)
                },
                _ => {
                    let outcome = match self.outcome {
                        Ok(_) => Err(XfmtError::Io(IoOperation::Rename)),
                        Err(e) => Err(e),
                    };
                    self.finish(outcome)
                },
            },
            Phase::Finished => Action::Finish(self.outcome),
        }
    }

    fn restore(&mut self, outcome: Result<i32, XfmtError>) -> (r: Action)
        ensures
            (final(self)@, r@) == restore(old(self)@, outcome),
    {
        self.phase = Phase::Restoring;
        self.outcome = outcome;
        Action::Rename(self.config.unhiding())
    }

    fn finish(&mut self, outcome: Result<i32, XfmtError>) -> (r: Action)
        ensures
            (final(self)@, r@) == finish(old(self)@, outcome),
    {
        self.phase = Phase::Finished;
        self.outcome = outcome;
        Action::Finish(outcome)
    }

    /// How far the run has come.
    pub fn phase(&self) -> (r: Phase)
        ensures
            r == self@.phase,
    {
        self.phase
    }

    /// The configuration of the run.
    pub fn config(&self) -> (r: &RustfmtToml)
        ensures
            r@ == self@.config,
    {
        &self.config
    }

    /// What is left to do when the run is abandoned: the rename back if the
    /// configuration file is still hidden, nothing otherwise.
    pub fn teardown(&self) -> (r: Option<Rename>)
        ensures
            r is Some == self@.config.hidden,
            r matches Some(rename) ==> rename.from@ == self@.config.shadow_path && rename.to@
                == self@.config.config_path,
    {
        self.config.teardown()
    }
}

/// A run that starts with a visible file stays coherent, step by step.
pub proof fn lemma_step_keeps_coherent(run: RunView, event: Event)
    requires
        run.coherent(),
    ensures
        step(run, event).0.coherent(),
{
}

/// A run does not finish behind the back of a hidden file: the action is
/// `Finish` only after the rename back was tried, or where the file was never
/// hidden. The file is still hidden after the run only if that rename failed.
pub proof fn lemma_finish_comes_after_restore(run: RunView, event: Event)
    requires
        run.coherent(),
        run.phase != Phase::Finished,
        step(run, event).1 is Finish,
    ensures
        run.phase == Phase::Hiding || run.phase == Phase::Restoring,
        step(run, event).0.config.hidden ==> run.phase == Phase::Restoring && event
            != Event::Renamed(true),
{
}

/// Where the command cannot be started, the next action brings the file
/// back, and the run finishes with `SpawnFailure` only after that rename was
/// tried; if it succeeded, the file is visible again.
pub proof fn lemma_spawn_failure_restores(run: RunView, renamed: bool)
    requires
        run.phase == Phase::Running,
    ensures
        step(run, Event::SpawnFailed).1 == restoring(run.config),
        step(step(run, Event::SpawnFailed).0, Event::Renamed(renamed)).1 == ActionView::Finish(
            Err(XfmtError::SpawnFailure),
        ),
        renamed ==> !step(
            step(run, Event::SpawnFailed).0,
            Event::Renamed(renamed),
        ).0.config.hidden,
{
}

/// A run in which every action succeeds and the child ends with `code`
/// finishes with `code`, the file visible again.
pub proof fn lemma_plain_run(
    config: RustfmtTomlView,
    invocation: InvocationView,
    code: i32,
)
    ensures
        ({
            let hidden = step(started(config, invocation, None), Event::Renamed(true));
            let ended = step(hidden.0, Event::Exited(Some(code)));
            let restored = step(ended.0, Event::Renamed(true));
            &&& hidden.1 == ActionView::Spawn(invocation)
            &&& ended.1 == restoring(config)
            &&& restored.1 == ActionView::Finish(Ok(code))
            &&& !restored.0.config.hidden
        }),
{
}

} // verus!
