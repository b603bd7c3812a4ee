//! The task as a sequence of steps, decided one event at a time.
//!
//! A `Run` never does anything itself. It says which action it awaits, the
//! caller carries that action out and reports what came of it, and the run
//! moves on: to the next step of the script while every step succeeds, and
//! to the removal of the workspace and the end as soon as one does not.

use vstd::prelude::*;
use vstd::string::*;
use crate::command::{
    build, build_of, checkout, checkout_of, copy, copy_of, fetch, fetch_of, listing, listing_of,
    Command, CommandView,
};
use crate::layout::{binding_root, binding_root_of, include_root, include_root_of, stamp_path, stamp_path_of};
use crate::paths::{is_absolute, starts_at_root};
use crate::pin::{allow_list, allow_listed, LIBRARY_TARGET, TOOLCHAIN_TARGET, WORKSPACE_PREFIX};
use crate::stamp::{fingerprint, fingerprint_of, stamp, stamp_of};

verus! {

/// One step of the script, in the order in which the steps are taken.
#[derive(Clone, Copy, Debug, PartialEq, Eq, Structural)]
pub enum Step {
    /// Staging: the ephemeral workspace is created.
    Stage,
    /// Acquisition: the pinned release is fetched into the workspace.
    Fetch,
    /// Build, first half: the cross-compilation toolchain is installed.
    Toolchain,
    /// Build, second half: the release shared library is built.
    Library,
    /// Vendoring: the entry of the allow-list with this index is copied.
    Vendor(usize),
    /// Stamping, first half: the index of the fetched tree is listed.
    Inspect,
    /// Stamping, second half: the stamp file is written.
    Stamp,
    /// The workspace is removed after everything else succeeded.
    Cleanup,
}

/// How a run ended.
#[derive(Clone, Copy, Debug, PartialEq, Eq, Structural)]
pub enum Outcome {
    /// Every step succeeded.
    Completed,
    /// This step did not succeed, and no later step was taken.
    Aborted(Step),
}

/// Where a run stands.
#[derive(Clone, Copy, Debug, PartialEq, Eq, Structural)]
pub enum Cursor {
    /// The action of this step is awaited.
    Awaiting(Step),
    /// This step failed, and the removal of the workspace is awaited.
    Closing(Step),
    /// The run is over.
    Ended(Outcome),
}

/// What the caller reports back after carrying out an action.
#[derive(Clone, Debug, PartialEq, Eq)]
pub enum Event {
    /// The workspace was created at this path.
    Created(String),
    /// The action succeeded and has nothing to hand back.
    Succeeded,
    /// The command succeeded and printed this on standard output.
    Output(String),
    /// The action failed.
    Failed,
}

/// What an `Event` holds, as mathematical values.
pub enum EventView {
    Created(Seq<char>),
    Succeeded,
    Output(Seq<char>),
    Failed,
}

impl View for Event {
    type V = EventView;

    open spec fn view(&self) -> EventView {
        match self {
            Event::Created(path) => EventView::Created(path@),
            Event::Succeeded => EventView::Succeeded,
            Event::Output(text) => EventView::Output(text@),
            Event::Failed => EventView::Failed,
        }
    }
}

/// What a run asks its caller to do.
#[derive(Clone, Debug, PartialEq, Eq)]
pub enum Action {
    /// Create a fresh, uniquely named directory whose name starts with
    /// `prefix`, and report its path.
    CreateWorkspace { prefix: String },
    /// Run the command to its end.
    Execute(Command),
    /// Run the command to its end and report what it printed.
    Capture(Command),
    /// Write `contents` to the file at `path`, replacing what it held.
    WriteFile { path: String, contents: String },
    /// Remove the workspace at `path` with everything in it.
    RemoveWorkspace { path: String },
    /// Nothing is left to do: the run ended in this way.
    Finish(Outcome),
}

/// What an `Action` holds, as mathematical values.
pub enum ActionView {
    CreateWorkspace { prefix: Seq<char> },
    Execute(CommandView),
    Capture(CommandView),
    WriteFile { path: Seq<char>, contents: Seq<char> },
    RemoveWorkspace { path: Seq<char> },
    Finish(Outcome),
}

impl View for Action {
    type V = ActionView;

    open spec fn view(&self) -> ActionView {
        match self {
            Action::CreateWorkspace { prefix } => ActionView::CreateWorkspace { prefix: prefix@ },
            Action::Execute(command) => ActionView::Execute(command@),
            Action::Capture(command) => ActionView::Capture(command@),
            Action::WriteFile { path, contents } => ActionView::WriteFile {
                path: path@,
                contents: contents@,
            },
            Action::RemoveWorkspace { path } => ActionView::RemoveWorkspace { path: path@ },
            Action::Finish(outcome) => ActionView::Finish(*outcome),
        }
    }
}

/// One run of the task.
#[derive(Debug, PartialEq, Eq)]
pub struct Run {
    origin: String,
    binding: String,
    workspace: String,
    fingerprint: String,
    cursor: Cursor,
}

/// What a `Run` holds, as mathematical values.
pub struct RunView {
    /// Directory the task was started from.
    pub origin: Seq<char>,
    /// Root of the binding crate, computed from `origin` when the run began.
    pub binding: Seq<char>,
    /// Path of the workspace; empty until it has been created.
    pub workspace: Seq<char>,
    /// Fingerprint of the fetched tree; empty until it has been listed.
    pub fingerprint: Seq<char>,
    /// Where the run stands.
    pub cursor: Cursor,
}

impl View for Run {
    type V = RunView;

    closed spec fn view(&self) -> RunView {
        RunView {
            origin: self.origin@,
            binding: self.binding@,
            workspace: self.workspace@,
            fingerprint: self.fingerprint@,
            cursor: self.cursor,
        }
    }
}

/// Whether `event` reports that `step` succeeded. Staging hands back the
/// path of the workspace and the listing hands back its output; every other
/// step just succeeds. Any other event counts as a failure of the step.
pub open spec fn answers(step: Step, event: EventView) -> bool {
    match step {
        Step::Stage => event is Created,
        Step::Inspect => event is Output,
        _ => event is Succeeded,
    }
}

/// The step that comes after `step` in the script, if any.
pub open spec fn following(step: Step) -> Option<Step> {
    match step {
        Step::Stage => Some(Step::Fetch),
        Step::Fetch => Some(Step::Toolchain),
        Step::Toolchain => Some(Step::Library),
        Step::Library => Some(Step::Vendor(0)),
        Step::Vendor(index) => if index + 1 < allow_list().len() {
            Some(Step::Vendor((index + 1) as usize))
        } else {
            Some(Step::Inspect)
        },
        Step::Inspect => Some(Step::Stamp),
        Step::Stamp => Some(Step::Cleanup),
        Step::Cleanup => None,
    }
}

/// Position of `step` in the script, counted from the first step.
pub open spec fn rank(step: Step) -> int {
    match step {
        Step::Stage => 0,
        Step::Fetch => 1,
        Step::Toolchain => 2,
        Step::Library => 3,
        Step::Vendor(index) => 4 + index,
        Step::Inspect => 4 + allow_list().len() as int,
        Step::Stamp => 5 + allow_list().len() as int,
        Step::Cleanup => 6 + allow_list().len() as int,
    }
}

/// The run after it has taken in what a successful `event` hands back.
pub open spec fn noted(run: RunView, event: EventView) -> RunView {
    match event {
        EventView::Created(path) => RunView { workspace: path, ..run },
        EventView::Output(text) => RunView { fingerprint: fingerprint_of(text), ..run },
        _ => run,
    }
}

/// The action that carries out `step`.
pub open spec fn work(run: RunView, step: Step) -> ActionView {
    let tree = checkout_of(run.workspace);
    match step {
        Step::Stage => ActionView::CreateWorkspace { prefix: WORKSPACE_PREFIX@ },
        Step::Fetch => ActionView::Execute(fetch_of(run.workspace)),
        Step::Toolchain => ActionView::Execute(build_of(tree, TOOLCHAIN_TARGET@)),
        Step::Library => ActionView::Execute(build_of(tree, LIBRARY_TARGET@)),
        Step::Vendor(index) => ActionView::Execute(
            copy_of(tree, allow_list()[index as int], include_root_of(run.binding)),
        ),
        Step::Inspect => ActionView::Capture(listing_of(tree)),
        Step::Stamp => ActionView::WriteFile {
            path: stamp_path_of(run.binding),
            contents: stamp_of(run.fingerprint),
        },
        Step::Cleanup => ActionView::RemoveWorkspace { path: run.workspace },
    }
}

/// The run at its start: it awaits staging, unless `origin` is not an
/// absolute path. From such a starting directory no destination can be
/// derived that stays valid, so the run is over before anything is done.
pub open spec fn begun(origin: Seq<char>) -> RunView {
    RunView {
        origin,
        binding: binding_root_of(origin),
        workspace: Seq::empty(),
        fingerprint: Seq::empty(),
        cursor: if is_absolute(origin) {
            Cursor::Awaiting(Step::Stage)
        } else {
            Cursor::Ended(Outcome::Aborted(Step::Stage))
        },
    }
}

/// The action that `run` awaits.
pub open spec fn awaited(run: RunView) -> ActionView {
    match run.cursor {
        Cursor::Awaiting(step) => work(run, step),
        Cursor::Closing(_) => ActionView::RemoveWorkspace { path: run.workspace },
        Cursor::Ended(outcome) => ActionView::Finish(outcome),
    }
}

/// The run after `event` has been reported to it.
///
/// While a step is awaited, an event that answers it moves the run to the
/// following step, or to a completed end after the last one. Any other
/// event aborts the run at that step: through the removal of the workspace
/// where there is one to remove, and at once where staging or the removal
/// itself failed. Whatever is reported of the removal after a failure, the
/// run then ends as aborted at the step that failed. A run that is over
/// stays as it is.
pub open spec fn absorbed(run: RunView, event: EventView) -> RunView {
    match run.cursor {
        Cursor::Awaiting(step) => if answers(step, event) {
            RunView {
                cursor: match following(step) {
                    Some(next) => Cursor::Awaiting(next),
                    None => Cursor::Ended(Outcome::Completed),
                },
                ..noted(run, event)
            }
        } else if step is Stage || step is Cleanup {
            RunView { cursor: Cursor::Ended(Outcome::Aborted(step)), ..run }
        } else {
            RunView { cursor: Cursor::Closing(step), ..run }
        },
        Cursor::Closing(step) => RunView { cursor: Cursor::Ended(Outcome::Aborted(step)), ..run },
        Cursor::Ended(_) => run,
    }
}

/// How `run` ended, if it is over.
pub open spec fn ended(run: RunView) -> Option<Outcome> {
    match run.cursor {
        Cursor::Ended(outcome) => Some(outcome),
        _ => None,
    }
}

impl Run {
    /// A run only ever awaits the copy of an entry that the allow-list has.
    #[verifier::type_invariant]
    closed spec fn within_allow_list(&self) -> bool {
        self.cursor matches Cursor::Awaiting(Step::Vendor(index)) ==> index < allow_list().len()
    }

    /// Begins a run of the task started from the directory `origin`.
    pub fn begin(origin: &str) -> (res: Run)
        ensures
            res@ == begun(origin@),
    {
        let cursor = if starts_at_root(origin) {
            Cursor::Awaiting(Step::Stage)
        } else {
            Cursor::Ended(Outcome::Aborted(Step::Stage))
        };
        Run {
            origin: String::from_str(origin),
            binding: binding_root(origin),
            workspace: String::new(),
            fingerprint: String::new(),
            cursor,
        }
    }

    /// The action that the run awaits.
    pub fn pending(&self) -> (res: Action)
        ensures
            res@ == awaited(self@),
    {
        proof {
            use_type_invariant(self);
        }
        match self.cursor {
            Cursor::Awaiting(step) => {
                match step {
                    Step::Stage => Action::CreateWorkspace {
                        prefix: String::from_str(WORKSPACE_PREFIX),
                    },
                    Step::Fetch => Action::Execute(fetch(self.workspace.as_str())),
                    Step::Toolchain => {
                        let tree = checkout(self.workspace.as_str());
                        Action::Execute(build(tree.as_str(), TOOLCHAIN_TARGET))
                    },
                    Step::Library => {
                        let tree = checkout(self.workspace.as_str());
                        Action::Execute(build(tree.as_str(), LIBRARY_TARGET))
                    },
                    Step::Vendor(index) => {
                        let tree = checkout(self.workspace.as_str());
                        let destination = include_root(self.binding.as_str());
                        let entries = allow_listed();
                        assert(entries.deep_view()[index as int] == entries@[index as int]@);
                        Action::Execute(copy(tree.as_str(), entries[index], destination.as_str()))
                    },
                    Step::Inspect => {
                        let tree = checkout(self.workspace.as_str());
                        Action::Capture(listing(tree.as_str()))
                    },
                    Step::Stamp => Action::WriteFile {
                        path: stamp_path(self.binding.as_str()),
                        contents: stamp(self.fingerprint.as_str()),
                    },
                    Step::Cleanup => Action::RemoveWorkspace { path: self.workspace.clone() },
                }
            },
            Cursor::Closing(_) => Action::RemoveWorkspace { path: self.workspace.clone() },
            Cursor::Ended(outcome) => Action::Finish(outcome),
        }
    }

    /// Reports `event` to the run and returns the run as it then stands,
    /// with the action that it awaits next.
    pub fn advance(self, event: Event) -> (res: (Run, Action))
        ensures
            res.0@ == absorbed(self@, event@),
            res.1@ == awaited(res.0@),
    {
        proof {
            use_type_invariant(&self);
        }
        let next = match self.cursor {
            Cursor::Awaiting(step) => {
                match (step, event) {
                    (Step::Stage, Event::Created(path)) => Run {
                        workspace: path,
                        cursor: Cursor::Awaiting(Step::Fetch),
                        ..self
                    },
                    (Step::Fetch, Event::Succeeded) => Run {
                        cursor: Cursor::Awaiting(Step::Toolchain),
                        ..self
                    },
                    (Step::Toolchain, Event::Succeeded) => Run {
                        cursor: Cursor::Awaiting(Step::Library),
                        ..self
                    },
                    (Step::Library, Event::Succeeded) => Run {
                        cursor: Cursor::Awaiting(Step::Vendor(0)),
                        ..self
                    },
                    (Step::Vendor(index), Event::Succeeded) => {
                        if index + 1 < allow_listed().len() {
                            Run { cursor: Cursor::Awaiting(Step::Vendor(index + 1)), ..self }
                        } else {
                            Run { cursor: Cursor::Awaiting(Step::Inspect), ..self }
                        }
                    },
                    (Step::Inspect, Event::Output(text)) => Run {
                        fingerprint: fingerprint(text.as_str()),
                        cursor: Cursor::Awaiting(Step::Stamp),
                        ..self
                    },
                    (Step::Stamp, Event::Succeeded) => Run {
                        cursor: Cursor::Awaiting(Step::Cleanup),
                        ..self
                    },
                    (Step::Cleanup, Event::Succeeded) => Run {
                        cursor: Cursor::Ended(Outcome::Completed),
                        ..self
                    },
                    (Step::Stage, _) => Run {
                        cursor: Cursor::Ended(Outcome::Aborted(Step::Stage)),
                        ..self
                    },
                    (Step::Cleanup, _) => Run {
                        cursor: Cursor::Ended(Outcome::Aborted(Step::Cleanup)),
                        ..self
                    },
                    (failed, _) => Run { cursor: Cursor::Closing(failed), ..self },
                }
            },
            Cursor::Closing(step) => Run { cursor: Cursor::Ended(Outcome::Aborted(step)), ..self },
            Cursor::Ended(_) => self,
        };
        let action = next.pending();
        (next, action)
    }

    /// Where the run stands.
    pub fn cursor(&self) -> (res: Cursor)
        ensures
            res == self@.cursor,
    {
        self.cursor
    }

    /// How the run ended, once it is over.
    pub fn outcome(&self) -> (res: Option<Outcome>)
        ensures
            res == ended(self@),
    {
        match self.cursor {
            Cursor::Ended(outcome) => Some(outcome),
            _ => None,
        }
    }

    /// The directory that receives the headers.
    pub fn destination(&self) -> (res: String)
        ensures
            res@ == include_root_of(self@.binding),
    {
        include_root(self.binding.as_str())
    }
}

} // verus!
