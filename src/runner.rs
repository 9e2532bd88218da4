//! One run of a typed script, as a state machine.
//!
//! The run reads the typed script, writes the erased text beside it, has the
//! engine execute that artifact, and removes the artifact again, whether the
//! script succeeded or not. The machine decides; the caller performs each
//! action it hands out and reports back what happened as an event.
use vstd::prelude::*;
use crate::erase::{artifact_path, erased, strip_types};

verus! {

/// Where a run stands.
#[derive(Clone, Copy, Debug, PartialEq, Eq, Structural)]
pub enum Stage {
    /// Waiting for the typed script to be read.
    Erasing,
    /// Waiting for the erased text to be written to the artifact.
    Erased,
    /// Waiting for the engine to execute the artifact.
    Executing,
    /// Waiting for the artifact to be removed.
    CleaningUp,
    /// The run is over.
    Done,
}

/// A step of the run that touches the file system.
#[derive(Clone, Copy, Debug, PartialEq, Eq, Structural)]
pub enum IoStep {
    ReadSource,
    WriteArtifact,
    RemoveArtifact,
}

/// Why a run failed.
#[derive(Clone, Copy, Debug, PartialEq, Eq, Structural)]
pub enum RunError {
    /// A file could not be read, written or removed.
    Io(IoStep),
    /// The engine reported that the script failed.
    Execution,
}

/// What happened when the caller performed the last action.
#[derive(Debug)]
pub enum Event {
    SourceRead(String),
    SourceUnreadable,
    ArtifactWritten,
    ArtifactUnwritable,
    ScriptSucceeded,
    ScriptFailed,
    ArtifactRemoved,
    ArtifactNotRemoved,
}

/// What the caller is to do next.
#[derive(Debug)]
pub enum Action {
    /// Read the file at this path.
    ReadSource(String),
    /// Write this text to the file at this path, replacing what is there.
    WriteArtifact(String, String),
    /// Have the engine execute the file at this path.
    Execute(String),
    /// Remove the file at this path.
    RemoveArtifact(String),
    /// The run is over, with this outcome.
    Finish(Result<(), RunError>),
    /// The event was not the one awaited: nothing changed.
    Ignore,
}

/// The abstract state of a run.
pub struct RunModel {
    pub stage: Stage,
    /// The artifact was written and has not been removed since.
    pub artifact_on_disk: bool,
    /// The engine was asked to execute the artifact.
    pub reached_executing: bool,
    /// Removing the artifact failed.
    pub removal_failed: bool,
    /// The first failure of the run, if any.
    pub failure: Option<RunError>,
}

/// The state of a run that has just started.
pub open spec fn start_model() -> RunModel {
    RunModel {
        stage: Stage::Erasing,
        artifact_on_disk: false,
        reached_executing: false,
        removal_failed: false,
        failure: None,
    }
}

/// Whether `e` is the event that a run at stage `st` waits for.
pub open spec fn awaited(st: Stage, e: Event) -> bool {
    match e {
        Event::SourceRead(_) | Event::SourceUnreadable => st == Stage::Erasing,
        Event::ArtifactWritten | Event::ArtifactUnwritable => st == Stage::Erased,
        Event::ScriptSucceeded | Event::ScriptFailed => st == Stage::Executing,
        Event::ArtifactRemoved | Event::ArtifactNotRemoved => st == Stage::CleaningUp,
    }
}

/// The failure kept when `f` happens: the first one stays.
pub open spec fn first_failure(kept: Option<RunError>, f: RunError) -> Option<RunError> {
    if kept is Some {
        kept
    } else {
        Some(f)
    }
}

/// How one event moves a run on.
pub open spec fn advance(m: RunModel, e: Event) -> RunModel {
    if !awaited(m.stage, e) {
        m
    } else {
        match e {
            Event::SourceRead(_) => RunModel { stage: Stage::Erased, ..m },
            Event::SourceUnreadable => RunModel {
                stage: Stage::Done,
                failure: first_failure(m.failure, RunError::Io(IoStep::ReadSource)),
                ..m
            },
            Event::ArtifactWritten => RunModel {
                stage: Stage::Executing,
                artifact_on_disk: true,
                reached_executing: true,
                ..m
            },
            Event::ArtifactUnwritable => RunModel {
                stage: Stage::Done,
                failure: first_failure(m.failure, RunError::Io(IoStep::WriteArtifact)),
                ..m
            },
            Event::ScriptSucceeded => RunModel { stage: Stage::CleaningUp, ..m },
            Event::ScriptFailed => RunModel {
                stage: Stage::CleaningUp,
                failure: first_failure(m.failure, RunError::Execution),
                ..m
            },
            Event::ArtifactRemoved => RunModel {
                stage: Stage::Done,
                artifact_on_disk: false,
                ..m
            },
            Event::ArtifactNotRemoved => RunModel {
                stage: Stage::Done,
                removal_failed: true,
                failure: first_failure(m.failure, RunError::Io(IoStep::RemoveArtifact)),
                ..m
            },
        }
    }
}

/// The state after a run has taken `es` in order from state `m`.
pub open spec fn advance_all(m: RunModel, es: Seq<Event>) -> RunModel
    decreases es.len(),
{
    if es.len() == 0 {
        m
    } else {
        advance_all(advance(m, es[0]), es.drop_first())
    }
}

/// The outcome that a finished run reports.
pub open spec fn outcome(m: RunModel) -> Result<(), RunError> {
    match m.failure {
        Some(f) => Err(f),
        None => Ok(()),
    }
}

/// One run of the typed script at `source_path`.
pub struct Invocation {
    pub source_path: String,
    pub artifact_path: String,
    pub stage: Stage,
    pub artifact_on_disk: bool,
    pub reached_executing: bool,
    pub removal_failed: bool,
    pub failure: Option<RunError>,
}

impl View for Invocation {
    type V = RunModel;

    open spec fn view(&self) -> RunModel {
        RunModel {
            stage: self.stage,
            artifact_on_disk: self.artifact_on_disk,
            reached_executing: self.reached_executing,
            removal_failed: self.removal_failed,
            failure: self.failure,
        }
    }
}

impl Invocation {
    /// The artifact lies beside the typed script, with `.js` appended.
    pub open spec fn wf(&self) -> bool {
        self.artifact_path@ == self.source_path@ + ".js"@
    }

    /// Whether `e` is the event that this run waits for.
    pub fn awaits(&self, e: &Event) -> (r: bool)
        ensures
            r == awaited(self.stage, *e),
    {
        match e {
            Event::SourceRead(_) | Event::SourceUnreadable => self.stage == Stage::Erasing,
            Event::ArtifactWritten | Event::ArtifactUnwritable => self.stage == Stage::Erased,
            Event::ScriptSucceeded | Event::ScriptFailed => self.stage == Stage::Executing,
            Event::ArtifactRemoved | Event::ArtifactNotRemoved => self.stage == Stage::CleaningUp,
        }
    }

    /// Takes in what happened and says what to do next.
    pub fn step(&mut self, event: Event) -> (a: Action)
        requires
            old(self).wf(),
        ensures
            final(self).wf(),
            final(self).source_path == old(self).source_path,
            final(self).artifact_path == old(self).artifact_path,
            final(self)@ == advance(old(self)@, event),
            !awaited(old(self).stage, event) ==> a is Ignore,
            awaited(old(self).stage, event) ==> match event {
                Event::SourceRead(text) => a matches Action::WriteArtifact(p, js) && p@
                    == old(self).artifact_path@ && js@ == erased(text@),
                Event::ArtifactWritten => a matches Action::Execute(p) && p@
                    == old(self).artifact_path@,
                Event::ScriptSucceeded | Event::ScriptFailed => a matches Action::RemoveArtifact(p)
                    && p@ == old(self).artifact_path@,
                _ => a == Action::Finish(outcome(final(self)@)),
            },
    {
        if !self.awaits(&event) {
            return Action::Ignore;
        }
        match event {
            Event::SourceRead(text) => {
                self.stage = Stage::Erased;
                Action::WriteArtifact(self.artifact_path.clone(), strip_types(text.as_str()))
            },
            Event::SourceUnreadable => {
                self.stage = Stage::Done;
                self.fail(RunError::Io(IoStep::ReadSource))
            },
            Event::ArtifactWritten => {
                self.stage = Stage::Executing;
                self.artifact_on_disk = true;
                self.reached_executing = true;
                Action::Execute(self.artifact_path.clone())
            },
            Event::ArtifactUnwritable => {
                self.stage = Stage::Done;
                self.fail(RunError::Io(IoStep::WriteArtifact))
            },
            Event::ScriptSucceeded => {
                self.stage = Stage::CleaningUp;
                Action::RemoveArtifact(self.artifact_path.clone())
            },
            Event::ScriptFailed => {
                self.stage = Stage::CleaningUp;
                if self.failure.is_none() {
                    self.failure = Some(RunError::Execution);
                }
                Action::RemoveArtifact(self.artifact_path.clone())
            },
            Event::ArtifactRemoved => {
                self.stage = Stage::Done;
                self.artifact_on_disk = false;
                Action::Finish(self.result())
            },
            Event::ArtifactNotRemoved => {
                self.stage = Stage::Done;
                self.removal_failed = true;
                self.fail(RunError::Io(IoStep::RemoveArtifact))
            },
        }
    }

    /// Records `f` unless an earlier failure is kept, and finishes the run.
    fn fail(&mut self, f: RunError) -> (a: Action)
        ensures
            final(self).failure == first_failure(old(self).failure, f),
            final(self).source_path == old(self).source_path,
            final(self).artifact_path == old(self).artifact_path,
            final(self).stage == old(self).stage,
            final(self).artifact_on_disk == old(self).artifact_on_disk,
            final(self).reached_executing == old(self).reached_executing,
            final(self).removal_failed == old(self).removal_failed,
            a == Action::Finish(outcome(final(self)@)),
    {
        if self.failure.is_none() {
            self.failure = Some(f);
        }
        Action::Finish(self.result())
    }

    /// The outcome that the run reports when it is over.
    pub fn result(&self) -> (r: Result<(), RunError>)
        ensures
            r == outcome(self@),
    {
        match self.failure {
            Some(f) => Err(f),
            None => Ok(()),
        }
    }
}

/// Starts a run of the typed script at `ts_file_path`: the first action is
/// to read it.
pub fn process_file(ts_file_path: &str) -> (r: (Invocation, Action))
    ensures
        r.0.wf(),
        r.0.source_path@ == ts_file_path@,
        r.0@ == start_model(),
        r.1 matches Action::ReadSource(p) && p@ == ts_file_path@,
{
    let inv = Invocation {
        source_path: String::from_str(ts_file_path),
        artifact_path: artifact_path(ts_file_path),
        stage: Stage::Erasing,
        artifact_on_disk: false,
        reached_executing: false,
        removal_failed: false,
        failure: None,
    };
    (inv, Action::ReadSource(String::from_str(ts_file_path)))
}

/// What holds of the artifact at each stage of a run.
pub open spec fn artifact_consistent(m: RunModel) -> bool {
    match m.stage {
        Stage::Erasing | Stage::Erased => !m.artifact_on_disk && !m.reached_executing
            && !m.removal_failed,
        Stage::Executing | Stage::CleaningUp => m.artifact_on_disk && m.reached_executing
            && !m.removal_failed,
        Stage::Done => if m.reached_executing {
            m.artifact_on_disk == m.removal_failed
        } else {
            !m.artifact_on_disk && !m.removal_failed
        },
    }
}

proof fn lemma_advance_consistent(m: RunModel, e: Event)
    requires
        artifact_consistent(m),
    ensures
        artifact_consistent(advance(m, e)),
{
}

proof fn lemma_advance_all_consistent(m: RunModel, es: Seq<Event>)
    requires
        artifact_consistent(m),
    ensures
        artifact_consistent(advance_all(m, es)),
    decreases es.len(),
{
    if es.len() > 0 {
        lemma_advance_consistent(m, es[0]);
        lemma_advance_all_consistent(advance(m, es[0]), es.drop_first());
    }
}

/// Once a run has reached the engine, it is over only with the artifact
/// removed, unless removing it is what failed; and whenever it is over
/// without having reached the engine, no artifact is left either.
pub proof fn lemma_cleanup(es: Seq<Event>)
    ensures
        ({
            let m = advance_all(start_model(), es);
            m.stage == Stage::Done ==> (m.artifact_on_disk <==> m.removal_failed)
        }),
{
    lemma_advance_all_consistent(start_model(), es);
}

proof fn lemma_done_stays(m: RunModel, es: Seq<Event>)
    requires
        m.stage == Stage::Done,
    ensures
        advance_all(m, es) == m,
    decreases es.len(),
{
    if es.len() > 0 {
        lemma_done_stays(advance(m, es[0]), es.drop_first());
    }
}

/// A run whose typed script cannot be read ends at once with a read error,
/// never writes an artifact, and never reaches the engine, whatever is
/// reported afterwards.
pub proof fn lemma_unreadable_source(rest: Seq<Event>)
    ensures
        ({
            let m = advance_all(start_model(), seq![Event::SourceUnreadable] + rest);
            &&& m.stage == Stage::Done
            &&& m.failure == Some(RunError::Io(IoStep::ReadSource))
            &&& !m.artifact_on_disk
            &&& !m.reached_executing
        }),
{
    let es = seq![Event::SourceUnreadable] + rest;
    assert(es[0] == Event::SourceUnreadable);
    assert(es.drop_first() == rest);
    lemma_done_stays(advance(start_model(), Event::SourceUnreadable), rest);
}

} // verus!
