//! Progress events: what a workflow reports to its observer while it runs.

use vstd::prelude::*;

verus! {

/// The four stages of a workflow.
#[derive(Clone, Copy, Debug, PartialEq, Eq, Structural)]
pub enum Stage {
    Discovery,
    Acquisition,
    Synthesis,
    Persistence,
}

/// How far a stage has come.
#[derive(Clone, Copy, Debug, PartialEq, Eq, Structural)]
pub enum Status {
    Running,
    Complete,
    Skipped,
    Error,
}

/// The name under which the observer knows a stage.
pub open spec fn stage_name(stage: Stage) -> Seq<char> {
    match stage {
        Stage::Discovery => "discovery"@,
        Stage::Acquisition => "acquisition"@,
        Stage::Synthesis => "synthesis"@,
        Stage::Persistence => "persistence"@,
    }
}

/// The name under which the observer knows a status.
pub open spec fn status_name(status: Status) -> Seq<char> {
    match status {
        Status::Running => "running"@,
        Status::Complete => "complete"@,
        Status::Skipped => "skipped"@,
        Status::Error => "error"@,
    }
}

impl Stage {
    /// The name under which the observer knows this stage.
    pub fn name(&self) -> (r: &'static str)
        ensures
            r@ == stage_name(*self),
    {
        match self {
            Stage::Discovery => "discovery",
            Stage::Acquisition => "acquisition",
            Stage::Synthesis => "synthesis",
            Stage::Persistence => "persistence",
        }
    }
}

impl Status {
    /// The name under which the observer knows this status.
    pub fn name(&self) -> (r: &'static str)
        ensures
            r@ == status_name(*self),
    {
        match self {
            Status::Running => "running",
            Status::Complete => "complete",
            Status::Skipped => "skipped",
            Status::Error => "error",
        }
    }
}

/// One progress event: a stage, its status and a message for the reader.
#[derive(Debug, PartialEq, Eq)]
pub struct WorkflowEvent {
    pub stage: Stage,
    pub status: Status,
    pub message: String,
}

/// What a `WorkflowEvent` holds.
pub struct EventView {
    pub stage: Stage,
    pub status: Status,
    pub message: Seq<char>,
}

impl View for WorkflowEvent {
    type V = EventView;

    open spec fn view(&self) -> EventView {
        EventView { stage: self.stage, status: self.status, message: self.message@ }
    }
}

impl Clone for WorkflowEvent {
    fn clone(&self) -> (r: Self)
        ensures
            r@ == self@,
    {
        WorkflowEvent { stage: self.stage, status: self.status, message: self.message.clone() }
    }
}

/// The event that reports `message` for `stage` in `status`.
pub open spec fn event(stage: Stage, status: Status, message: Seq<char>) -> EventView {
    EventView { stage, status, message }
}

impl WorkflowEvent {
    /// The event that reports `message` for `stage` in `status`.
    pub fn new(stage: Stage, status: Status, message: String) -> (r: WorkflowEvent)
        ensures
            r@ == event(stage, status, message@),
    {
        WorkflowEvent { stage, status, message }
    }
}

} // verus!
