//! What a step of a workflow asks of its driver.

use crate::errors::{ErrorView, Service, WorkflowError};
use crate::events::{EventView, WorkflowEvent};
use crate::records::{lemma_views_push, views, FetchResult, FetchResultView};
use crate::requests::{HttpRequest, RequestView};
use vstd::prelude::*;

verus! {

/// How a workflow ended.
#[derive(Debug, PartialEq, Eq)]
pub enum Ending {
    /// Every stage succeeded: this is the artifact.
    Done(FetchResult),
    /// A stage failed, and nothing after it was run.
    Aborted(WorkflowError),
    /// The driver gave the workflow up before a stage began.
    Cancelled,
}

/// What an `Ending` holds.
pub enum EndingView {
    Done(FetchResultView),
    Aborted(ErrorView),
    Cancelled,
}

impl View for Ending {
    type V = EndingView;

    open spec fn view(&self) -> EndingView {
        match self {
            Ending::Done(r) => EndingView::Done(r@),
            Ending::Aborted(e) => EndingView::Aborted(e@),
            Ending::Cancelled => EndingView::Cancelled,
        }
    }
}

/// What the driver of a workflow does next.
#[derive(Debug, PartialEq, Eq)]
pub enum Action {
    /// Send this request to `service` and hand back what it gave.
    Send { service: Service, request: HttpRequest },
    /// Stop: the workflow has ended.
    Finish(Ending),
}

/// What an `Action` holds.
pub enum ActionView {
    Send { service: Service, request: RequestView },
    Finish(EndingView),
}

impl View for Action {
    type V = ActionView;

    open spec fn view(&self) -> ActionView {
        match self {
            Action::Send { service, request } => ActionView::Send {
                service: *service,
                request: request@,
            },
            Action::Finish(ending) => ActionView::Finish(ending@),
        }
    }
}

/// What one step of a workflow asks of its driver: the events to publish, in
/// order, and what to do next.
#[derive(Debug, PartialEq, Eq)]
pub struct Step {
    pub events: Vec<WorkflowEvent>,
    pub action: Action,
}

/// What a `Step` holds.
pub struct StepView {
    pub events: Seq<EventView>,
    pub action: ActionView,
}

impl View for Step {
    type V = StepView;

    open spec fn view(&self) -> StepView {
        StepView { events: views(self.events@), action: self.action@ }
    }
}

/// An empty list of events.
pub fn no_events() -> (events: Vec<WorkflowEvent>)
    ensures
        views(events@) == Seq::<EventView>::empty(),
{
    let events: Vec<WorkflowEvent> = Vec::new();
    assert(views(events@) =~= Seq::<EventView>::empty());
    events
}

/// Appends `e` to `events`.
pub fn publish(events: &mut Vec<WorkflowEvent>, e: WorkflowEvent)
    ensures
        views(final(events)@) == views(old(events)@).push(e@),
{
    proof {
        lemma_views_push(events@, e);
    }
    events.push(e);
}

} // verus!
