//! The pipeline: acquisition, synthesis and persistence of one chosen page,
//! in this order. A stage that fails ends the run; nothing after it is run.
//!
//! The pipeline is a state machine. A step takes what an outside service gave
//! and returns the events to publish and the next request to send.

use crate::errors::{ErrorView, Service, WorkflowError};
use crate::events::{event, EventView, Stage, Status, WorkflowEvent};
use crate::html::{page_content, page_text, PAGE_LIMIT};
use crate::notes::{is_day, note_path, note_text, today, write_note, write_note_path};
use crate::prompts::{summary_prompt, write_summary_prompt};
use crate::records::{success_view, views, FetchResult, FetchResultView, WorkflowOptions};
use crate::requests::{
    generation, generation_request, page_fetch, page_request, vault_write, vault_write_request,
};
use crate::steps::{no_events, publish, Action, ActionView, Ending, EndingView, Step, StepView};
use crate::text::{byte_len, concat, decimal, decimal_string, prefix, take_chars, utf8_len};
use vstd::prelude::*;
use vstd::string::StringExecFns;

verus! {

/// The most characters of the summary that the artifact shows.
pub const SUMMARY_LIMIT: usize = 200;

/// Where a run of the pipeline stands.
#[derive(Debug, PartialEq, Eq)]
pub enum PipelinePhase {
    /// The page has been asked for.
    Fetching,
    /// The model has been asked to summarize `content`.
    Summarizing { content: String },
    /// The vault has been asked to store `note` at `path`.
    Saving { summary: String, path: String, note: String },
    /// Every stage succeeded.
    Done(FetchResult),
    /// A stage failed.
    Aborted(WorkflowError),
    /// The driver gave the run up before a stage began.
    Cancelled,
}

/// What a `PipelinePhase` holds.
pub enum PhaseView {
    Fetching,
    Summarizing { content: Seq<char> },
    Saving { summary: Seq<char>, path: Seq<char>, note: Seq<char> },
    Done(FetchResultView),
    Aborted(ErrorView),
    Cancelled,
}

impl View for PipelinePhase {
    type V = PhaseView;

    open spec fn view(&self) -> PhaseView {
        match self {
            PipelinePhase::Fetching => PhaseView::Fetching,
            PipelinePhase::Summarizing { content } => PhaseView::Summarizing { content: content@ },
            PipelinePhase::Saving { summary, path, note } => PhaseView::Saving {
                summary: summary@,
                path: path@,
                note: note@,
            },
            PipelinePhase::Done(r) => PhaseView::Done(r@),
            PipelinePhase::Aborted(e) => PhaseView::Aborted(e@),
            PipelinePhase::Cancelled => PhaseView::Cancelled,
        }
    }
}

/// What an outside service gave to a run of the pipeline.
#[derive(Debug, PartialEq, Eq)]
pub enum PipelineEvent {
    /// The page was fetched: this is its markup.
    PageFetched(String),
    /// The model wrote this summary.
    Summarized(String),
    /// The vault stored the note.
    NoteSaved,
    /// The service that was asked failed.
    Failed(WorkflowError),
}

/// What a `PipelineEvent` holds.
pub enum PipelineEventView {
    PageFetched(Seq<char>),
    Summarized(Seq<char>),
    NoteSaved,
    Failed(ErrorView),
}

impl View for PipelineEvent {
    type V = PipelineEventView;

    open spec fn view(&self) -> PipelineEventView {
        match self {
            PipelineEvent::PageFetched(html) => PipelineEventView::PageFetched(html@),
            PipelineEvent::Summarized(text) => PipelineEventView::Summarized(text@),
            PipelineEvent::NoteSaved => PipelineEventView::NoteSaved,
            PipelineEvent::Failed(e) => PipelineEventView::Failed(e@),
        }
    }
}

/// The state of a run of the pipeline.
pub struct Pipeline {
    query: String,
    url: String,
    title: String,
    use_ai: bool,
    model: String,
    api_key: String,
    phase: PipelinePhase,
}

/// What a `Pipeline` holds: the topic, the chosen page and its title, whether
/// the model is to summarize, the model's name, the vault's key, and the
/// phase.
pub struct PipelineView {
    pub query: Seq<char>,
    pub url: Seq<char>,
    pub title: Seq<char>,
    pub use_ai: bool,
    pub model: Seq<char>,
    pub api_key: Seq<char>,
    pub phase: PhaseView,
}

impl View for Pipeline {
    type V = PipelineView;

    closed spec fn view(&self) -> PipelineView {
        PipelineView {
            query: self.query@,
            url: self.url@,
            title: self.title@,
            use_ai: self.use_ai,
            model: self.model@,
            api_key: self.api_key@,
            phase: self.phase@,
        }
    }
}

/// What the driver has to do in state `s`.
pub open spec fn pending_action(s: PipelineView) -> ActionView {
    match s.phase {
        PhaseView::Fetching => ActionView::Send {
            service: Service::PageFetch,
            request: page_fetch(s.url),
        },
        PhaseView::Summarizing { content } => ActionView::Send {
            service: Service::Summary,
            request: generation(s.model, summary_prompt(content)),
        },
        PhaseView::Saving { summary, path, note } => ActionView::Send {
            service: Service::VaultWrite,
            request: vault_write(path, note, s.api_key),
        },
        PhaseView::Done(r) => ActionView::Finish(EndingView::Done(r)),
        PhaseView::Aborted(e) => ActionView::Finish(EndingView::Aborted(e)),
        PhaseView::Cancelled => ActionView::Finish(EndingView::Cancelled),
    }
}

/// The state in which a run begins: the page has been asked for.
pub open spec fn initial_state(
    query: Seq<char>,
    url: Seq<char>,
    title: Seq<char>,
    use_ai: bool,
    model: Seq<char>,
    api_key: Seq<char>,
) -> PipelineView {
    PipelineView { query, url, title, use_ai, model, api_key, phase: PhaseView::Fetching }
}

/// The first step of a run.
pub open spec fn pipeline_start(
    query: Seq<char>,
    url: Seq<char>,
    title: Seq<char>,
    use_ai: bool,
    model: Seq<char>,
    api_key: Seq<char>,
) -> (PipelineView, StepView) {
    let s = initial_state(query, url, title, use_ai, model, api_key);
    (
        s,
        StepView {
            events: seq![
                event(Stage::Acquisition, Status::Running, "Fetching: "@ + url + "..."@),
            ],
            action: pending_action(s),
        },
    )
}

/// The state in which `summary` is being stored on the day `date`, and the
/// event that opens the stage.
pub open spec fn saving(s: PipelineView, summary: Seq<char>, date: Seq<char>) -> (
    PipelineView,
    Seq<EventView>,
) {
    (
        PipelineView {
            phase: PhaseView::Saving {
                summary,
                path: note_path(s.query),
                note: note_text(s.query, summary, s.url, s.title, date),
            },
            ..s
        },
        seq![event(Stage::Persistence, Status::Running, "Saving to Obsidian vault..."@)],
    )
}

/// The state after the page came as `html`, and the events to publish. The
/// page's text, cut to `PAGE_LIMIT` characters, goes to the model if it is to
/// summarize, and straight into the note if not.
pub open spec fn after_page(s: PipelineView, html: Seq<char>, date: Seq<char>) -> (
    PipelineView,
    Seq<EventView>,
) {
    let content = page_text(html);
    let retrieved = event(
        Stage::Acquisition,
        Status::Complete,
        "Retrieved "@ + decimal(utf8_len(content)) + " chars"@,
    );
    if s.use_ai {
        (
            PipelineView { phase: PhaseView::Summarizing { content }, ..s },
            seq![
                retrieved,
                event(
                    Stage::Synthesis,
                    Status::Running,
                    "Summarizing with "@ + s.model + "..."@,
                ),
            ],
        )
    } else {
        let (next, opening) = saving(s, content, date);
        (
            next,
            seq![retrieved, event(Stage::Synthesis, Status::Skipped, "Using raw content"@)]
                + opening,
        )
    }
}

/// The artifact of a run that stored `summary` at `path`.
pub open spec fn pipeline_artifact(
    s: PipelineView,
    summary: Seq<char>,
    path: Seq<char>,
) -> FetchResultView {
    success_view(s.title, prefix(summary, SUMMARY_LIMIT as nat), path)
}

/// One step of the pipeline: the state after `e` happened in state `s` on the
/// day `date`, and what the driver has to do. A failure ends the run at once.
/// An event that the state does not await changes nothing.
pub open spec fn pipeline_next(s: PipelineView, e: PipelineEventView, date: Seq<char>) -> (
    PipelineView,
    StepView,
) {
    let (next, events) = match (s.phase, e) {
        (PhaseView::Fetching, PipelineEventView::PageFetched(html)) => after_page(s, html, date),
        (PhaseView::Summarizing { content }, PipelineEventView::Summarized(text)) => {
            let (next, opening) = saving(s, text, date);
            (
                next,
                seq![event(Stage::Synthesis, Status::Complete, "Summary generated"@)] + opening,
            )
        },
        (PhaseView::Saving { summary, path, note }, PipelineEventView::NoteSaved) => (
            PipelineView { phase: PhaseView::Done(pipeline_artifact(s, summary, path)), ..s },
            seq![event(Stage::Persistence, Status::Complete, "Saved: "@ + path)],
        ),
        (PhaseView::Done(_), _) => (s, seq![]),
        (PhaseView::Aborted(_), _) => (s, seq![]),
        (PhaseView::Cancelled, _) => (s, seq![]),
        (_, PipelineEventView::Failed(err)) => (
            PipelineView { phase: PhaseView::Aborted(err), ..s },
            seq![],
        ),
        _ => (s, seq![]),
    };
    (next, StepView { events, action: pending_action(next) })
}

/// The state after the driver gave the run up. Every request of the pipeline
/// begins a stage, so a run that has not ended can be given up instead of any
/// of them; after the end, giving up changes nothing.
pub open spec fn pipeline_cancel(s: PipelineView) -> (PipelineView, StepView) {
    let next = if pending_action(s) is Send {
        PipelineView { phase: PhaseView::Cancelled, ..s }
    } else {
        s
    };
    (next, StepView { events: seq![], action: pending_action(next) })
}

/// The artifact of the pipeline shows at most `SUMMARY_LIMIT` characters of
/// the summary, and all of a summary that is no longer.
pub proof fn lemma_artifact_summary(s: PipelineView, summary: Seq<char>, path: Seq<char>)
    ensures
        pipeline_artifact(s, summary, path).summary.len() <= SUMMARY_LIMIT,
        pipeline_artifact(s, summary, path).summary.is_prefix_of(summary),
        summary.len() <= SUMMARY_LIMIT ==> pipeline_artifact(s, summary, path).summary == summary,
{
}

/// How far a run has come: the stages follow in this order.
pub open spec fn progress(phase: PhaseView) -> nat {
    match phase {
        PhaseView::Fetching => 0,
        PhaseView::Summarizing { .. } => 1,
        PhaseView::Saving { .. } => 2,
        _ => 3,
    }
}

/// A failure ends a run that has not ended, at once: nothing is published,
/// nothing more is sent, and the error is handed back as it came.
pub proof fn lemma_failure_ends_run(s: PipelineView, error: ErrorView, date: Seq<char>)
    requires
        pending_action(s) is Send,
    ensures
        pipeline_next(s, PipelineEventView::Failed(error), date) == (
            PipelineView { phase: PhaseView::Aborted(error), ..s },
            StepView {
                events: Seq::<EventView>::empty(),
                action: ActionView::Finish(EndingView::Aborted(error)),
            },
        ),
{
    assert(pipeline_next(s, PipelineEventView::Failed(error), date).1.events
        =~= Seq::<EventView>::empty());
}

/// The stages are never taken back: no step leads to an earlier stage, and a
/// run that has ended stays as it is.
pub proof fn lemma_stages_in_order(s: PipelineView, e: PipelineEventView, date: Seq<char>)
    ensures
        progress(s.phase) <= progress(pipeline_next(s, e, date).0.phase),
        progress(s.phase) <= progress(pipeline_cancel(s).0.phase),
        pending_action(s) is Finish ==> pipeline_next(s, e, date).0 == s && pipeline_cancel(s).0
            == s,
{
}

/// Without the model, a page that is fetched and stored yields an artifact
/// whose summary is the beginning of the page's text and whose path is that of
/// the topic's note.
pub proof fn lemma_run_without_model(
    query: Seq<char>,
    url: Seq<char>,
    title: Seq<char>,
    model: Seq<char>,
    api_key: Seq<char>,
    html: Seq<char>,
    date: Seq<char>,
)
    ensures
        ({
            let begun = pipeline_start(query, url, title, false, model, api_key).0;
            let fetched = pipeline_next(begun, PipelineEventView::PageFetched(html), date).0;
            let stored = pipeline_next(fetched, PipelineEventView::NoteSaved, date);
            &&& fetched.phase == PhaseView::Saving {
                summary: page_text(html),
                path: note_path(query),
                note: note_text(query, page_text(html), url, title, date),
            }
            &&& stored.1.action == ActionView::Finish(
                EndingView::Done(
                    success_view(
                        title,
                        prefix(page_text(html), SUMMARY_LIMIT as nat),
                        note_path(query),
                    ),
                ),
            )
        }),
{
}

impl Pipeline {
    /// Begins a run for the page at `url`, chosen for the topic `query`.
    pub fn start(query: &str, url: &str, title: &str, options: &WorkflowOptions) -> (r: (
        Pipeline,
        Step,
    ))
        ensures
            (r.0@, r.1@) == pipeline_start(
                query@,
                url@,
                title@,
                options.use_ai,
                options.model_name@,
                options.obsidian_api_key@,
            ),
    {
        let run = Pipeline {
            query: query.to_owned(),
            url: url.to_owned(),
            title: title.to_owned(),
            use_ai: options.use_ai,
            model: options.model_name.clone(),
            api_key: options.obsidian_api_key.clone(),
            phase: PipelinePhase::Fetching,
        };
        let mut events = no_events();
        let mut message = concat("Fetching: ", url);
        message.append("...");
        publish(&mut events, WorkflowEvent::new(Stage::Acquisition, Status::Running, message));
        let action = run.pending();
        assert(views(events@) =~= seq![
            event(Stage::Acquisition, Status::Running, "Fetching: "@ + url@ + "..."@),
        ]);
        (run, Step { events, action })
    }

    /// What the driver has to do now.
    pub fn pending(&self) -> (action: Action)
        ensures
            action@ == pending_action(self@),
    {
        match &self.phase {
            PipelinePhase::Fetching => Action::Send {
                service: Service::PageFetch,
                request: page_request(self.url.as_str()),
            },
            PipelinePhase::Summarizing { content } => Action::Send {
                service: Service::Summary,
                request: generation_request(
                    self.model.as_str(),
                    write_summary_prompt(content.as_str()),
                ),
            },
            PipelinePhase::Saving { summary, path, note } => Action::Send {
                service: Service::VaultWrite,
                request: vault_write_request(path.as_str(), note.clone(), self.api_key.as_str()),
            },
            PipelinePhase::Done(r) => Action::Finish(Ending::Done(r.clone())),
            PipelinePhase::Aborted(e) => Action::Finish(Ending::Aborted(e.clone())),
            PipelinePhase::Cancelled => Action::Finish(Ending::Cancelled),
        }
    }

    /// Whether the run has ended.
    pub fn is_finished(&self) -> (b: bool)
        ensures
            b == (pending_action(self@) is Finish),
    {
        match &self.phase {
            PipelinePhase::Done(_) => true,
            PipelinePhase::Aborted(_) => true,
            PipelinePhase::Cancelled => true,
            _ => false,
        }
    }

    /// Gives the run up instead of sending the request of the next stage.
    pub fn cancel(&mut self) -> (step: Step)
        ensures
            (final(self)@, step@) == pipeline_cancel(old(self)@),
    {
        if !self.is_finished() {
            self.phase = PipelinePhase::Cancelled;
        }
        let action = self.pending();
        Step { events: no_events(), action }
    }

    /// Opens the last stage: `summary` is to be stored.
    fn save(&mut self, summary: String, date: &str, events: &mut Vec<WorkflowEvent>)
        ensures
            final(self)@ == saving(old(self)@, summary@, date@).0,
            views(final(events)@) == views(old(events)@) + saving(old(self)@, summary@, date@).1,
    {
        let path = write_note_path(self.query.as_str());
        let note = write_note(
            self.query.as_str(),
            summary.as_str(),
            self.url.as_str(),
            self.title.as_str(),
            date,
        );
        self.phase = PipelinePhase::Saving { summary, path, note };
        publish(
            events,
            WorkflowEvent::new(
                Stage::Persistence,
                Status::Running,
                "Saving to Obsidian vault...".to_owned(),
            ),
        );
        assert(views(events@) =~= views(old(events)@) + saving(old(self)@, summary@, date@).1);
    }

    /// Takes the markup of the page.
    fn acquire(&mut self, html: &str, date: &str, events: &mut Vec<WorkflowEvent>)
        requires
            views(old(events)@) == Seq::<EventView>::empty(),
        ensures
            (final(self)@, views(final(events)@)) == after_page(old(self)@, html@, date@),
    {
        let content = page_content(html);
        let mut message = concat("Retrieved ", decimal_string(byte_len(content.as_str())).as_str());
        message.append(" chars");
        publish(events, WorkflowEvent::new(Stage::Acquisition, Status::Complete, message));
        if self.use_ai {
            let mut message = concat("Summarizing with ", self.model.as_str());
            message.append("...");
            publish(events, WorkflowEvent::new(Stage::Synthesis, Status::Running, message));
            self.phase = PipelinePhase::Summarizing { content };
            assert(views(events@) =~= after_page(old(self)@, html@, date@).1);
        } else {
            publish(
                events,
                WorkflowEvent::new(
                    Stage::Synthesis,
                    Status::Skipped,
                    "Using raw content".to_owned(),
                ),
            );
            self.save(content, date, events);
            assert(views(events@) =~= after_page(old(self)@, html@, date@).1);
        }
    }

    /// Takes what an outside service gave on the day `date` and says what to
    /// do next. The events of the step are to be published before its action
    /// is taken.
    pub fn advance_on(&mut self, event: PipelineEvent, date: &str) -> (step: Step)
        ensures
            (final(self)@, step@) == pipeline_next(old(self)@, event@, date@),
    {
        let mut events = no_events();
        if !self.is_finished() {
            match event {
                PipelineEvent::Failed(err) => {
                    self.phase = PipelinePhase::Aborted(err);
                },
                PipelineEvent::PageFetched(html) => {
                    if let PipelinePhase::Fetching = &self.phase {
                        self.acquire(html.as_str(), date, &mut events);
                    }
                },
                PipelineEvent::Summarized(text) => {
                    if let PipelinePhase::Summarizing { .. } = &self.phase {
                        publish(
                            &mut events,
                            WorkflowEvent::new(
                                Stage::Synthesis,
                                Status::Complete,
                                "Summary generated".to_owned(),
                            ),
                        );
                        self.save(text, date, &mut events);
                        assert(views(events@) =~= pipeline_next(
                            old(self)@,
                            event@,
                            date@,
                        ).1.events);
                    }
                },
                PipelineEvent::NoteSaved => {
                    let stored = match &self.phase {
                        PipelinePhase::Saving { summary, path, note } => Some(
                            (take_chars(summary.as_str(), SUMMARY_LIMIT), path.clone()),
                        ),
                        _ => None,
                    };
                    if let Some((shown, path)) = stored {
                        publish(
                            &mut events,
                            WorkflowEvent::new(
                                Stage::Persistence,
                                Status::Complete,
                                concat("Saved: ", path.as_str()),
                            ),
                        );
                        self.phase = PipelinePhase::Done(
                            FetchResult::succeeded(self.title.clone(), shown, path),
                        );
                        assert(views(events@) =~= pipeline_next(
                            old(self)@,
                            event@,
                            date@,
                        ).1.events);
                    }
                },
            }
        }
        let action = self.pending();
        Step { events, action }
    }

    /// Takes what an outside service gave and says what to do next. A note
    /// that is written in this step bears the day that the local clock shows,
    /// written as year, month and day.
    pub fn advance(&mut self, event: PipelineEvent) -> (step: Step)
        ensures
            exists|date: Seq<char>|
                is_day(date) && (final(self)@, step@) == #[trigger] pipeline_next(
                    old(self)@,
                    event@,
                    date,
                ),
    {
        let date = today();
        let step = self.advance_on(event, date.as_str());
        assert(is_day(date@) && (self@, step@) == pipeline_next(old(self)@, event@, date@));
        step
    }
}

} // verus!
