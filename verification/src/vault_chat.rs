//! Questions about the vault: the notes that match a question are searched,
//! the first few are read, and the model answers from what they hold.
//!
//! The workflow is a state machine. A step takes what an outside service gave
//! and returns the events to publish and the next request to send.

use crate::errors::{ErrorKind, ErrorView, Service, WorkflowError};
use crate::events::{event, EventView, Stage, Status, WorkflowEvent};
use crate::prompts::{
    add_note_context, note_context, summary_prompt, vault_prompt, write_summary_prompt,
    write_vault_prompt,
};
use crate::records::{
    success_view, views, FetchResult, FetchResultView, SearchResult, SearchResultView, IN_MEMORY,
};
use crate::requests::{
    generation, generation_request, vault_read, vault_read_request, vault_search,
    vault_search_request,
};
use crate::search::{keep_notes, note_hits};
use crate::steps::{no_events, publish, Action, ActionView, Ending, EndingView, Step, StepView};
use crate::text::{concat, decimal, decimal_string, prefix};
use vstd::prelude::*;
use vstd::string::StringExecFns;

verus! {

/// The most notes that are read for one question.
pub const READ_LIMIT: usize = 3;

/// What the asker is told when no note matches.
pub const NO_NOTES: &'static str = "No matching notes found.";

/// Where a question about the vault stands.
#[derive(Debug, PartialEq, Eq)]
pub enum ChatPhase {
    /// The vault has been asked for matching notes.
    Searching,
    /// The vault has been asked for note number `index` of `notes`; `context`
    /// holds what the notes before it gave.
    Reading { notes: Vec<SearchResult>, index: usize, context: String },
    /// The model has been asked to answer from `context`.
    Answering { context: String },
    /// The model answered.
    Done(FetchResult),
    /// The search or the model failed, or no note matched.
    Aborted(WorkflowError),
    /// The driver gave the question up before a stage began.
    Cancelled,
}

/// What a `ChatPhase` holds.
pub enum PhaseView {
    Searching,
    Reading { notes: Seq<SearchResultView>, index: nat, context: Seq<char> },
    Answering { context: Seq<char> },
    Done(FetchResultView),
    Aborted(ErrorView),
    Cancelled,
}

impl View for ChatPhase {
    type V = PhaseView;

    open spec fn view(&self) -> PhaseView {
        match self {
            ChatPhase::Searching => PhaseView::Searching,
            ChatPhase::Reading { notes, index, context } => PhaseView::Reading {
                notes: views(notes@),
                index: *index as nat,
                context: context@,
            },
            ChatPhase::Answering { context } => PhaseView::Answering { context: context@ },
            ChatPhase::Done(r) => PhaseView::Done(r@),
            ChatPhase::Aborted(e) => PhaseView::Aborted(e@),
            ChatPhase::Cancelled => PhaseView::Cancelled,
        }
    }
}

/// What an outside service gave to a question about the vault.
#[derive(Debug, PartialEq, Eq)]
pub enum ChatEvent {
    /// The vault named these notes, as they came.
    NotesFound(Vec<String>),
    /// The vault gave the text of the note that was asked for.
    NoteRead(String),
    /// The model gave this answer.
    Answered(String),
    /// The service that was asked failed.
    Failed(WorkflowError),
}

/// What a `ChatEvent` holds.
pub enum ChatEventView {
    NotesFound(Seq<Seq<char>>),
    NoteRead(Seq<char>),
    Answered(Seq<char>),
    Failed(ErrorView),
}

impl View for ChatEvent {
    type V = ChatEventView;

    open spec fn view(&self) -> ChatEventView {
        match self {
            ChatEvent::NotesFound(names) => ChatEventView::NotesFound(views(names@)),
            ChatEvent::NoteRead(text) => ChatEventView::NoteRead(text@),
            ChatEvent::Answered(text) => ChatEventView::Answered(text@),
            ChatEvent::Failed(e) => ChatEventView::Failed(e@),
        }
    }
}

/// The state of a question about the vault.
pub struct VaultChat {
    query: String,
    api_key: String,
    model: String,
    phase: ChatPhase,
}

/// What a `VaultChat` holds: the question, the vault's key, the model's name,
/// and the phase.
pub struct ChatView {
    pub query: Seq<char>,
    pub api_key: Seq<char>,
    pub model: Seq<char>,
    pub phase: PhaseView,
}

impl View for VaultChat {
    type V = ChatView;

    closed spec fn view(&self) -> ChatView {
        ChatView {
            query: self.query@,
            api_key: self.api_key@,
            model: self.model@,
            phase: self.phase@,
        }
    }
}

/// The prompt that is sent to the model for `query` with `context`: the
/// question about the notes, wrapped as every generation request is.
pub open spec fn answer_prompt(context: Seq<char>, query: Seq<char>) -> Seq<char> {
    summary_prompt(vault_prompt(context, query))
}

/// What the driver has to do in state `s`. A reading state whose index names
/// no note awaits nothing and asks for the answer.
pub open spec fn pending_action(s: ChatView) -> ActionView {
    match s.phase {
        PhaseView::Searching => ActionView::Send {
            service: Service::VaultSearch,
            request: vault_search(s.query, s.api_key),
        },
        PhaseView::Reading { notes, index, context } => if index < notes.len() {
            ActionView::Send {
                service: Service::VaultRead,
                request: vault_read(notes[index as int].url, s.api_key),
            }
        } else {
            ActionView::Send {
                service: Service::Summary,
                request: generation(s.model, answer_prompt(context, s.query)),
            }
        },
        PhaseView::Answering { context } => ActionView::Send {
            service: Service::Summary,
            request: generation(s.model, answer_prompt(context, s.query)),
        },
        PhaseView::Done(r) => ActionView::Finish(EndingView::Done(r)),
        PhaseView::Aborted(e) => ActionView::Finish(EndingView::Aborted(e)),
        PhaseView::Cancelled => ActionView::Finish(EndingView::Cancelled),
    }
}

/// The state in which a question begins: the vault has been asked for
/// matching notes.
pub open spec fn initial_state(query: Seq<char>, api_key: Seq<char>, model: Seq<char>) -> ChatView {
    ChatView { query, api_key, model, phase: PhaseView::Searching }
}

/// The first step of a question.
pub open spec fn chat_start(query: Seq<char>, api_key: Seq<char>, model: Seq<char>) -> (
    ChatView,
    StepView,
) {
    let s = initial_state(query, api_key, model);
    (
        s,
        StepView {
            events: seq![
                event(
                    Stage::Discovery,
                    Status::Running,
                    "Searching vault for: "@ + query + "..."@,
                ),
            ],
            action: pending_action(s),
        },
    )
}

/// The error that ends a question when no note matches.
pub open spec fn no_notes() -> ErrorView {
    ErrorView { kind: ErrorKind::MissingField, message: NO_NOTES@ }
}

/// The state after the vault named `names`, and the events to publish. The
/// first `READ_LIMIT` of the notes that are kept are read, one after the
/// other; without a note the question ends.
pub open spec fn after_search(s: ChatView, names: Seq<Seq<char>>) -> (ChatView, Seq<EventView>) {
    let hits = note_hits(names);
    if hits.len() == 0 {
        (ChatView { phase: PhaseView::Aborted(no_notes()), ..s }, seq![])
    } else {
        (
            ChatView {
                phase: PhaseView::Reading {
                    notes: prefix(hits, READ_LIMIT as nat),
                    index: 0,
                    context: seq![],
                },
                ..s
            },
            seq![
                event(
                    Stage::Discovery,
                    Status::Complete,
                    "Found "@ + decimal(hits.len()) + " notes"@,
                ),
                event(Stage::Acquisition, Status::Running, "Reading note contents..."@),
            ],
        )
    }
}

/// The state after one more note was tried, with `context` as it is now, and
/// the events to publish. After the last note the model is asked.
pub open spec fn after_note(
    s: ChatView,
    notes: Seq<SearchResultView>,
    index: nat,
    context: Seq<char>,
) -> (ChatView, Seq<EventView>) {
    let read = event(
        Stage::Acquisition,
        Status::Running,
        "Read "@ + decimal(index + 1) + "/"@ + decimal(READ_LIMIT as nat) + " notes..."@,
    );
    if index + 1 < notes.len() {
        (
            ChatView { phase: PhaseView::Reading { notes, index: index + 1, context }, ..s },
            seq![read],
        )
    } else {
        (
            ChatView { phase: PhaseView::Answering { context }, ..s },
            seq![
                read,
                event(Stage::Acquisition, Status::Complete, "Context loaded"@),
                event(Stage::Synthesis, Status::Running, "Generating answer..."@),
            ],
        )
    }
}

/// The artifact of a question that the model answered with `answer`.
pub open spec fn chat_artifact(s: ChatView, answer: Seq<char>) -> FetchResultView {
    success_view("Chat: "@ + s.query, answer, IN_MEMORY@)
}

/// One step of a question: the state after `e` happened in state `s`, and what
/// the driver has to do. A note that cannot be read is passed over; any other
/// failure ends the question. An event that the state does not await changes
/// nothing.
pub open spec fn chat_next(s: ChatView, e: ChatEventView) -> (ChatView, StepView) {
    let (next, events) = match (s.phase, e) {
        (PhaseView::Searching, ChatEventView::NotesFound(names)) => after_search(s, names),
        (PhaseView::Reading { notes, index, context }, ChatEventView::NoteRead(text)) => if index
            < notes.len() {
            after_note(s, notes, index, context + note_context(notes[index as int].title, text))
        } else {
            (s, seq![])
        },
        (PhaseView::Reading { notes, index, context }, ChatEventView::Failed(_)) => if index
            < notes.len() {
            after_note(s, notes, index, context)
        } else {
            (s, seq![])
        },
        (PhaseView::Answering { context }, ChatEventView::Answered(text)) => (
            ChatView { phase: PhaseView::Done(chat_artifact(s, text)), ..s },
            seq![event(Stage::Synthesis, Status::Complete, "Answer ready"@)],
        ),
        (PhaseView::Searching, ChatEventView::Failed(err)) => (
            ChatView { phase: PhaseView::Aborted(err), ..s },
            seq![],
        ),
        (PhaseView::Answering { context }, ChatEventView::Failed(err)) => (
            ChatView { phase: PhaseView::Aborted(err), ..s },
            seq![],
        ),
        _ => (s, seq![]),
    };
    (next, StepView { events, action: pending_action(next) })
}

/// Whether the request that state `s` awaits began a stage: the search, the
/// first note, the model's answer.
pub open spec fn at_stage_start(s: ChatView) -> bool {
    match s.phase {
        PhaseView::Searching => true,
        PhaseView::Reading { notes, index, context } => index == 0 || index >= notes.len(),
        PhaseView::Answering { context } => true,
        _ => false,
    }
}

/// The state after the driver gave the question up. A question can be given
/// up instead of sending the request that begins a stage; between the notes of
/// one reading, and after the end, giving up changes nothing.
pub open spec fn chat_cancel(s: ChatView) -> (ChatView, StepView) {
    let next = if at_stage_start(s) {
        ChatView { phase: PhaseView::Cancelled, ..s }
    } else {
        s
    };
    (next, StepView { events: seq![], action: pending_action(next) })
}

/// Keeps the first `limit` of `hits`.
fn first_hits(hits: &Vec<SearchResult>, limit: usize) -> (r: Vec<SearchResult>)
    ensures
        views(r@) == prefix(views(hits@), limit as nat),
{
    let mut r: Vec<SearchResult> = Vec::new();
    let mut i: usize = 0;
    while i < hits.len() && i < limit
        invariant
            i <= hits.len(),
            i <= limit,
            r.len() == i,
            forall|j: int| 0 <= j < i ==> (#[trigger] r@[j])@ == hits@[j]@,
        decreases hits.len() - i,
    {
        r.push(hits[i].clone());
        i += 1;
    }
    assert(views(r@) =~= prefix(views(hits@), limit as nat));
    r
}

impl VaultChat {
    /// Begins a question about the vault.
    pub fn start(query: &str, api_key: &str, model: &str) -> (r: (VaultChat, Step))
        ensures
            (r.0@, r.1@) == chat_start(query@, api_key@, model@),
    {
        let run = VaultChat {
            query: query.to_owned(),
            api_key: api_key.to_owned(),
            model: model.to_owned(),
            phase: ChatPhase::Searching,
        };
        let mut events = no_events();
        let mut message = concat("Searching vault for: ", query);
        message.append("...");
        publish(&mut events, WorkflowEvent::new(Stage::Discovery, Status::Running, message));
        assert(views(events@) =~= chat_start(query@, api_key@, model@).1.events);
        let action = run.pending();
        (run, Step { events, action })
    }

    /// Builds the request that asks the model to answer from `context`.
    fn ask(&self, context: &str) -> (action: Action)
        ensures
            action@ == (ActionView::Send {
                service: Service::Summary,
                request: generation(self@.model, answer_prompt(context@, self@.query)),
            }),
    {
        let question = write_vault_prompt(context, self.query.as_str());
        Action::Send {
            service: Service::Summary,
            request: generation_request(
                self.model.as_str(),
                write_summary_prompt(question.as_str()),
            ),
        }
    }

    /// What the driver has to do now.
    pub fn pending(&self) -> (action: Action)
        ensures
            action@ == pending_action(self@),
    {
        match &self.phase {
            ChatPhase::Searching => Action::Send {
                service: Service::VaultSearch,
                request: vault_search_request(self.query.as_str(), self.api_key.as_str()),
            },
            ChatPhase::Reading { notes, index, context } => {
                if *index < notes.len() {
                    assert(views(notes@)[*index as int] == notes@[*index as int]@);
                    Action::Send {
                        service: Service::VaultRead,
                        request: vault_read_request(
                            notes[*index].url.as_str(),
                            self.api_key.as_str(),
                        ),
                    }
                } else {
                    self.ask(context.as_str())
                }
            },
            ChatPhase::Answering { context } => self.ask(context.as_str()),
            ChatPhase::Done(r) => Action::Finish(Ending::Done(r.clone())),
            ChatPhase::Aborted(e) => Action::Finish(Ending::Aborted(e.clone())),
            ChatPhase::Cancelled => Action::Finish(Ending::Cancelled),
        }
    }

    /// Whether the question has ended.
    pub fn is_finished(&self) -> (b: bool)
        ensures
            b == (pending_action(self@) is Finish),
    {
        match &self.phase {
            ChatPhase::Done(_) => true,
            ChatPhase::Aborted(_) => true,
            ChatPhase::Cancelled => true,
            _ => false,
        }
    }

    /// Gives the question up instead of sending the request of the next stage.
    pub fn cancel(&mut self) -> (step: Step)
        ensures
            (final(self)@, step@) == chat_cancel(old(self)@),
    {
        let at_start = match &self.phase {
            ChatPhase::Searching => true,
            ChatPhase::Reading { notes, index, context } => *index == 0 || *index >= notes.len(),
            ChatPhase::Answering { .. } => true,
            _ => false,
        };
        if at_start {
            self.phase = ChatPhase::Cancelled;
        }
        let action = self.pending();
        Step { events: no_events(), action }
    }

    /// Takes the notes that the vault named.
    fn found(&mut self, names: &Vec<String>, events: &mut Vec<WorkflowEvent>)
        requires
            views(old(events)@) == Seq::<EventView>::empty(),
        ensures
            (final(self)@, views(final(events)@)) == after_search(old(self)@, views(names@)),
    {
        let hits = keep_notes(names);
        if hits.len() == 0 {
            self.phase = ChatPhase::Aborted(
                WorkflowError { kind: ErrorKind::MissingField, message: NO_NOTES.to_owned() },
            );
        } else {
            let mut message = concat("Found ", decimal_string(hits.len()).as_str());
            message.append(" notes");
            publish(events, WorkflowEvent::new(Stage::Discovery, Status::Complete, message));
            publish(
                events,
                WorkflowEvent::new(
                    Stage::Acquisition,
                    Status::Running,
                    "Reading note contents...".to_owned(),
                ),
            );
            self.phase = ChatPhase::Reading {
                notes: first_hits(&hits, READ_LIMIT),
                index: 0,
                context: String::new(),
            };
            assert(views(hits@).len() == hits.len());
            assert(views(events@) =~= after_search(old(self)@, views(names@)).1);
        }
    }

    /// Goes on after one more note was tried.
    fn tried(
        &mut self,
        notes: Vec<SearchResult>,
        index: usize,
        context: String,
        events: &mut Vec<WorkflowEvent>,
    )
        requires
            index < notes.len(),
            views(old(events)@) == Seq::<EventView>::empty(),
        ensures
            (final(self)@, views(final(events)@)) == after_note(
                old(self)@,
                views(notes@),
                index as nat,
                context@,
            ),
    {
        let mut message = concat("Read ", decimal_string(index + 1).as_str());
        message.append("/");
        message.append(decimal_string(READ_LIMIT).as_str());
        message.append(" notes...");
        publish(events, WorkflowEvent::new(Stage::Acquisition, Status::Running, message));
        if index + 1 < notes.len() {
            self.phase = ChatPhase::Reading { notes, index: index + 1, context };
            assert(views(events@) =~= after_note(
                old(self)@,
                views(notes@),
                index as nat,
                context@,
            ).1);
        } else {
            publish(
                events,
                WorkflowEvent::new(
                    Stage::Acquisition,
                    Status::Complete,
                    "Context loaded".to_owned(),
                ),
            );
            publish(
                events,
                WorkflowEvent::new(
                    Stage::Synthesis,
                    Status::Running,
                    "Generating answer...".to_owned(),
                ),
            );
            self.phase = ChatPhase::Answering { context };
            assert(views(events@) =~= after_note(
                old(self)@,
                views(notes@),
                index as nat,
                context@,
            ).1);
        }
    }

    /// The notes, the index and the context of a reading state whose index
    /// names a note.
    fn reading(&self) -> (r: Option<(Vec<SearchResult>, usize, String)>)
        ensures
            match r {
                Some((notes, index, context)) => {
                    &&& index < notes.len()
                    &&& self@.phase == PhaseView::Reading {
                        notes: views(notes@),
                        index: index as nat,
                        context: context@,
                    }
                },
                None => match self@.phase {
                    PhaseView::Reading { notes, index, context } => index >= notes.len(),
                    _ => true,
                },
            },
    {
        match &self.phase {
            ChatPhase::Reading { notes, index, context } => {
                if *index < notes.len() {
                    let copy = first_hits(notes, notes.len());
                    assert(views(copy@) =~= views(notes@));
                    Some((copy, *index, context.clone()))
                } else {
                    None
                }
            },
            _ => None,
        }
    }

    /// Takes what an outside service gave and says what to do next. The
    /// events of the step are to be published before its action is taken.
    pub fn advance(&mut self, event: ChatEvent) -> (step: Step)
        ensures
            (final(self)@, step@) == chat_next(old(self)@, event@),
    {
        let mut events = no_events();
        match event {
            ChatEvent::NotesFound(names) => {
                if let ChatPhase::Searching = &self.phase {
                    self.found(&names, &mut events);
                }
            },
            ChatEvent::NoteRead(text) => {
                if let Some((notes, index, context)) = self.reading() {
                    let mut context = context;
                    assert(views(notes@)[index as int] == notes@[index as int]@);
                    add_note_context(&mut context, notes[index].title.as_str(), text.as_str());
                    self.tried(notes, index, context, &mut events);
                }
            },
            ChatEvent::Answered(text) => {
                if let ChatPhase::Answering { .. } = &self.phase {
                    publish(
                        &mut events,
                        WorkflowEvent::new(
                            Stage::Synthesis,
                            Status::Complete,
                            "Answer ready".to_owned(),
                        ),
                    );
                    self.phase = ChatPhase::Done(
                        FetchResult::succeeded(
                            concat("Chat: ", self.query.as_str()),
                            text,
                            IN_MEMORY.to_owned(),
                        ),
                    );
                    assert(views(events@) =~= chat_next(old(self)@, event@).1.events);
                }
            },
            ChatEvent::Failed(err) => {
                if let Some((notes, index, context)) = self.reading() {
                    self.tried(notes, index, context, &mut events);
                } else {
                    let aborts = match &self.phase {
                        ChatPhase::Searching => true,
                        ChatPhase::Answering { .. } => true,
                        _ => false,
                    };
                    if aborts {
                        self.phase = ChatPhase::Aborted(err);
                    }
                }
            },
        }
        let action = self.pending();
        Step { events, action }
    }
}

} // verus!
