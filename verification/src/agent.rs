//! The agent loop: a conversation with the language model in which the model
//! may call a tool in each turn, until it answers or its turns run out.
//!
//! The loop is a state machine. A step takes what the outside world gave (the
//! model's reply, a tool's outcome) and returns the events to publish and the
//! next thing to do. Whoever drives the machine sends the requests.

use crate::dispatch::{
    fits, format_tool_result, request_for, select_tool, tool_for, tool_request,
    tool_result_text, OutcomeView, Tool, ToolOutcome, UNKNOWN_TOOL,
};
use crate::errors::{ErrorView, WorkflowError};
use crate::events::{event, EventView, Stage, Status, WorkflowEvent};
use crate::prompts::{agent_prompt, write_agent_prompt};
use crate::records::{
    lemma_views_push, success_view, views, ConversationMessage, FetchResult, FetchResultView,
    MessageView, Role, IN_MEMORY,
};
use crate::requests::{chat, chat_request, HttpRequest, RequestView};
use crate::steps::{no_events, publish};
use crate::text::{concat, contains_text, decimal, decimal_string, lowercase};
use crate::toolcall::{
    argument_of, extract_arg, lemma_no_marker_no_call, marker, parse_tool_call, thought,
    thought_of, tool_call_text,
};
use vstd::prelude::*;
use vstd::string::StringExecFns;

verus! {

/// The most turns that one run of the agent takes.
pub const MAX_TURNS: usize = 5;

/// Where a run of the agent stands.
#[derive(Debug, PartialEq, Eq)]
pub enum AgentPhase {
    /// The model has been asked and has not replied yet.
    AwaitingModel,
    /// The model called `tool` on `argument`, and the tool has not finished.
    AwaitingTool { tool: Tool, argument: String },
    /// The model gave its answer.
    Answered,
    /// The turns ran out before the model gave an answer.
    Exhausted,
    /// The model could not be reached.
    Failed(WorkflowError),
    /// The driver gave the run up between two turns.
    Cancelled,
}

/// What an `AgentPhase` holds.
pub enum PhaseView {
    AwaitingModel,
    AwaitingTool { tool: Tool, argument: Seq<char> },
    Answered,
    Exhausted,
    Failed(ErrorView),
    Cancelled,
}

impl View for AgentPhase {
    type V = PhaseView;

    open spec fn view(&self) -> PhaseView {
        match self {
            AgentPhase::AwaitingModel => PhaseView::AwaitingModel,
            AgentPhase::AwaitingTool { tool, argument } => PhaseView::AwaitingTool {
                tool: *tool,
                argument: argument@,
            },
            AgentPhase::Answered => PhaseView::Answered,
            AgentPhase::Exhausted => PhaseView::Exhausted,
            AgentPhase::Failed(e) => PhaseView::Failed(e@),
            AgentPhase::Cancelled => PhaseView::Cancelled,
        }
    }
}

/// What the outside world gave to a run of the agent.
#[derive(Debug, PartialEq, Eq)]
pub enum AgentEvent {
    /// The model replied with this text.
    ModelReplied(String),
    /// The model could not be reached.
    ModelFailed(WorkflowError),
    /// The tool that was run gave this.
    ToolFinished(ToolOutcome),
}

/// What an `AgentEvent` holds.
pub enum AgentEventView {
    ModelReplied(Seq<char>),
    ModelFailed(ErrorView),
    ToolFinished(OutcomeView),
}

impl View for AgentEvent {
    type V = AgentEventView;

    open spec fn view(&self) -> AgentEventView {
        match self {
            AgentEvent::ModelReplied(text) => AgentEventView::ModelReplied(text@),
            AgentEvent::ModelFailed(e) => AgentEventView::ModelFailed(e@),
            AgentEvent::ToolFinished(outcome) => AgentEventView::ToolFinished(outcome@),
        }
    }
}

/// How a run of the agent ended.
#[derive(Debug, PartialEq, Eq)]
pub enum AgentEnding {
    /// The model answered: the artifact holds its answer.
    Answered(FetchResult),
    /// The turns ran out: the artifact holds no answer.
    Exhausted(FetchResult),
    /// The model could not be reached.
    Failed(WorkflowError),
    /// The driver gave the run up between two turns.
    Cancelled,
}

/// What an `AgentEnding` holds.
pub enum EndingView {
    Answered(FetchResultView),
    Exhausted(FetchResultView),
    Failed(ErrorView),
    Cancelled,
}

impl View for AgentEnding {
    type V = EndingView;

    open spec fn view(&self) -> EndingView {
        match self {
            AgentEnding::Answered(r) => EndingView::Answered(r@),
            AgentEnding::Exhausted(r) => EndingView::Exhausted(r@),
            AgentEnding::Failed(e) => EndingView::Failed(e@),
            AgentEnding::Cancelled => EndingView::Cancelled,
        }
    }
}

/// What the driver of a run does next.
#[derive(Debug, PartialEq, Eq)]
pub enum AgentAction {
    /// Send this request to the model and hand back its reply.
    AskModel(HttpRequest),
    /// Send this request, which runs `tool`, and hand back the outcome.
    RunTool { tool: Tool, request: HttpRequest },
    /// Stop: the run has ended.
    Finish(AgentEnding),
}

/// What an `AgentAction` holds.
pub enum ActionView {
    AskModel(RequestView),
    RunTool { tool: Tool, request: RequestView },
    Finish(EndingView),
}

impl View for AgentAction {
    type V = ActionView;

    open spec fn view(&self) -> ActionView {
        match self {
            AgentAction::AskModel(request) => ActionView::AskModel(request@),
            AgentAction::RunTool { tool, request } => ActionView::RunTool {
                tool: *tool,
                request: request@,
            },
            AgentAction::Finish(ending) => ActionView::Finish(ending@),
        }
    }
}

/// What one step of the agent asks of its driver: the events to publish, in
/// order, and what to do next.
#[derive(Debug, PartialEq, Eq)]
pub struct AgentStep {
    pub events: Vec<WorkflowEvent>,
    pub action: AgentAction,
}

/// What an `AgentStep` holds.
pub struct StepView {
    pub events: Seq<EventView>,
    pub action: ActionView,
}

impl View for AgentStep {
    type V = StepView;

    open spec fn view(&self) -> StepView {
        StepView { events: views(self.events@), action: self.action@ }
    }
}

/// The state of a run of the agent. The run owns its conversation: nothing
/// else can change it.
pub struct AgentLoop {
    query: String,
    model: String,
    api_key: String,
    history: Vec<ConversationMessage>,
    turn: usize,
    phase: AgentPhase,
    answer: String,
}

/// What an `AgentLoop` holds: the question, the model's name, the vault's key,
/// the conversation so far, the number of turns that are over, the phase, and
/// the answer, which is empty until the model gives one.
pub struct AgentView {
    pub query: Seq<char>,
    pub model: Seq<char>,
    pub api_key: Seq<char>,
    pub history: Seq<MessageView>,
    pub turn: nat,
    pub phase: PhaseView,
    pub answer: Seq<char>,
}

impl View for AgentLoop {
    type V = AgentView;

    closed spec fn view(&self) -> AgentView {
        AgentView {
            query: self.query@,
            model: self.model@,
            api_key: self.api_key@,
            history: views(self.history@),
            turn: self.turn as nat,
            phase: self.phase@,
            answer: self.answer@,
        }
    }
}

/// The event that opens the turn after `turn` turns are over.
pub open spec fn thinking(turn: nat) -> EventView {
    event(
        Stage::Synthesis,
        Status::Running,
        "Agent thinking (Turn "@ + decimal(turn + 1) + "/"@ + decimal(MAX_TURNS as nat) + ")"@,
    )
}

/// The artifact of a run: its answer, stored nowhere.
pub open spec fn agent_artifact(s: AgentView) -> FetchResultView {
    success_view("Agent: "@ + s.query, s.answer, IN_MEMORY@)
}

/// What the driver has to do in state `s`.
pub open spec fn pending_action(s: AgentView) -> ActionView {
    match s.phase {
        PhaseView::AwaitingModel => ActionView::AskModel(chat(s.model, s.history)),
        PhaseView::AwaitingTool { tool, argument } => ActionView::RunTool {
            tool,
            request: tool_request(tool, argument, s.api_key),
        },
        PhaseView::Answered => ActionView::Finish(EndingView::Answered(agent_artifact(s))),
        PhaseView::Exhausted => ActionView::Finish(EndingView::Exhausted(agent_artifact(s))),
        PhaseView::Failed(e) => ActionView::Finish(EndingView::Failed(e)),
        PhaseView::Cancelled => ActionView::Finish(EndingView::Cancelled),
    }
}

/// The state in which a run about `query` begins: the conversation holds the
/// system message, no turn is over, and the model is asked.
pub open spec fn initial_state(query: Seq<char>, model: Seq<char>, api_key: Seq<char>) -> AgentView {
    AgentView {
        query,
        model,
        api_key,
        history: seq![MessageView { role: Role::System, content: agent_prompt(query) }],
        turn: 0,
        phase: PhaseView::AwaitingModel,
        answer: seq![],
    }
}

/// The first step of a run.
pub open spec fn agent_start(query: Seq<char>, model: Seq<char>, api_key: Seq<char>) -> (
    AgentView,
    StepView,
) {
    let s = initial_state(query, model, api_key);
    (
        s,
        StepView {
            events: seq![
                event(Stage::Discovery, Status::Running, "Initializing Agent..."@),
                thinking(0),
            ],
            action: pending_action(s),
        },
    )
}

/// The state after `report` of a tool closed the current turn: the report
/// joins the conversation as a user message, and the next turn begins unless
/// the turns have run out.
pub open spec fn after_report(s: AgentView, report: Seq<char>) -> AgentView {
    let turn = if s.turn < MAX_TURNS {
        s.turn + 1
    } else {
        s.turn
    };
    AgentView {
        history: s.history.push(
            MessageView { role: Role::User, content: "Tool Result: "@ + report },
        ),
        turn,
        phase: if turn < MAX_TURNS {
            PhaseView::AwaitingModel
        } else {
            PhaseView::Exhausted
        },
        ..s
    }
}

/// The events that follow a tool's report, given the state after it.
pub open spec fn report_events(next: AgentView) -> Seq<EventView> {
    if next.phase is AwaitingModel {
        seq![thinking(next.turn)]
    } else {
        seq![]
    }
}

/// The event that shows what the model said before its directive, if it said
/// anything.
pub open spec fn thought_events(text: Seq<char>) -> Seq<EventView> {
    if thought_of(text).len() > 0 {
        seq![event(Stage::Synthesis, Status::Running, "Agent: "@ + thought_of(text))]
    } else {
        seq![]
    }
}

/// The state after the model replied with `text`, and the events to publish.
/// The reply joins the conversation. A reply without a tool call is the
/// answer. A call of a tool that does not exist is reported at once.
pub open spec fn after_reply(s: AgentView, text: Seq<char>) -> (AgentView, Seq<EventView>) {
    let heard = AgentView {
        history: s.history.push(MessageView { role: Role::Assistant, content: text }),
        ..s
    };
    match tool_call_text(text) {
        None => (
            AgentView { answer: text, phase: PhaseView::Answered, ..heard },
            thought_events(text).push(
                event(Stage::Synthesis, Status::Complete, "Agent finished task."@),
            ),
        ),
        Some(call) => {
            let announced = thought_events(text).push(
                event(Stage::Acquisition, Status::Running, "Executing: "@ + call),
            );
            match tool_for(lowercase(call)) {
                Some(tool) => (
                    AgentView {
                        phase: PhaseView::AwaitingTool { tool, argument: argument_of(call) },
                        ..heard
                    },
                    announced,
                ),
                None => {
                    let next = after_report(heard, UNKNOWN_TOOL@);
                    (next, announced + report_events(next))
                },
            }
        },
    }
}

/// One step of the agent: the state after `e` happened in state `s`, and what
/// the driver has to do. An event that the state does not await changes
/// nothing.
pub open spec fn agent_next(s: AgentView, e: AgentEventView) -> (AgentView, StepView) {
    let (next, events) = match (s.phase, e) {
        (PhaseView::AwaitingModel, AgentEventView::ModelReplied(text)) => after_reply(s, text),
        (PhaseView::AwaitingModel, AgentEventView::ModelFailed(err)) => (
            AgentView { phase: PhaseView::Failed(err), ..s },
            seq![],
        ),
        (
            PhaseView::AwaitingTool { tool, argument },
            AgentEventView::ToolFinished(outcome),
        ) => match tool_result_text(tool, argument, outcome) {
            Some(report) => {
                let next = after_report(s, report);
                (next, report_events(next))
            },
            None => (s, seq![]),
        },
        _ => (s, seq![]),
    };
    (next, StepView { events, action: pending_action(next) })
}

/// The state after the driver gave the run up. A run can be given up between
/// two turns, when the model is about to be asked; inside a turn, and after
/// the end, giving up changes nothing.
pub open spec fn agent_cancel(s: AgentView) -> (AgentView, StepView) {
    let next = if s.phase is AwaitingModel {
        AgentView { phase: PhaseView::Cancelled, ..s }
    } else {
        s
    };
    (next, StepView { events: seq![], action: pending_action(next) })
}

/// Writes the event that opens the turn after `turn` turns are over.
fn thinking_event(turn: usize) -> (r: WorkflowEvent)
    requires
        turn < MAX_TURNS,
    ensures
        r@ == thinking(turn as nat),
{
    let mut message = concat("Agent thinking (Turn ", decimal_string(turn + 1).as_str());
    message.append("/");
    message.append(decimal_string(MAX_TURNS).as_str());
    message.append(")");
    WorkflowEvent::new(Stage::Synthesis, Status::Running, message)
}

impl AgentLoop {
    /// Begins a run about `query`, with the model `model` and the vault's key.
    pub fn start(query: &str, model: &str, api_key: &str) -> (r: (AgentLoop, AgentStep))
        ensures
            (r.0@, r.1@) == agent_start(query@, model@, api_key@),
    {
        let mut history: Vec<ConversationMessage> = Vec::new();
        history.push(ConversationMessage { role: Role::System, content: write_agent_prompt(query) });
        assert(views(history@) =~= seq![
            MessageView { role: Role::System, content: agent_prompt(query@) },
        ]);
        let agent = AgentLoop {
            query: query.to_owned(),
            model: model.to_owned(),
            api_key: api_key.to_owned(),
            history,
            turn: 0,
            phase: AgentPhase::AwaitingModel,
            answer: String::new(),
        };
        let mut events = no_events();
        publish(
            &mut events,
            WorkflowEvent::new(
                Stage::Discovery,
                Status::Running,
                "Initializing Agent...".to_owned(),
            ),
        );
        publish(&mut events, thinking_event(0));
        let action = agent.pending();
        assert(views(events@) =~= agent_start(query@, model@, api_key@).1.events);
        (agent, AgentStep { events, action })
    }

    /// What the driver has to do now.
    pub fn pending(&self) -> (action: AgentAction)
        ensures
            action@ == pending_action(self@),
    {
        match &self.phase {
            AgentPhase::AwaitingModel => AgentAction::AskModel(
                chat_request(self.model.as_str(), &self.history),
            ),
            AgentPhase::AwaitingTool { tool, argument } => AgentAction::RunTool {
                tool: *tool,
                request: request_for(*tool, argument.as_str(), self.api_key.as_str()),
            },
            AgentPhase::Answered => AgentAction::Finish(AgentEnding::Answered(self.artifact())),
            AgentPhase::Exhausted => AgentAction::Finish(AgentEnding::Exhausted(self.artifact())),
            AgentPhase::Failed(e) => AgentAction::Finish(AgentEnding::Failed(e.clone())),
            AgentPhase::Cancelled => AgentAction::Finish(AgentEnding::Cancelled),
        }
    }

    /// The artifact of the run as it stands.
    pub fn artifact(&self) -> (r: FetchResult)
        ensures
            r@ == agent_artifact(self@),
    {
        FetchResult::succeeded(
            concat("Agent: ", self.query.as_str()),
            self.answer.clone(),
            IN_MEMORY.to_owned(),
        )
    }

    /// The conversation so far.
    pub fn history(&self) -> (r: &Vec<ConversationMessage>)
        ensures
            views(r@) == self@.history,
    {
        &self.history
    }

    /// The number of turns that are over.
    pub fn turn(&self) -> (r: usize)
        ensures
            r == self@.turn,
    {
        self.turn
    }

    /// Whether the run has ended.
    pub fn is_finished(&self) -> (b: bool)
        ensures
            b == (pending_action(self@) is Finish),
    {
        match &self.phase {
            AgentPhase::AwaitingModel => false,
            AgentPhase::AwaitingTool { .. } => false,
            _ => true,
        }
    }

    /// Closes the current turn on a tool's report.
    fn close_turn(&mut self, report: &str, events: &mut Vec<WorkflowEvent>)
        ensures
            final(self)@ == after_report(old(self)@, report@),
            views(final(events)@) == views(old(events)@) + report_events(final(self)@),
    {
        let message = ConversationMessage {
            role: Role::User,
            content: concat("Tool Result: ", report),
        };
        proof {
            lemma_views_push(self.history@, message);
        }
        self.history.push(message);
        if self.turn < MAX_TURNS {
            self.turn = self.turn + 1;
        }
        if self.turn < MAX_TURNS {
            self.phase = AgentPhase::AwaitingModel;
            publish(events, thinking_event(self.turn));
            assert(views(events@) =~= views(old(events)@) + report_events(self@));
        } else {
            self.phase = AgentPhase::Exhausted;
            assert(views(events@) =~= views(old(events)@) + report_events(self@));
        }
    }

    /// Takes the model's reply.
    fn hear(&mut self, text: String, events: &mut Vec<WorkflowEvent>)
        requires
            views(old(events)@) == Seq::<EventView>::empty(),
        ensures
            (final(self)@, views(final(events)@)) == after_reply(old(self)@, text@),
    {
        let said = thought(text.as_str());
        if !said.as_str().is_empty() {
            publish(
                events,
                WorkflowEvent::new(
                    Stage::Synthesis,
                    Status::Running,
                    concat("Agent: ", said.as_str()),
                ),
            );
        }
        assert(views(events@) =~= thought_events(text@));
        let call = parse_tool_call(text.as_str());
        let message = ConversationMessage { role: Role::Assistant, content: text.clone() };
        proof {
            lemma_views_push(self.history@, message);
        }
        self.history.push(message);
        match call {
            None => {
                self.answer = text;
                self.phase = AgentPhase::Answered;
                publish(
                    events,
                    WorkflowEvent::new(
                        Stage::Synthesis,
                        Status::Complete,
                        "Agent finished task.".to_owned(),
                    ),
                );
            },
            Some(call) => {
                publish(
                    events,
                    WorkflowEvent::new(
                        Stage::Acquisition,
                        Status::Running,
                        concat("Executing: ", call.as_str()),
                    ),
                );
                match select_tool(call.as_str()) {
                    Some(tool) => {
                        self.phase = AgentPhase::AwaitingTool {
                            tool,
                            argument: extract_arg(call.as_str()),
                        };
                    },
                    None => {
                        self.close_turn(UNKNOWN_TOOL, events);
                    },
                }
            },
        }
    }

    /// Gives the run up instead of asking the model for the next turn.
    pub fn cancel(&mut self) -> (step: AgentStep)
        ensures
            (final(self)@, step@) == agent_cancel(old(self)@),
    {
        if let AgentPhase::AwaitingModel = &self.phase {
            self.phase = AgentPhase::Cancelled;
        }
        let action = self.pending();
        AgentStep { events: no_events(), action }
    }

    /// Takes what the outside world gave and says what to do next. The events
    /// of the step are to be published before its action is taken.
    pub fn advance(&mut self, event: AgentEvent) -> (step: AgentStep)
        ensures
            (final(self)@, step@) == agent_next(old(self)@, event@),
    {
        let mut events = no_events();
        match event {
            AgentEvent::ModelReplied(text) => {
                if let AgentPhase::AwaitingModel = &self.phase {
                    self.hear(text, &mut events);
                }
            },
            AgentEvent::ModelFailed(err) => {
                if let AgentPhase::AwaitingModel = &self.phase {
                    self.phase = AgentPhase::Failed(err);
                }
            },
            AgentEvent::ToolFinished(outcome) => {
                let report = match &self.phase {
                    AgentPhase::AwaitingTool { tool, argument } => format_tool_result(
                        *tool,
                        argument.as_str(),
                        &outcome,
                    ),
                    _ => None,
                };
                if let Some(report) = report {
                    self.close_turn(report.as_str(), &mut events);
                }
            },
        }
        let action = self.pending();
        AgentStep { events, action }
    }
}

/// A reply without the marker is the final answer: the run ends with the
/// whole reply as its answer, and the reply has joined the conversation.
pub proof fn lemma_reply_without_marker_ends(s: AgentView, text: Seq<char>)
    requires
        s.phase is AwaitingModel,
        !contains_text(text, marker()),
    ensures
        ({
            let (next, step) = agent_next(s, AgentEventView::ModelReplied(text));
            &&& next.phase is Answered
            &&& next.answer == text
            &&& next.turn == s.turn
            &&& next.history == s.history.push(
                MessageView { role: Role::Assistant, content: text },
            )
            &&& step.action == ActionView::Finish(
                EndingView::Answered(success_view("Agent: "@ + s.query, text, IN_MEMORY@)),
            )
        }),
{
    lemma_no_marker_no_call(text);
}

/// Whether `reply` calls a tool and `outcome` is what running it can give. A
/// call of a tool that does not exist is reported without running anything, so
/// any outcome goes with it.
pub open spec fn calls_tool(reply: Seq<char>, outcome: OutcomeView) -> bool {
    match tool_call_text(reply) {
        Some(call) => match tool_for(lowercase(call)) {
            Some(tool) => fits(tool, outcome),
            None => true,
        },
        None => false,
    }
}

/// The state after one whole turn: the model replied with `reply`, and the
/// tool that it called, if it called one that exists, gave `outcome`.
pub open spec fn after_turn(s: AgentView, reply: Seq<char>, outcome: OutcomeView) -> AgentView {
    let heard = agent_next(s, AgentEventView::ModelReplied(reply)).0;
    if heard.phase is AwaitingTool {
        agent_next(heard, AgentEventView::ToolFinished(outcome)).0
    } else {
        heard
    }
}

/// The state after as many whole turns as there are replies.
pub open spec fn after_turns(
    s: AgentView,
    replies: Seq<Seq<char>>,
    outcomes: Seq<OutcomeView>,
) -> AgentView
    decreases replies.len(),
{
    if replies.len() == 0 {
        s
    } else {
        after_turn(
            after_turns(s, replies.drop_last(), outcomes.drop_last()),
            replies.last(),
            outcomes.last(),
        )
    }
}

/// A turn in which the model calls a tool closes with one more turn over, two
/// more messages in the conversation and no answer; the run goes on exactly
/// when turns are left.
pub proof fn lemma_tool_turn(s: AgentView, reply: Seq<char>, outcome: OutcomeView)
    requires
        s.phase is AwaitingModel,
        s.turn < MAX_TURNS,
        calls_tool(reply, outcome),
    ensures
        ({
            let next = after_turn(s, reply, outcome);
            &&& next.turn == s.turn + 1
            &&& next.answer == s.answer
            &&& next.query == s.query
            &&& next.history.len() == s.history.len() + 2
            &&& next.history[s.history.len() as int] == MessageView {
                role: Role::Assistant,
                content: reply,
            }
            &&& next.history[s.history.len() as int + 1].role == Role::User
            &&& next.turn < MAX_TURNS ==> next.phase is AwaitingModel
            &&& next.turn == MAX_TURNS ==> next.phase is Exhausted
        }),
{
}

/// The turn budget: a run whose model calls a tool in every turn goes on
/// through each of its first `MAX_TURNS - 1` turns and ends with turn
/// `MAX_TURNS`, exhausted, with an empty answer that is stored nowhere.
pub proof fn lemma_turn_budget(
    query: Seq<char>,
    model: Seq<char>,
    api_key: Seq<char>,
    replies: Seq<Seq<char>>,
    outcomes: Seq<OutcomeView>,
)
    requires
        replies.len() == outcomes.len(),
        replies.len() <= MAX_TURNS,
        forall|i: int| 0 <= i < replies.len() ==> calls_tool(replies[i], outcomes[i]),
    ensures
        ({
            let end = after_turns(initial_state(query, model, api_key), replies, outcomes);
            &&& end.turn == replies.len()
            &&& end.answer == Seq::<char>::empty()
            &&& end.query == query
            &&& end.history.len() == 1 + 2 * replies.len()
            &&& replies.len() < MAX_TURNS ==> end.phase is AwaitingModel
            &&& replies.len() == MAX_TURNS ==> pending_action(end) == ActionView::Finish(
                EndingView::Exhausted(
                    success_view("Agent: "@ + query, Seq::<char>::empty(), IN_MEMORY@),
                ),
            )
        }),
    decreases replies.len(),
{
    if replies.len() > 0 {
        let before = replies.drop_last();
        lemma_turn_budget(query, model, api_key, before, outcomes.drop_last());
        let s = after_turns(initial_state(query, model, api_key), before, outcomes.drop_last());
        assert(calls_tool(replies[replies.len() - 1], outcomes[replies.len() - 1]));
        lemma_tool_turn(s, replies.last(), outcomes.last());
    }
}

/// The conversation only grows: every step keeps what it held, in order.
pub proof fn lemma_history_grows(s: AgentView, e: AgentEventView)
    ensures
        s.history.is_prefix_of(agent_next(s, e).0.history),
        agent_cancel(s).0.history == s.history,
{
    let next = agent_next(s, e).0;
    assert(next.history.subrange(0, s.history.len() as int) =~= s.history);
}

/// The count of turns never passes `MAX_TURNS`, and a step adds at most one
/// turn to it.
pub proof fn lemma_turns_bounded(s: AgentView, e: AgentEventView)
    requires
        s.turn <= MAX_TURNS,
    ensures
        s.turn <= agent_next(s, e).0.turn <= s.turn + 1,
        agent_next(s, e).0.turn <= MAX_TURNS,
        agent_cancel(s).0.turn == s.turn,
{
}

/// A tool that fails does not end the run: its failure joins the
/// conversation in words, as the report of the turn, and the run goes on
/// unless its turns have run out.
pub proof fn lemma_tool_failure_feeds_back(s: AgentView, error: ErrorView)
    requires
        s.phase is AwaitingTool,
    ensures
        ({
            let failed = OutcomeView::Failed(error);
            let next = agent_next(s, AgentEventView::ToolFinished(failed)).0;
            let report = tool_result_text(s.phase->tool, s.phase->argument, failed);
            &&& report is Some
            &&& next.history == s.history.push(
                MessageView { role: Role::User, content: "Tool Result: "@ + report->0 },
            )
            &&& next.phase is AwaitingModel || next.phase is Exhausted
            &&& next.answer == s.answer
        }),
{
}

} // verus!
