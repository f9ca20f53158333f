use workflow_engine::errors::{describe, ErrorKind, Fault, Service, WorkflowError};
use workflow_engine::events::{Stage, Status, WorkflowEvent};
use workflow_engine::prompts::{write_summary_prompt, write_vault_prompt};
use workflow_engine::records::FetchResult;
use workflow_engine::requests::{Method, Payload};
use workflow_engine::steps::{Action, Ending, Step};
use workflow_engine::vault_chat::{ChatEvent, VaultChat, READ_LIMIT};

fn ev(stage: Stage, status: Status, message: &str) -> WorkflowEvent {
    WorkflowEvent { stage, status, message: message.to_string() }
}

fn url_of(step: &Step) -> String {
    match &step.action {
        Action::Send { request, .. } => request.url.clone(),
        other => panic!("unexpected action {:?}", other),
    }
}

fn names(n: usize) -> Vec<String> {
    (0..n).map(|i| format!("n{}.md", i)).collect()
}

#[test]
fn question_searches_reads_three_notes_and_asks_the_model() {
    let (mut chat, step) = VaultChat::start("what is x?", "secret", "llama3.2");
    assert_eq!(
        step.events,
        vec![ev(Stage::Discovery, Status::Running, "Searching vault for: what is x?...")]
    );
    match &step.action {
        Action::Send { service, request } => {
            assert_eq!(*service, Service::VaultSearch);
            assert_eq!(request.method, Method::Post);
            assert_eq!(
                request.url,
                "https://127.0.0.1:27124/search/simple?query=what%20is%20x%3F"
            );
            assert_eq!(request.headers[0].value, "Bearer secret");
        }
        other => panic!("unexpected action {:?}", other),
    }
    let step = chat.advance(ChatEvent::NotesFound(names(12)));
    assert_eq!(
        step.events,
        vec![
            ev(Stage::Discovery, Status::Complete, "Found 10 notes"),
            ev(Stage::Acquisition, Status::Running, "Reading note contents..."),
        ]
    );
    assert_eq!(url_of(&step), "https://127.0.0.1:27124/vault/n0.md");
    let step = chat.advance(ChatEvent::NoteRead("first".to_string()));
    assert_eq!(
        step.events,
        vec![ev(Stage::Acquisition, Status::Running, "Read 1/3 notes...")]
    );
    assert_eq!(url_of(&step), "https://127.0.0.1:27124/vault/n1.md");
    let unreadable = describe(Service::VaultRead, &Fault::Send("timed out".to_string()));
    let step = chat.advance(ChatEvent::Failed(unreadable));
    assert_eq!(
        step.events,
        vec![ev(Stage::Acquisition, Status::Running, "Read 2/3 notes...")]
    );
    assert_eq!(url_of(&step), "https://127.0.0.1:27124/vault/n2.md");
    let step = chat.advance(ChatEvent::NoteRead("third".to_string()));
    assert_eq!(
        step.events,
        vec![
            ev(Stage::Acquisition, Status::Running, "Read 3/3 notes..."),
            ev(Stage::Acquisition, Status::Complete, "Context loaded"),
            ev(Stage::Synthesis, Status::Running, "Generating answer..."),
        ]
    );
    let context = "\n--- Note: n0.md ---\nfirst\n\n--- Note: n2.md ---\nthird\n";
    let question = write_vault_prompt(context, "what is x?");
    assert_eq!(
        question,
        "You are an assistant with access to the user's notes. Answer the question based ONLY on the provided context.\n\nContext:\n\n--- Note: n0.md ---\nfirst\n\n--- Note: n2.md ---\nthird\n\n\nQuestion: what is x?\n\nAnswer:"
    );
    match &step.action {
        Action::Send { service, request } => {
            assert_eq!(*service, Service::Summary);
            assert_eq!(request.url, "http://localhost:11434/api/generate");
            assert_eq!(
                request.payload,
                Payload::Generate {
                    model: "llama3.2".to_string(),
                    prompt: write_summary_prompt(&question),
                    stream: false,
                }
            );
        }
        other => panic!("unexpected action {:?}", other),
    }
    assert!(!chat.is_finished());
    let step = chat.advance(ChatEvent::Answered("x is a letter".to_string()));
    assert_eq!(step.events, vec![ev(Stage::Synthesis, Status::Complete, "Answer ready")]);
    assert_eq!(
        step.action,
        Action::Finish(Ending::Done(FetchResult {
            success: true,
            title: "Chat: what is x?".to_string(),
            summary: "x is a letter".to_string(),
            file_path: "In Memory".to_string(),
            error: None,
        }))
    );
    assert!(chat.is_finished());
}

#[test]
fn fewer_notes_than_the_limit_are_all_read() {
    assert_eq!(READ_LIMIT, 3);
    let (mut chat, _) = VaultChat::start("q", "k", "m");
    let step = chat.advance(ChatEvent::NotesFound(names(1)));
    assert_eq!(step.events[0].message, "Found 1 notes");
    let step = chat.advance(ChatEvent::NoteRead("only".to_string()));
    assert_eq!(
        step.events,
        vec![
            ev(Stage::Acquisition, Status::Running, "Read 1/3 notes..."),
            ev(Stage::Acquisition, Status::Complete, "Context loaded"),
            ev(Stage::Synthesis, Status::Running, "Generating answer..."),
        ]
    );
}

#[test]
fn question_without_matching_notes_ends() {
    let (mut chat, _) = VaultChat::start("q", "k", "m");
    let step = chat.advance(ChatEvent::NotesFound(Vec::new()));
    assert!(step.events.is_empty());
    assert_eq!(
        step.action,
        Action::Finish(Ending::Aborted(WorkflowError {
            kind: ErrorKind::MissingField,
            message: "No matching notes found.".to_string(),
        }))
    );
}

#[test]
fn failed_search_or_model_ends_the_question() {
    let (mut chat, _) = VaultChat::start("q", "k", "m");
    let error = describe(
        Service::VaultSearch,
        &Fault::Parse { detail: "expected value".to_string(), body: "x".to_string() },
    );
    let step = chat.advance(ChatEvent::Failed(error.clone()));
    assert_eq!(error.message, "Obsidian Parse Error: expected value");
    assert_eq!(step.action, Action::Finish(Ending::Aborted(error)));

    let (mut chat, _) = VaultChat::start("q", "k", "m");
    chat.advance(ChatEvent::NotesFound(names(1)));
    chat.advance(ChatEvent::NoteRead("only".to_string()));
    let error = describe(Service::Summary, &Fault::Send("refused".to_string()));
    let step = chat.advance(ChatEvent::Failed(error.clone()));
    assert!(step.events.is_empty());
    assert_eq!(step.action, Action::Finish(Ending::Aborted(error)));
}

#[test]
fn vault_chat_ignores_events_it_does_not_await() {
    let (mut chat, first) = VaultChat::start("q", "k", "m");
    let step = chat.advance(ChatEvent::NoteRead("x".to_string()));
    assert!(step.events.is_empty());
    assert_eq!(step.action, first.action);
    let step = chat.advance(ChatEvent::Answered("x".to_string()));
    assert_eq!(step.action, first.action);
    let reading = chat.advance(ChatEvent::NotesFound(names(2)));
    let step = chat.advance(ChatEvent::NotesFound(names(5)));
    assert!(step.events.is_empty());
    assert_eq!(step.action, reading.action);
    assert_eq!(chat.pending(), reading.action);
}

#[test]
fn question_can_be_given_up_before_a_stage_only() {
    let (mut chat, _) = VaultChat::start("q", "k", "m");
    chat.advance(ChatEvent::NotesFound(names(3)));
    let second = chat.advance(ChatEvent::NoteRead("first".to_string()));
    let step = chat.cancel();
    assert!(step.events.is_empty());
    assert_eq!(step.action, second.action);
    assert!(!chat.is_finished());
    chat.advance(ChatEvent::NoteRead("second".to_string()));
    chat.advance(ChatEvent::NoteRead("third".to_string()));
    let step = chat.cancel();
    assert_eq!(step.action, Action::Finish(Ending::Cancelled));
    assert!(chat.is_finished());

    let (mut chat, _) = VaultChat::start("q", "k", "m");
    assert_eq!(chat.cancel().action, Action::Finish(Ending::Cancelled));
    let (mut chat, _) = VaultChat::start("q", "k", "m");
    chat.advance(ChatEvent::NotesFound(names(3)));
    assert_eq!(chat.cancel().action, Action::Finish(Ending::Cancelled));
}
