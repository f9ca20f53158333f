use workflow_engine::errors::{describe, ErrorKind, Fault, Service};
use workflow_engine::events::{Stage, Status, WorkflowEvent};
use workflow_engine::notes::{write_note, write_note_path};
use workflow_engine::pipeline::{Pipeline, PipelineEvent, SUMMARY_LIMIT};
use workflow_engine::prompts::write_summary_prompt;
use workflow_engine::records::{FetchResult, WorkflowOptions};
use workflow_engine::requests::{Method, Payload};
use workflow_engine::steps::{Action, Ending};

fn ev(stage: Stage, status: Status, message: &str) -> WorkflowEvent {
    WorkflowEvent { stage, status, message: message.to_string() }
}

fn options(use_ai: bool) -> WorkflowOptions {
    WorkflowOptions {
        use_ai,
        headless: true,
        model_name: "llama3.2".to_string(),
        obsidian_api_key: "secret".to_string(),
    }
}

const PAGE: &str = "<html><body>Hello <b>World</b></body></html>";

#[test]
fn page_is_stored_as_it_is_when_the_model_is_off() {
    let (mut run, step) =
        Pipeline::start("kubernetes", "https://k8s.io/docs", "Kubernetes Docs", &options(false));
    assert_eq!(
        step.events,
        vec![ev(Stage::Acquisition, Status::Running, "Fetching: https://k8s.io/docs...")]
    );
    match &step.action {
        Action::Send { service, request } => {
            assert_eq!(*service, Service::PageFetch);
            assert_eq!(request.method, Method::Get);
            assert_eq!(request.url, "https://k8s.io/docs");
        }
        other => panic!("unexpected action {:?}", other),
    }
    let step = run.advance_on(PipelineEvent::PageFetched(PAGE.to_string()), "2024-05-06");
    assert_eq!(
        step.events,
        vec![
            ev(Stage::Acquisition, Status::Complete, "Retrieved 11 chars"),
            ev(Stage::Synthesis, Status::Skipped, "Using raw content"),
            ev(Stage::Persistence, Status::Running, "Saving to Obsidian vault..."),
        ]
    );
    match &step.action {
        Action::Send { service, request } => {
            assert_eq!(*service, Service::VaultWrite);
            assert_eq!(request.method, Method::Put);
            assert_eq!(
                request.url,
                "https://127.0.0.1:27124/vault/Reference%2FDocs%2Fkubernetes.md"
            );
            assert_eq!(request.headers[0].value, "Bearer secret");
            assert_eq!(
                request.payload,
                Payload::Markdown(
                    "---\ntags: [reference, documentation, fetched]\nsource: https://k8s.io/docs\nsource_title: \"Kubernetes Docs\"\nfetched_date: 2024-05-06\nmodel: llama3.2\n---\n\n# kubernetes\n\nHello World\n"
                        .to_string()
                )
            );
        }
        other => panic!("unexpected action {:?}", other),
    }
    assert!(!run.is_finished());
    let step = run.advance_on(PipelineEvent::NoteSaved, "2024-05-06");
    assert_eq!(
        step.events,
        vec![ev(Stage::Persistence, Status::Complete, "Saved: Reference/Docs/kubernetes.md")]
    );
    assert_eq!(
        step.action,
        Action::Finish(Ending::Done(FetchResult {
            success: true,
            title: "Kubernetes Docs".to_string(),
            summary: "Hello World".to_string(),
            file_path: "Reference/Docs/kubernetes.md".to_string(),
            error: None,
        }))
    );
    assert!(run.is_finished());
}

#[test]
fn page_is_summarized_when_the_model_is_on() {
    let (mut run, _) = Pipeline::start("k", "https://u", "T", &options(true));
    let step = run.advance_on(PipelineEvent::PageFetched("<p>é and more</p>".to_string()), "d");
    assert_eq!(
        step.events,
        vec![
            ev(Stage::Acquisition, Status::Complete, "Retrieved 11 chars"),
            ev(Stage::Synthesis, Status::Running, "Summarizing with llama3.2..."),
        ]
    );
    match &step.action {
        Action::Send { service, request } => {
            assert_eq!(*service, Service::Summary);
            assert_eq!(request.url, "http://localhost:11434/api/generate");
            assert_eq!(
                request.payload,
                Payload::Generate {
                    model: "llama3.2".to_string(),
                    prompt: "Summarize the following documentation into a Reference Note format.\n\nInclude:\n- Executive Summary (2-3 sentences)\n- Key Concepts (bullet points)\n- Code Examples (if any, preserve them)\n\nDocumentation:\né and more\n\nProvide a clean, structured markdown summary:".to_string(),
                    stream: false,
                }
            );
        }
        other => panic!("unexpected action {:?}", other),
    }
    let summary: String = std::iter::repeat("ab").take(150).collect();
    let step = run.advance_on(PipelineEvent::Summarized(summary.clone()), "2024-01-02");
    assert_eq!(
        step.events,
        vec![
            ev(Stage::Synthesis, Status::Complete, "Summary generated"),
            ev(Stage::Persistence, Status::Running, "Saving to Obsidian vault..."),
        ]
    );
    match &step.action {
        Action::Send { request, .. } => {
            assert_eq!(
                request.payload,
                Payload::Markdown(write_note("k", &summary, "https://u", "T", "2024-01-02"))
            );
        }
        other => panic!("unexpected action {:?}", other),
    }
    let step = run.advance_on(PipelineEvent::NoteSaved, "x");
    assert_eq!(SUMMARY_LIMIT, 200);
    match step.action {
        Action::Finish(Ending::Done(result)) => {
            assert!(result.success);
            assert_eq!(result.summary, summary[..200]);
            assert_eq!(result.file_path, "Reference/Docs/k.md");
            assert_eq!(result.error, None);
        }
        other => panic!("unexpected action {:?}", other),
    }
}

#[test]
fn long_page_reaches_the_model_cut_to_eight_thousand_characters() {
    let (mut run, _) = Pipeline::start("k", "https://u", "T", &options(true));
    let page: String = std::iter::repeat('x').take(10_000).collect();
    let step = run.advance_on(PipelineEvent::PageFetched(page.clone()), "d");
    assert_eq!(step.events[0].message, "Retrieved 8000 chars");
    match step.action {
        Action::Send { request, .. } => {
            assert_eq!(
                request.payload,
                Payload::Generate {
                    model: "llama3.2".to_string(),
                    prompt: write_summary_prompt(&page[..8000]),
                    stream: false,
                }
            );
        }
        other => panic!("unexpected action {:?}", other),
    }
}

#[test]
fn failure_of_any_stage_ends_the_run() {
    let fetch = describe(Service::PageFetch, &Fault::Send("dns".to_string()));
    let (mut run, _) = Pipeline::start("k", "https://u", "T", &options(true));
    let step = run.advance_on(PipelineEvent::Failed(fetch.clone()), "d");
    assert!(step.events.is_empty());
    assert_eq!(step.action, Action::Finish(Ending::Aborted(fetch.clone())));
    assert_eq!(fetch.message, "Failed to fetch URL: dns");
    assert!(run.is_finished());
    let again = run.advance_on(PipelineEvent::PageFetched(PAGE.to_string()), "d");
    assert!(again.events.is_empty());
    assert_eq!(again.action, Action::Finish(Ending::Aborted(fetch)));

    let (mut run, _) = Pipeline::start("k", "https://u", "T", &options(true));
    run.advance_on(PipelineEvent::PageFetched(PAGE.to_string()), "d");
    let summary = describe(Service::Summary, &Fault::Read("eof".to_string()));
    let step = run.advance_on(PipelineEvent::Failed(summary.clone()), "d");
    assert_eq!(step.action, Action::Finish(Ending::Aborted(summary)));

    let (mut run, _) = Pipeline::start("k", "https://u", "T", &options(false));
    run.advance_on(PipelineEvent::PageFetched(PAGE.to_string()), "d");
    let save = describe(Service::VaultWrite, &Fault::Status("401 Unauthorized".to_string()));
    let step = run.advance_on(PipelineEvent::Failed(save), "d");
    match step.action {
        Action::Finish(Ending::Aborted(e)) => {
            assert_eq!(e.kind, ErrorKind::UpstreamStatus);
            assert_eq!(e.message, "Obsidian API returned error: 401 Unauthorized");
        }
        other => panic!("unexpected action {:?}", other),
    }
}

#[test]
fn pipeline_ignores_events_it_does_not_await() {
    let (mut run, first) = Pipeline::start("k", "https://u", "T", &options(true));
    let step = run.advance_on(PipelineEvent::NoteSaved, "d");
    assert!(step.events.is_empty());
    assert_eq!(step.action, first.action);
    let step = run.advance_on(PipelineEvent::Summarized("s".to_string()), "d");
    assert_eq!(step.action, first.action);
    let asked = run.advance_on(PipelineEvent::PageFetched(PAGE.to_string()), "d");
    let step = run.advance_on(PipelineEvent::PageFetched(PAGE.to_string()), "d");
    assert!(step.events.is_empty());
    assert_eq!(step.action, asked.action);
    assert_eq!(run.pending(), asked.action);
}

#[test]
fn note_bears_the_day_of_the_clock() {
    let (mut run, _) = Pipeline::start("k", "https://u", "T", &options(false));
    let step = run.advance(PipelineEvent::PageFetched(PAGE.to_string()));
    let note = match step.action {
        Action::Send { request, .. } => match request.payload {
            Payload::Markdown(note) => note,
            other => panic!("unexpected payload {:?}", other),
        },
        other => panic!("unexpected action {:?}", other),
    };
    let line = note.lines().find(|l| l.starts_with("fetched_date: ")).unwrap();
    let date = &line["fetched_date: ".len()..];
    let parts: Vec<&str> = date.split('-').collect();
    assert_eq!(parts.len(), 3);
    assert!(parts.iter().all(|p| p.chars().all(|c| c.is_ascii_digit())));
    assert!(parts[0].len() >= 4);
    assert_eq!(parts[1].len(), 2);
    assert_eq!(parts[2].len(), 2);
    let month: u32 = parts[1].parse().unwrap();
    let day: u32 = parts[2].parse().unwrap();
    assert!((1..=12).contains(&month));
    assert!((1..=31).contains(&day));
    assert_eq!(note, write_note("k", "Hello World", "https://u", "T", date));
}

#[test]
fn titles_are_made_safe_for_the_vault() {
    assert_eq!(write_note_path("kubernetes"), "Reference/Docs/kubernetes.md");
    assert_eq!(
        write_note_path("a/b\\c:d*e?f\"g<h>i|j"),
        "Reference/Docs/a_b_c_d_e_f_g_h_i_j.md"
    );
    assert_eq!(write_note_path(""), "Reference/Docs/.md");
    assert_eq!(write_note_path("C++ & Rust é"), "Reference/Docs/C++ & Rust é.md");
}

#[test]
fn pipeline_can_be_given_up_before_any_stage() {
    let (mut run, _) = Pipeline::start("k", "https://u", "T", &options(true));
    let step = run.cancel();
    assert!(step.events.is_empty());
    assert_eq!(step.action, Action::Finish(Ending::Cancelled));
    assert!(run.is_finished());
    let step = run.advance_on(PipelineEvent::PageFetched(PAGE.to_string()), "d");
    assert!(step.events.is_empty());
    assert_eq!(step.action, Action::Finish(Ending::Cancelled));

    let (mut run, _) = Pipeline::start("k", "https://u", "T", &options(false));
    run.advance_on(PipelineEvent::PageFetched(PAGE.to_string()), "d");
    assert_eq!(run.cancel().action, Action::Finish(Ending::Cancelled));

    let (mut run, _) = Pipeline::start("k", "https://u", "T", &options(false));
    run.advance_on(PipelineEvent::PageFetched(PAGE.to_string()), "d");
    let done = run.advance_on(PipelineEvent::NoteSaved, "d");
    assert_eq!(run.cancel().action, done.action);
}
