use workflow_engine::dispatch::{
    classify_lowered, format_tool_result, request_for, select_tool, Tool,
    ToolOutcome, FETCH_LIMIT, NOTE_LIMIT, UNKNOWN_TOOL,
};
use workflow_engine::errors::{describe, ErrorKind, Fault, Service, WorkflowError};
use workflow_engine::records::SearchResult;
use workflow_engine::requests::{Method, Payload};

fn hit(title: &str, url: &str) -> SearchResult {
    SearchResult { url: url.to_string(), title: title.to_string() }
}

#[test]
fn vault_search_wins_over_web_search() {
    assert_eq!(select_tool("vault_search(\"rust\")"), Some(Tool::VaultSearch));
}

#[test]
fn each_tool_is_selected_by_its_name() {
    assert_eq!(select_tool("search(\"rust\")"), Some(Tool::WebSearch));
    assert_eq!(select_tool("fetch(\"https://example.org\")"), Some(Tool::WebFetch));
    assert_eq!(select_tool("vault_read(\"a.md\")"), Some(Tool::VaultRead));
    assert_eq!(select_tool("summarize(\"x\")"), None);
    assert_eq!(select_tool(""), None);
}

#[test]
fn selection_ignores_case() {
    assert_eq!(select_tool("VAULT_SEARCH(\"rust\")"), Some(Tool::VaultSearch));
    assert_eq!(select_tool("Fetch(\"u\")"), Some(Tool::WebFetch));
    assert_eq!(select_tool("SeArCh(x)"), Some(Tool::WebSearch));
    assert_eq!(classify_lowered("FETCH(u)"), None);
}

#[test]
fn priority_follows_the_order_of_the_rules() {
    assert_eq!(select_tool("fetch(\"vault_search\")"), Some(Tool::VaultSearch));
    assert_eq!(select_tool("vault_read(\"vault_search.md\")"), Some(Tool::VaultSearch));
    assert_eq!(select_tool("fetch(\"vault_read\")"), Some(Tool::VaultRead));
    assert_eq!(select_tool("fetch(\"https://example.org/search\")"), Some(Tool::WebSearch));
    assert_eq!(select_tool("search(\"vault\")"), None);
    assert_eq!(select_tool("fetch(\"search the vault\")"), Some(Tool::WebFetch));
}

#[test]
fn web_search_report_lists_kept_hits() {
    let outcome = ToolOutcome::WebHits(vec![
        hit("Rust", "https://rust-lang.org"),
        hit("Nowhere", ""),
        hit("Docs", "https://docs.rs"),
    ]);
    assert_eq!(
        format_tool_result(Tool::WebSearch, "rust", &outcome),
        Some(
            "Web Search Results for 'rust':\n- Rust (https://rust-lang.org)\n- Docs (https://docs.rs)"
                .to_string()
        )
    );
    assert_eq!(
        format_tool_result(Tool::WebSearch, "rust", &ToolOutcome::WebHits(vec![])),
        Some("Web Search Results for 'rust':\n".to_string())
    );
}

#[test]
fn vault_search_report_lists_file_names() {
    let outcome = ToolOutcome::VaultHits(vec!["a.md".to_string(), "b/c.md".to_string()]);
    assert_eq!(
        format_tool_result(Tool::VaultSearch, "notes", &outcome),
        Some(
            "Vault Search Results for 'notes':\n- a.md (Filename: a.md)\n- b/c.md (Filename: b/c.md)"
                .to_string()
        )
    );
}

#[test]
fn vault_search_report_keeps_ten_notes() {
    let names: Vec<String> = (0..25).map(|i| format!("n{}.md", i)).collect();
    let report = format_tool_result(Tool::VaultSearch, "q", &ToolOutcome::VaultHits(names)).unwrap();
    assert_eq!(report.lines().count(), 11);
    assert!(report.ends_with("- n9.md (Filename: n9.md)"));
}

#[test]
fn fetched_page_is_cut_to_two_thousand_characters() {
    let page: String = std::iter::repeat('y').take(10_000).collect();
    let report =
        format_tool_result(Tool::WebFetch, "https://example.org", &ToolOutcome::Page(page)).unwrap();
    let head = "Content of https://example.org:\n";
    assert!(report.starts_with(head));
    assert_eq!(FETCH_LIMIT, 2000);
    assert_eq!(report.chars().count(), head.chars().count() + 2000);
    assert_eq!(
        format_tool_result(
            Tool::WebFetch,
            "u",
            &ToolOutcome::Page("<p>Hello <i>there</i></p>".to_string())
        ),
        Some("Content of u:\nHello there".to_string())
    );
}

#[test]
fn note_is_cut_to_three_thousand_characters() {
    let note: String = std::iter::repeat('z').take(5_000).collect();
    let report = format_tool_result(Tool::VaultRead, "a.md", &ToolOutcome::Note(note)).unwrap();
    let head = "Content of note a.md:\n";
    assert_eq!(NOTE_LIMIT, 3000);
    assert_eq!(report.chars().count(), head.chars().count() + 3000);
    assert_eq!(
        format_tool_result(Tool::VaultRead, "a.md", &ToolOutcome::Note("<b> kept </b>".to_string())),
        Some("Content of note a.md:\n<b> kept </b>".to_string())
    );
}

#[test]
fn failures_are_reported_in_words() {
    let failed = |message: &str| {
        ToolOutcome::Failed(WorkflowError {
            kind: ErrorKind::Transport,
            message: message.to_string(),
        })
    };
    assert_eq!(
        format_tool_result(Tool::WebSearch, "q", &failed("connection refused")),
        Some("Error searching web: connection refused".to_string())
    );
    assert_eq!(
        format_tool_result(Tool::WebFetch, "https://x", &failed("timed out")),
        Some("Error fetching web https://x: timed out".to_string())
    );
    assert_eq!(
        format_tool_result(Tool::VaultSearch, "q", &failed("connection refused")),
        Some("Error searching vault: connection refused".to_string())
    );
    assert_eq!(
        format_tool_result(Tool::VaultRead, "a.md", &failed("timed out")),
        Some("Error reading note a.md: timed out".to_string())
    );
}

#[test]
fn missing_note_is_reported_as_an_error_reading_it() {
    let error = describe(Service::VaultRead, &Fault::Status("404 Not Found".to_string()));
    assert_eq!(error.kind, ErrorKind::UpstreamStatus);
    let report =
        format_tool_result(Tool::VaultRead, "gone.md", &ToolOutcome::Failed(error)).unwrap();
    assert!(report.contains("Error reading note"));
    assert_eq!(report, "Error reading note gone.md: Vault error: 404 Not Found");
}

#[test]
fn outcome_of_another_tool_has_no_report() {
    let note = ToolOutcome::Note("text".to_string());
    assert_eq!(format_tool_result(Tool::WebSearch, "q", &note), None);
    assert_eq!(format_tool_result(Tool::VaultSearch, "q", &ToolOutcome::WebHits(vec![])), None);
    assert_eq!(format_tool_result(Tool::VaultRead, "a", &ToolOutcome::Page(String::new())), None);
    assert_eq!(format_tool_result(Tool::WebFetch, "u", &ToolOutcome::VaultHits(vec![])), None);
    assert_eq!(UNKNOWN_TOOL, "Unknown tool");
}

#[test]
fn each_tool_has_its_request() {
    let search = request_for(Tool::WebSearch, "rust traits", "key");
    assert_eq!(search.method, Method::Get);
    assert_eq!(
        search.url,
        "http://localhost:8080/search?q=rust%20traits%20documentation&format=json&categories=general"
    );
    assert!(search.headers.is_empty());
    let fetch = request_for(Tool::WebFetch, "https://example.org/a b", "key");
    assert_eq!(fetch.url, "https://example.org/a b");
    assert_eq!(fetch.headers.len(), 1);
    assert_eq!(fetch.headers[0].name, "User-Agent");
    let notes = request_for(Tool::VaultSearch, "a&b", "key");
    assert_eq!(notes.method, Method::Post);
    assert_eq!(notes.url, "https://127.0.0.1:27124/search/simple?query=a%26b");
    assert_eq!(notes.headers[0].value, "Bearer key");
    let read = request_for(Tool::VaultRead, "Reference/Docs/x.md", "key");
    assert_eq!(read.method, Method::Get);
    assert_eq!(read.url, "https://127.0.0.1:27124/vault/Reference%2FDocs%2Fx.md");
    assert_eq!(read.payload, Payload::Empty);
}
