use workflow_engine::errors::{describe, ErrorKind, Fault, Service};
use workflow_engine::events::{Stage, Status};
use workflow_engine::llm::{chat_reply, message_content};

fn send(detail: &str) -> Fault {
    Fault::Send(detail.to_string())
}

#[test]
fn transport_failures_name_the_service() {
    let e = describe(Service::Summary, &send("refused"));
    assert_eq!(e.kind, ErrorKind::Transport);
    assert_eq!(e.message, "Ollama request failed: refused. Is Ollama running?");
    assert_eq!(
        describe(Service::VaultWrite, &send("refused")).message,
        "Obsidian API request failed: refused. Is Obsidian running with Local REST API?"
    );
    assert_eq!(describe(Service::PageFetch, &send("dns")).message, "Failed to fetch URL: dns");
    assert_eq!(describe(Service::VaultRead, &send("dns")).message, "Vault fetch failed: dns");
    assert_eq!(describe(Service::WebSearch, &send("dns")).message, "dns");
    assert_eq!(describe(Service::VaultSearch, &send("dns")).message, "dns");
    assert_eq!(describe(Service::Chat, &send("dns")).message, "dns");
}

#[test]
fn unreadable_bodies_are_transport_failures() {
    let read = Fault::Read("eof".to_string());
    let e = describe(Service::Summary, &read);
    assert_eq!(e.kind, ErrorKind::Transport);
    assert_eq!(e.message, "Failed to read Ollama response: eof");
    assert_eq!(describe(Service::PageFetch, &read).message, "Failed to read response: eof");
    assert_eq!(describe(Service::VaultRead, &read).message, "Failed to read vault response: eof");
    assert_eq!(describe(Service::Chat, &read).message, "eof");
}

#[test]
fn statuses_that_are_no_success_carry_the_status() {
    let status = Fault::Status("500 Internal Server Error".to_string());
    let e = describe(Service::VaultWrite, &status);
    assert_eq!(e.kind, ErrorKind::UpstreamStatus);
    assert_eq!(e.message, "Obsidian API returned error: 500 Internal Server Error");
    assert_eq!(
        describe(Service::VaultRead, &status).message,
        "Vault error: 500 Internal Server Error"
    );
    assert_eq!(describe(Service::WebSearch, &status).message, "500 Internal Server Error");
}

#[test]
fn decode_failures_quote_the_start_of_the_body() {
    let long: String = std::iter::repeat('é').take(300).collect();
    let parse = Fault::Parse { detail: "expected value".to_string(), body: long.clone() };
    let e = describe(Service::WebSearch, &parse);
    assert_eq!(e.kind, ErrorKind::Decode);
    let quoted: String = long.chars().take(100).collect();
    assert_eq!(e.message, format!("JSON Parse Error: expected value. Text: {}", quoted));
    let quoted: String = long.chars().take(200).collect();
    assert_eq!(
        describe(Service::Summary, &parse).message,
        format!("Failed to parse Ollama JSON: expected value. Response: {}", quoted)
    );
    assert_eq!(
        describe(Service::VaultSearch, &parse).message,
        "Obsidian Parse Error: expected value"
    );
    assert_eq!(describe(Service::Chat, &parse).message, "expected value");
    let short = Fault::Parse { detail: "d".to_string(), body: "<html>".to_string() };
    assert_eq!(describe(Service::WebSearch, &short).message, "JSON Parse Error: d. Text: <html>");
}

#[test]
fn missing_field_says_no_content() {
    let e = describe(Service::Chat, &Fault::Missing);
    assert_eq!(e.kind, ErrorKind::MissingField);
    assert_eq!(e.message, "No content");
}

#[test]
fn chat_answer_holds_the_reply_at_message_content() {
    let body = "{\"model\":\"m\",\"message\":{\"role\":\"assistant\",\"content\":\"Hi \\\"you\\\"\"},\"done\":true}";
    assert_eq!(chat_reply(body), Ok("Hi \"you\"".to_string()));
    assert_eq!(chat_reply("{\"message\":{\"content\":\"\"}}"), Ok(String::new()));
}

#[test]
fn chat_answer_without_reply_is_a_missing_field() {
    for body in [
        "{}",
        "{\"message\":{}}",
        "{\"message\":{\"content\":null}}",
        "{\"message\":{\"content\":5}}",
        "{\"message\":\"content\"}",
        "[1,2]",
        "\"message\"",
        "{\"content\":\"x\"}",
    ] {
        let e = chat_reply(body).unwrap_err();
        assert_eq!(e.kind, ErrorKind::MissingField, "{}", body);
        assert_eq!(e.message, "No content");
    }
}

#[test]
fn chat_answer_that_is_no_json_is_a_decode_error() {
    let e = chat_reply("<html>502</html>").unwrap_err();
    assert_eq!(e.kind, ErrorKind::Decode);
    let expected = serde_json::from_str::<serde_json::Value>("<html>502</html>")
        .unwrap_err()
        .to_string();
    assert_eq!(e.message, expected);
    assert_eq!(chat_reply("").unwrap_err().kind, ErrorKind::Decode);
}

#[test]
fn reply_is_read_from_a_document() {
    let mut message = serde_json::Map::new();
    message.insert("content".to_string(), serde_json::Value::String("answer".to_string()));
    let mut doc = serde_json::Map::new();
    doc.insert("message".to_string(), serde_json::Value::Object(message));
    assert_eq!(message_content(&serde_json::Value::Object(doc)), Some("answer".to_string()));
    assert_eq!(message_content(&serde_json::Value::Null), None);
    assert_eq!(message_content(&serde_json::Value::String("content".to_string())), None);
}

#[test]
fn stages_and_statuses_have_their_names() {
    assert_eq!(Stage::Discovery.name(), "discovery");
    assert_eq!(Stage::Acquisition.name(), "acquisition");
    assert_eq!(Stage::Synthesis.name(), "synthesis");
    assert_eq!(Stage::Persistence.name(), "persistence");
    assert_eq!(Status::Running.name(), "running");
    assert_eq!(Status::Complete.name(), "complete");
    assert_eq!(Status::Skipped.name(), "skipped");
    assert_eq!(Status::Error.name(), "error");
}
