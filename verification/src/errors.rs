//! Failures of the outside services, and the sentences that report them.

use crate::text::{concat, prefix, take_chars};
use vstd::prelude::*;

verus! {

/// The kinds of failure that a caller can tell apart.
#[derive(Clone, Copy, Debug, PartialEq, Eq, Structural)]
pub enum ErrorKind {
    /// A request could not be sent, or its answer could not be read.
    Transport,
    /// An answer was not of the expected form.
    Decode,
    /// A service answered with a status that is no success.
    UpstreamStatus,
    /// An answer lacked a field that was expected.
    MissingField,
}

/// A failure: its kind, and a sentence for a human reader.
#[derive(Debug, PartialEq, Eq)]
pub struct WorkflowError {
    pub kind: ErrorKind,
    pub message: String,
}

/// What a `WorkflowError` holds.
pub struct ErrorView {
    pub kind: ErrorKind,
    pub message: Seq<char>,
}

impl View for WorkflowError {
    type V = ErrorView;

    open spec fn view(&self) -> ErrorView {
        ErrorView { kind: self.kind, message: self.message@ }
    }
}

impl Clone for WorkflowError {
    fn clone(&self) -> (r: Self)
        ensures
            r@ == self@,
    {
        WorkflowError { kind: self.kind, message: self.message.clone() }
    }
}

/// The outside services that a workflow calls.
#[derive(Clone, Copy, Debug, PartialEq, Eq, Structural)]
pub enum Service {
    WebSearch,
    VaultSearch,
    Chat,
    Summary,
    VaultWrite,
    PageFetch,
    VaultRead,
}

/// What went wrong in one call of a service.
#[derive(Debug, PartialEq, Eq)]
pub enum Fault {
    /// The request could not be sent; the text says why.
    Send(String),
    /// The body of the answer could not be read; the text says why.
    Read(String),
    /// The service answered with this status, which is no success.
    Status(String),
    /// The body is not of the expected form; `detail` says why.
    Parse { detail: String, body: String },
    /// The answer lacks the expected field.
    Missing,
}

/// What a `Fault` holds.
pub enum FaultView {
    Send(Seq<char>),
    Read(Seq<char>),
    Status(Seq<char>),
    Parse { detail: Seq<char>, body: Seq<char> },
    Missing,
}

impl View for Fault {
    type V = FaultView;

    open spec fn view(&self) -> FaultView {
        match self {
            Fault::Send(d) => FaultView::Send(d@),
            Fault::Read(d) => FaultView::Read(d@),
            Fault::Status(s) => FaultView::Status(s@),
            Fault::Parse { detail, body } => FaultView::Parse { detail: detail@, body: body@ },
            Fault::Missing => FaultView::Missing,
        }
    }
}

/// The kind of error that a fault is reported as.
pub open spec fn fault_kind(fault: FaultView) -> ErrorKind {
    match fault {
        FaultView::Send(_) => ErrorKind::Transport,
        FaultView::Read(_) => ErrorKind::Transport,
        FaultView::Status(_) => ErrorKind::UpstreamStatus,
        FaultView::Parse { .. } => ErrorKind::Decode,
        FaultView::Missing => ErrorKind::MissingField,
    }
}

/// The sentence that reports a fault of `service`. It names the service that
/// failed wherever the cause alone would not.
pub open spec fn fault_message(service: Service, fault: FaultView) -> Seq<char> {
    match fault {
        FaultView::Send(d) => match service {
            Service::Summary => "Ollama request failed: "@ + d + ". Is Ollama running?"@,
            Service::VaultWrite => "Obsidian API request failed: "@ + d
                + ". Is Obsidian running with Local REST API?"@,
            Service::PageFetch => "Failed to fetch URL: "@ + d,
            Service::VaultRead => "Vault fetch failed: "@ + d,
            _ => d,
        },
        FaultView::Read(d) => match service {
            Service::Summary => "Failed to read Ollama response: "@ + d,
            Service::PageFetch => "Failed to read response: "@ + d,
            Service::VaultRead => "Failed to read vault response: "@ + d,
            _ => d,
        },
        FaultView::Status(s) => match service {
            Service::VaultWrite => "Obsidian API returned error: "@ + s,
            Service::VaultRead => "Vault error: "@ + s,
            _ => s,
        },
        FaultView::Parse { detail, body } => match service {
            Service::WebSearch => "JSON Parse Error: "@ + detail + ". Text: "@ + prefix(body, 100),
            Service::VaultSearch => "Obsidian Parse Error: "@ + detail,
            Service::Summary => "Failed to parse Ollama JSON: "@ + detail + ". Response: "@
                + prefix(body, 200),
            _ => detail,
        },
        FaultView::Missing => "No content"@,
    }
}

/// The error that reports a fault of `service`.
pub open spec fn failure(service: Service, fault: FaultView) -> ErrorView {
    ErrorView { kind: fault_kind(fault), message: fault_message(service, fault) }
}

/// `head`, `middle` and `tail` in one text.
fn concat3(head: &str, middle: &str, tail: &str) -> (r: String)
    ensures
        r@ == head@ + middle@ + tail@,
{
    let r = concat(head, middle);
    concat(r.as_str(), tail)
}

/// `intro`, `detail`, `link` and the first `limit` characters of `body` in one
/// text.
fn with_excerpt(intro: &str, detail: &str, link: &str, body: &str, limit: usize) -> (r: String)
    ensures
        r@ == intro@ + detail@ + link@ + prefix(body@, limit as nat),
{
    let r = concat3(intro, detail, link);
    let excerpt = take_chars(body, limit);
    concat(r.as_str(), excerpt.as_str())
}

/// Reports a fault of `service` as an error.
pub fn describe(service: Service, fault: &Fault) -> (r: WorkflowError)
    ensures
        r@ == failure(service, fault@),
{
    match fault {
        Fault::Send(d) => {
            let message = match service {
                Service::Summary => concat3("Ollama request failed: ", d.as_str(), ". Is Ollama running?"),
                Service::VaultWrite => concat3(
                    "Obsidian API request failed: ",
                    d.as_str(),
                    ". Is Obsidian running with Local REST API?",
                ),
                Service::PageFetch => concat("Failed to fetch URL: ", d.as_str()),
                Service::VaultRead => concat("Vault fetch failed: ", d.as_str()),
                _ => d.clone(),
            };
            WorkflowError { kind: ErrorKind::Transport, message }
        },
        Fault::Read(d) => {
            let message = match service {
                Service::Summary => concat("Failed to read Ollama response: ", d.as_str()),
                Service::PageFetch => concat("Failed to read response: ", d.as_str()),
                Service::VaultRead => concat("Failed to read vault response: ", d.as_str()),
                _ => d.clone(),
            };
            WorkflowError { kind: ErrorKind::Transport, message }
        },
        Fault::Status(s) => {
            let message = match service {
                Service::VaultWrite => concat("Obsidian API returned error: ", s.as_str()),
                Service::VaultRead => concat("Vault error: ", s.as_str()),
                _ => s.clone(),
            };
            WorkflowError { kind: ErrorKind::UpstreamStatus, message }
        },
        Fault::Parse { detail, body } => {
            let message = match service {
                Service::WebSearch => with_excerpt(
                    "JSON Parse Error: ",
                    detail.as_str(),
                    ". Text: ",
                    body.as_str(),
                    100,
                ),
                Service::VaultSearch => concat("Obsidian Parse Error: ", detail.as_str()),
                Service::Summary => with_excerpt(
                    "Failed to parse Ollama JSON: ",
                    detail.as_str(),
                    ". Response: ",
                    body.as_str(),
                    200,
                ),
                _ => detail.clone(),
            };
            WorkflowError { kind: ErrorKind::Decode, message }
        },
        Fault::Missing => WorkflowError {
            kind: ErrorKind::MissingField,
            message: "No content".to_owned(),
        },
    }
}

} // verus!
