//! The tool dispatcher: which tool a raw call names, which request runs it,
//! and the text that reports its outcome to the model. A failed tool is
//! reported as text like any other outcome.

use crate::errors::{ErrorView, WorkflowError};
use crate::html::{page_content, page_text};
use crate::records::{views, SearchResult, SearchResultView};
use crate::requests::{
    page_fetch, page_request, vault_read, vault_read_request, vault_search,
    vault_search_request, web_search, web_search_request, HttpRequest, RequestView,
};
use crate::search::{keep_notes, keep_results, kept_results, note_hits};
use crate::text::{
    chars_of, concat, contains_text, has_text, joined, lowercase, prefix, take_chars,
    to_lowercase,
};
use vstd::prelude::*;
use vstd::string::StringExecFns;

verus! {

/// The most characters of a fetched page that are shown to the model.
pub const FETCH_LIMIT: usize = 2000;

/// The most characters of a note that are shown to the model.
pub const NOTE_LIMIT: usize = 3000;

/// The tools that the model can call.
#[derive(Clone, Copy, Debug, PartialEq, Eq, Structural)]
pub enum Tool {
    VaultSearch,
    VaultRead,
    WebSearch,
    WebFetch,
}

/// What the model is told when it calls a tool that does not exist.
pub const UNKNOWN_TOOL: &'static str = "Unknown tool";

/// The tool that a raw call names, given the call in lower case. The first
/// rule that matches decides: `vault_search`; `vault_read`; `search` without
/// `vault`; `fetch`. A call that matches none names no tool.
pub open spec fn tool_for(lowered: Seq<char>) -> Option<Tool> {
    if contains_text(lowered, "vault_search"@) {
        Some(Tool::VaultSearch)
    } else if contains_text(lowered, "vault_read"@) {
        Some(Tool::VaultRead)
    } else if contains_text(lowered, "search"@) && !contains_text(lowered, "vault"@) {
        Some(Tool::WebSearch)
    } else if contains_text(lowered, "fetch"@) {
        Some(Tool::WebFetch)
    } else {
        None
    }
}

/// Selects the tool that a raw call names, given the call in lower case.
pub fn classify_lowered(lowered: &str) -> (tool: Option<Tool>)
    ensures
        tool == tool_for(lowered@),
{
    let call = chars_of(lowered);
    if has_text(&call, &chars_of("vault_search")) {
        Some(Tool::VaultSearch)
    } else if has_text(&call, &chars_of("vault_read")) {
        Some(Tool::VaultRead)
    } else if has_text(&call, &chars_of("search")) && !has_text(&call, &chars_of("vault")) {
        Some(Tool::WebSearch)
    } else if has_text(&call, &chars_of("fetch")) {
        Some(Tool::WebFetch)
    } else {
        None
    }
}

/// Selects the tool that a raw call names, whatever the case of its letters.
pub fn select_tool(raw_call: &str) -> (tool: Option<Tool>)
    ensures
        tool == tool_for(lowercase(raw_call@)),
{
    let lowered = to_lowercase(raw_call);
    classify_lowered(lowered.as_str())
}

/// The request that runs `tool` on `argument`.
pub open spec fn tool_request(tool: Tool, argument: Seq<char>, api_key: Seq<char>) -> RequestView {
    match tool {
        Tool::VaultSearch => vault_search(argument, api_key),
        Tool::VaultRead => vault_read(argument, api_key),
        Tool::WebSearch => web_search(argument),
        Tool::WebFetch => page_fetch(argument),
    }
}

/// Builds the request that runs `tool` on `argument`.
pub fn request_for(tool: Tool, argument: &str, api_key: &str) -> (r: HttpRequest)
    ensures
        r@ == tool_request(tool, argument@, api_key@),
{
    match tool {
        Tool::VaultSearch => vault_search_request(argument, api_key),
        Tool::VaultRead => vault_read_request(argument, api_key),
        Tool::WebSearch => web_search_request(argument),
        Tool::WebFetch => page_request(argument),
    }
}

/// What running a tool gave.
#[derive(Debug, PartialEq, Eq)]
pub enum ToolOutcome {
    /// The hits that the web search named, as they came.
    WebHits(Vec<SearchResult>),
    /// The notes that the vault search named, as they came.
    VaultHits(Vec<String>),
    /// The markup of the fetched page.
    Page(String),
    /// The text of the note.
    Note(String),
    /// The tool failed.
    Failed(WorkflowError),
}

/// What a `ToolOutcome` holds.
pub enum OutcomeView {
    WebHits(Seq<SearchResultView>),
    VaultHits(Seq<Seq<char>>),
    Page(Seq<char>),
    Note(Seq<char>),
    Failed(ErrorView),
}

impl View for ToolOutcome {
    type V = OutcomeView;

    open spec fn view(&self) -> OutcomeView {
        match self {
            ToolOutcome::WebHits(hits) => OutcomeView::WebHits(views(hits@)),
            ToolOutcome::VaultHits(names) => OutcomeView::VaultHits(views(names@)),
            ToolOutcome::Page(html) => OutcomeView::Page(html@),
            ToolOutcome::Note(text) => OutcomeView::Note(text@),
            ToolOutcome::Failed(e) => OutcomeView::Failed(e@),
        }
    }
}

/// Whether `outcome` is one that `tool` can have. Every tool can fail.
pub open spec fn fits(tool: Tool, outcome: OutcomeView) -> bool {
    match (tool, outcome) {
        (Tool::WebSearch, OutcomeView::WebHits(_)) => true,
        (Tool::VaultSearch, OutcomeView::VaultHits(_)) => true,
        (Tool::WebFetch, OutcomeView::Page(_)) => true,
        (Tool::VaultRead, OutcomeView::Note(_)) => true,
        (_, OutcomeView::Failed(_)) => true,
        _ => false,
    }
}

/// The line that shows a hit of the web search.
pub open spec fn web_line(hit: SearchResultView) -> Seq<char> {
    "- "@ + hit.title + " ("@ + hit.url + ")"@
}

/// The line that shows a hit of the vault search.
pub open spec fn vault_line(hit: SearchResultView) -> Seq<char> {
    "- "@ + hit.title + " (Filename: "@ + hit.url + ")"@
}

/// The lines that show `hits`, one below the other.
pub open spec fn listing(hits: Seq<SearchResultView>, vault: bool) -> Seq<char> {
    joined(
        Seq::new(
            hits.len(),
            |i: int|
                if vault {
                    vault_line(hits[i])
                } else {
                    web_line(hits[i])
                },
        ),
        "\n"@,
    )
}

/// The text that reports to the model what `tool`, run on `argument`, gave. A
/// failure is reported in words, like any other outcome. An outcome that does
/// not fit the tool has no report.
pub open spec fn tool_result_text(
    tool: Tool,
    argument: Seq<char>,
    outcome: OutcomeView,
) -> Option<Seq<char>> {
    match (tool, outcome) {
        (Tool::WebSearch, OutcomeView::WebHits(raw)) => Some(
            "Web Search Results for '"@ + argument + "':\n"@ + listing(kept_results(raw), false),
        ),
        (Tool::WebSearch, OutcomeView::Failed(e)) => Some("Error searching web: "@ + e.message),
        (Tool::WebFetch, OutcomeView::Page(html)) => Some(
            "Content of "@ + argument + ":\n"@ + prefix(page_text(html), FETCH_LIMIT as nat),
        ),
        (Tool::WebFetch, OutcomeView::Failed(e)) => Some(
            "Error fetching web "@ + argument + ": "@ + e.message,
        ),
        (Tool::VaultSearch, OutcomeView::VaultHits(names)) => Some(
            "Vault Search Results for '"@ + argument + "':\n"@ + listing(note_hits(names), true),
        ),
        (Tool::VaultSearch, OutcomeView::Failed(e)) => Some(
            "Error searching vault: "@ + e.message,
        ),
        (Tool::VaultRead, OutcomeView::Note(text)) => Some(
            "Content of note "@ + argument + ":\n"@ + prefix(text, NOTE_LIMIT as nat),
        ),
        (Tool::VaultRead, OutcomeView::Failed(e)) => Some(
            "Error reading note "@ + argument + ": "@ + e.message,
        ),
        _ => None,
    }
}

/// A tool has a report for exactly the outcomes that fit it.
pub proof fn lemma_report_iff_fits(tool: Tool, argument: Seq<char>, outcome: OutcomeView)
    ensures
        tool_result_text(tool, argument, outcome) is Some <==> fits(tool, outcome),
{
}

/// Writes the lines that show `hits`.
fn write_listing(hits: &Vec<SearchResult>, vault: bool) -> (r: String)
    ensures
        r@ == listing(views(hits@), vault),
{
    let mut r = String::new();
    let mut i: usize = 0;
    let ghost lines = Seq::new(
        hits.len() as nat,
        |i: int|
            if vault {
                vault_line(views(hits@)[i])
            } else {
                web_line(views(hits@)[i])
            },
    );
    while i < hits.len()
        invariant
            i <= hits.len(),
            lines.len() == hits.len(),
            forall|j: int|
                0 <= j < hits.len() ==> #[trigger] lines[j] == if vault {
                    vault_line(hits@[j]@)
                } else {
                    web_line(hits@[j]@)
                },
            r@ == joined(lines.take(i as int), "\n"@),
        decreases hits.len() - i,
    {
        let ghost before = r@;
        if i > 0 {
            r.append("\n");
        }
        r.append("- ");
        r.append(hits[i].title.as_str());
        if vault {
            r.append(" (Filename: ");
        } else {
            r.append(" (");
        }
        r.append(hits[i].url.as_str());
        r.append(")");
        proof {
            let now = lines.take(i + 1);
            assert(now.drop_last() =~= lines.take(i as int));
            assert(now.last() == lines[i as int]);
            if i > 0 {
                assert(r@ =~= before + "\n"@ + lines[i as int]);
            } else {
                assert(r@ =~= lines[i as int]);
            }
        }
        i += 1;
    }
    assert(lines.take(hits.len() as int) =~= lines);
    r
}

/// Reports to the model what `tool`, run on `argument`, gave.
pub fn format_tool_result(tool: Tool, argument: &str, outcome: &ToolOutcome) -> (r: Option<String>)
    ensures
        match r {
            Some(text) => tool_result_text(tool, argument@, outcome@) == Some(text@),
            None => tool_result_text(tool, argument@, outcome@) is None,
        },
{
    match (tool, outcome) {
        (Tool::WebSearch, ToolOutcome::WebHits(raw)) => {
            let kept = keep_results(raw);
            let mut r = concat("Web Search Results for '", argument);
            r.append("':\n");
            r.append(write_listing(&kept, false).as_str());
            Some(r)
        },
        (Tool::WebSearch, ToolOutcome::Failed(e)) => Some(
            concat("Error searching web: ", e.message.as_str()),
        ),
        (Tool::WebFetch, ToolOutcome::Page(html)) => {
            let content = page_content(html.as_str());
            let mut r = concat("Content of ", argument);
            r.append(":\n");
            r.append(take_chars(content.as_str(), FETCH_LIMIT).as_str());
            Some(r)
        },
        (Tool::WebFetch, ToolOutcome::Failed(e)) => {
            let mut r = concat("Error fetching web ", argument);
            r.append(": ");
            r.append(e.message.as_str());
            Some(r)
        },
        (Tool::VaultSearch, ToolOutcome::VaultHits(names)) => {
            let kept = keep_notes(names);
            let mut r = concat("Vault Search Results for '", argument);
            r.append("':\n");
            r.append(write_listing(&kept, true).as_str());
            Some(r)
        },
        (Tool::VaultSearch, ToolOutcome::Failed(e)) => Some(
            concat("Error searching vault: ", e.message.as_str()),
        ),
        (Tool::VaultRead, ToolOutcome::Note(text)) => {
            let mut r = concat("Content of note ", argument);
            r.append(":\n");
            r.append(take_chars(text.as_str(), NOTE_LIMIT).as_str());
            Some(r)
        },
        (Tool::VaultRead, ToolOutcome::Failed(e)) => {
            let mut r = concat("Error reading note ", argument);
            r.append(": ");
            r.append(e.message.as_str());
            Some(r)
        },
        _ => None,
    }
}

} // verus!
