//! The texts that are put before the language model.

use crate::text::concat;
use vstd::prelude::*;
use vstd::string::StringExecFns;

verus! {

/// What the agent is told before the user's question: its task, its tools and
/// the form of a tool call.
pub const AGENT_BRIEFING: &'static str =
    "You are an autonomous research agent. Your goal is to answer the user's question by searching and fetching information.\n\nTOOLS:\n- [TOOL: search(\"query\")] -> Returns a list of URLs and Titles from the web.\n- [TOOL: fetch(\"url\")] -> Returns the content of a web URL.\n- [TOOL: vault_search(\"query\")] -> Searches your local Obsidian notes.\n- [TOOL: vault_read(\"filename\")] -> Reads the full content of a local note.\n\nINSTRUCTIONS:\n1. Analyze the user's request.\n2. DECIDE if you need to search (web/vault) or fetch/read (web/vault).\n3. Check your local vault before searching the web if appropriate.\n4. OUTPUT the tool call in the format [TOOL: name(\"arg\")].\n5. Wait for the result.\n6. Repeat until you have enough info, then provide the Final Answer.\n\nUser Question: ";

/// What stands before the documentation in a request for a summary.
pub const SUMMARY_OPENING: &'static str =
    "Summarize the following documentation into a Reference Note format.\n\nInclude:\n- Executive Summary (2-3 sentences)\n- Key Concepts (bullet points)\n- Code Examples (if any, preserve them)\n\nDocumentation:\n";

/// What stands after the documentation in a request for a summary.
pub const SUMMARY_CLOSING: &'static str = "\n\nProvide a clean, structured markdown summary:";

/// What stands before the notes in a question about the vault.
pub const VAULT_OPENING: &'static str =
    "You are an assistant with access to the user's notes. Answer the question based ONLY on the provided context.\n\nContext:\n";

/// The message that opens the agent's conversation about `query`.
pub open spec fn agent_prompt(query: Seq<char>) -> Seq<char> {
    AGENT_BRIEFING@ + query
}

/// The prompt that asks for a summary of `content`.
pub open spec fn summary_prompt(content: Seq<char>) -> Seq<char> {
    SUMMARY_OPENING@ + content + SUMMARY_CLOSING@
}

/// The prompt that asks `query` of the notes gathered in `context`.
pub open spec fn vault_prompt(context: Seq<char>, query: Seq<char>) -> Seq<char> {
    VAULT_OPENING@ + context + "\n\nQuestion: "@ + query + "\n\nAnswer:"@
}

/// What one note adds to the context of a question about the vault.
pub open spec fn note_context(title: Seq<char>, content: Seq<char>) -> Seq<char> {
    "\n--- Note: "@ + title + " ---\n"@ + content + "\n"@
}

/// Writes the message that opens the agent's conversation about `query`.
pub fn write_agent_prompt(query: &str) -> (r: String)
    ensures
        r@ == agent_prompt(query@),
{
    concat(AGENT_BRIEFING, query)
}

/// Writes the prompt that asks for a summary of `content`.
pub fn write_summary_prompt(content: &str) -> (r: String)
    ensures
        r@ == summary_prompt(content@),
{
    let mut r = concat(SUMMARY_OPENING, content);
    r.append(SUMMARY_CLOSING);
    r
}

/// Writes the prompt that asks `query` of the notes gathered in `context`.
pub fn write_vault_prompt(context: &str, query: &str) -> (r: String)
    ensures
        r@ == vault_prompt(context@, query@),
{
    let mut r = concat(VAULT_OPENING, context);
    r.append("\n\nQuestion: ");
    r.append(query);
    r.append("\n\nAnswer:");
    r
}

/// Appends to `context` what the note `title` adds to it.
pub fn add_note_context(context: &mut String, title: &str, content: &str)
    ensures
        final(context)@ == old(context)@ + note_context(title@, content@),
{
    context.append("\n--- Note: ");
    context.append(title);
    context.append(" ---\n");
    context.append(content);
    context.append("\n");
}

} // verus!
