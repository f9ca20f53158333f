use workflow_engine::text::{char_is_whitespace, decimal_string, take_chars};
use workflow_engine::toolcall::{call_name, extract_arg, parse_tool_call, thought, ToolCall};

#[test]
fn parses_a_quoted_directive() {
    let call = parse_tool_call("Let me look. [TOOL: search(\"rust verification\")] done");
    assert_eq!(call, Some("search(\"rust verification\")".to_string()));
    assert_eq!(extract_arg("search(\"rust verification\")"), "rust verification");
    assert_eq!(call_name("search(\"rust verification\")"), "search");
}

#[test]
fn parses_single_quotes_and_bare_arguments() {
    assert_eq!(extract_arg("fetch('https://example.org/a')"), "https://example.org/a");
    assert_eq!(extract_arg("fetch(https://example.org/a)"), "https://example.org/a");
    assert_eq!(extract_arg("fetch(  \"x\"\t)"), "x");
}

#[test]
fn strips_one_layer_of_matching_quotes_only() {
    assert_eq!(extract_arg("search(\"\"x\"\")"), "\"x\"");
    assert_eq!(extract_arg("search(\"x')"), "\"x'");
    assert_eq!(extract_arg("search(\")"), "\"");
    assert_eq!(extract_arg("search(\"\")"), "");
    assert_eq!(extract_arg("search(\" x \")"), "x");
    assert_eq!(extract_arg("search( '\t\"x\" ' )"), "\"x\"");
}

#[test]
fn spans_from_first_open_to_last_close() {
    assert_eq!(extract_arg("search(f(x) and g(y))"), "f(x) and g(y)");
    assert_eq!(call_name("search(f(x) and g(y))"), "search");
    assert_eq!(extract_arg("a(b)c)d"), "b)c");
}

#[test]
fn call_without_parentheses_is_its_own_argument() {
    assert_eq!(extract_arg("  search  "), "search");
    assert_eq!(call_name("  search  "), "search");
    assert_eq!(extract_arg("search(unclosed"), "search(unclosed");
    assert_eq!(extract_arg("closed)"), "closed)");
    assert_eq!(extract_arg(")("), ")(");
    assert_eq!(extract_arg(""), "");
}

#[test]
fn text_without_marker_has_no_call() {
    assert_eq!(parse_tool_call("The answer is 42."), None);
    assert_eq!(parse_tool_call("[TOOL:search(x)]"), None);
    assert_eq!(parse_tool_call(""), None);
}

#[test]
fn marker_without_closing_bracket_has_no_call() {
    assert_eq!(parse_tool_call("[TOOL: search(x)"), None);
    assert_eq!(parse_tool_call("] before [TOOL: search(x)"), None);
}

#[test]
fn only_the_first_directive_counts() {
    let text = "one [TOOL: search(\"a\")] two [TOOL: fetch(\"b\")]";
    assert_eq!(parse_tool_call(text), Some("search(\"a\")".to_string()));
}

#[test]
fn raw_call_is_trimmed_and_may_be_empty() {
    assert_eq!(parse_tool_call("[TOOL:    fetch(u)   ]"), Some("fetch(u)".to_string()));
    assert_eq!(parse_tool_call("[TOOL: ]"), Some(String::new()));
    assert_eq!(parse_tool_call("[TOOL: \u{a0}x\u{3000}]"), Some("x".to_string()));
}

#[test]
fn directive_after_unicode_text_is_found() {
    let text = "Überlegung → [TOOL: vault_read(\"Notizen/π.md\")]";
    let call = parse_tool_call(text).unwrap();
    assert_eq!(call, "vault_read(\"Notizen/π.md\")");
    assert_eq!(extract_arg(&call), "Notizen/π.md");
}

#[test]
fn rewrapped_argument_parses_to_itself() {
    for call in ["search(\"rust\")", "fetch( 'u' )", "plain", "a(b(c))"] {
        let arg = extract_arg(call);
        let again = extract_arg(&format!("name({})", arg));
        assert_eq!(again, arg);
    }
}

#[test]
fn rewrapped_argument_with_inner_quotes_loses_a_layer() {
    let arg = extract_arg("search(\"\"x\"\")");
    assert_eq!(arg, "\"x\"");
    assert_eq!(extract_arg(&format!("name({})", arg)), "x");
}

#[test]
fn thought_is_what_stands_before_the_marker() {
    assert_eq!(thought("  I will search. [TOOL: search(x)]"), "I will search.");
    assert_eq!(thought("[TOOL: search(x)]"), "");
    assert_eq!(thought("so [TOOL:search(x)] it is"), "so");
    assert_eq!(thought("  just an answer \n"), "just an answer");
}

#[test]
fn whitespace_matches_the_standard_library() {
    let mut u: u32 = 0;
    while u <= 0x10FFFF {
        if let Some(c) = char::from_u32(u) {
            assert_eq!(char_is_whitespace(c), c.is_whitespace(), "U+{:04X}", u);
        }
        u += 1;
    }
}

#[test]
fn trimming_matches_the_standard_library() {
    for s in ["", " ", "\t a b \n", "\u{2003}x\u{a0}", "x", " x", "x "] {
        assert_eq!(thought(s), s.trim());
    }
}

#[test]
fn numbers_are_written_in_decimal() {
    assert_eq!(decimal_string(0), "0");
    assert_eq!(decimal_string(7), "7");
    assert_eq!(decimal_string(10), "10");
    assert_eq!(decimal_string(8000), "8000");
    assert_eq!(decimal_string(usize::MAX), usize::MAX.to_string());
}

#[test]
fn prefixes_count_characters() {
    assert_eq!(take_chars("héllo", 2), "hé");
    assert_eq!(take_chars("héllo", 5), "héllo");
    assert_eq!(take_chars("héllo", 9), "héllo");
    assert_eq!(take_chars("héllo", 0), "");
}

#[test]
fn tool_call_has_a_name_and_an_argument() {
    assert_eq!(
        ToolCall::parse("Let me see [TOOL: vault_search( \"rust\" )] ..."),
        Some(ToolCall { name: "vault_search".to_string(), argument: "rust".to_string() })
    );
    assert_eq!(
        ToolCall::parse("[TOOL: search]"),
        Some(ToolCall { name: "search".to_string(), argument: "search".to_string() })
    );
    assert_eq!(ToolCall::parse("no directive"), None);
}
