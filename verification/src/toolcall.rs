//! The tool-call parser: finds a directive of the form `[TOOL: name(argument)]`
//! in free-form model output. Parsing never fails; text without a complete
//! directive simply holds no tool call.

use crate::text::{
    chars_of, find_char, find_text, first_index, first_occurrence, last_index, lemma_first_index,
    lemma_first_occurrence, lemma_first_occurrence_none, lemma_last_index, lemma_trim_start,
    lemma_trimmed_fixed, lemma_trimmed_is_part, contains_text, is_enclosed, is_quote,
    is_whitespace,
    occurs_at, trim_start, rfind_char, string_of_range, trim_range, trimmed,
    unquoted,
};
use vstd::prelude::*;

verus! {

/// The literal text that opens a directive.
pub open spec fn marker() -> Seq<char> {
    "[TOOL: "@
}

/// The marker without the space that ends it: where the model's thought ends.
pub open spec fn opening() -> Seq<char> {
    "[TOOL:"@
}

/// The raw call of the first directive in `text`: what stands between the
/// first marker and the first `]` after it, trimmed. `None` when `text` has no
/// marker, or no `]` after the first one.
pub open spec fn tool_call_text(text: Seq<char>) -> Option<Seq<char>> {
    match first_occurrence(text, marker(), 0) {
        Some(start) => match first_index(text, ']', start + marker().len()) {
            Some(end) => Some(trimmed(text.subrange(start + marker().len(), end))),
            None => None,
        },
        None => None,
    }
}

/// The positions of the first `(` and the last `)` of `call`, when both exist
/// and the first stands before the second.
pub open spec fn paren_span(call: Seq<char>) -> Option<(int, int)> {
    match (first_index(call, '(', 0), last_index(call, ')')) {
        (Some(open), Some(close)) => if open < close {
            Some((open, close))
        } else {
            None
        },
        _ => None,
    }
}

/// What is left of the inside of the parentheses of a call: the whitespace
/// around it is dropped, one layer of matching quotation marks around that is
/// dropped if there is one, and so is the whitespace inside them.
pub open spec fn stripped(inner: Seq<char>) -> Seq<char> {
    trimmed(unquoted(trimmed(inner)))
}

/// The argument of a raw call: what stands between its parentheses, stripped
/// of surrounding whitespace and of one layer of matching quotation marks. A
/// call without parentheses is its own argument, trimmed.
pub open spec fn argument_of(call: Seq<char>) -> Seq<char> {
    match paren_span(call) {
        Some((open, close)) => stripped(call.subrange(open + 1, close)),
        None => trimmed(call),
    }
}

/// The name of a raw call: what stands before its parentheses, trimmed. A call
/// without parentheses is its own name, trimmed.
pub open spec fn name_of(call: Seq<char>) -> Seq<char> {
    match paren_span(call) {
        Some((open, close)) => trimmed(call.take(open)),
        None => trimmed(call),
    }
}

/// What the model said before it first opened a directive, trimmed; all of
/// `text`, trimmed, when it opens none.
pub open spec fn thought_of(text: Seq<char>) -> Seq<char> {
    match first_occurrence(text, opening(), 0) {
        Some(start) => trimmed(text.take(start)),
        None => trimmed(text),
    }
}

/// A tool call as the parser reads it out of the model's text: the name of the
/// tool and the argument to run it on.
#[derive(Debug, PartialEq, Eq)]
pub struct ToolCall {
    pub name: String,
    pub argument: String,
}

/// What a `ToolCall` holds.
pub struct ToolCallView {
    pub name: Seq<char>,
    pub argument: Seq<char>,
}

impl View for ToolCall {
    type V = ToolCallView;

    open spec fn view(&self) -> ToolCallView {
        ToolCallView { name: self.name@, argument: self.argument@ }
    }
}

/// The tool call that `text` holds: the name and the argument of the raw call
/// of its first directive.
pub open spec fn parsed_call(text: Seq<char>) -> Option<ToolCallView> {
    match tool_call_text(text) {
        Some(raw) => Some(ToolCallView { name: name_of(raw), argument: argument_of(raw) }),
        None => None,
    }
}

/// Extracts the raw call of the first directive in `response`.
pub fn parse_tool_call(response: &str) -> (r: Option<String>)
    ensures
        match r {
            Some(call) => tool_call_text(response@) == Some(call@),
            None => tool_call_text(response@) is None,
        },
{
    let text = chars_of(response);
    let opener = chars_of("[TOOL: ");
    match find_text(&text, &opener, 0) {
        None => None,
        Some(start) => {
            proof {
                lemma_first_occurrence(text@, opener@, 0);
            }
            let from: usize = start + opener.len();
            match find_char(&text, ']', from) {
                None => None,
                Some(end) => {
                    proof {
                        lemma_first_index(text@, ']', from as int);
                    }
                    let (a, b) = trim_range(&text, from, end);
                    Some(string_of_range(&text, a, b))
                },
            }
        },
    }
}

/// Finds the parentheses of `call`.
fn find_parens(call: &Vec<char>) -> (r: Option<(usize, usize)>)
    ensures
        match r {
            Some((open, close)) => paren_span(call@) == Some((open as int, close as int)) && open
                < close < call.len(),
            None => paren_span(call@) is None,
        },
{
    match find_char(call, '(', 0) {
        None => None,
        Some(open) => match rfind_char(call, ')') {
            None => None,
            Some(close) => {
                proof {
                    lemma_last_index(call@, ')');
                }
                if open < close {
                    Some((open, close))
                } else {
                    None
                }
            },
        },
    }
}

/// Extracts the argument of a raw call.
pub fn extract_arg(tool_call: &str) -> (r: String)
    ensures
        r@ == argument_of(tool_call@),
{
    let call = chars_of(tool_call);
    match find_parens(&call) {
        Some((open, close)) => {
            let (a, b) = trim_range(&call, open + 1, close);
            if b - a >= 2 && (call[a] == '"' || call[a] == '\'') && call[b - 1] == call[a] {
                assert(call@.subrange(a as int, b as int).subrange(1, b - a - 1) =~= call@.subrange(
                    a + 1,
                    b - 1,
                ));
                let (c, d) = trim_range(&call, a + 1, b - 1);
                string_of_range(&call, c, d)
            } else {
                proof {
                    lemma_trimmed_is_part(call@.subrange(open + 1, close as int));
                    lemma_trimmed_fixed(call@.subrange(a as int, b as int));
                }
                string_of_range(&call, a, b)
            }
        },
        None => {
            let (a, b) = trim_range(&call, 0, call.len());
            assert(call@.subrange(0, call.len() as int) =~= call@);
            string_of_range(&call, a, b)
        },
    }
}

/// Extracts the name of a raw call.
pub fn call_name(tool_call: &str) -> (r: String)
    ensures
        r@ == name_of(tool_call@),
{
    let call = chars_of(tool_call);
    let end: usize = match find_parens(&call) {
        Some((open, close)) => open,
        None => call.len(),
    };
    assert(call@.subrange(0, end as int) =~= call@.take(end as int));
    assert(call@.take(call.len() as int) =~= call@);
    let (a, b) = trim_range(&call, 0, end);
    string_of_range(&call, a, b)
}

impl ToolCall {
    /// Reads the tool call that `response` holds, if it holds one.
    pub fn parse(response: &str) -> (r: Option<ToolCall>)
        ensures
            match r {
                Some(call) => parsed_call(response@) == Some(call@),
                None => parsed_call(response@) is None,
            },
    {
        match parse_tool_call(response) {
            Some(raw) => Some(
                ToolCall { name: call_name(raw.as_str()), argument: extract_arg(raw.as_str()) },
            ),
            None => None,
        }
    }
}

/// Extracts what the model said before it first opened a directive.
pub fn thought(response: &str) -> (r: String)
    ensures
        r@ == thought_of(response@),
{
    let text = chars_of(response);
    let opener = chars_of("[TOOL:");
    let end: usize = match find_text(&text, &opener, 0) {
        Some(start) => {
            proof {
                lemma_first_occurrence(text@, opener@, 0);
            }
            start
        },
        None => text.len(),
    };
    assert(text@.subrange(0, end as int) =~= text@.take(end as int));
    assert(text@.take(text.len() as int) =~= text@);
    let (a, b) = trim_range(&text, 0, end);
    string_of_range(&text, a, b)
}

/// A text without the marker holds no tool call.
pub proof fn lemma_no_marker_no_call(text: Seq<char>)
    requires
        !contains_text(text, marker()),
    ensures
        tool_call_text(text) is None,
        parsed_call(text) is None,
{
    lemma_first_occurrence_none(text, marker());
}

/// A text that opens no directive holds no marker, and so no tool call; its
/// thought is all of it.
pub proof fn lemma_no_opening_no_call(text: Seq<char>)
    requires
        !contains_text(text, opening()),
    ensures
        !contains_text(text, marker()),
        tool_call_text(text) is None,
        thought_of(text) == trimmed(text),
{
    reveal_strlit("[TOOL: ");
    reveal_strlit("[TOOL:");
    assert forall|i: int| !occurs_at(text, marker(), i) by {
        if occurs_at(text, marker(), i) {
            assert(text.subrange(i, i + 6) =~= text.subrange(i, i + 7).subrange(0, 6));
            assert(marker().subrange(0, 6) =~= opening());
            assert(occurs_at(text, opening(), i));
        }
    }
    lemma_no_marker_no_call(text);
    lemma_first_occurrence_none(text, opening());
}

/// The text of the directive around the raw call `name(inner)`.
pub open spec fn directive(name: Seq<char>, inner: Seq<char>) -> Seq<char> {
    marker() + name + seq!['('] + inner + seq![')', ']']
}

/// The raw call that `directive(name, inner)` holds.
pub open spec fn wrapped_call(name: Seq<char>, inner: Seq<char>) -> Seq<char> {
    trim_start(name) + seq!['('] + inner + seq![')']
}

/// `arg` between two quotation marks `q`.
pub open spec fn quoted(q: char, arg: Seq<char>) -> Seq<char> {
    seq![q] + arg + seq![q]
}

/// Whether `c` stands nowhere in `s`.
pub open spec fn free_of(s: Seq<char>, c: char) -> bool {
    forall|i: int| 0 <= i < s.len() ==> s[i] != c
}

/// The first marker of `pre + rest` opens `rest`, when `rest` begins with the
/// marker and `pre` holds none.
proof fn lemma_marker_after_prefix(pre: Seq<char>, rest: Seq<char>)
    requires
        !contains_text(pre, marker()),
        occurs_at(rest, marker(), 0),
    ensures
        first_occurrence(pre + rest, marker(), 0) == Some(pre.len() as int),
{
    reveal_strlit("[TOOL: ");
    let text = pre + rest;
    let m = marker();
    let p = pre.len() as int;
    assert(text.subrange(p, p + m.len()) =~= rest.subrange(0, m.len() as int));
    assert(occurs_at(text, m, p));
    assert forall|j: int| 0 <= j < p implies !occurs_at(text, m, j) by {
        if occurs_at(text, m, j) {
            let w = text.subrange(j, j + m.len());
            if j + m.len() <= p {
                assert(pre.subrange(j, j + m.len()) =~= w);
                assert(occurs_at(pre, m, j));
            } else {
                assert(w[p - j] == text[p]);
                assert(text[p] == rest[0]);
                assert(rest[0] == rest.subrange(0, m.len() as int)[0]);
            }
        }
    }
    lemma_first_occurrence(text, m, 0);
}

/// Trimming `name(inner)` trims the name on the left and nothing else, and the
/// parentheses of what is left are those around `inner`.
proof fn lemma_wrapped_call(name: Seq<char>, inner: Seq<char>)
    requires
        free_of(name, '('),
    ensures
        trimmed(name + seq!['('] + inner + seq![')']) == wrapped_call(name, inner),
        name_of(wrapped_call(name, inner)) == trimmed(name),
        argument_of(wrapped_call(name, inner)) == stripped(inner),
{
    let tail = seq!['('] + inner + seq![')'];
    let body = name + seq!['('] + inner + seq![')'];
    assert(body =~= name + tail);
    let k = lemma_trim_start(body);
    let kn = lemma_trim_start(name);
    assert(body[name.len() as int] == '(');
    assert forall|j: int| 0 <= j < name.len() implies body[j] == name[j] by {}
    if k < kn {
        assert(is_whitespace(name[k]));
        assert(body[k] == name[k]);
    }
    if kn < k {
        assert(is_whitespace(body[kn]));
    }
    assert(k == kn);
    let head = name.skip(k);
    let raw = head + tail;
    assert(body.skip(k) =~= raw);
    assert(raw =~= wrapped_call(name, inner));
    assert(raw.last() == ')');
    assert(trimmed(body) == raw);
    // The parentheses of the raw call.
    let open = head.len() as int;
    let close = raw.len() - 1;
    assert forall|j: int| 0 <= j < open implies raw[j] != '(' by {
        assert(raw[j] == name[k + j]);
    }
    assert(raw[open] == '(');
    lemma_first_index(raw, '(', 0);
    assert(first_index(raw, '(', 0) == Some(open));
    assert(paren_span(raw) == Some((open, close)));
    assert(raw.subrange(open + 1, close) =~= inner);
    assert(raw.take(open) =~= head);
    // The name is already trimmed on the left.
    let kh = lemma_trim_start(head);
    if kh > 0 {
        assert(is_whitespace(head[0]));
        assert(head[0] == name[k]);
    }
    assert(head.skip(0) =~= head);
    assert(trim_start(head) == head);
}

/// A directive written as `[TOOL: name(inner)]`, after text without a marker,
/// is parsed into the call of `name`, trimmed, with `inner`, stripped,
/// whatever follows the directive. `name` holds no `(` and no `]`, `inner` no
/// `]`.
pub proof fn lemma_directive_parsed(
    pre: Seq<char>,
    name: Seq<char>,
    inner: Seq<char>,
    post: Seq<char>,
)
    requires
        !contains_text(pre, marker()),
        free_of(name, '('),
        free_of(name, ']'),
        free_of(inner, ']'),
    ensures
        tool_call_text(pre + directive(name, inner) + post) == Some(wrapped_call(name, inner)),
        parsed_call(pre + directive(name, inner) + post) == Some(
            ToolCallView { name: trimmed(name), argument: stripped(inner) },
        ),
{
    reveal_strlit("[TOOL: ");
    let m = marker();
    let body = name + seq!['('] + inner + seq![')'];
    let rest = directive(name, inner) + post;
    let text = pre + directive(name, inner) + post;
    let p = pre.len() as int;
    let from = p + m.len();
    let end = from + body.len();
    assert(text =~= pre + rest);
    assert(rest.subrange(0, m.len() as int) =~= m);
    lemma_marker_after_prefix(pre, rest);
    // The first `]` after the marker closes the directive.
    assert(text[end] == ']');
    assert forall|j: int| from <= j < end implies text[j] != ']' by {
        let k = j - from;
        assert(text[j] == body[k]);
        if k < name.len() {
            assert(body[k] == name[k]);
        } else if k >= name.len() + 1 && k < name.len() + 1 + inner.len() {
            assert(body[k] == inner[k - name.len() - 1]);
        }
    }
    lemma_first_index(text, ']', from);
    assert(first_index(text, ']', from) == Some(end));
    assert(text.subrange(from, end) =~= body);
    lemma_wrapped_call(name, inner);
}

/// A directive written as `[TOOL: name("arg")]`, with either kind of quotation
/// mark, is parsed into the call of `name` with `arg`, without the whitespace
/// around it.
pub proof fn lemma_quoted_directive_parsed(
    pre: Seq<char>,
    name: Seq<char>,
    q: char,
    arg: Seq<char>,
    post: Seq<char>,
)
    requires
        !contains_text(pre, marker()),
        is_quote(q),
        free_of(name, '('),
        free_of(name, ']'),
        free_of(arg, ']'),
    ensures
        parsed_call(pre + directive(name, quoted(q, arg)) + post) == Some(
            ToolCallView { name: trimmed(name), argument: trimmed(arg) },
        ),
{
    let inner = quoted(q, arg);
    assert forall|i: int| 0 <= i < inner.len() implies inner[i] != ']' by {
        if 0 < i < inner.len() - 1 {
            assert(inner[i] == arg[i - 1]);
        }
    }
    lemma_directive_parsed(pre, name, inner, post);
    lemma_trimmed_fixed(inner);
    assert(inner.subrange(1, inner.len() - 1) =~= arg);
}

/// The argument of `name(a)`, for a `name` without `(`, is `a` stripped,
/// whatever parentheses `a` itself holds.
pub proof fn lemma_argument_of_wrapped(name: Seq<char>, a: Seq<char>)
    requires
        free_of(name, '('),
    ensures
        argument_of(name + seq!['('] + a + seq![')']) == stripped(a),
{
    let call = name + seq!['('] + a + seq![')'];
    let open = name.len() as int;
    let close = call.len() - 1;
    assert forall|j: int| 0 <= j < open implies call[j] != '(' by {
        assert(call[j] == name[j]);
    }
    assert(call[open] == '(');
    lemma_first_index(call, '(', 0);
    assert(first_index(call, '(', 0) == Some(open));
    assert(call.last() == ')');
    assert(call.subrange(open + 1, close) =~= a);
}

/// An extracted argument neither begins nor ends with whitespace.
pub proof fn lemma_argument_trimmed(call: Seq<char>)
    ensures
        trimmed(argument_of(call)) == argument_of(call),
{
    match paren_span(call) {
        Some((open, close)) => {
            lemma_trimmed_is_part(unquoted(trimmed(call.subrange(open + 1, close))));
        },
        None => {
            lemma_trimmed_is_part(call);
        },
    }
    lemma_trimmed_fixed(argument_of(call));
}

/// What is left of the inside of the parentheses is a part of it.
proof fn lemma_stripped_is_part(inner: Seq<char>) -> (r: (int, int))
    ensures
        0 <= r.0 <= r.1 <= inner.len(),
        stripped(inner) == inner.subrange(r.0, r.1),
{
    let (a, b) = lemma_trimmed_is_part(inner);
    let t = trimmed(inner);
    if is_enclosed(t) {
        let u = t.subrange(1, t.len() - 1);
        inner.lemma_slice_of_slice(a, b, 1, b - a - 1);
        let (c, d) = lemma_trimmed_is_part(u);
        inner.lemma_slice_of_slice(a + 1, b - 1, c, d);
        (a + 1 + c, a + 1 + d)
    } else {
        let (c, d) = lemma_trimmed_is_part(t);
        inner.lemma_slice_of_slice(a, b, c, d);
        (a + c, a + d)
    }
}

/// The argument of a raw call is a part of the call.
proof fn lemma_argument_is_part(call: Seq<char>) -> (r: (int, int))
    ensures
        0 <= r.0 <= r.1 <= call.len(),
        argument_of(call) == call.subrange(r.0, r.1),
{
    match paren_span(call) {
        Some((open, close)) => {
            lemma_first_index(call, '(', 0);
            lemma_last_index(call, ')');
            let (a, b) = lemma_stripped_is_part(call.subrange(open + 1, close));
            call.lemma_slice_of_slice(open + 1, close, a, b);
            (open + 1 + a, open + 1 + b)
        },
        None => lemma_trimmed_is_part(call),
    }
}

/// The raw call that the parser extracts holds no `]`, and so does its
/// argument.
pub proof fn lemma_call_without_bracket(text: Seq<char>)
    requires
        tool_call_text(text) is Some,
    ensures
        free_of(tool_call_text(text)->0, ']'),
        free_of(argument_of(tool_call_text(text)->0), ']'),
{
    let m = marker();
    lemma_first_occurrence(text, m, 0);
    let start = first_occurrence(text, m, 0)->0;
    let from = start + m.len();
    lemma_first_index(text, ']', from);
    let end = first_index(text, ']', from)->0;
    let body = text.subrange(from, end);
    let (a, b) = lemma_trimmed_is_part(body);
    let raw = tool_call_text(text)->0;
    assert forall|i: int| 0 <= i < raw.len() implies raw[i] != ']' by {
        assert(raw[i] == body[a + i]);
        assert(body[a + i] == text[from + a + i]);
    }
    let (c, d) = lemma_argument_is_part(raw);
    let arg = argument_of(raw);
    assert forall|i: int| 0 <= i < arg.len() implies arg[i] != ']' by {
        assert(arg[i] == raw[c + i]);
    }
}

/// Parsing is idempotent: wrapping the argument that the parser extracted from
/// `text` again as `[TOOL: name(..)]`, without quotation marks, and parsing
/// that yields the same argument. This holds of every argument that is not
/// itself enclosed in matching quotation marks, of which parsing again would
/// drop one more layer.
pub proof fn lemma_parser_idempotent(text: Seq<char>, name: Seq<char>)
    requires
        parsed_call(text) is Some,
        !is_enclosed(parsed_call(text)->0.argument),
        free_of(name, '('),
        free_of(name, ']'),
    ensures
        parsed_call(directive(name, parsed_call(text)->0.argument)) == Some(
            ToolCallView { name: trimmed(name), argument: parsed_call(text)->0.argument },
        ),
        argument_of(name + seq!['('] + parsed_call(text)->0.argument + seq![')']) == parsed_call(
            text,
        )->0.argument,
{
    let a = parsed_call(text)->0.argument;
    lemma_call_without_bracket(text);
    let none = Seq::<char>::empty();
    assert forall|i: int| !occurs_at(none, marker(), i) by {
        reveal_strlit("[TOOL: ");
    }
    lemma_directive_parsed(none, name, a, none);
    assert(none + directive(name, a) + none =~= directive(name, a));
    lemma_argument_trimmed(tool_call_text(text)->0);
    lemma_argument_of_wrapped(name, a);
}

} // verus!
