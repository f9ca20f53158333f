//! A simple tag stripper: turns a page of markup into plain text.

use crate::text::{
    chars_of, collapse, collapse_whitespace, contains_text, has_text, lowercase, prefix,
    string_of, take_chars, to_lowercase,
};
use vstd::prelude::*;

verus! {

/// The most characters of a fetched page that are handed on.
pub const PAGE_LIMIT: usize = 8000;

/// Whether position `i` of `s` stands inside a tag: the nearest angle bracket
/// before it is a `<`.
pub open spec fn inside_tag(s: Seq<char>, i: int) -> bool
    decreases i,
{
    if i <= 0 {
        false
    } else if s[i - 1] == '<' {
        true
    } else if s[i - 1] == '>' {
        false
    } else {
        inside_tag(s, i - 1)
    }
}

/// Whether a `<` stands before position `i` of `s`.
pub open spec fn after_tag_open(s: Seq<char>, i: int) -> bool
    decreases i,
{
    if i <= 0 {
        false
    } else {
        s[i - 1] == '<' || after_tag_open(s, i - 1)
    }
}

/// Whether a page, given in lower case, opens a `script` or `style` element
/// that it never closes. Such a page shows nothing after its first tag.
pub open spec fn hides_after_tag(lowered: Seq<char>) -> bool {
    ||| contains_text(lowered, "<script"@) && !contains_text(lowered, "</script"@)
    ||| contains_text(lowered, "<style"@) && !contains_text(lowered, "</style"@)
}

/// Whether the character at position `i` of `s` belongs to the page's text.
pub open spec fn is_shown(s: Seq<char>, hides: bool, i: int) -> bool {
    &&& s[i] != '<'
    &&& s[i] != '>'
    &&& !inside_tag(s, i)
    &&& hides ==> !after_tag_open(s, i)
}

/// The characters among the first `n` of `s` that belong to the page's text.
pub open spec fn shown_text(s: Seq<char>, hides: bool, n: int) -> Seq<char>
    decreases n,
{
    if n <= 0 {
        seq![]
    } else if is_shown(s, hides, n - 1) {
        shown_text(s, hides, n - 1).push(s[n - 1])
    } else {
        shown_text(s, hides, n - 1)
    }
}

/// The plain text of the page `html`, whose lower-case form is `lowered`: what
/// stands outside its tags, with whitespace collapsed.
pub open spec fn plain_text(html: Seq<char>, lowered: Seq<char>) -> Seq<char> {
    collapse_whitespace(shown_text(html, hides_after_tag(lowered), html.len() as int))
}

/// No angle bracket belongs to the text of a page, and the text is never
/// longer than what it is taken from.
pub proof fn lemma_shown_without_brackets(s: Seq<char>, hides: bool, n: int)
    requires
        0 <= n <= s.len(),
    ensures
        shown_text(s, hides, n).len() <= n,
        forall|i: int|
            0 <= i < shown_text(s, hides, n).len() ==> {
                &&& (#[trigger] shown_text(s, hides, n)[i]) != '<'
                &&& shown_text(s, hides, n)[i] != '>'
            },
    decreases n,
{
    if n > 0 {
        lemma_shown_without_brackets(s, hides, n - 1);
    }
}

/// A page without angle brackets is its own text.
pub proof fn lemma_page_without_tags(s: Seq<char>, hides: bool, n: int)
    requires
        0 <= n <= s.len(),
        forall|i: int| 0 <= i < s.len() ==> s[i] != '<' && s[i] != '>',
    ensures
        !inside_tag(s, n),
        !after_tag_open(s, n),
        shown_text(s, hides, n) == s.take(n),
    decreases n,
{
    if n > 0 {
        lemma_page_without_tags(s, hides, n - 1);
        assert(s.take(n) =~= s.take(n - 1).push(s[n - 1]));
    } else {
        assert(s.take(0) =~= Seq::<char>::empty());
    }
}

/// Strips the tags of `html`, given the page in lower case.
pub fn strip_markup(html: &str, lowered: &str) -> (r: String)
    ensures
        r@ == plain_text(html@, lowered@),
{
    let low = chars_of(lowered);
    let script_open = has_text(&low, &chars_of("<script"));
    let script_close = has_text(&low, &chars_of("</script"));
    let style_open = has_text(&low, &chars_of("<style"));
    let style_close = has_text(&low, &chars_of("</style"));
    let hides = (script_open && !script_close) || (style_open && !style_close);
    let page = chars_of(html);
    let mut shown: Vec<char> = Vec::new();
    let mut in_tag = false;
    let mut opened = false;
    let mut i: usize = 0;
    while i < page.len()
        invariant
            i <= page.len(),
            in_tag == inside_tag(page@, i as int),
            opened == after_tag_open(page@, i as int),
            shown@ == shown_text(page@, hides, i as int),
        decreases page.len() - i,
    {
        let c = page[i];
        if c == '<' {
            in_tag = true;
            opened = true;
        } else if c == '>' {
            in_tag = false;
        } else if !in_tag && !(hides && opened) {
            shown.push(c);
        }
        i += 1;
    }
    string_of(&collapse(&shown))
}

/// Turns a page of markup into plain text.
pub fn html_to_text(html: &str) -> (r: String)
    ensures
        r@ == plain_text(html@, lowercase(html@)),
{
    let lowered = to_lowercase(html);
    strip_markup(html, lowered.as_str())
}

/// The text of a fetched page as it is handed on: its plain text, cut to
/// `PAGE_LIMIT` characters.
pub open spec fn page_text(html: Seq<char>) -> Seq<char> {
    prefix(plain_text(html, lowercase(html)), PAGE_LIMIT as nat)
}

/// Converts a fetched page to plain text of at most `PAGE_LIMIT` characters.
pub fn page_content(html: &str) -> (r: String)
    ensures
        r@ == page_text(html@),
        r@.len() <= PAGE_LIMIT,
{
    let text = html_to_text(html);
    take_chars(text.as_str(), PAGE_LIMIT)
}

} // verus!
