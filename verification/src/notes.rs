//! The note that the pipeline writes to the vault: where it goes and what it
//! holds.

use crate::text::{chars_of, concat, string_of};
use std::fmt::Write;
use vstd::prelude::*;
use vstd::string::StringExecFns;

verus! {

/// The folder of the vault that receives the notes.
pub const NOTE_FOLDER: &'static str = "Reference/Docs/";

/// The model that a note names in its front matter.
pub const MODEL_LABEL: &'static str = "llama3.2";

/// Whether a character cannot stand in the name of a note.
pub open spec fn is_forbidden(c: char) -> bool {
    ||| c == '/'
    ||| c == '\\'
    ||| c == ':'
    ||| c == '*'
    ||| c == '?'
    ||| c == '"'
    ||| c == '<'
    ||| c == '>'
    ||| c == '|'
}

/// `title` with `_` in place of each character that cannot stand in the name
/// of a note.
pub open spec fn safe_title(title: Seq<char>) -> Seq<char> {
    Seq::new(
        title.len(),
        |i: int|
            if is_forbidden(title[i]) {
                '_'
            } else {
                title[i]
            },
    )
}

/// The path of the note for `title`.
pub open spec fn note_path(title: Seq<char>) -> Seq<char> {
    NOTE_FOLDER@ + safe_title(title) + ".md"@
}

/// The text of a note: front matter with the source, its title, the day it was
/// fetched and the model's label; the title as a heading; the body.
pub open spec fn note_text(
    title: Seq<char>,
    content: Seq<char>,
    source_url: Seq<char>,
    source_title: Seq<char>,
    date: Seq<char>,
) -> Seq<char> {
    "---\ntags: [reference, documentation, fetched]\nsource: "@ + source_url
        + "\nsource_title: \""@ + source_title + "\"\nfetched_date: "@ + date + "\nmodel: "@
        + MODEL_LABEL@ + "\n---\n\n# "@ + title + "\n\n"@ + content + "\n"@
}

/// Whether a character cannot stand in the name of a note.
fn forbidden(c: char) -> (b: bool)
    ensures
        b == is_forbidden(c),
{
    c == '/' || c == '\\' || c == ':' || c == '*' || c == '?' || c == '"' || c == '<' || c == '>'
        || c == '|'
}

/// Writes the path of the note for `title`.
pub fn write_note_path(title: &str) -> (r: String)
    ensures
        r@ == note_path(title@),
{
    let name = chars_of(title);
    let mut safe: Vec<char> = Vec::new();
    let mut i: usize = 0;
    while i < name.len()
        invariant
            i <= name.len(),
            safe@ == safe_title(name@.take(i as int)),
        decreases name.len() - i,
    {
        let c = name[i];
        assert(safe_title(name@.take(i + 1)) =~= safe_title(name@.take(i as int)).push(
            if is_forbidden(c) {
                '_'
            } else {
                c
            },
        ));
        if forbidden(c) {
            safe.push('_');
        } else {
            safe.push(c);
        }
        i += 1;
    }
    assert(name@.take(name.len() as int) =~= name@);
    let mut r = concat(NOTE_FOLDER, string_of(&safe).as_str());
    r.append(".md");
    r
}

/// Writes the text of a note.
pub fn write_note(title: &str, content: &str, source_url: &str, source_title: &str, date: &str) -> (r:
    String)
    ensures
        r@ == note_text(title@, content@, source_url@, source_title@, date@),
{
    let mut r = concat("---\ntags: [reference, documentation, fetched]\nsource: ", source_url);
    r.append("\nsource_title: \"");
    r.append(source_title);
    r.append("\"\nfetched_date: ");
    r.append(date);
    r.append("\nmodel: ");
    r.append(MODEL_LABEL);
    r.append("\n---\n\n# ");
    r.append(title);
    r.append("\n\n");
    r.append(content);
    r.append("\n");
    r
}

/// How the day is written in a note: year, month and day.
pub const DAY_PATTERN: &'static str = "%Y-%m-%d";

/// Whether `c` is one of the ten digits.
pub open spec fn is_digit(c: char) -> bool {
    0x30 <= c as u32 <= 0x39
}

/// Whether `s` writes a year: four digits or more, after a sign where there
/// is one.
pub open spec fn is_year(s: Seq<char>) -> bool {
    let digits = if s.len() > 0 && (s[0] == '+' || s[0] == '-') {
        s.skip(1)
    } else {
        s
    };
    &&& digits.len() >= 4
    &&& forall|i: int| 0 <= i < digits.len() ==> is_digit(digits[i])
}

/// Whether `s` writes a day after `DAY_PATTERN`: the year, `-`, two digits
/// for the month, `-`, two digits for the day of the month.
pub open spec fn is_day(s: Seq<char>) -> bool {
    let n = s.len() as int;
    &&& n >= 10
    &&& is_year(s.take(n - 6))
    &&& s[n - 6] == '-'
    &&& is_digit(s[n - 5])
    &&& is_digit(s[n - 4])
    &&& s[n - 3] == '-'
    &&& is_digit(s[n - 2])
    &&& is_digit(s[n - 1])
}

/// `chrono::Local::now`, written after `pattern` as `DateTime::format` and the
/// `Display` of its result do: the time on the local clock, or `None` where
/// the pattern cannot be written. Which time the text shows is not known. Of
/// `DAY_PATTERN` the contract claims that it can always be written, and how:
/// `%Y` gives the year in four digits or more, with a sign before a year that
/// needs more than four or lies before the year 0; `%m` and `%d` give two
/// digits each; the hyphens stand for themselves. `Local::now` expects a
/// clock that is not set before 1970 and time zone data that it can read.
#[verifier::external_body]
fn local_time(pattern: &str) -> (text: Option<String>)
    ensures
        pattern@ == DAY_PATTERN@ ==> text is Some && is_day(text->0@),
{
    let mut text = String::new();
    match write!(text, "{}", chrono::Local::now().format(pattern)) {
        Ok(()) => Some(text),
        Err(_) => None,
    }
}

/// The day that the local clock shows, written as year, month and day.
pub(crate) fn today() -> (date: String)
    ensures
        is_day(date@),
{
    match local_time(DAY_PATTERN) {
        Some(date) => date,
        None => String::new(),
    }
}

} // verus!
