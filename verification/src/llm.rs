//! What the language model's chat endpoint answers: a JSON document whose
//! `message.content` is the reply.

use crate::errors::{describe, failure, ErrorView, Fault, FaultView, Service, WorkflowError};
use vstd::prelude::*;

verus! {

/// A JSON value of `serde_json`.
#[verifier::external_type_specification]
#[verifier::external_body]
pub struct ExValue(serde_json::Value);

/// The strings that stand in a JSON value, each under the chain of object keys
/// that leads to it. A value that is itself a string holds it under the empty
/// chain.
pub uninterp spec fn strings_in(v: serde_json::Value) -> Map<Seq<Seq<char>>, Seq<char>>;

/// The strings in the JSON value that `text` denotes; `None` if `text` is no
/// JSON document.
pub uninterp spec fn document(text: Seq<char>) -> Option<Map<Seq<Seq<char>>, Seq<char>>>;

/// What `serde_json` says of a `text` that is no JSON document.
pub uninterp spec fn document_error(text: Seq<char>) -> Seq<char>;

/// What `strings` holds under chains that begin with `key`, each under the
/// rest of its chain.
pub open spec fn below(
    strings: Map<Seq<Seq<char>>, Seq<char>>,
    key: Seq<char>,
) -> Map<Seq<Seq<char>>, Seq<char>> {
    Map::new(
        |chain: Seq<Seq<char>>| strings.contains_key(seq![key] + chain),
        |chain: Seq<Seq<char>>| strings[seq![key] + chain],
    )
}

/// `serde_json::from_str` for a `Value`: the value that `text` denotes, or the
/// words of the error, as its `Display` writes them, if `text` is no JSON
/// document. The contract names both and claims only that they depend on the
/// characters of `text` alone.
#[verifier::external_body]
fn parse(text: &str) -> (r: Result<serde_json::Value, String>)
    ensures
        match r {
            Ok(v) => document(text@) == Some(strings_in(v)),
            Err(e) => document(text@) is None && e@ == document_error(text@),
        },
{
    match serde_json::from_str::<serde_json::Value>(text) {
        Ok(v) => Ok(v),
        Err(e) => Err(e.to_string()),
    }
}

/// Indexing a `Value` by a string (`Index<&str>`): the member under `key` if
/// `v` is an object that has one, and the null value, which holds no string,
/// otherwise. So the result holds what `v` holds under chains that begin with
/// `key`.
#[verifier::external_body]
fn member<'a>(v: &'a serde_json::Value, key: &str) -> (r: &'a serde_json::Value)
    ensures
        strings_in(*r) == below(strings_in(*v), key@),
{
    &v[key]
}

/// `Value::as_str`: the string that `v` is, if it is one, and `None` if it is
/// anything else.
#[verifier::external_body]
fn as_text<'a>(v: &'a serde_json::Value) -> (r: Option<&'a str>)
    ensures
        match r {
            Some(s) => strings_in(*v).contains_key(seq![]) && strings_in(*v)[seq![]] == s@,
            None => !strings_in(*v).contains_key(seq![]),
        },
{
    v.as_str()
}

/// The chain of keys under which the reply stands.
pub open spec fn content_chain() -> Seq<Seq<char>> {
    seq!["message"@, "content"@]
}

/// The model's reply in a document that holds `strings`, if it has one.
pub open spec fn content_in(strings: Map<Seq<Seq<char>>, Seq<char>>) -> Option<Seq<char>> {
    if strings.contains_key(content_chain()) {
        Some(strings[content_chain()])
    } else {
        None
    }
}

/// What the answer `body` of the chat endpoint amounts to: the reply; a decode
/// error if `body` is no JSON document; a missing field if the document has no
/// string at `message.content`.
pub open spec fn chat_content(body: Seq<char>) -> Result<Seq<char>, ErrorView> {
    match document(body) {
        None => Err(
            failure(Service::Chat, FaultView::Parse { detail: document_error(body), body }),
        ),
        Some(strings) => match content_in(strings) {
            Some(reply) => Ok(reply),
            None => Err(failure(Service::Chat, FaultView::Missing)),
        },
    }
}

/// Reads the model's reply out of the document `doc`.
pub fn message_content(doc: &serde_json::Value) -> (r: Option<String>)
    ensures
        match r {
            Some(reply) => content_in(strings_in(*doc)) == Some(reply@),
            None => content_in(strings_in(*doc)) is None,
        },
{
    let content = member(member(doc, "message"), "content");
    proof {
        let none = Seq::<Seq<char>>::empty();
        assert(seq!["content"@] + none =~= seq!["content"@]);
        assert(seq!["message"@] + seq!["content"@] =~= content_chain());
    }
    match as_text(content) {
        Some(reply) => Some(reply.to_owned()),
        None => None,
    }
}

/// Reads the model's reply out of the answer `body` of the chat endpoint.
pub fn chat_reply(body: &str) -> (r: Result<String, WorkflowError>)
    ensures
        match r {
            Ok(reply) => chat_content(body@) == Ok::<Seq<char>, ErrorView>(reply@),
            Err(e) => chat_content(body@) == Err::<Seq<char>, ErrorView>(e@),
        },
{
    match parse(body) {
        Err(detail) => Err(
            describe(Service::Chat, &Fault::Parse { detail, body: body.to_owned() }),
        ),
        Ok(doc) => match message_content(&doc) {
            Some(reply) => Ok(reply),
            None => Err(describe(Service::Chat, &Fault::Missing)),
        },
    }
}

} // verus!
