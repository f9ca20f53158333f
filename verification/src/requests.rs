//! The requests that the workflows send to the outside services. A request is
//! described here and sent elsewhere.

use crate::records::{copy_messages, views, ConversationMessage, MessageView};
use crate::text::concat;
use vstd::prelude::*;
use vstd::utf8::encode_utf8;

verus! {

/// Where the search backend listens.
pub const SEARCH_BASE: &'static str = "http://localhost:8080";

/// Where the note vault listens.
pub const VAULT_BASE: &'static str = "https://127.0.0.1:27124";

/// Where the language model listens.
pub const MODEL_BASE: &'static str = "http://localhost:11434";

/// How a page fetch introduces itself.
pub const USER_AGENT: &'static str =
    "Mozilla/5.0 (Windows NT 10.0; Win64; x64) AppleWebKit/537.36";

/// Whether a byte stands for itself in an encoded address: the ASCII letters
/// and digits, and `-`, `.`, `_`, `~`.
pub open spec fn is_unreserved(b: u8) -> bool {
    ||| 0x30 <= b <= 0x39
    ||| 0x41 <= b <= 0x5A
    ||| 0x61 <= b <= 0x7A
    ||| b == 0x2D
    ||| b == 0x2E
    ||| b == 0x5F
    ||| b == 0x7E
}

/// The upper-case hexadecimal digit for `d`.
pub open spec fn hex_digit(d: u8) -> char {
    if d < 10 {
        (d + 48) as u8 as char
    } else {
        (d + 55) as u8 as char
    }
}

/// How one byte is written in an encoded address.
pub open spec fn escaped_byte(b: u8) -> Seq<char> {
    if is_unreserved(b) {
        seq![b as char]
    } else {
        seq!['%', hex_digit(b / 16), hex_digit(b % 16)]
    }
}

/// The percent-encoded form of a sequence of bytes.
pub open spec fn percent_encoded(bytes: Seq<u8>) -> Seq<char>
    decreases bytes.len(),
{
    if bytes.len() == 0 {
        seq![]
    } else {
        percent_encoded(bytes.drop_last()) + escaped_byte(bytes.last())
    }
}

/// The percent-encoded form of a text: that of its UTF-8 bytes.
pub open spec fn url_encoded(s: Seq<char>) -> Seq<char> {
    percent_encoded(encode_utf8(s))
}

/// `urlencoding::encode`: each byte of the UTF-8 form of `s` stands for itself
/// if it is an ASCII letter, a digit or one of `-`, `.`, `_`, `~`, and is
/// written as `%` and its two upper-case hexadecimal digits otherwise.
#[verifier::external_body]
pub(crate) fn url_encode(s: &str) -> (r: String)
    ensures
        r@ == url_encoded(s@),
{
    urlencoding::encode(s).into_owned()
}

/// The verbs of the requests.
#[derive(Clone, Copy, Debug, PartialEq, Eq, Structural)]
pub enum Method {
    Get,
    Post,
    Put,
}

/// One header line of a request.
#[derive(Debug, PartialEq, Eq)]
pub struct Header {
    pub name: String,
    pub value: String,
}

/// What a `Header` holds.
pub struct HeaderView {
    pub name: Seq<char>,
    pub value: Seq<char>,
}

impl View for Header {
    type V = HeaderView;

    open spec fn view(&self) -> HeaderView {
        HeaderView { name: self.name@, value: self.value@ }
    }
}

/// What a request carries.
#[derive(Debug, PartialEq, Eq)]
pub enum Payload {
    /// Nothing.
    Empty,
    /// A note, sent as `text/markdown`.
    Markdown(String),
    /// The JSON body `{model, prompt, stream}` of a generation.
    Generate { model: String, prompt: String, stream: bool },
    /// The JSON body `{model, messages, stream}` of a chat.
    Chat { model: String, messages: Vec<ConversationMessage>, stream: bool },
}

/// What a `Payload` holds.
pub enum PayloadView {
    Empty,
    Markdown(Seq<char>),
    Generate { model: Seq<char>, prompt: Seq<char>, stream: bool },
    Chat { model: Seq<char>, messages: Seq<MessageView>, stream: bool },
}

impl View for Payload {
    type V = PayloadView;

    open spec fn view(&self) -> PayloadView {
        match self {
            Payload::Empty => PayloadView::Empty,
            Payload::Markdown(note) => PayloadView::Markdown(note@),
            Payload::Generate { model, prompt, stream } => PayloadView::Generate {
                model: model@,
                prompt: prompt@,
                stream: *stream,
            },
            Payload::Chat { model, messages, stream } => PayloadView::Chat {
                model: model@,
                messages: views(messages@),
                stream: *stream,
            },
        }
    }
}

/// A request to an outside service.
#[derive(Debug, PartialEq, Eq)]
pub struct HttpRequest {
    pub method: Method,
    pub url: String,
    pub headers: Vec<Header>,
    pub payload: Payload,
}

/// What an `HttpRequest` holds.
pub struct RequestView {
    pub method: Method,
    pub url: Seq<char>,
    pub headers: Seq<HeaderView>,
    pub payload: PayloadView,
}

impl View for HttpRequest {
    type V = RequestView;

    open spec fn view(&self) -> RequestView {
        RequestView {
            method: self.method,
            url: self.url@,
            headers: views(self.headers@),
            payload: self.payload@,
        }
    }
}

/// The header that presents the vault's key.
pub open spec fn bearer(api_key: Seq<char>) -> HeaderView {
    HeaderView { name: "Authorization"@, value: "Bearer "@ + api_key }
}

/// The address that searches the web for the documentation of `query`.
pub open spec fn web_search_url(query: Seq<char>) -> Seq<char> {
    SEARCH_BASE@ + "/search?q="@ + url_encoded(query + " documentation"@)
        + "&format=json&categories=general"@
}

/// The address that searches the vault for `query`.
pub open spec fn vault_search_url(query: Seq<char>) -> Seq<char> {
    VAULT_BASE@ + "/search/simple?query="@ + url_encoded(query)
}

/// The address of the note at `path` in the vault.
pub open spec fn vault_file_url(path: Seq<char>) -> Seq<char> {
    VAULT_BASE@ + "/vault/"@ + url_encoded(path)
}

/// The request that searches the web for the documentation of `query`.
pub open spec fn web_search(query: Seq<char>) -> RequestView {
    RequestView {
        method: Method::Get,
        url: web_search_url(query),
        headers: seq![],
        payload: PayloadView::Empty,
    }
}

/// The request that searches the vault for `query`.
pub open spec fn vault_search(query: Seq<char>, api_key: Seq<char>) -> RequestView {
    RequestView {
        method: Method::Post,
        url: vault_search_url(query),
        headers: seq![bearer(api_key)],
        payload: PayloadView::Empty,
    }
}

/// The request that reads the note at `path`.
pub open spec fn vault_read(path: Seq<char>, api_key: Seq<char>) -> RequestView {
    RequestView {
        method: Method::Get,
        url: vault_file_url(path),
        headers: seq![bearer(api_key)],
        payload: PayloadView::Empty,
    }
}

/// The request that writes `note` to `path`.
pub open spec fn vault_write(path: Seq<char>, note: Seq<char>, api_key: Seq<char>) -> RequestView {
    RequestView {
        method: Method::Put,
        url: vault_file_url(path),
        headers: seq![
            bearer(api_key),
            HeaderView { name: "Content-Type"@, value: "text/markdown"@ },
        ],
        payload: PayloadView::Markdown(note),
    }
}

/// The request that fetches the page at `url`.
pub open spec fn page_fetch(url: Seq<char>) -> RequestView {
    RequestView {
        method: Method::Get,
        url,
        headers: seq![HeaderView { name: "User-Agent"@, value: USER_AGENT@ }],
        payload: PayloadView::Empty,
    }
}

/// The request that lets `model` complete `prompt`, in one answer.
pub open spec fn generation(model: Seq<char>, prompt: Seq<char>) -> RequestView {
    RequestView {
        method: Method::Post,
        url: MODEL_BASE@ + "/api/generate"@,
        headers: seq![],
        payload: PayloadView::Generate { model, prompt, stream: false },
    }
}

/// The request that lets `model` continue the conversation `messages`, in one
/// answer.
pub open spec fn chat(model: Seq<char>, messages: Seq<MessageView>) -> RequestView {
    RequestView {
        method: Method::Post,
        url: MODEL_BASE@ + "/api/chat"@,
        headers: seq![],
        payload: PayloadView::Chat { model, messages, stream: false },
    }
}

/// The header that presents the vault's key.
fn bearer_header(api_key: &str) -> (r: Header)
    ensures
        r@ == bearer(api_key@),
{
    Header { name: "Authorization".to_owned(), value: concat("Bearer ", api_key) }
}

/// Builds the request that searches the web for the documentation of `query`.
pub fn web_search_request(query: &str) -> (r: HttpRequest)
    ensures
        r@ == web_search(query@),
{
    let topic = concat(query, " documentation");
    let mut url = concat(SEARCH_BASE, "/search?q=");
    url = concat(url.as_str(), url_encode(topic.as_str()).as_str());
    url = concat(url.as_str(), "&format=json&categories=general");
    let headers: Vec<Header> = Vec::new();
    assert(views(headers@) =~= seq![]);
    HttpRequest { method: Method::Get, url, headers, payload: Payload::Empty }
}

/// Builds the request that searches the vault for `query`.
pub fn vault_search_request(query: &str, api_key: &str) -> (r: HttpRequest)
    ensures
        r@ == vault_search(query@, api_key@),
{
    let mut url = concat(VAULT_BASE, "/search/simple?query=");
    url = concat(url.as_str(), url_encode(query).as_str());
    let mut headers: Vec<Header> = Vec::new();
    headers.push(bearer_header(api_key));
    assert(views(headers@) =~= seq![bearer(api_key@)]);
    HttpRequest { method: Method::Post, url, headers, payload: Payload::Empty }
}

/// Builds the address of the note at `path`.
fn vault_file_address(path: &str) -> (r: String)
    ensures
        r@ == vault_file_url(path@),
{
    let url = concat(VAULT_BASE, "/vault/");
    concat(url.as_str(), url_encode(path).as_str())
}

/// Builds the request that reads the note at `path`.
pub fn vault_read_request(path: &str, api_key: &str) -> (r: HttpRequest)
    ensures
        r@ == vault_read(path@, api_key@),
{
    let url = vault_file_address(path);
    let mut headers: Vec<Header> = Vec::new();
    headers.push(bearer_header(api_key));
    assert(views(headers@) =~= seq![bearer(api_key@)]);
    HttpRequest { method: Method::Get, url, headers, payload: Payload::Empty }
}

/// Builds the request that writes `note` to `path`.
pub fn vault_write_request(path: &str, note: String, api_key: &str) -> (r: HttpRequest)
    ensures
        r@ == vault_write(path@, note@, api_key@),
{
    let url = vault_file_address(path);
    let mut headers: Vec<Header> = Vec::new();
    headers.push(bearer_header(api_key));
    headers.push(Header { name: "Content-Type".to_owned(), value: "text/markdown".to_owned() });
    assert(views(headers@) =~= seq![
        bearer(api_key@),
        HeaderView { name: "Content-Type"@, value: "text/markdown"@ },
    ]);
    HttpRequest { method: Method::Put, url, headers, payload: Payload::Markdown(note) }
}

/// Builds the request that fetches the page at `url`.
pub fn page_request(url: &str) -> (r: HttpRequest)
    ensures
        r@ == page_fetch(url@),
{
    let mut headers: Vec<Header> = Vec::new();
    headers.push(Header { name: "User-Agent".to_owned(), value: USER_AGENT.to_owned() });
    assert(views(headers@) =~= seq![HeaderView { name: "User-Agent"@, value: USER_AGENT@ }]);
    HttpRequest { method: Method::Get, url: url.to_owned(), headers, payload: Payload::Empty }
}

/// Builds the request that lets `model` complete `prompt`.
pub fn generation_request(model: &str, prompt: String) -> (r: HttpRequest)
    ensures
        r@ == generation(model@, prompt@),
{
    let headers: Vec<Header> = Vec::new();
    assert(views(headers@) =~= seq![]);
    HttpRequest {
        method: Method::Post,
        url: concat(MODEL_BASE, "/api/generate"),
        headers,
        payload: Payload::Generate { model: model.to_owned(), prompt, stream: false },
    }
}

/// Builds the request that lets `model` continue the conversation `messages`.
pub fn chat_request(model: &str, messages: &Vec<ConversationMessage>) -> (r: HttpRequest)
    ensures
        r@ == chat(model@, views(messages@)),
{
    let headers: Vec<Header> = Vec::new();
    assert(views(headers@) =~= seq![]);
    HttpRequest {
        method: Method::Post,
        url: concat(MODEL_BASE, "/api/chat"),
        headers,
        payload: Payload::Chat {
            model: model.to_owned(),
            messages: copy_messages(messages),
            stream: false,
        },
    }
}

} // verus!
