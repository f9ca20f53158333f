//! The plain records that the workflows hand around.

use vstd::prelude::*;

verus! {

/// The views of the items of `s`, in order.
pub open spec fn views<T: View>(s: Seq<T>) -> Seq<T::V> {
    Seq::new(s.len(), |i: int| s[i]@)
}

/// The views of a sequence with one more item are the views of the sequence
/// with the view of the item.
pub proof fn lemma_views_push<T: View>(s: Seq<T>, x: T)
    ensures
        views(s.push(x)) == views(s).push(x@),
{
    assert(views(s.push(x)) =~= views(s).push(x@));
}

/// The views of the first `i + 1` items are those of the first `i` with the
/// view of the next.
pub proof fn lemma_views_take<T: View>(s: Seq<T>, i: int)
    requires
        0 <= i < s.len(),
    ensures
        views(s.take(i + 1)) == views(s.take(i)).push(s[i]@),
{
    assert(views(s.take(i + 1)) =~= views(s.take(i)).push(s[i]@));
}

/// The view of an optional text.
pub open spec fn text_view(t: Option<String>) -> Option<Seq<char>> {
    match t {
        Some(s) => Some(s@),
        None => None,
    }
}

/// One hit of a search: where it leads and what it is called.
#[derive(Debug, PartialEq, Eq)]
pub struct SearchResult {
    pub url: String,
    pub title: String,
}

/// What a `SearchResult` holds.
pub struct SearchResultView {
    pub url: Seq<char>,
    pub title: Seq<char>,
}

impl View for SearchResult {
    type V = SearchResultView;

    open spec fn view(&self) -> SearchResultView {
        SearchResultView { url: self.url@, title: self.title@ }
    }
}

impl Clone for SearchResult {
    fn clone(&self) -> (r: Self)
        ensures
            r@ == self@,
    {
        SearchResult { url: self.url.clone(), title: self.title.clone() }
    }
}

/// The artifact that ends a workflow.
#[derive(Debug, PartialEq, Eq)]
pub struct FetchResult {
    pub success: bool,
    pub title: String,
    pub summary: String,
    pub file_path: String,
    pub error: Option<String>,
}

/// What a `FetchResult` holds.
pub struct FetchResultView {
    pub success: bool,
    pub title: Seq<char>,
    pub summary: Seq<char>,
    pub file_path: Seq<char>,
    pub error: Option<Seq<char>>,
}

impl View for FetchResult {
    type V = FetchResultView;

    open spec fn view(&self) -> FetchResultView {
        FetchResultView {
            success: self.success,
            title: self.title@,
            summary: self.summary@,
            file_path: self.file_path@,
            error: text_view(self.error),
        }
    }
}

impl Clone for FetchResult {
    fn clone(&self) -> (r: Self)
        ensures
            r@ == self@,
    {
        let error = match &self.error {
            Some(e) => Some(e.clone()),
            None => None,
        };
        FetchResult {
            success: self.success,
            title: self.title.clone(),
            summary: self.summary.clone(),
            file_path: self.file_path.clone(),
            error,
        }
    }
}

/// Whether the verdict of an artifact and its error agree: it names an error
/// exactly when it did not succeed.
pub open spec fn consistent(r: FetchResultView) -> bool {
    r.success <==> r.error is None
}

/// The path recorded for an artifact that was not stored anywhere.
pub const IN_MEMORY: &'static str = "In Memory";

/// The successful artifact with the given title, summary and path.
pub open spec fn success_view(
    title: Seq<char>,
    summary: Seq<char>,
    file_path: Seq<char>,
) -> FetchResultView {
    FetchResultView { success: true, title, summary, file_path, error: None }
}

impl FetchResult {
    /// The artifact of a workflow that ended well.
    pub fn succeeded(title: String, summary: String, file_path: String) -> (r: FetchResult)
        ensures
            r@ == success_view(title@, summary@, file_path@),
            consistent(r@),
    {
        FetchResult { success: true, title, summary, file_path, error: None }
    }
}

/// Who wrote a message of a conversation.
#[derive(Clone, Copy, Debug, PartialEq, Eq, Structural)]
pub enum Role {
    System,
    User,
    Assistant,
}

/// The name under which the model backend knows a role.
pub open spec fn role_name(role: Role) -> Seq<char> {
    match role {
        Role::System => "system"@,
        Role::User => "user"@,
        Role::Assistant => "assistant"@,
    }
}

impl Role {
    /// The name under which the model backend knows this role.
    pub fn name(&self) -> (r: &'static str)
        ensures
            r@ == role_name(*self),
    {
        match self {
            Role::System => "system",
            Role::User => "user",
            Role::Assistant => "assistant",
        }
    }
}

/// One message of a conversation with the model.
#[derive(Debug, PartialEq, Eq)]
pub struct ConversationMessage {
    pub role: Role,
    pub content: String,
}

/// What a `ConversationMessage` holds.
pub struct MessageView {
    pub role: Role,
    pub content: Seq<char>,
}

impl View for ConversationMessage {
    type V = MessageView;

    open spec fn view(&self) -> MessageView {
        MessageView { role: self.role, content: self.content@ }
    }
}

impl Clone for ConversationMessage {
    fn clone(&self) -> (r: Self)
        ensures
            r@ == self@,
    {
        ConversationMessage { role: self.role, content: self.content.clone() }
    }
}

/// Copies a conversation.
pub fn copy_messages(messages: &Vec<ConversationMessage>) -> (r: Vec<ConversationMessage>)
    ensures
        views(r@) == views(messages@),
{
    let mut r: Vec<ConversationMessage> = Vec::new();
    let mut i: usize = 0;
    while i < messages.len()
        invariant
            i <= messages.len(),
            views(r@) == views(messages@.take(i as int)),
        decreases messages.len() - i,
    {
        proof {
            lemma_views_take(messages@, i as int);
        }
        let ghost before = r@;
        let m = messages[i].clone();
        proof {
            lemma_views_push(before, m);
        }
        r.push(m);
        i += 1;
    }
    assert(messages@.take(messages.len() as int) =~= messages@);
    r
}

/// The settings of one run of the pipeline.
#[derive(Debug, PartialEq, Eq)]
pub struct WorkflowOptions {
    pub use_ai: bool,
    pub headless: bool,
    pub model_name: String,
    pub obsidian_api_key: String,
}

} // verus!
