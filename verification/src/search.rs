//! Discovery: what is kept of the answers of the two search backends, and the
//! events that report a search.

use crate::events::{event, EventView, Stage, Status, WorkflowEvent};
use crate::records::{
    lemma_views_push, lemma_views_take, views, SearchResult, SearchResultView,
};
use crate::requests::{web_search, web_search_request, HttpRequest};
use crate::text::{concat, decimal, decimal_string, prefix};
use vstd::prelude::*;

verus! {

/// The most hits that are kept of a web search.
pub const WEB_LIMIT: usize = 20;

/// The most hits that are kept of a vault search.
pub const VAULT_LIMIT: usize = 10;

/// The test that a hit leads somewhere: its address is not empty.
pub open spec fn has_url() -> spec_fn(SearchResultView) -> bool {
    |r: SearchResultView| r.url.len() > 0
}

/// What is kept of the hits of a web search: the first `WEB_LIMIT` of those
/// that lead somewhere, in their order.
pub open spec fn kept_results(raw: Seq<SearchResultView>) -> Seq<SearchResultView> {
    prefix(raw.filter(has_url()), WEB_LIMIT as nat)
}

/// The hit that stands for the note `filename`: the name is both its title and
/// its address.
pub open spec fn note_hit(filename: Seq<char>) -> SearchResultView {
    SearchResultView { url: filename, title: filename }
}

/// What is kept of the hits of a vault search: the first `VAULT_LIMIT`.
pub open spec fn note_hits(filenames: Seq<Seq<char>>) -> Seq<SearchResultView> {
    let kept = prefix(filenames, VAULT_LIMIT as nat);
    Seq::new(kept.len(), |i: int| note_hit(kept[i]))
}

/// No kept hit has an empty address, and at most `WEB_LIMIT` are kept,
/// however many there were.
pub proof fn lemma_kept_results(raw: Seq<SearchResultView>)
    ensures
        kept_results(raw).len() <= WEB_LIMIT,
        forall|i: int| 0 <= i < kept_results(raw).len() ==> kept_results(raw)[i].url.len() > 0,
        forall|i: int|
            0 <= i < kept_results(raw).len() ==> raw.contains(#[trigger] kept_results(raw)[i]),
{
    let all = raw.filter(has_url());
    assert forall|i: int| 0 <= i < kept_results(raw).len() implies kept_results(raw)[i].url.len()
        > 0 && raw.contains(#[trigger] kept_results(raw)[i]) by {
        assert(kept_results(raw)[i] == all[i]);
        raw.lemma_filter_pred(has_url(), i);
        assert(all.contains(all[i]));
        raw.lemma_filter_contains_rev(has_url(), all[i]);
    }
}

/// Keeps the first `WEB_LIMIT` hits that lead somewhere.
pub fn keep_results(raw: &Vec<SearchResult>) -> (kept: Vec<SearchResult>)
    ensures
        views(kept@) == kept_results(views(raw@)),
        kept.len() <= WEB_LIMIT,
        forall|i: int| 0 <= i < kept.len() ==> kept[i].url@.len() > 0,
{
    let mut kept: Vec<SearchResult> = Vec::new();
    let mut i: usize = 0;
    while i < raw.len() && kept.len() < WEB_LIMIT
        invariant
            i <= raw.len(),
            kept.len() <= WEB_LIMIT,
            views(kept@) == views(raw@.take(i as int)).filter(has_url()),
        decreases raw.len() - i,
    {
        proof {
            lemma_views_take(raw@, i as int);
            views(raw@.take(i as int)).lemma_filter_push(raw@[i as int]@, has_url());
        }
        if !raw[i].url.as_str().is_empty() {
            let hit = raw[i].clone();
            proof {
                lemma_views_push(kept@, hit);
            }
            kept.push(hit);
        }
        i += 1;
    }
    proof {
        let all = views(raw@);
        let seen = views(raw@.take(i as int));
        let rest = views(raw@.skip(i as int));
        assert(all =~= seen + rest);
        Seq::filter_distributes_over_add(seen, rest, has_url());
        if i == raw.len() {
            assert(rest =~= Seq::<SearchResultView>::empty());
            assert(seen =~= all);
        } else {
            assert(all.filter(has_url()).take(WEB_LIMIT as int) =~= seen.filter(has_url()));
        }
        lemma_kept_results(all);
        assert forall|j: int| 0 <= j < kept.len() implies kept[j].url@.len() > 0 by {
            assert(views(kept@)[j] == kept[j]@);
        }
    }
    kept
}

/// Keeps the first `VAULT_LIMIT` notes that a vault search named.
pub fn keep_notes(filenames: &Vec<String>) -> (kept: Vec<SearchResult>)
    ensures
        views(kept@) == note_hits(views(filenames@)),
        kept.len() <= VAULT_LIMIT,
{
    let mut kept: Vec<SearchResult> = Vec::new();
    let mut i: usize = 0;
    while i < filenames.len() && i < VAULT_LIMIT
        invariant
            i <= filenames.len(),
            i <= VAULT_LIMIT,
            kept.len() == i,
            forall|j: int| 0 <= j < i ==> (#[trigger] kept@[j])@ == note_hit(filenames@[j]@),
        decreases filenames.len() - i,
    {
        kept.push(SearchResult { url: filenames[i].clone(), title: filenames[i].clone() });
        i += 1;
    }
    assert(views(kept@) =~= note_hits(views(filenames@)));
    kept
}

/// The event that opens a web search for `query`.
pub open spec fn search_started(query: Seq<char>) -> EventView {
    event(Stage::Discovery, Status::Running, "Searching: "@ + query + "..."@)
}

/// The event that closes a web search with `count` hits.
pub open spec fn search_finished(count: nat) -> EventView {
    event(Stage::Discovery, Status::Complete, "Found "@ + decimal(count) + " results"@)
}

/// Opens a web search for `query`: the event to publish and the request to
/// send.
pub fn begin_search(query: &str) -> (r: (WorkflowEvent, HttpRequest))
    ensures
        r.0@ == search_started(query@),
        r.1@ == web_search(query@),
{
    let message = concat(concat("Searching: ", query).as_str(), "...");
    (WorkflowEvent::new(Stage::Discovery, Status::Running, message), web_search_request(query))
}

/// Closes a web search on the hits that the backend named: what is kept of
/// them, and the event to publish.
pub fn finish_search(raw: &Vec<SearchResult>) -> (r: (Vec<SearchResult>, WorkflowEvent))
    ensures
        views(r.0@) == kept_results(views(raw@)),
        r.1@ == search_finished(kept_results(views(raw@)).len()),
{
    let kept = keep_results(raw);
    let message = concat(
        concat("Found ", decimal_string(kept.len()).as_str()).as_str(),
        " results",
    );
    assert(views(kept@).len() == kept.len());
    (kept, WorkflowEvent::new(Stage::Discovery, Status::Complete, message))
}

} // verus!
