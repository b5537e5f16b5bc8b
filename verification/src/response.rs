//! Response normalization: from the engine's raw reply to the stable result.

use vstd::prelude::*;
use crate::json::{item_views, value_or_null, Json, JsonValue};
use crate::models::{post_views, Post, PostView, SearchResponse, SearchResponseView};
use crate::timestamp::{decode_published_at, published_text};

verus! {

/// Why a search gave no result of its own.
#[derive(Debug, Clone, Copy, PartialEq, Eq, Structural)]
pub enum SearchError {
    /// The engine could not be asked, or its reply could not be read.
    Transport,
    /// The engine's reply holds no array under `hits.hits`.
    MalformedResponse,
}

impl SearchError {
    /// The words that describe the error in a log line.
    pub open spec fn message_text(self) -> Seq<char> {
        match self {
            SearchError::Transport => "Request to Elasticsearch failed"@,
            SearchError::MalformedResponse => "Invalid response structure from Elasticsearch"@,
        }
    }

    /// Describes the error in words.
    pub fn message(&self) -> (words: String)
        ensures
            words@ == self.message_text(),
    {
        match self {
            SearchError::Transport => String::from_str("Request to Elasticsearch failed"),
            SearchError::MalformedResponse => String::from_str(
                "Invalid response structure from Elasticsearch",
            ),
        }
    }
}

/// The text under `key` in `source`: empty where there is no such member or
/// where it is no string.
pub open spec fn text_member(source: JsonValue, key: Seq<char>) -> Seq<char> {
    match source.at(key).as_str() {
        Some(s) => s,
        None => Seq::empty(),
    }
}

/// The publication time in `source`: decoded where it is stored as an
/// integer of microseconds, unchanged where it is stored as text, and absent
/// otherwise.
pub open spec fn published_at_of(source: JsonValue) -> Option<Seq<char>> {
    match source.at("published_at"@).as_i64() {
        Some(micros) => Some(published_text(micros)),
        None => source.at("published_at"@).as_str(),
    }
}

/// The post that one hit of the engine's reply stands for.
pub open spec fn post_of_hit(hit: JsonValue) -> PostView {
    let source = hit.at("_source"@);
    PostView {
        title: text_member(source, "title"@),
        post_type: text_member(source, "type"@),
        content: text_member(source, "content"@),
        excerpt: text_member(source, "excerpt"@),
        slug: text_member(source, "slug"@),
        published_at: published_at_of(source),
    }
}

/// The hits of a raw reply: the array under `hits.hits`, if there is one.
pub open spec fn hit_list(raw: JsonValue) -> Option<Seq<JsonValue>> {
    raw.at("hits"@).at("hits"@).as_array()
}

/// The number of matches that a raw reply reports under `hits.total.value`,
/// cut to the width of `usize` where the machine's word is narrower than 64
/// bits: 0 where it reports none.
pub open spec fn total_of(raw: JsonValue) -> usize {
    match raw.at("hits"@).at("total"@).at("value"@).as_u64() {
        Some(n) => n as usize,
        None => 0,
    }
}

/// The posts of a sequence of hits, in the same order.
pub open spec fn posts_of(hits: Seq<JsonValue>) -> Seq<PostView> {
    Seq::new(hits.len(), |i: int| post_of_hit(hits[i]))
}

/// What a raw reply and the measured time normalize to.
pub open spec fn normalized(raw: JsonValue, elapsed_ms: u64) -> Result<
    SearchResponseView,
    SearchError,
> {
    match hit_list(raw) {
        Some(hits) => Ok(
            SearchResponseView {
                hits: posts_of(hits),
                total: total_of(raw),
                took_ms: elapsed_ms,
            },
        ),
        None => Err(SearchError::MalformedResponse),
    }
}

/// What a search is answered with, given the engine's HTTP status, the body
/// of its answer where it could be read, and the measured time: the
/// normalized body where the status reports success and the body holds its
/// hits, and the result without hits, with all counts 0, in every other case.
pub open spec fn answered(
    status: u16,
    body: Option<JsonValue>,
    elapsed_ms: u64,
) -> SearchResponseView {
    let nothing = SearchResponseView { hits: Seq::empty(), total: 0, took_ms: 0 };
    match body {
        Some(raw) => if is_success(status) {
            match normalized(raw, elapsed_ms) {
                Ok(response) => response,
                Err(_) => nothing,
            }
        } else {
            nothing
        },
        None => nothing,
    }
}

/// Reads the text under `key` in `source`.
fn read_text(source: Option<&Json>, key: &str) -> (text: String)
    ensures
        text@ == text_member(value_or_null(source), key@),
{
    match Json::descend(source, key) {
        Some(doc) => match doc.as_str() {
            Some(s) => String::from_str(s),
            None => String::new(),
        },
        None => String::new(),
    }
}

/// Reads the publication time in `source`.
fn read_published_at(source: Option<&Json>) -> (text: Option<String>)
    ensures
        crate::models::option_text(text) == published_at_of(value_or_null(source)),
{
    match Json::descend(source, "published_at") {
        Some(doc) => match doc.as_i64() {
            Some(micros) => Some(decode_published_at(micros)),
            None => match doc.as_str() {
                Some(s) => Some(String::from_str(s)),
                None => None,
            },
        },
        None => None,
    }
}

/// Builds the post that `hit` stands for. Members that are missing, or are
/// no strings, give empty fields.
pub fn post_from_hit(hit: &Json) -> (post: Post)
    ensures
        post@ == post_of_hit(hit@),
{
    let source = hit.get("_source");
    Post {
        title: read_text(source, "title"),
        post_type: read_text(source, "type"),
        content: read_text(source, "content"),
        excerpt: read_text(source, "excerpt"),
        slug: read_text(source, "slug"),
        published_at: read_published_at(source),
    }
}

/// Reads the number of matches that `raw` reports.
pub fn read_total(raw: &Json) -> (total: usize)
    ensures
        total == total_of(raw@),
{
    let value = Json::descend(Json::descend(raw.get("hits"), "total"), "value");
    match value {
        Some(doc) => match doc.as_u64() {
            Some(n) => #[verifier::truncate]
            (n as usize),
            None => 0,
        },
        None => 0,
    }
}

/// Normalizes the engine's raw reply into the stable result, with
/// `elapsed_ms` as the time the round trip took.
///
/// Fails with `MalformedResponse` exactly when the reply holds no array
/// under `hits.hits`. Otherwise the result holds one post for each hit, in
/// the reply's order, and the reported total.
pub fn normalize(raw: &Json, elapsed_ms: u64) -> (result: Result<SearchResponse, SearchError>)
    ensures
        match result {
            Ok(response) => normalized(raw@, elapsed_ms) == Ok::<SearchResponseView, SearchError>(
                response@,
            ),
            Err(e) => normalized(raw@, elapsed_ms) == Err::<SearchResponseView, SearchError>(e),
        },
{
    let found = match Json::descend(raw.get("hits"), "hits") {
        Some(doc) => doc.as_array(),
        None => None,
    };
    let items = match found {
        Some(items) => items,
        None => {
            return Err(SearchError::MalformedResponse);
        },
    };
    let ghost hits = item_views(items@);
    let mut posts: Vec<Post> = Vec::new();
    let mut i: usize = 0;
    while i < items.len()
        invariant
            i <= items.len(),
            posts@.len() == i,
            hits == item_views(items@),
            forall|j: int| 0 <= j < i ==> (#[trigger] posts@[j])@ == post_of_hit(hits[j]),
        decreases items.len() - i,
    {
        posts.push(post_from_hit(&items[i]));
        i = i + 1;
    }
    let total = read_total(raw);
    proof {
        assert(post_views(posts@) =~= posts_of(hits));
    }
    Ok(SearchResponse { hits: posts, total, took_ms: elapsed_ms })
}

/// Whether an HTTP status reports success: the codes 200 to 299.
pub open spec fn is_success(status: u16) -> bool {
    200 <= status < 300
}

/// What the engine's answer counts as: its body, where the HTTP status
/// reports success and the body could be read as a document, and a failure
/// of the transport for every other status and for a body that could not be
/// read (`None`).
pub fn reply_of(status: u16, body: Option<Json>) -> (reply: Result<Json, SearchError>)
    ensures
        match reply {
            Ok(raw) => is_success(status) && body == Some(raw),
            Err(e) => e == SearchError::Transport && !(is_success(status) && body is Some),
        },
{
    if 200 <= status && status < 300 {
        match body {
            Some(raw) => Ok(raw),
            None => Err(SearchError::Transport),
        }
    } else {
        Err(SearchError::Transport)
    }
}

/// Ends a search with the engine's answer: a reply is normalized, a failure
/// to get one is passed on.
pub fn finish_search(reply: Result<Json, SearchError>, elapsed_ms: u64) -> (result: Result<
    SearchResponse,
    SearchError,
>)
    ensures
        match reply {
            Ok(raw) => match result {
                Ok(response) => normalized(raw@, elapsed_ms) == Ok::<
                    SearchResponseView,
                    SearchError,
                >(response@),
                Err(e) => normalized(raw@, elapsed_ms) == Err::<SearchResponseView, SearchError>(
                    e,
                ),
            },
            Err(e) => result == Err::<SearchResponse, SearchError>(e),
        },
{
    match reply {
        Ok(raw) => normalize(&raw, elapsed_ms),
        Err(e) => Err(e),
    }
}

/// Answers a search from the engine's HTTP status `status`, the body of its
/// answer where it could be read, and the time the round trip took: the
/// normalized body after a success, the empty result after anything else.
pub fn answer(status: u16, body: Option<Json>, elapsed_ms: u64) -> (response: SearchResponse)
    ensures
        response@ == answered(status, crate::json::value_or_absent(body), elapsed_ms),
{
    respond(finish_search(reply_of(status, body), elapsed_ms))
}

/// What the search endpoint answers: the result of a search that succeeded,
/// and the empty result, with no hits and all counts 0, for one that failed.
pub fn respond(outcome: Result<SearchResponse, SearchError>) -> (response: SearchResponse)
    ensures
        match outcome {
            Ok(found) => response == found,
            Err(_) => response@ == (SearchResponseView {
                hits: Seq::empty(),
                total: 0,
                took_ms: 0,
            }),
        },
{
    match outcome {
        Ok(found) => found,
        Err(_) => SearchResponse::empty(),
    }
}

/// A reply whose `hits.hits` is an array of K hits normalizes to exactly K
/// posts, the post at each place that of the hit at the same place, together
/// with the reported total (0 where none is reported) and the given time.
pub proof fn lemma_normalized_hits(raw: JsonValue, elapsed_ms: u64)
    requires
        hit_list(raw) is Some,
    ensures
        normalized(raw, elapsed_ms) is Ok,
        normalized(raw, elapsed_ms)->Ok_0.hits.len() == hit_list(raw)->Some_0.len(),
        forall|i: int|
            0 <= i < hit_list(raw)->Some_0.len() ==> #[trigger] normalized(
                raw,
                elapsed_ms,
            )->Ok_0.hits[i] == post_of_hit(hit_list(raw)->Some_0[i]),
        normalized(raw, elapsed_ms)->Ok_0.total == total_of(raw),
        raw.at("hits"@).at("total"@).at("value"@).as_u64() matches Some(n) ==> normalized(
            raw,
            elapsed_ms,
        )->Ok_0.total == n as usize,
        raw.at("hits"@).at("total"@).at("value"@).as_u64() is None ==> normalized(
            raw,
            elapsed_ms,
        )->Ok_0.total == 0,
        normalized(raw, elapsed_ms)->Ok_0.took_ms == elapsed_ms,
{
}

/// Normalization fails exactly when `hits.hits` is absent or is no array,
/// and then with `MalformedResponse`: no empty result stands in for it.
pub proof fn lemma_normalized_failure(raw: JsonValue, elapsed_ms: u64)
    ensures
        normalized(raw, elapsed_ms) is Err <==> !(raw.at("hits"@).at("hits"@) is Array),
        normalized(raw, elapsed_ms) is Err ==> normalized(raw, elapsed_ms)
            == Err::<SearchResponseView, SearchError>(SearchError::MalformedResponse),
        raw.get("hits"@) is None ==> normalized(raw, elapsed_ms) is Err,
        raw.at("hits"@).get("hits"@) is None ==> normalized(raw, elapsed_ms) is Err,
{
}

/// An answer whose HTTP status reports no success is answered with the empty
/// result, whatever its body holds, and so is an answer without a readable
/// body.
pub proof fn lemma_failed_answer_is_empty(status: u16, body: Option<JsonValue>, elapsed_ms: u64)
    requires
        !is_success(status) || body is None,
    ensures
        answered(status, body, elapsed_ms) == (SearchResponseView {
            hits: Seq::empty(),
            total: 0,
            took_ms: 0,
        }),
{
}

} // verus!
