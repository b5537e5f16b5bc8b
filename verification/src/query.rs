//! Query translation: from a search request to the engine's query document.

use vstd::prelude::*;
use crate::json::{
    item_views, lemma_lookup_push, lemma_lookup_single, member_views, Json, JsonValue,
};
use crate::models::{SearchRequest, SearchRequestView};
use crate::text::{wildcard_clause, wildcard_text};

verus! {

/// What is sent to the engine for one search: the index to search and the
/// body of the request.
#[derive(Debug, PartialEq)]
pub struct QueryDocument {
    pub index: String,
    pub body: Json,
}

/// The model of a [`QueryDocument`].
pub struct QueryDocumentView {
    pub index: Seq<char>,
    pub body: JsonValue,
}

impl View for QueryDocument {
    type V = QueryDocumentView;

    open spec fn view(&self) -> QueryDocumentView {
        QueryDocumentView { index: self.index@, body: self.body@ }
    }
}

/// The clause that asks for every term of the query in `content`, in any
/// order, with the engine's automatic tolerance for misspellings.
pub open spec fn fuzzy_clause(query: Seq<char>) -> JsonValue {
    JsonValue::Object(
        seq![
            (
                "match"@,
                JsonValue::Object(
                    seq![
                        (
                            "content"@,
                            JsonValue::Object(
                                seq![
                                    ("query"@, JsonValue::Str(query)),
                                    ("operator"@, JsonValue::Str("and"@)),
                                    ("fuzziness"@, JsonValue::Str("AUTO"@)),
                                ],
                            ),
                        ),
                    ],
                ),
            ),
        ],
    )
}

/// The clause that asks for the wildcard form of the query in `content` or
/// `title`, so that parts of words match.
pub open spec fn partial_clause(query: Seq<char>) -> JsonValue {
    JsonValue::Object(
        seq![
            (
                "query_string"@,
                JsonValue::Object(
                    seq![
                        (
                            "fields"@,
                            JsonValue::Array(
                                seq![JsonValue::Str("content"@), JsonValue::Str("title"@)],
                            ),
                        ),
                        ("query"@, JsonValue::Str(wildcard_text(query))),
                        ("analyze_wildcard"@, JsonValue::Bool(true)),
                    ],
                ),
            ),
        ],
    )
}

/// The two match clauses, of which at least one has to hold.
pub open spec fn match_clause(query: Seq<char>) -> JsonValue {
    JsonValue::Object(
        seq![
            (
                "bool"@,
                JsonValue::Object(
                    seq![
                        (
                            "should"@,
                            JsonValue::Array(seq![fuzzy_clause(query), partial_clause(query)]),
                        ),
                        ("minimum_should_match"@, JsonValue::Int(1)),
                    ],
                ),
            ),
        ],
    )
}

/// The filter that lets only published documents through.
pub open spec fn published_filter() -> JsonValue {
    JsonValue::Object(
        seq![("term"@, JsonValue::Object(seq![("is_published"@, JsonValue::Bool(true))]))],
    )
}

/// The request for snippets of `title` and `content`.
pub open spec fn highlight_clause() -> JsonValue {
    JsonValue::Object(
        seq![
            (
                "fields"@,
                JsonValue::Object(
                    seq![
                        ("title"@, JsonValue::Object(Seq::empty())),
                        ("content"@, JsonValue::Object(Seq::empty())),
                    ],
                ),
            ),
        ],
    )
}

/// The body of the engine request for `query`, page offset `from` and page
/// size `size`: the match clauses under `must`, the publication filter under
/// `filter`, and paging and highlighting at the top level.
pub open spec fn query_body(query: Seq<char>, from: usize, size: usize) -> JsonValue {
    JsonValue::Object(
        seq![
            (
                "query"@,
                JsonValue::Object(
                    seq![
                        (
                            "bool"@,
                            JsonValue::Object(
                                seq![
                                    ("must"@, JsonValue::Array(seq![match_clause(query)])),
                                    ("filter"@, JsonValue::Array(seq![published_filter()])),
                                ],
                            ),
                        ),
                    ],
                ),
            ),
            ("from"@, JsonValue::Int(from as int)),
            ("size"@, JsonValue::Int(size as int)),
            ("highlight"@, highlight_clause()),
        ],
    )
}

/// The query document that a request translates to for the index
/// `target_index`: the request's query, its page offset and its page size,
/// each with its default where the request names none.
pub open spec fn translated(
    request: SearchRequestView,
    target_index: Seq<char>,
) -> QueryDocumentView {
    QueryDocumentView {
        index: target_index,
        body: query_body(request.query, request.effective_from(), request.effective_size()),
    }
}

/// An object with one member.
fn object1(key: &str, value: Json) -> (doc: Json)
    ensures
        doc@ == JsonValue::Object(seq![(key@, value@)]),
{
    let members = vec![Json::member(key, value)];
    proof {
        assert(member_views(members@) =~= seq![(key@, value@)]);
    }
    Json::object(members)
}

/// An object with two members.
fn object2(key0: &str, value0: Json, key1: &str, value1: Json) -> (doc: Json)
    ensures
        doc@ == JsonValue::Object(seq![(key0@, value0@), (key1@, value1@)]),
{
    let members = vec![Json::member(key0, value0), Json::member(key1, value1)];
    proof {
        assert(member_views(members@) =~= seq![(key0@, value0@), (key1@, value1@)]);
    }
    Json::object(members)
}

/// An object with three members.
fn object3(
    key0: &str,
    value0: Json,
    key1: &str,
    value1: Json,
    key2: &str,
    value2: Json,
) -> (doc: Json)
    ensures
        doc@ == JsonValue::Object(seq![(key0@, value0@), (key1@, value1@), (key2@, value2@)]),
{
    let members = vec![
        Json::member(key0, value0),
        Json::member(key1, value1),
        Json::member(key2, value2),
    ];
    proof {
        assert(member_views(members@) =~= seq![
            (key0@, value0@),
            (key1@, value1@),
            (key2@, value2@),
        ]);
    }
    Json::object(members)
}

/// An array with one item.
fn array1(item: Json) -> (doc: Json)
    ensures
        doc@ == JsonValue::Array(seq![item@]),
{
    let items = vec![item];
    proof {
        assert(item_views(items@) =~= seq![item@]);
    }
    Json::array(items)
}

/// An array with two items.
fn array2(item0: Json, item1: Json) -> (doc: Json)
    ensures
        doc@ == JsonValue::Array(seq![item0@, item1@]),
{
    let items = vec![item0, item1];
    proof {
        assert(item_views(items@) =~= seq![item0@, item1@]);
    }
    Json::array(items)
}

/// An object without members.
fn empty_object() -> (doc: Json)
    ensures
        doc@ == JsonValue::Object(Seq::empty()),
{
    let members: Vec<(String, Json)> = Vec::new();
    proof {
        assert(member_views(members@) =~= Seq::empty());
    }
    Json::object(members)
}

/// Builds the clause that matches whole terms.
fn build_fuzzy_clause(query: &str) -> (doc: Json)
    ensures
        doc@ == fuzzy_clause(query@),
{
    let options = object3(
        "query",
        Json::text(query),
        "operator",
        Json::text("and"),
        "fuzziness",
        Json::text("AUTO"),
    );
    object1("match", object1("content", options))
}

/// Builds the clause that matches parts of words.
fn build_partial_clause(query: &str) -> (doc: Json)
    ensures
        doc@ == partial_clause(query@),
{
    let pattern = wildcard_clause(query);
    let options = object3(
        "fields",
        array2(Json::text("content"), Json::text("title")),
        "query",
        Json::Str(pattern),
        "analyze_wildcard",
        Json::Bool(true),
    );
    object1("query_string", options)
}

/// Builds the filter on the publication status.
fn build_published_filter() -> (doc: Json)
    ensures
        doc@ == published_filter(),
{
    object1("term", object1("is_published", Json::Bool(true)))
}

/// Builds the request for snippets.
fn build_highlight_clause() -> (doc: Json)
    ensures
        doc@ == highlight_clause(),
{
    object1("fields", object2("title", empty_object(), "content", empty_object()))
}

/// Translates a search request into the engine's query document for the
/// index `target_index`.
///
/// The request's field list does not enter the document: the clauses name
/// their fields themselves. A query without terms is translated like any
/// other; its wildcard clause is `**`, and what that matches is the engine's
/// decision.
pub fn translate(request: &SearchRequest, target_index: &str) -> (doc: QueryDocument)
    ensures
        doc@ == translated(request@, target_index@),
{
    let query = request.query.as_str();
    let from = request.effective_from();
    let size = request.effective_size();
    let should = array2(build_fuzzy_clause(query), build_partial_clause(query));
    let either = object1(
        "bool",
        object2("should", should, "minimum_should_match", Json::UInt(1)),
    );
    let condition = object2("must", array1(either), "filter", array1(build_published_filter()));
    let members = vec![
        Json::member("query", object1("bool", condition)),
        Json::member("from", Json::UInt(from as u64)),
        Json::member("size", Json::UInt(size as u64)),
        Json::member("highlight", build_highlight_clause()),
    ];
    proof {
        assert(member_views(members@) =~= query_body(
            request@.query,
            request@.effective_from(),
            request@.effective_size(),
        )->Object_0);
    }
    QueryDocument { index: String::from_str(target_index), body: Json::object(members) }
}

/// Whatever the request, its query document holds exactly one filter, the
/// term `is_published: true`, and under `must` exactly one boolean clause: its
/// `should` lists the two match clauses and its `minimum_should_match` is 1.
pub proof fn lemma_query_shape(request: SearchRequestView, target_index: Seq<char>)
    ensures
        ({
            let query = request.query;
            let condition = translated(request, target_index).body.at("query"@).at("bool"@);
            &&& condition.at("filter"@) == JsonValue::Array(seq![published_filter()])
            &&& published_filter().at("term"@).at("is_published"@) == JsonValue::Bool(true)
            &&& condition.at("must"@) == JsonValue::Array(seq![match_clause(query)])
            &&& match_clause(query).at("bool"@).at("minimum_should_match"@) == JsonValue::Int(1)
            &&& match_clause(query).at("bool"@).at("should"@) == JsonValue::Array(
                seq![fuzzy_clause(query), partial_clause(query)],
            )
        }),
{
    reveal_strlit("query");
    reveal_strlit("from");
    reveal_strlit("size");
    reveal_strlit("highlight");
    reveal_strlit("must");
    reveal_strlit("filter");
    reveal_strlit("should");
    reveal_strlit("minimum_should_match");
    let query = request.query;
    let from = request.effective_from();
    let size = request.effective_size();
    let must = ("must"@, JsonValue::Array(seq![match_clause(query)]));
    let filter = ("filter"@, JsonValue::Array(seq![published_filter()]));
    let condition = JsonValue::Object(seq![must, filter]);
    let inner = ("bool"@, condition);
    let q = ("query"@, JsonValue::Object(seq![inner]));
    let f = ("from"@, JsonValue::Int(from as int));
    let s = ("size"@, JsonValue::Int(size as int));
    let h = ("highlight"@, highlight_clause());
    assert(seq![q, f, s, h] =~= seq![q].push(f).push(s).push(h));
    assert("query"@.len() == 5 && "from"@.len() == 4 && "size"@.len() == 4);
    assert("highlight"@.len() == 9);
    lemma_lookup_push(seq![q].push(f).push(s), h, "query"@);
    lemma_lookup_push(seq![q].push(f), s, "query"@);
    lemma_lookup_push(seq![q], f, "query"@);
    lemma_lookup_single(q, "query"@);
    assert(query_body(query, from, size).at("query"@) == JsonValue::Object(seq![inner]));
    lemma_lookup_single(inner, "bool"@);
    assert("must"@.len() == 4 && "filter"@.len() == 6);
    assert("should"@.len() == 6 && "minimum_should_match"@.len() == 20);
    assert(seq![must, filter] =~= seq![must].push(filter));
    lemma_lookup_push(seq![must], filter, "filter"@);
    lemma_lookup_push(seq![must], filter, "must"@);
    lemma_lookup_single(must, "must"@);
    let published = ("is_published"@, JsonValue::Bool(true));
    lemma_lookup_single(("term"@, JsonValue::Object(seq![published])), "term"@);
    lemma_lookup_single(published, "is_published"@);
    let should = ("should"@, JsonValue::Array(seq![fuzzy_clause(query), partial_clause(query)]));
    let least = ("minimum_should_match"@, JsonValue::Int(1));
    lemma_lookup_single(("bool"@, JsonValue::Object(seq![should, least])), "bool"@);
    assert(seq![should, least] =~= seq![should].push(least));
    lemma_lookup_push(seq![should], least, "minimum_should_match"@);
    lemma_lookup_push(seq![should], least, "should"@);
    lemma_lookup_single(should, "should"@);
}

/// Paging and highlighting stand at the top level of every query document,
/// with the defaults 0 and 10 where the request names no page.
pub proof fn lemma_query_paging(request: SearchRequestView, target_index: Seq<char>)
    ensures
        translated(request, target_index).body.at("from"@) == JsonValue::Int(
            request.effective_from() as int,
        ),
        translated(request, target_index).body.at("size"@) == JsonValue::Int(
            request.effective_size() as int,
        ),
        translated(request, target_index).body.at("highlight"@) == highlight_clause(),
        request.from is None ==> request.effective_from() == 0,
        request.size is None ==> request.effective_size() == 10,
{
    reveal_strlit("query");
    reveal_strlit("from");
    reveal_strlit("size");
    reveal_strlit("highlight");
    let query = request.query;
    let from = request.effective_from();
    let size = request.effective_size();
    let q = query_body(query, from, size)->Object_0[0];
    let f = ("from"@, JsonValue::Int(from as int));
    let s = ("size"@, JsonValue::Int(size as int));
    let h = ("highlight"@, highlight_clause());
    assert(query_body(query, from, size)->Object_0 =~= seq![q].push(f).push(s).push(h));
    assert("from"@[0] == 'f' && "size"@[0] == 's');
    lemma_lookup_push(seq![q].push(f).push(s), h, "from"@);
    lemma_lookup_push(seq![q].push(f), s, "from"@);
    lemma_lookup_push(seq![q], f, "from"@);
    lemma_lookup_push(seq![q].push(f).push(s), h, "size"@);
    lemma_lookup_push(seq![q].push(f), s, "size"@);
    lemma_lookup_push(seq![q].push(f).push(s), h, "highlight"@);
}

} // verus!
