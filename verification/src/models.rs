//! The request and the result of a search, as the HTTP API exchanges them.

use vstd::prelude::*;
use crate::text::texts;

verus! {

/// The page offset of a request that names none.
pub const DEFAULT_FROM: usize = 0;

/// The page size of a request that names none.
pub const DEFAULT_SIZE: usize = 10;

/// One document of the index, as it is handed to callers.
#[derive(Debug, PartialEq, Eq)]
pub struct Post {
    pub title: String,
    pub post_type: String,
    pub content: String,
    pub excerpt: String,
    pub slug: String,
    pub published_at: Option<String>,
}

/// The model of a [`Post`].
pub struct PostView {
    pub title: Seq<char>,
    pub post_type: Seq<char>,
    pub content: Seq<char>,
    pub excerpt: Seq<char>,
    pub slug: Seq<char>,
    pub published_at: Option<Seq<char>>,
}

/// The characters of an optional string.
pub open spec fn option_text(s: Option<String>) -> Option<Seq<char>> {
    match s {
        Some(t) => Some(t@),
        None => None,
    }
}

impl View for Post {
    type V = PostView;

    open spec fn view(&self) -> PostView {
        PostView {
            title: self.title@,
            post_type: self.post_type@,
            content: self.content@,
            excerpt: self.excerpt@,
            slug: self.slug@,
            published_at: option_text(self.published_at),
        }
    }
}

/// A search as a caller asks for it.
#[derive(Debug, PartialEq, Eq)]
pub struct SearchRequest {
    pub query: String,
    pub fields: Option<Vec<String>>,
    pub from: Option<usize>,
    pub size: Option<usize>,
}

/// The model of a [`SearchRequest`].
pub struct SearchRequestView {
    pub query: Seq<char>,
    pub fields: Option<Seq<Seq<char>>>,
    pub from: Option<usize>,
    pub size: Option<usize>,
}

impl View for SearchRequest {
    type V = SearchRequestView;

    open spec fn view(&self) -> SearchRequestView {
        SearchRequestView {
            query: self.query@,
            fields: match self.fields {
                Some(names) => Some(texts(names@)),
                None => None,
            },
            from: self.from,
            size: self.size,
        }
    }
}

impl SearchRequestView {
    /// The page offset that the request asks for: 0 where it names none.
    pub open spec fn effective_from(self) -> usize {
        match self.from {
            Some(n) => n,
            None => DEFAULT_FROM,
        }
    }

    /// The page size that the request asks for: 10 where it names none.
    pub open spec fn effective_size(self) -> usize {
        match self.size {
            Some(n) => n,
            None => DEFAULT_SIZE,
        }
    }

    /// The fields that the request asks to match: `title` and `content` where
    /// it names none.
    pub open spec fn effective_fields(self) -> Seq<Seq<char>> {
        match self.fields {
            Some(names) => names,
            None => seq!["title"@, "content"@],
        }
    }
}

impl Default for SearchRequest {
    /// The empty query over `title` and `content`, first page of ten.
    fn default() -> (request: SearchRequest)
        ensures
            request@ == (SearchRequestView {
                query: Seq::empty(),
                fields: Some(seq!["title"@, "content"@]),
                from: Some(0usize),
                size: Some(10usize),
            }),
    {
        let names = vec![String::from_str("title"), String::from_str("content")];
        proof {
            assert(texts(names@) =~= seq!["title"@, "content"@]);
        }
        SearchRequest { query: String::new(), fields: Some(names), from: Some(0), size: Some(10) }
    }
}

impl SearchRequest {
    /// The page offset to ask the engine for.
    pub fn effective_from(&self) -> (n: usize)
        ensures
            n == self@.effective_from(),
    {
        match self.from {
            Some(n) => n,
            None => DEFAULT_FROM,
        }
    }

    /// The page size to ask the engine for.
    pub fn effective_size(&self) -> (n: usize)
        ensures
            n == self@.effective_size(),
    {
        match self.size {
            Some(n) => n,
            None => DEFAULT_SIZE,
        }
    }

    /// The fields that the request asks to match.
    pub fn effective_fields(&self) -> (names: Vec<String>)
        ensures
            texts(names@) == self@.effective_fields(),
    {
        match &self.fields {
            Some(given) => {
                let mut names: Vec<String> = Vec::new();
                let mut i: usize = 0;
                while i < given.len()
                    invariant
                        i <= given.len(),
                        names@.len() == i,
                        texts(names@) == texts(given@).take(i as int),
                    decreases given.len() - i,
                {
                    let ghost before = names@;
                    names.push(given[i].clone());
                    i = i + 1;
                    proof {
                        assert forall|j: int| 0 <= j < i implies texts(names@)[j] == texts(
                            given@,
                        ).take(i as int)[j] by {
                            if j < i - 1 {
                                assert(texts(before)[j] == texts(given@).take(i - 1)[j]);
                            }
                        }
                        assert(texts(names@) =~= texts(given@).take(i as int));
                    }
                }
                proof {
                    assert(texts(given@).take(given@.len() as int) == texts(given@));
                }
                names
            },
            None => {
                let names = vec![String::from_str("title"), String::from_str("content")];
                proof {
                    assert(texts(names@) =~= seq!["title"@, "content"@]);
                }
                names
            },
        }
    }
}

/// The result of a search, as it is handed to callers.
#[derive(Debug, PartialEq, Eq)]
pub struct SearchResponse {
    pub hits: Vec<Post>,
    pub total: usize,
    pub took_ms: u64,
}

/// The model of a [`SearchResponse`].
pub struct SearchResponseView {
    pub hits: Seq<PostView>,
    pub total: usize,
    pub took_ms: u64,
}

/// The views of a sequence of posts.
pub open spec fn post_views(posts: Seq<Post>) -> Seq<PostView> {
    Seq::new(posts.len(), |i: int| posts[i]@)
}

impl View for SearchResponse {
    type V = SearchResponseView;

    open spec fn view(&self) -> SearchResponseView {
        SearchResponseView {
            hits: post_views(self.hits@),
            total: self.total,
            took_ms: self.took_ms,
        }
    }
}

impl SearchResponse {
    /// The result without hits that stands for a search that found nothing.
    pub fn empty() -> (response: SearchResponse)
        ensures
            response@ == (SearchResponseView { hits: Seq::empty(), total: 0, took_ms: 0 }),
    {
        let response = SearchResponse { hits: Vec::new(), total: 0, took_ms: 0 };
        proof {
            assert(post_views(response.hits@) =~= Seq::empty());
        }
        response
    }
}

} // verus!
