//! What a caller asks of the service, and what it gets back.

use crate::model::source::{sources_of, Source, SourceView};
use crate::text::{text_of, texts_of};
use vstd::prelude::*;

verus! {

/// A search as the caller states it.
#[derive(Debug, PartialEq, Eq)]
pub struct WebSearchInput {
    pub query: String,
    /// A platform to focus on.
    pub platform: Option<String>,
    /// The model to ask, in place of the default.
    pub model: Option<String>,
    /// How many supplemental sources to add, in place of the default.
    pub extra_sources: Option<usize>,
    pub recency_days: Option<u32>,
    pub include_domains: Vec<String>,
    pub exclude_domains: Vec<String>,
    /// Whether sources carry page text.
    pub include_content: Option<bool>,
    /// `concise` or `detailed`; goes before `include_content`.
    pub response_format: Option<String>,
}

/// A search as plain values.
#[verifier::ext_equal]
pub struct InputView {
    pub query: Seq<char>,
    pub platform: Option<Seq<char>>,
    pub model: Option<Seq<char>>,
    pub extra_sources: Option<usize>,
    pub recency_days: Option<u32>,
    pub include_domains: Seq<Seq<char>>,
    pub exclude_domains: Seq<Seq<char>>,
    pub include_content: Option<bool>,
    pub response_format: Option<Seq<char>>,
}

impl View for WebSearchInput {
    type V = InputView;

    open spec fn view(&self) -> InputView {
        InputView {
            query: self.query@,
            platform: text_of(self.platform),
            model: text_of(self.model),
            extra_sources: self.extra_sources,
            recency_days: self.recency_days,
            include_domains: texts_of(self.include_domains@),
            exclude_domains: texts_of(self.exclude_domains@),
            include_content: self.include_content,
            response_format: text_of(self.response_format),
        }
    }
}

impl Default for WebSearchInput {
    fn default() -> (input: Self)
        ensures
            input@ == (InputView {
                query: Seq::empty(),
                platform: None,
                model: None,
                extra_sources: None,
                recency_days: None,
                include_domains: Seq::empty(),
                exclude_domains: Seq::empty(),
                include_content: None,
                response_format: None,
            }),
    {
        let input = WebSearchInput {
            query: String::new(),
            platform: None,
            model: None,
            extra_sources: None,
            recency_days: None,
            include_domains: Vec::new(),
            exclude_domains: Vec::new(),
            include_content: None,
            response_format: None,
        };
        assert(input@.include_domains =~= Seq::empty());
        assert(input@.exclude_domains =~= Seq::empty());
        input
    }
}

/// The result of a search.
#[derive(Debug, PartialEq, Eq)]
pub struct WebSearchOutput {
    pub session_id: String,
    pub content: String,
    /// How many sources are kept for the session.
    pub sources_count: usize,
    /// The sources that fit the response.
    pub sources: Vec<Source>,
    pub search_provider: String,
    pub fallback_used: bool,
    pub fallback_reason: Option<String>,
    pub truncated: bool,
}

/// The result of a search as plain values.
#[verifier::ext_equal]
pub struct SearchOutputView {
    pub session_id: Seq<char>,
    pub content: Seq<char>,
    pub sources_count: nat,
    pub sources: Seq<SourceView>,
    pub search_provider: Seq<char>,
    pub fallback_used: bool,
    pub fallback_reason: Option<Seq<char>>,
    pub truncated: bool,
}

impl View for WebSearchOutput {
    type V = SearchOutputView;

    open spec fn view(&self) -> SearchOutputView {
        SearchOutputView {
            session_id: self.session_id@,
            content: self.content@,
            sources_count: self.sources_count as nat,
            sources: sources_of(self.sources@),
            search_provider: self.search_provider@,
            fallback_used: self.fallback_used,
            fallback_reason: text_of(self.fallback_reason),
            truncated: self.truncated,
        }
    }
}

/// One page of the sources of a session.
#[derive(Debug, PartialEq, Eq)]
pub struct GetSourcesOutput {
    pub session_id: String,
    /// How many sources are on this page.
    pub sources_count: usize,
    pub sources: Vec<Source>,
    /// How many sources the session has.
    pub total_sources: usize,
    pub offset: usize,
    /// Where the next page starts; absent on the last one.
    pub next_offset: Option<usize>,
    pub truncated: bool,
}

/// One page of sources as plain values.
#[verifier::ext_equal]
pub struct PageView {
    pub session_id: Seq<char>,
    pub sources_count: nat,
    pub sources: Seq<SourceView>,
    pub total_sources: nat,
    pub offset: nat,
    pub next_offset: Option<nat>,
    pub truncated: bool,
}

impl View for GetSourcesOutput {
    type V = PageView;

    open spec fn view(&self) -> PageView {
        PageView {
            session_id: self.session_id@,
            sources_count: self.sources_count as nat,
            sources: sources_of(self.sources@),
            total_sources: self.total_sources as nat,
            offset: self.offset as nat,
            next_offset: match self.next_offset {
                Some(offset) => Some(offset as nat),
                None => None,
            },
            truncated: self.truncated,
        }
    }
}

/// Who produced the text of a page.
#[derive(Debug, Clone, Copy, PartialEq, Eq, Structural)]
pub enum SourceType {
    /// A source backend that fetches any page.
    Generic,
    Wikipedia,
    GithubIssue,
}

/// The text of a page.
#[derive(Debug, PartialEq, Eq)]
pub struct WebFetchOutput {
    pub url: String,
    pub content: String,
    /// How many characters the whole text has.
    pub original_length: usize,
    pub truncated: bool,
    pub source_type: SourceType,
    /// Why a specialist that knows the site did not deliver the text.
    pub fallback_reason: Option<String>,
}

/// The text of a page as plain values.
#[verifier::ext_equal]
pub struct FetchOutputView {
    pub url: Seq<char>,
    pub content: Seq<char>,
    pub original_length: nat,
    pub truncated: bool,
    pub source_type: SourceType,
    pub fallback_reason: Option<Seq<char>>,
}

impl View for WebFetchOutput {
    type V = FetchOutputView;

    open spec fn view(&self) -> FetchOutputView {
        FetchOutputView {
            url: self.url@,
            content: self.content@,
            original_length: self.original_length as nat,
            truncated: self.truncated,
            source_type: self.source_type,
            fallback_reason: text_of(self.fallback_reason),
        }
    }
}

} // verus!
