//! The backends that the service asks.

use crate::error::{ErrorView, GrokSearchError};
use crate::model::search::{ResponseView, SearchFilters, SearchRequest, SearchResponse};
use crate::model::source::{sources_of, Source, SourceView};
use crate::text::{decimal, decimal_text};
use vstd::prelude::*;
use vstd::string::StringExecFns;

verus! {

/// A language model that searches the web.
pub trait AiProvider {
    /// Answers one request.
    fn search(&self, request: &SearchRequest) -> Result<SearchResponse, GrokSearchError>;
}

/// A backend that finds and fetches web pages.
pub trait SourceProvider {
    /// Finds at most `max_results` pages for a query.
    fn search_sources(&self, query: &str, max_results: usize, filters: &SearchFilters) -> Result<
        Vec<Source>,
        GrokSearchError,
    >;

    /// Fetches the text of one page.
    fn fetch(&self, url: &str) -> Result<String, GrokSearchError>;

    /// Lists at most `max_results` pages of a site.
    fn map(&self, url: &str, max_results: usize) -> Result<Vec<Source>, GrokSearchError>;
}

/// Which source backends are configured. The primary one is asked first.
#[derive(Debug, Clone, Copy, PartialEq, Eq, Structural)]
pub struct Backends {
    pub primary: bool,
    pub fallback: bool,
}

/// The settings of which one is needed to reach any source backend.
pub open spec fn no_backend() -> ErrorView {
    ErrorView::MissingConfig("TAVILY_API_KEY or FIRECRAWL_API_KEY"@)
}

/// The error where no source backend is configured.
pub fn no_backend_error() -> (error: GrokSearchError)
    ensures
        error@ == no_backend(),
{
    GrokSearchError::MissingConfig("TAVILY_API_KEY or FIRECRAWL_API_KEY")
}

/// A language model that gives the same verifiable answer to every request.
pub struct FakeAiProvider;

/// A source backend that finds as many pages as asked for, all of them made up.
pub struct FakeSourceProvider;

/// The answer of the fake language model.
pub open spec fn fake_answer() -> ResponseView {
    ResponseView {
        content: "OpenAI published a verifiable update."@,
        sources: seq![
            SourceView {
                url: "https://openai.com/news"@,
                provider: "grok_responses"@,
                title: Some("OpenAI News"@),
                description: None,
                published_date: None,
                content: None,
            },
        ],
    }
}

/// A page that the fake source backend finds.
pub open spec fn fake_source(index: nat) -> SourceView {
    SourceView {
        url: "https://example.com/source-"@ + decimal(index),
        provider: "tavily"@,
        title: Some("Source "@ + decimal(index)),
        description: None,
        published_date: None,
        content: None,
    }
}

/// A page that the fake source backend lists for a site.
pub open spec fn fake_page(url: Seq<char>, index: nat) -> SourceView {
    SourceView {
        url: url + "/page-"@ + decimal(index),
        provider: "tavily"@,
        title: None,
        description: None,
        published_date: None,
        content: None,
    }
}

impl AiProvider for FakeAiProvider {
    fn search(&self, _request: &SearchRequest) -> (reply: Result<SearchResponse, GrokSearchError>)
        ensures
            reply is Ok,
            reply->Ok_0@ == fake_answer(),
    {
        let mut sources: Vec<Source> = Vec::new();
        sources.push(
            Source::new("https://openai.com/news".to_owned(), "grok_responses").with_title(
                "OpenAI News".to_owned(),
            ),
        );
        assert(sources_of(sources@) =~= fake_answer().sources);
        Ok(SearchResponse { content: "OpenAI published a verifiable update.".to_owned(), sources })
    }
}

impl SourceProvider for FakeSourceProvider {
    fn search_sources(&self, _query: &str, max_results: usize, _filters: &SearchFilters) -> (reply:
        Result<Vec<Source>, GrokSearchError>)
        ensures
            reply is Ok,
            sources_of(reply->Ok_0@) == Seq::new(
                max_results as nat,
                |i: int| fake_source(i as nat),
            ),
    {
        let mut sources: Vec<Source> = Vec::new();
        for i in 0..max_results
            invariant
                sources.len() == i,
                forall|j: int| 0 <= j < i ==> #[trigger] sources@[j]@ == fake_source(j as nat),
        {
            let number = decimal_text(i as u64);
            let url = "https://example.com/source-".to_owned().concat(number.as_str());
            let title = "Source ".to_owned().concat(number.as_str());
            sources.push(Source::new(url, "tavily").with_title(title));
        }
        assert(sources_of(sources@) =~= Seq::new(
            max_results as nat,
            |i: int| fake_source(i as nat),
        ));
        Ok(sources)
    }

    fn fetch(&self, url: &str) -> (reply: Result<String, GrokSearchError>)
        ensures
            reply is Ok,
            reply->Ok_0@ == "Fetched content from "@ + url@,
    {
        Ok("Fetched content from ".to_owned().concat(url))
    }

    fn map(&self, url: &str, max_results: usize) -> (reply: Result<Vec<Source>, GrokSearchError>)
        ensures
            reply is Ok,
            sources_of(reply->Ok_0@) == Seq::new(
                max_results as nat,
                |i: int| fake_page(url@, i as nat),
            ),
    {
        let mut sources: Vec<Source> = Vec::new();
        for i in 0..max_results
            invariant
                sources.len() == i,
                forall|j: int| 0 <= j < i ==> #[trigger] sources@[j]@ == fake_page(url@, j as nat),
        {
            let number = decimal_text(i as u64);
            let page = url.to_owned().concat("/page-").concat(number.as_str());
            sources.push(Source::new(page, "tavily"));
        }
        assert(sources_of(sources@) =~= Seq::new(
            max_results as nat,
            |i: int| fake_page(url@, i as nat),
        ));
        Ok(sources)
    }
}

} // verus!
