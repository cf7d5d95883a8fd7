//! What is asked of a search backend, and what it answers.

use crate::model::source::{sources_of, Source, SourceView};
use crate::text::{text_of, texts_of};
use vstd::prelude::*;

verus! {

/// What a source backend is asked to restrict itself to.
#[derive(Debug, PartialEq, Eq)]
pub struct SearchFilters {
    /// Only pages that are at most so many days old.
    pub recency_days: Option<u32>,
    pub include_domains: Vec<String>,
    pub exclude_domains: Vec<String>,
}

/// Filters as plain values.
#[verifier::ext_equal]
pub struct FiltersView {
    pub recency_days: Option<u32>,
    pub include_domains: Seq<Seq<char>>,
    pub exclude_domains: Seq<Seq<char>>,
}

impl View for SearchFilters {
    type V = FiltersView;

    open spec fn view(&self) -> FiltersView {
        FiltersView {
            recency_days: self.recency_days,
            include_domains: texts_of(self.include_domains@),
            exclude_domains: texts_of(self.exclude_domains@),
        }
    }
}

impl FiltersView {
    /// No restriction at all.
    pub open spec fn none() -> FiltersView {
        FiltersView {
            recency_days: None,
            include_domains: Seq::empty(),
            exclude_domains: Seq::empty(),
        }
    }
}

impl Default for SearchFilters {
    fn default() -> (filters: Self)
        ensures
            filters@ == FiltersView::none(),
    {
        let filters = SearchFilters {
            recency_days: None,
            include_domains: Vec::new(),
            exclude_domains: Vec::new(),
        };
        assert(filters@ =~= FiltersView::none());
        filters
    }
}

/// One piece of a message.
#[derive(Debug, PartialEq, Eq)]
pub enum ContentBlock {
    Text(String),
}

impl View for ContentBlock {
    type V = Seq<char>;

    open spec fn view(&self) -> Seq<char> {
        match self {
            ContentBlock::Text(text) => text@,
        }
    }
}

impl ContentBlock {
    /// A piece of plain text.
    pub fn text(text: String) -> (block: ContentBlock)
        ensures
            block@ == text@,
    {
        ContentBlock::Text(text)
    }
}

/// One message to the language model.
#[derive(Debug, PartialEq, Eq)]
pub struct SearchMessage {
    pub role: String,
    pub content: Vec<ContentBlock>,
}

/// A message as plain text.
#[verifier::ext_equal]
pub struct MessageView {
    pub role: Seq<char>,
    pub content: Seq<Seq<char>>,
}

impl View for SearchMessage {
    type V = MessageView;

    open spec fn view(&self) -> MessageView {
        MessageView {
            role: self.role@,
            content: Seq::new(self.content@.len(), |i: int| self.content@[i]@),
        }
    }
}

/// A tool that the language model may use.
#[derive(Debug, Clone, Copy, PartialEq, Eq, Structural)]
pub enum SearchTool {
    WebSearch,
}

impl SearchTool {
    /// The tool that searches the web.
    pub fn web_search() -> (tool: SearchTool)
        ensures
            tool == SearchTool::WebSearch,
    {
        SearchTool::WebSearch
    }
}

/// A request to the language model.
#[derive(Debug, PartialEq, Eq)]
pub struct SearchRequest {
    pub model: String,
    pub system: Option<String>,
    pub messages: Vec<SearchMessage>,
    pub tools: Vec<SearchTool>,
}

/// A request as plain values.
#[verifier::ext_equal]
pub struct RequestView {
    pub model: Seq<char>,
    pub system: Option<Seq<char>>,
    pub messages: Seq<MessageView>,
    pub tools: Seq<SearchTool>,
}

impl View for SearchRequest {
    type V = RequestView;

    open spec fn view(&self) -> RequestView {
        RequestView {
            model: self.model@,
            system: text_of(self.system),
            messages: Seq::new(self.messages@.len(), |i: int| self.messages@[i]@),
            tools: self.tools@,
        }
    }
}

/// An answer of the language model with the sources that it cites.
#[derive(Debug, PartialEq, Eq)]
pub struct SearchResponse {
    pub content: String,
    pub sources: Vec<Source>,
}

/// An answer as plain values.
#[verifier::ext_equal]
pub struct ResponseView {
    pub content: Seq<char>,
    pub sources: Seq<SourceView>,
}

impl View for SearchResponse {
    type V = ResponseView;

    open spec fn view(&self) -> ResponseView {
        ResponseView { content: self.content@, sources: sources_of(self.sources@) }
    }
}

/// A message of the user that holds a single text.
pub open spec fn user_message(text: Seq<char>) -> MessageView {
    MessageView { role: "user"@, content: seq![text] }
}

/// A list with a single message of the user.
pub fn from_user(text: String) -> (messages: Vec<SearchMessage>)
    ensures
        messages@.len() == 1,
        messages@[0]@ == user_message(text@),
{
    let mut content: Vec<ContentBlock> = Vec::new();
    content.push(ContentBlock::text(text));
    let message = SearchMessage { role: "user".to_owned(), content };
    assert(message@ =~= user_message(text@));
    let mut messages: Vec<SearchMessage> = Vec::new();
    messages.push(message);
    messages
}

} // verus!
