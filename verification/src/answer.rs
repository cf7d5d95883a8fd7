//! What becomes of an answer: under which names its sources are returned, and why
//! sources stand in for an answer that cannot be verified.

use crate::error::{ErrorView, GrokSearchError};
use crate::model::search::{ResponseView, SearchResponse};
use crate::text::{blank, is_blank};
use vstd::prelude::*;

verus! {

/// Which backend delivered the supplemental sources.
#[derive(Debug, Clone, Copy, PartialEq, Eq, Structural)]
pub enum RawSourceOrigin {
    Absent,
    Primary,
    Fallback,
}

/// The name under which supplemental sources join an answer.
pub open spec fn enrichment_label_of(origin: RawSourceOrigin) -> Seq<char> {
    match origin {
        RawSourceOrigin::Fallback => "firecrawl_enrichment"@,
        _ => "tavily_enrichment"@,
    }
}

/// The name under which supplemental sources stand in for an answer.
pub open spec fn fallback_label_of(origin: RawSourceOrigin) -> Seq<char> {
    match origin {
        RawSourceOrigin::Fallback => "firecrawl_enrichment"@,
        _ => "tavily_fallback"@,
    }
}

/// Why the language model gave no answer.
pub open spec fn error_reason_of(error: ErrorView) -> Seq<char> {
    match error {
        ErrorView::Timeout(_) => "grok_timeout"@,
        ErrorView::OAuth(_) => "grok_auth_error"@,
        ErrorView::Parse(_) => "grok_parse_error"@,
        _ => "grok_provider_error"@,
    }
}

/// Why an answer cannot be verified; nothing where it has text and sources.
pub open spec fn unverifiable_reason_of(response: ResponseView) -> Option<Seq<char>> {
    if is_blank(response.content) {
        Some("grok_content_empty"@)
    } else if response.sources.len() == 0 {
        Some("grok_sources_empty"@)
    } else {
        None
    }
}

/// The name under which supplemental sources join an answer.
pub fn enrichment_label(origin: RawSourceOrigin) -> (label: &'static str)
    ensures
        label@ == enrichment_label_of(origin),
{
    match origin {
        RawSourceOrigin::Primary => "tavily_enrichment",
        RawSourceOrigin::Fallback => "firecrawl_enrichment",
        RawSourceOrigin::Absent => "tavily_enrichment",
    }
}

/// The name under which supplemental sources stand in for an answer.
pub fn fallback_label(origin: RawSourceOrigin) -> (label: &'static str)
    ensures
        label@ == fallback_label_of(origin),
{
    match origin {
        RawSourceOrigin::Primary => "tavily_fallback",
        RawSourceOrigin::Fallback => "firecrawl_enrichment",
        RawSourceOrigin::Absent => "tavily_fallback",
    }
}

/// Why the language model gave no answer. The names are stable: callers tell a
/// timeout, a failed sign-in and an unreadable answer from any other failure.
pub fn grok_error_reason(error: &GrokSearchError) -> (reason: &'static str)
    ensures
        reason@ == error_reason_of(error@),
{
    match error {
        GrokSearchError::Timeout(_) => "grok_timeout",
        GrokSearchError::OAuth(_) => "grok_auth_error",
        GrokSearchError::Parse(_) => "grok_parse_error",
        _ => "grok_provider_error",
    }
}

/// Why an answer cannot be verified: it has no text, or it cites nothing.
pub fn grok_unverifiable_reason(response: &SearchResponse) -> (reason: Option<&'static str>)
    ensures
        match reason {
            Some(text) => Some(text@),
            None => None,
        } == unverifiable_reason_of(response@),
{
    if blank(response.content.as_str()) {
        return Some("grok_content_empty");
    }
    if response.sources.len() == 0 {
        return Some("grok_sources_empty");
    }
    None
}

} // verus!
