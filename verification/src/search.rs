//! One web search, from the caller's words to the result.
//!
//! A search runs in three stages. It starts with a request to the language model
//! and, at the same time, a search for supplemental sources. What comes back is
//! drafted into an answer, or into a list of sources where the answer cannot be
//! verified. Then the sources get their page text, and the result is cut to the
//! response budget.

use crate::answer::{
    enrichment_label, enrichment_label_of, error_reason_of, fallback_label, fallback_label_of,
    grok_error_reason, grok_unverifiable_reason, unverifiable_reason_of, RawSourceOrigin,
};
use crate::budget::{apply_response_budget, budgeted};
use crate::config::Config;
use crate::enrich::EnrichJob;
use crate::error::{ErrorView, GrokSearchError};
use crate::model::search::{
    FiltersView, RequestView, ResponseView, SearchFilters, SearchRequest, SearchResponse,
};
use crate::model::source::{
    copy_sources, merge_sources, merged, relabelled, sources_of, with_provider, Source, SourceView,
};
use crate::model::tool::{InputView, SearchOutputView, WebSearchInput, WebSearchOutput};
use crate::pool::{enriched, EnrichPool, PoolView};
use crate::provider::Backends;
use crate::request::{build_search_request, search_request};
use crate::text::{blank, decimal, decimal_text, is_blank, same_text};
use vstd::prelude::*;
use vstd::string::{StrSliceExecFns, StringExecFns};

verus! {

/// Whether sources are to carry page text. The response format goes before the
/// older flag; without either they do.
pub open spec fn wants_content(input: InputView) -> Result<bool, ErrorView> {
    match input.response_format {
        None => Ok(
            match input.include_content {
                Some(wanted) => wanted,
                None => true,
            },
        ),
        Some(format) => if format == "concise"@ {
            Ok(false)
        } else if format == "detailed"@ {
            Ok(true)
        } else {
            Err(
                ErrorView::InvalidParams(
                    "response_format must be \"concise\" or \"detailed\", got \""@ + format
                        + "\""@,
                ),
            )
        },
    }
}

/// A search that has been started: what is to be asked, and of whom.
#[derive(Debug, PartialEq, Eq)]
pub struct WebSearchRun {
    pub session_id: String,
    /// Whether sources are to carry page text.
    pub include_content: bool,
    /// How many supplemental sources join a verified answer.
    pub extra_sources: usize,
    /// What the language model is to be asked.
    pub request: SearchRequest,
    /// What the source backends are to be asked.
    pub query: String,
    pub filters: SearchFilters,
    /// How many sources they are to be asked for: enough for either outcome.
    pub speculative_count: usize,
}

/// A search that has been started, as plain values.
#[verifier::ext_equal]
pub struct RunView {
    pub session_id: Seq<char>,
    pub include_content: bool,
    pub extra_sources: nat,
    pub request: RequestView,
    pub query: Seq<char>,
    pub filters: FiltersView,
    pub speculative_count: nat,
}

impl View for WebSearchRun {
    type V = RunView;

    open spec fn view(&self) -> RunView {
        RunView {
            session_id: self.session_id@,
            include_content: self.include_content,
            extra_sources: self.extra_sources as nat,
            request: self.request@,
            query: self.query@,
            filters: self.filters@,
            speculative_count: self.speculative_count as nat,
        }
    }
}

/// The larger of two numbers.
pub open spec fn max(a: nat, b: nat) -> nat {
    if a >= b {
        a
    } else {
        b
    }
}

/// How many supplemental sources join a verified answer.
pub open spec fn extra_sources_of(config: Config, input: InputView) -> nat {
    match input.extra_sources {
        Some(count) => count as nat,
        None => config.default_extra_sources as nat,
    }
}

/// How a search starts.
pub open spec fn search_start(
    config: Config,
    default_model: Seq<char>,
    input: InputView,
    session_id: Seq<char>,
) -> Result<RunView, ErrorView> {
    match wants_content(input) {
        Err(error) => Err(error),
        Ok(include_content) => Ok(
            RunView {
                session_id,
                include_content,
                extra_sources: extra_sources_of(config, input),
                request: search_request(default_model, input, Seq::empty()),
                query: input.query,
                filters: FiltersView {
                    recency_days: input.recency_days,
                    include_domains: input.include_domains,
                    exclude_domains: input.exclude_domains,
                },
                speculative_count: max(
                    extra_sources_of(config, input),
                    config.fallback_sources as nat,
                ),
            },
        ),
    }
}

/// A started search, or why it could not be, as plain values.
pub open spec fn run_reply(reply: Result<WebSearchRun, GrokSearchError>) -> Result<
    RunView,
    ErrorView,
> {
    match reply {
        Ok(run) => Ok(run@),
        Err(error) => Err(error@),
    }
}

/// Whether sources are to carry page text.
fn include_content(input: &WebSearchInput) -> (result: Result<bool, GrokSearchError>)
    ensures
        match result {
            Ok(wanted) => Ok(wanted),
            Err(error) => Err(error@),
        } == wants_content(input@),
{
    match &input.response_format {
        None => Ok(
            match input.include_content {
                Some(wanted) => wanted,
                None => true,
            },
        ),
        Some(format) => {
            if same_text(format.as_str(), "concise") {
                Ok(false)
            } else if same_text(format.as_str(), "detailed") {
                Ok(true)
            } else {
                Err(
                    GrokSearchError::InvalidParams(
                        "response_format must be \"concise\" or \"detailed\", got \"".to_owned().concat(
                            format.as_str(),
                        ).concat("\""),
                    ),
                )
            }
        },
    }
}

/// Starts a search under the given session name.
pub fn start_search(
    config: &Config,
    default_model: &str,
    input: WebSearchInput,
    session_id: String,
) -> (result: Result<WebSearchRun, GrokSearchError>)
    ensures
        run_reply(result) == search_start(*config, default_model@, input@, session_id@),
{
    let include_content = match include_content(&input) {
        Ok(wanted) => wanted,
        Err(error) => {
            return Err(error);
        },
    };
    let extra_sources = match input.extra_sources {
        Some(count) => count,
        None => config.default_extra_sources,
    };
    let speculative_count = if extra_sources >= config.fallback_sources {
        extra_sources
    } else {
        config.fallback_sources
    };
    let none: Vec<Source> = Vec::new();
    let request = build_search_request(default_model, &input, &none);
    assert(sources_of(none@) =~= Seq::empty());
    Ok(
        WebSearchRun {
            session_id,
            include_content,
            extra_sources,
            request,
            query: input.query,
            filters: SearchFilters {
                recency_days: input.recency_days,
                include_domains: input.include_domains,
                exclude_domains: input.exclude_domains,
            },
            speculative_count,
        },
    )
}

/// What the language model replied, as plain values.
pub open spec fn answer_of(answer: Result<SearchResponse, GrokSearchError>) -> Result<
    ResponseView,
    ErrorView,
> {
    match answer {
        Ok(response) => Ok(response@),
        Err(error) => Err(error@),
    }
}

/// Why sources have to stand in for the answer; nothing where it can be verified.
pub open spec fn fallback_reason_of(answer: Result<ResponseView, ErrorView>) -> Option<Seq<char>> {
    match answer {
        Ok(response) => unverifiable_reason_of(response),
        Err(error) => Some(error_reason_of(error)),
    }
}

/// The first `count` sources of a list.
pub open spec fn first_sources(sources: Seq<SourceView>, count: nat) -> Seq<SourceView> {
    if sources.len() <= count {
        sources
    } else {
        sources.take(count as int)
    }
}

/// The sources of the result: those that the answer cites, then supplemental ones;
/// where the answer cannot be verified, supplemental ones alone.
pub open spec fn drafted_sources(
    config: Config,
    run: RunView,
    answer: Result<ResponseView, ErrorView>,
    raw: Seq<SourceView>,
    origin: RawSourceOrigin,
) -> Seq<SourceView> {
    if fallback_reason_of(answer) is Some {
        relabelled(
            first_sources(raw, config.fallback_sources as nat),
            fallback_label_of(origin),
        )
    } else {
        merged(
            answer->Ok_0.sources,
            relabelled(first_sources(raw, run.extra_sources), enrichment_label_of(origin)),
        )
    }
}

/// Whether the sources get page text. A caller who does not want any never gets
/// it; beside a verified answer, it also takes supplemental sources.
pub open spec fn enriches(run: RunView, answer: Result<ResponseView, ErrorView>) -> bool {
    run.include_content && (fallback_reason_of(answer) is Some || run.extra_sources > 0)
}

/// A drafted result: its sources are being given their page text.
#[derive(Debug, PartialEq, Eq)]
pub struct SearchDraft {
    session_id: String,
    /// The text of the answer, whether it can be verified or not.
    content: String,
    sources: Vec<Source>,
    fallback_reason: Option<&'static str>,
    pool: EnrichPool,
}

/// A drafted result, as plain values.
#[verifier::ext_equal]
pub struct DraftView {
    pub session_id: Seq<char>,
    pub content: Seq<char>,
    pub sources: Seq<SourceView>,
    pub fallback_reason: Option<Seq<char>>,
    pub pool: PoolView,
}

impl View for SearchDraft {
    type V = DraftView;

    closed spec fn view(&self) -> DraftView {
        DraftView {
            session_id: self.session_id@,
            content: self.content@,
            sources: sources_of(self.sources@),
            fallback_reason: match self.fallback_reason {
                Some(reason) => Some(reason@),
                None => None,
            },
            pool: self.pool@,
        }
    }
}

impl DraftView {
    /// The page fetches are for the first sources of the draft.
    pub open spec fn wf(self) -> bool {
        &&& self.pool.wf()
        &&& self.pool.urls.len() <= self.sources.len()
        &&& forall|i: int|
            0 <= i < self.pool.urls.len() ==> #[trigger] self.pool.urls[i] == self.sources[i].url
    }
}

/// The draft that replies amount to.
pub open spec fn drafted(
    config: Config,
    backends: Backends,
    run: RunView,
    answer: Result<ResponseView, ErrorView>,
    raw: Seq<SourceView>,
    origin: RawSourceOrigin,
) -> DraftView {
    let sources = drafted_sources(config, run, answer, raw, origin);
    DraftView {
        session_id: run.session_id,
        content: match answer {
            Ok(response) => response.content,
            Err(_) => Seq::empty(),
        },
        sources,
        fallback_reason: fallback_reason_of(answer),
        pool: PoolView::start(
            sources,
            if enriches(run, answer) {
                config.max_inline_sources as nat
            } else {
                0
            },
            config.enrich_max_chars as nat,
            config.enrich_concurrency as nat,
            backends,
        ),
    }
}

/// Cuts a list to its first `count` sources.
fn keep_first(sources: &mut Vec<Source>, count: usize)
    ensures
        sources_of(final(sources)@) == first_sources(sources_of(old(sources)@), count as nat),
{
    let ghost given = sources_of(sources@);
    sources.truncate(count);
    assert(sources_of(sources@) =~= first_sources(given, count as nat));
}

impl SearchDraft {
    /// Drafts the result from what the language model and the source backends
    /// replied.
    pub fn new(
        config: &Config,
        backends: Backends,
        run: WebSearchRun,
        answer: Result<SearchResponse, GrokSearchError>,
        raw_sources: Vec<Source>,
        origin: RawSourceOrigin,
    ) -> (draft: SearchDraft)
        ensures
            draft@ == drafted(
                *config,
                backends,
                run@,
                answer_of(answer),
                sources_of(raw_sources@),
                origin,
            ),
            draft@.wf(),
    {
        let reason = match &answer {
            Ok(response) => grok_unverifiable_reason(response),
            Err(error) => Some(grok_error_reason(error)),
        };
        let mut raw = raw_sources;
        let (content, cited) = match answer {
            Ok(response) => (response.content, response.sources),
            Err(_) => (String::new(), Vec::new()),
        };
        let sources = if reason.is_some() {
            keep_first(&mut raw, config.fallback_sources);
            with_provider(raw, fallback_label(origin))
        } else {
            keep_first(&mut raw, run.extra_sources);
            merge_sources(cited, with_provider(raw, enrichment_label(origin)))
        };
        let enrich = run.include_content && (reason.is_some() || run.extra_sources > 0);
        let max_sources = if enrich {
            config.max_inline_sources
        } else {
            0
        };
        let pool = EnrichPool::start(
            &sources,
            max_sources,
            config.enrich_max_chars,
            config.enrich_concurrency,
            backends,
        );
        SearchDraft {
            session_id: run.session_id,
            content,
            sources,
            fallback_reason: reason,
            pool,
        }
    }

    /// Starts the fetch of another page, where one is left and not too many are
    /// running.
    pub fn next_job(&mut self) -> (job: Option<EnrichJob>)
        requires
            old(self)@.wf(),
        ensures
            final(self)@.wf(),
            job is Some == old(self)@.pool.can_start(),
            job is Some ==> {
                &&& job->0@ == old(self)@.pool.next_job()
                &&& final(self)@ == (DraftView { pool: old(self)@.pool.started(), ..old(self)@ })
            },
            job is None ==> final(self)@ == old(self)@,
    {
        self.pool.next_job()
    }

    /// Takes the text that the fetch of a page came to. A fetch that is not over, or
    /// is not for a page that is being waited for, is passed over.
    pub fn finish_job(&mut self, job: EnrichJob)
        requires
            old(self)@.wf(),
        ensures
            final(self)@.wf(),
            final(self)@ == (DraftView { pool: old(self)@.pool.finished(job@), ..old(self)@ }),
    {
        self.pool.finish(job);
    }

    /// Gives up on a fetch that broke off; its source gets a note.
    pub fn lose_job(&mut self, index: usize)
        requires
            old(self)@.wf(),
        ensures
            final(self)@.wf(),
            final(self)@ == (DraftView { pool: old(self)@.pool.broken(index), ..old(self)@ }),
    {
        self.pool.lose(index);
    }

    /// Whether no page is left to wait for.
    pub fn is_done(&self) -> (done: bool)
        ensures
            done == self@.pool.done(),
    {
        self.pool.is_done()
    }
}

/// What a result says in place of an answer that cannot be verified.
pub open spec fn fallback_text(answer: Seq<char>, sources_count: nat) -> Seq<char> {
    if is_blank(answer) {
        "Grok Responses search did not return a verifiable answer. Source fallback returned "@
            + decimal(sources_count)
            + " source(s); evaluate them directly rather than treating any text as a verified answer."@
    } else {
        "Grok Responses returned an answer without verifiable search sources, so source fallback returned "@
            + decimal(sources_count)
            + " source(s). Original Grok answer was not treated as verified; evaluate the listed sources directly."@
    }
}

/// The sources of a draft with their page text: what is kept for the session.
pub open spec fn final_sources(draft: DraftView) -> Seq<SourceView> {
    enriched(draft.sources, draft.pool.results)
}

/// The text of the result: the verified answer as it is, or what stands in for it.
pub open spec fn final_content(draft: DraftView) -> Seq<char> {
    match draft.fallback_reason {
        Some(_) => fallback_text(draft.content, final_sources(draft).len()),
        None => draft.content,
    }
}

/// The result that a draft amounts to.
pub open spec fn search_output(response_max_chars: nat, draft: DraftView) -> SearchOutputView {
    let sources = final_sources(draft);
    let content = final_content(draft);
    let kept = budgeted(content.len(), sources, response_max_chars, draft.session_id, 0);
    SearchOutputView {
        session_id: draft.session_id,
        content,
        sources_count: sources.len(),
        sources: kept,
        search_provider: if draft.fallback_reason is Some {
            "source_fallback"@
        } else {
            "grok_responses"@
        },
        fallback_used: draft.fallback_reason is Some,
        fallback_reason: draft.fallback_reason,
        truncated: kept != sources,
    }
}

/// What a result says in place of an answer that cannot be verified.
fn stand_in(answer: &str, sources_count: usize) -> (text: String)
    ensures
        text@ == fallback_text(answer@, sources_count as nat),
{
    let number = decimal_text(sources_count as u64);
    if blank(answer) {
        "Grok Responses search did not return a verifiable answer. Source fallback returned ".to_owned().concat(
            number.as_str(),
        ).concat(
            " source(s); evaluate them directly rather than treating any text as a verified answer.",
        )
    } else {
        "Grok Responses returned an answer without verifiable search sources, so source fallback returned ".to_owned().concat(
            number.as_str(),
        ).concat(
            " source(s). Original Grok answer was not treated as verified; evaluate the listed sources directly.",
        )
    }
}

/// Turns a draft into the result, and returns beside it the sources that are to be
/// kept for the session, uncut.
pub fn finish_search(response_max_chars: usize, draft: SearchDraft) -> (result: (
    WebSearchOutput,
    Vec<Source>,
))
    requires
        draft@.wf(),
    ensures
        result.0@ == search_output(response_max_chars as nat, draft@),
        sources_of(result.1@) == final_sources(draft@),
{
    let kept = draft.pool.apply(draft.sources);
    let sources_count = kept.len();
    let content = if draft.fallback_reason.is_some() {
        stand_in(draft.content.as_str(), sources_count)
    } else {
        draft.content
    };
    let mut sources = copy_sources(&kept);
    let truncated = apply_response_budget(
        content.as_str().unicode_len(),
        &mut sources,
        response_max_chars,
        draft.session_id.as_str(),
    );
    let search_provider = if draft.fallback_reason.is_some() {
        "source_fallback"
    } else {
        "grok_responses"
    };
    let fallback_reason = match draft.fallback_reason {
        Some(reason) => Some(reason.to_owned()),
        None => None,
    };
    let output = WebSearchOutput {
        session_id: draft.session_id,
        content,
        sources_count,
        sources,
        search_provider: search_provider.to_owned(),
        fallback_used: draft.fallback_reason.is_some(),
        fallback_reason,
        truncated,
    };
    (output, kept)
}

} // verus!
