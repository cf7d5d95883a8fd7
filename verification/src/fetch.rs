//! Fetching the text of a page: a specialist that knows the site goes first, the
//! source backends follow, and the text is cut to the length asked for.

use crate::error::{text_reply, ErrorView, GrokSearchError};
use crate::model::tool::{FetchOutputView, SourceType, WebFetchOutput};
use crate::provider::{no_backend, no_backend_error, Backends, SourceProvider};
use crate::text::{blank, is_blank, prefix, same_text, take_chars, text_of};
use crate::urls::{parse_url, parsed_url};
use vstd::prelude::*;
use vstd::string::StrSliceExecFns;

verus! {

/// What the resolver reports where no specialist knows the site.
pub const NO_SPECIALIST_MATCH: &'static str = "no_specialist_match";

/// A fetch through the source backends, as far as it has come.
#[derive(Debug, PartialEq, Eq)]
pub enum GenericFetch {
    /// The primary backend is to fetch the page.
    AskPrimary { has_fallback: bool },
    /// The fallback backend is to fetch the page.
    AskFallback,
    /// The fetch is over.
    Done(Result<String, GrokSearchError>),
}

/// A fetch through the source backends, as plain values.
pub enum GenericFetchView {
    AskPrimary { has_fallback: bool },
    AskFallback,
    Done(Result<Seq<char>, ErrorView>),
}

impl View for GenericFetch {
    type V = GenericFetchView;

    open spec fn view(&self) -> GenericFetchView {
        match self {
            GenericFetch::AskPrimary { has_fallback } => GenericFetchView::AskPrimary {
                has_fallback: *has_fallback,
            },
            GenericFetch::AskFallback => GenericFetchView::AskFallback,
            GenericFetch::Done(reply) => GenericFetchView::Done(text_reply(*reply)),
        }
    }
}

/// Where a fetch begins.
pub open spec fn generic_start(backends: Backends) -> GenericFetchView {
    if backends.primary {
        GenericFetchView::AskPrimary { has_fallback: backends.fallback }
    } else if backends.fallback {
        GenericFetchView::AskFallback
    } else {
        GenericFetchView::Done(Err(no_backend()))
    }
}

/// Whether a reply holds text that can be returned.
pub open spec fn usable(reply: Result<Seq<char>, ErrorView>) -> bool {
    reply is Ok && !is_blank(reply->Ok_0)
}

/// What is reported where the primary backend was of no use and no other is
/// configured.
pub open spec fn primary_failure(reply: Result<Seq<char>, ErrorView>) -> ErrorView {
    match reply {
        Ok(_) => ErrorView::Provider("primary fetch provider returned empty content"@),
        Err(error) => error,
    }
}

/// How a fetch goes on once the backend that was asked has replied.
pub open spec fn generic_step(
    state: GenericFetchView,
    reply: Result<Seq<char>, ErrorView>,
) -> GenericFetchView {
    match state {
        GenericFetchView::AskPrimary { has_fallback } => if usable(reply) {
            GenericFetchView::Done(reply)
        } else if has_fallback {
            GenericFetchView::AskFallback
        } else {
            GenericFetchView::Done(Err(primary_failure(reply)))
        },
        GenericFetchView::AskFallback => GenericFetchView::Done(reply),
        GenericFetchView::Done(_) => state,
    }
}

/// What a fetch comes to, given what each configured backend replies: the text of
/// the primary one where it has any, else whatever the fallback replies, else the
/// failure of the primary one.
pub open spec fn generic_result(
    primary: Option<Result<Seq<char>, ErrorView>>,
    fallback: Option<Result<Seq<char>, ErrorView>>,
) -> Result<Seq<char>, ErrorView> {
    match (primary, fallback) {
        (Some(reply), None) => if usable(reply) {
            reply
        } else {
            Err(primary_failure(reply))
        },
        (Some(reply), Some(other)) => if usable(reply) {
            reply
        } else {
            other
        },
        (None, Some(other)) => other,
        (None, None) => Err(no_backend()),
    }
}

impl GenericFetch {
    /// Where a fetch begins.
    pub fn start(backends: Backends) -> (state: GenericFetch)
        ensures
            state@ == generic_start(backends),
    {
        if backends.primary {
            GenericFetch::AskPrimary { has_fallback: backends.fallback }
        } else if backends.fallback {
            GenericFetch::AskFallback
        } else {
            GenericFetch::Done(Err(no_backend_error()))
        }
    }

    /// How the fetch goes on once the backend that was asked has replied.
    pub fn on_reply(self, reply: Result<String, GrokSearchError>) -> (state: GenericFetch)
        ensures
            state@ == generic_step(self@, text_reply(reply)),
    {
        match self {
            GenericFetch::AskPrimary { has_fallback } => {
                let good = match &reply {
                    Ok(text) => !blank(text.as_str()),
                    Err(_) => false,
                };
                if good {
                    return GenericFetch::Done(reply);
                }
                if has_fallback {
                    return GenericFetch::AskFallback;
                }
                match reply {
                    Ok(_) => GenericFetch::Done(
                        Err(
                            GrokSearchError::Provider(
                                "primary fetch provider returned empty content".to_owned(),
                            ),
                        ),
                    ),
                    Err(error) => GenericFetch::Done(Err(error)),
                }
            },
            GenericFetch::AskFallback => GenericFetch::Done(reply),
            GenericFetch::Done(result) => GenericFetch::Done(result),
        }
    }
}

/// Whether the reply is one that the backend may give for the page; there is one
/// exactly where there is a backend.
pub open spec fn fetch_reply<P: SourceProvider>(
    provider: Option<P>,
    url: &str,
    reply: Option<Result<String, GrokSearchError>>,
) -> bool {
    match (provider, reply) {
        (Some(provider), Some(reply)) => call_ensures(P::fetch, (&provider, url), reply),
        (None, None) => true,
        _ => false,
    }
}

/// The reply of a backend as plain values.
pub open spec fn opt_text_reply(reply: Option<Result<String, GrokSearchError>>) -> Option<
    Result<Seq<char>, ErrorView>,
> {
    match reply {
        Some(reply) => Some(text_reply(reply)),
        None => None,
    }
}

/// Fetches a page through the configured source backends, the primary one first.
/// The fallback is asked for the page only where the primary has no text for it.
pub fn generic_source_fetch<P: SourceProvider, F: SourceProvider>(
    primary: &Option<P>,
    fallback: &Option<F>,
    url: &str,
) -> (result: Result<String, GrokSearchError>)
    ensures
        exists|
            first: Option<Result<String, GrokSearchError>>,
            second: Option<Result<String, GrokSearchError>>,
        |
            #![trigger opt_text_reply(first), opt_text_reply(second)]
            {
                let answered = first is Some && usable(text_reply(first->0));
                &&& fetch_reply(*primary, url, first)
                &&& !answered ==> fetch_reply(*fallback, url, second)
                &&& text_reply(result) == generic_result(
                    opt_text_reply(first),
                    opt_text_reply(second),
                )
            },
{
    let backends = Backends { primary: primary.is_some(), fallback: fallback.is_some() };
    let ghost mut first: Option<Result<String, GrokSearchError>> = None;
    let ghost mut second: Option<Result<String, GrokSearchError>> = None;
    let mut state = GenericFetch::start(backends);
    if let Some(provider) = primary {
        let reply = provider.fetch(url);
        proof {
            first = Some(reply);
        }
        state = state.on_reply(reply);
    }
    if let GenericFetch::AskFallback = state {
        if let Some(provider) = fallback {
            let reply = provider.fetch(url);
            proof {
                second = Some(reply);
            }
            state = state.on_reply(reply);
        }
    }
    assert(opt_text_reply(first) is Some == first is Some);
    assert(opt_text_reply(second) is Some == second is Some);
    match state {
        GenericFetch::Done(result) => result,
        _ => {
            assert(false);
            Err(no_backend_error())
        },
    }
}

/// The page as it is returned: its text up to the limit, and how long it is.
pub open spec fn limited(
    url: Seq<char>,
    content: Seq<char>,
    limit: Option<usize>,
    source_type: SourceType,
    fallback_reason: Option<Seq<char>>,
) -> FetchOutputView {
    FetchOutputView {
        url,
        content: match limit {
            Some(limit) => prefix(content, limit as nat),
            None => content,
        },
        original_length: content.len(),
        truncated: limit is Some && content.len() > limit->0,
        source_type,
        fallback_reason,
    }
}

/// Cuts the text of a page to the limit, where there is one, and says how long
/// the whole text is.
pub fn apply_fetch_limit(
    url: &str,
    content: String,
    max_chars: Option<usize>,
    source_type: SourceType,
    fallback_reason: Option<String>,
) -> (output: WebFetchOutput)
    ensures
        output@ == limited(url@, content@, max_chars, source_type, text_of(fallback_reason)),
{
    let original_length = content.as_str().unicode_len();
    match max_chars {
        None => WebFetchOutput {
            url: url.to_owned(),
            content,
            original_length,
            truncated: false,
            source_type,
            fallback_reason,
        },
        Some(limit) => WebFetchOutput {
            url: url.to_owned(),
            content: take_chars(content.as_str(), limit),
            original_length,
            truncated: original_length > limit,
            source_type,
            fallback_reason,
        },
    }
}

/// Where the fetch of a page stands.
#[derive(Debug, PartialEq, Eq)]
pub enum FetchStage {
    /// The specialists are to be asked for the page at this address.
    Resolve { parsed: String },
    /// The source backends are to be asked.
    Generic { fetch: GenericFetch, reason: Option<String> },
    /// The fetch is over.
    Done(Result<WebFetchOutput, GrokSearchError>),
}

/// The fetch of a page.
#[derive(Debug, PartialEq, Eq)]
pub struct WebFetchRun {
    pub url: String,
    pub limit: Option<usize>,
    pub backends: Backends,
    pub stage: FetchStage,
}

/// Where the fetch of a page stands, as plain values.
pub enum FetchStageView {
    Resolve { parsed: Seq<char> },
    Generic { fetch: GenericFetchView, reason: Option<Seq<char>> },
    Done(Result<FetchOutputView, ErrorView>),
}

/// The fetch of a page, as plain values.
pub struct FetchRunView {
    pub url: Seq<char>,
    pub limit: Option<usize>,
    pub backends: Backends,
    pub stage: FetchStageView,
}

impl View for FetchStage {
    type V = FetchStageView;

    open spec fn view(&self) -> FetchStageView {
        match self {
            FetchStage::Resolve { parsed } => FetchStageView::Resolve { parsed: parsed@ },
            FetchStage::Generic { fetch, reason } => FetchStageView::Generic {
                fetch: fetch@,
                reason: text_of(*reason),
            },
            FetchStage::Done(result) => FetchStageView::Done(
                match result {
                    Ok(output) => Ok(output@),
                    Err(error) => Err(error@),
                },
            ),
        }
    }
}

impl View for WebFetchRun {
    type V = FetchRunView;

    open spec fn view(&self) -> FetchRunView {
        FetchRunView {
            url: self.url@,
            limit: self.limit,
            backends: self.backends,
            stage: self.stage@,
        }
    }
}

/// What a specialist reports as plain values: the text with the kind of site, or
/// why there is none.
pub open spec fn resolution(outcome: Result<(String, SourceType), String>) -> Result<
    (Seq<char>, SourceType),
    Seq<char>,
> {
    match outcome {
        Ok((content, kind)) => Ok((content@, kind)),
        Err(reason) => Err(reason@),
    }
}

/// Why the source backends had to step in; nothing where no specialist knows the
/// site.
pub open spec fn surfaced_reason(reason: Seq<char>) -> Option<Seq<char>> {
    if reason == NO_SPECIALIST_MATCH@ {
        None
    } else {
        Some(reason)
    }
}

/// The stage that a fetch through the source backends amounts to.
pub open spec fn generic_stage(
    url: Seq<char>,
    limit: Option<usize>,
    fetch: GenericFetchView,
    reason: Option<Seq<char>>,
) -> FetchStageView {
    match fetch {
        GenericFetchView::Done(Ok(content)) => FetchStageView::Done(
            Ok(limited(url, content, limit, SourceType::Generic, reason)),
        ),
        GenericFetchView::Done(Err(error)) => FetchStageView::Done(Err(error)),
        _ => FetchStageView::Generic { fetch, reason },
    }
}

/// Where the fetch of a page begins, given its address in normal form.
pub open spec fn fetch_start(
    url: Seq<char>,
    parsed: Option<Seq<char>>,
    limit: Option<usize>,
    backends: Backends,
) -> FetchRunView {
    FetchRunView {
        url,
        limit,
        backends,
        stage: match parsed {
            Some(parsed) => FetchStageView::Resolve { parsed },
            None => generic_stage(url, limit, generic_start(backends), None),
        },
    }
}

/// How the fetch goes on once the specialists have reported.
pub open spec fn after_resolution(
    run: FetchRunView,
    outcome: Result<(Seq<char>, SourceType), Seq<char>>,
) -> FetchRunView {
    match (run.stage, outcome) {
        (FetchStageView::Resolve { .. }, Ok((content, kind))) => FetchRunView {
            stage: FetchStageView::Done(Ok(limited(run.url, content, run.limit, kind, None))),
            ..run
        },
        (FetchStageView::Resolve { .. }, Err(reason)) => FetchRunView {
            stage: generic_stage(
                run.url,
                run.limit,
                generic_start(run.backends),
                surfaced_reason(reason),
            ),
            ..run
        },
        _ => run,
    }
}

/// How the fetch goes on once the backend that was asked has replied.
pub open spec fn after_reply(
    run: FetchRunView,
    reply: Result<Seq<char>, ErrorView>,
) -> FetchRunView {
    match run.stage {
        FetchStageView::Generic { fetch, reason } => FetchRunView {
            stage: generic_stage(run.url, run.limit, generic_step(fetch, reply), reason),
            ..run
        },
        _ => run,
    }
}

/// What the fetch of a page comes to, given its address in normal form, what the
/// specialists report, and what each configured backend replies.
pub open spec fn fetch_result(
    url: Seq<char>,
    parsed: Option<Seq<char>>,
    limit: Option<usize>,
    outcome: Result<(Seq<char>, SourceType), Seq<char>>,
    primary: Option<Result<Seq<char>, ErrorView>>,
    fallback: Option<Result<Seq<char>, ErrorView>>,
) -> Result<FetchOutputView, ErrorView> {
    if parsed is Some && outcome is Ok {
        Ok(limited(url, outcome->Ok_0.0, limit, outcome->Ok_0.1, None))
    } else {
        let reason = if parsed is Some {
            surfaced_reason(outcome->Err_0)
        } else {
            None
        };
        match generic_result(primary, fallback) {
            Ok(content) => Ok(limited(url, content, limit, SourceType::Generic, reason)),
            Err(error) => Err(error),
        }
    }
}

/// The stage that a fetch through the source backends amounts to.
fn settle(
    url: &str,
    limit: Option<usize>,
    fetch: GenericFetch,
    reason: Option<String>,
) -> (stage: FetchStage)
    ensures
        stage@ == generic_stage(url@, limit, fetch@, text_of(reason)),
{
    match fetch {
        GenericFetch::Done(Ok(content)) => FetchStage::Done(
            Ok(apply_fetch_limit(url, content, limit, SourceType::Generic, reason)),
        ),
        GenericFetch::Done(Err(error)) => FetchStage::Done(Err(error)),
        fetch => FetchStage::Generic { fetch, reason },
    }
}

impl WebFetchRun {
    /// Where the fetch of a page begins, given its address in normal form. A text
    /// that is no address goes straight to the source backends.
    pub fn begin(
        url: &str,
        parsed: Option<String>,
        limit: Option<usize>,
        backends: Backends,
    ) -> (run: WebFetchRun)
        ensures
            run@ == fetch_start(url@, text_of(parsed), limit, backends),
    {
        let stage = match parsed {
            Some(parsed) => FetchStage::Resolve { parsed },
            None => settle(url, limit, GenericFetch::start(backends), None),
        };
        WebFetchRun { url: url.to_owned(), limit, backends, stage }
    }

    /// Where the fetch of a page begins.
    pub fn start(url: &str, limit: Option<usize>, backends: Backends) -> (run: WebFetchRun)
        ensures
            run@ == fetch_start(url@, parsed_url(url@), limit, backends),
    {
        WebFetchRun::begin(url, parse_url(url), limit, backends)
    }

    /// How the fetch goes on once the specialists have reported. Where one knows
    /// the site but failed, the result will say why.
    pub fn on_resolved(self, outcome: Result<(String, SourceType), String>) -> (run: WebFetchRun)
        ensures
            run@ == after_resolution(self@, resolution(outcome)),
    {
        match self.stage {
            FetchStage::Resolve { parsed } => {
                let stage = match outcome {
                    Ok((content, kind)) => FetchStage::Done(
                        Ok(apply_fetch_limit(self.url.as_str(), content, self.limit, kind, None)),
                    ),
                    Err(reason) => {
                        let surfaced = if same_text(reason.as_str(), NO_SPECIALIST_MATCH) {
                            None
                        } else {
                            Some(reason)
                        };
                        settle(
                            self.url.as_str(),
                            self.limit,
                            GenericFetch::start(self.backends),
                            surfaced,
                        )
                    },
                };
                WebFetchRun { url: self.url, limit: self.limit, backends: self.backends, stage }
            },
            stage => WebFetchRun {
                url: self.url,
                limit: self.limit,
                backends: self.backends,
                stage,
            },
        }
    }

    /// How the fetch goes on once the backend that was asked has replied.
    pub fn on_reply(self, reply: Result<String, GrokSearchError>) -> (run: WebFetchRun)
        ensures
            run@ == after_reply(self@, text_reply(reply)),
    {
        match self.stage {
            FetchStage::Generic { fetch, reason } => {
                let stage = settle(self.url.as_str(), self.limit, fetch.on_reply(reply), reason);
                WebFetchRun { url: self.url, limit: self.limit, backends: self.backends, stage }
            },
            stage => WebFetchRun {
                url: self.url,
                limit: self.limit,
                backends: self.backends,
                stage,
            },
        }
    }
}

} // verus!
