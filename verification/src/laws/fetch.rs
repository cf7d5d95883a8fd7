//! What fetching, gathering and listing come to, whichever backends there are and
//! whatever they reply.

use crate::answer::RawSourceOrigin;
use crate::config::Config;
use crate::enrich;
use crate::enrich::{
    enriched_text, failure_note, job_start, EnrichStageView, JobView, ResolutionView,
    EMPTY_CONTENT,
};
use crate::error::ErrorView;
use crate::fetch;
use crate::fetch::{
    fetch_result, fetch_start, generic_result, generic_start, generic_step, limited, usable,
    FetchRunView, FetchStageView, GenericFetchView, NO_SPECIALIST_MATCH,
};
use crate::gather::{found, gathered, gathering_start, gathering_step, GatheringView};
use crate::model::source::SourceView;
use crate::model::tool::SourceType;
use crate::provider::Backends;
use crate::service::fetch_limit;
use crate::sitemap::{map_result, map_start, map_step, SiteMapView};
use crate::text::{is_blank, prefix};
use vstd::prelude::*;

verus! {

/// The source backends that reply.
pub open spec fn repliers<T>(primary: Option<T>, fallback: Option<T>) -> Backends {
    Backends { primary: primary is Some, fallback: fallback is Some }
}

/// A fetch through the source backends once the backend that it asks, if it asks
/// one, has replied.
pub open spec fn generic_next(
    state: GenericFetchView,
    primary: Option<Result<Seq<char>, ErrorView>>,
    fallback: Option<Result<Seq<char>, ErrorView>>,
) -> GenericFetchView {
    match state {
        GenericFetchView::AskPrimary { .. } => generic_step(state, primary->0),
        GenericFetchView::AskFallback => generic_step(state, fallback->0),
        GenericFetchView::Done(_) => state,
    }
}

/// The fetch of a page once whoever it asks has replied.
pub open spec fn fetch_next(
    run: FetchRunView,
    outcome: Result<(Seq<char>, SourceType), Seq<char>>,
    primary: Option<Result<Seq<char>, ErrorView>>,
    fallback: Option<Result<Seq<char>, ErrorView>>,
) -> FetchRunView {
    match run.stage {
        FetchStageView::Resolve { .. } => fetch::after_resolution(run, outcome),
        FetchStageView::Generic { fetch: GenericFetchView::AskPrimary { .. }, .. } => {
            fetch::after_reply(run, primary->0)
        },
        FetchStageView::Generic { .. } => fetch::after_reply(run, fallback->0),
        FetchStageView::Done(_) => run,
    }
}

/// The fetch of the page of one source once whoever it asks has replied.
pub open spec fn job_next(
    job: JobView,
    outcome: ResolutionView,
    primary: Option<Result<Seq<char>, ErrorView>>,
    fallback: Option<Result<Seq<char>, ErrorView>>,
) -> JobView {
    match job.stage {
        EnrichStageView::Resolve { .. } => enrich::after_resolution(job, outcome),
        EnrichStageView::Generic { fetch: GenericFetchView::AskPrimary { .. }, .. } => {
            enrich::after_reply(job, primary->0)
        },
        EnrichStageView::Generic { .. } => enrich::after_reply(job, fallback->0),
        EnrichStageView::Done(_) => job,
    }
}

/// A fetch through the source backends asks at most two of them, each one that is
/// there, and comes to what their replies amount to.
pub proof fn law_generic_fetch_completes(
    primary: Option<Result<Seq<char>, ErrorView>>,
    fallback: Option<Result<Seq<char>, ErrorView>>,
)
    ensures
        ({
            let start = generic_start(repliers(primary, fallback));
            let once = generic_next(start, primary, fallback);
            let twice = generic_next(once, primary, fallback);
            &&& start is AskPrimary ==> primary is Some
            &&& start is AskFallback || once is AskFallback ==> fallback is Some
            &&& once !is AskPrimary
            &&& twice == GenericFetchView::Done(generic_result(primary, fallback))
        }),
{
}

/// The fallback is not asked for a page that the primary backend has text for.
pub proof fn law_primary_text_is_enough(
    primary: Result<Seq<char>, ErrorView>,
    fallback: Option<Result<Seq<char>, ErrorView>>,
)
    requires
        usable(primary),
    ensures
        generic_step(generic_start(repliers(Some(primary), fallback)), primary)
            == GenericFetchView::Done(primary),
        generic_result(Some(primary), fallback) == primary,
{
}

/// The fetch of a page is over once the specialists and at most two source
/// backends have replied, and comes to what those replies amount to.
pub proof fn law_fetch_completes(
    url: Seq<char>,
    parsed: Option<Seq<char>>,
    limit: Option<usize>,
    outcome: Result<(Seq<char>, SourceType), Seq<char>>,
    primary: Option<Result<Seq<char>, ErrorView>>,
    fallback: Option<Result<Seq<char>, ErrorView>>,
)
    ensures
        ({
            let start = fetch_start(url, parsed, limit, repliers(primary, fallback));
            let once = fetch_next(start, outcome, primary, fallback);
            let twice = fetch_next(once, outcome, primary, fallback);
            let thrice = fetch_next(twice, outcome, primary, fallback);
            thrice.stage == FetchStageView::Done(
                fetch_result(url, parsed, limit, outcome, primary, fallback),
            )
        }),
{
    law_generic_fetch_completes(primary, fallback);
}

/// The fetch of the page of one source is over once the specialists and at most
/// two source backends have replied, and comes to what those replies amount to.
pub proof fn law_enrichment_completes(
    index: nat,
    url: Seq<char>,
    parsed: Option<Seq<char>>,
    max_chars: nat,
    outcome: ResolutionView,
    primary: Option<Result<Seq<char>, ErrorView>>,
    fallback: Option<Result<Seq<char>, ErrorView>>,
)
    ensures
        ({
            let start = job_start(index, url, parsed, max_chars, repliers(primary, fallback));
            let once = job_next(start, outcome, primary, fallback);
            let twice = job_next(once, outcome, primary, fallback);
            let thrice = job_next(twice, outcome, primary, fallback);
            thrice.stage == EnrichStageView::Done(
                enriched_text(
                    url,
                    parsed,
                    max_chars,
                    outcome,
                    Some(generic_result(primary, fallback)),
                ),
            )
        }),
{
    law_generic_fetch_completes(primary, fallback);
}

/// A deadline that passes while a source backend is being asked ends the fetch
/// with a note, never with an error.
pub proof fn law_deadline_yields_a_note(job: JobView)
    requires
        job.stage is Generic,
    ensures
        enrich::after_deadline(job).stage == EnrichStageView::Done(
            failure_note("timeout"@, job.url),
        ),
{
}

/// The text of a page as it was delivered, where it was: by a specialist, or by a
/// source backend after the specialists had failed.
pub open spec fn delivered(
    parsed: Option<Seq<char>>,
    outcome: ResolutionView,
    generic: Option<Result<Seq<char>, ErrorView>>,
) -> Option<Seq<char>> {
    match (parsed, outcome, generic) {
        (Some(_), ResolutionView::Text(text), _) => Some(text),
        (Some(_), ResolutionView::Failed(_), Some(Ok(text))) => Some(text),
        _ => None,
    }
}

/// The text that a source carries is the start of the page, where a page that is
/// not empty was delivered, and a note in every other case.
pub proof fn law_enriched_text_is_page_or_note(
    url: Seq<char>,
    parsed: Option<Seq<char>>,
    max_chars: nat,
    outcome: ResolutionView,
    generic: Option<Result<Seq<char>, ErrorView>>,
)
    ensures
        ({
            let text = enriched_text(url, parsed, max_chars, outcome, generic);
            match delivered(parsed, outcome, generic) {
                Some(page) => if page.len() > 0 {
                    text == prefix(page, max_chars)
                } else {
                    exists|reason: Seq<char>| text == #[trigger] failure_note(reason, url)
                },
                None => exists|reason: Seq<char>| text == #[trigger] failure_note(reason, url),
            }
        }),
{
    let text = enriched_text(url, parsed, max_chars, outcome, generic);
    let reason = match (parsed, outcome, generic) {
        (None, _, _) => "invalid_url"@,
        (_, ResolutionView::Text(_), _) => EMPTY_CONTENT@,
        (_, ResolutionView::Failed(reason), Some(_)) => reason,
        _ => "timeout"@,
    };
    match delivered(parsed, outcome, generic) {
        Some(page) => {
            assert(page.len() == 0 ==> text == failure_note(reason, url));
        },
        None => {
            assert(text == failure_note(reason, url));
        },
    }
}

/// A source that was enriched carries text that is not empty, whatever failed, as
/// long as any text may be carried at all.
pub proof fn law_enriched_text_is_never_empty(
    url: Seq<char>,
    parsed: Option<Seq<char>>,
    max_chars: nat,
    outcome: ResolutionView,
    generic: Option<Result<Seq<char>, ErrorView>>,
)
    requires
        max_chars > 0,
    ensures
        enriched_text(url, parsed, max_chars, outcome, generic).len() > 0,
{
    reveal_strlit("_Failed to retrieve: ");
}

/// The text of a page is cut to the configured length; only a note can be longer.
pub proof fn law_enriched_text_is_bounded(
    url: Seq<char>,
    parsed: Option<Seq<char>>,
    max_chars: nat,
    outcome: ResolutionView,
    generic: Option<Result<Seq<char>, ErrorView>>,
)
    ensures
        ({
            let text = enriched_text(url, parsed, max_chars, outcome, generic);
            text.len() <= max_chars || exists|reason: Seq<char>|
                text == #[trigger] failure_note(reason, url)
        }),
{
}

/// A specialist that fails is no loss where a source backend has the page: the
/// source carries the text of the backend, whatever the specialist's reason.
pub proof fn law_backend_rescues_failed_specialist(
    url: Seq<char>,
    parsed: Seq<char>,
    max_chars: nat,
    reason: Seq<char>,
    text: Seq<char>,
)
    requires
        text.len() > 0,
    ensures
        enriched_text(
            url,
            Some(parsed),
            max_chars,
            ResolutionView::Failed(reason),
            Some(Ok(text)),
        ) == prefix(text, max_chars),
{
}

/// A fetch and a search get the same text for the same page from the same replies;
/// the search cuts it to its own length. Where the fetch has no text, or an empty
/// one, the search has a note.
pub proof fn law_search_and_fetch_agree(
    url: Seq<char>,
    parsed: Seq<char>,
    max_chars: nat,
    outcome: Result<(Seq<char>, SourceType), Seq<char>>,
    primary: Option<Result<Seq<char>, ErrorView>>,
    fallback: Option<Result<Seq<char>, ErrorView>>,
)
    ensures
        ({
            let report = match outcome {
                Ok((text, _)) => ResolutionView::Text(text),
                Err(reason) => ResolutionView::Failed(reason),
            };
            let text = enriched_text(
                url,
                Some(parsed),
                max_chars,
                report,
                Some(generic_result(primary, fallback)),
            );
            match fetch_result(url, Some(parsed), None, outcome, primary, fallback) {
                Ok(output) => if output.content.len() > 0 {
                    text == prefix(output.content, max_chars)
                } else {
                    text == failure_note(
                        match outcome {
                            Ok(_) => EMPTY_CONTENT@,
                            Err(reason) => reason,
                        },
                        url,
                    )
                },
                Err(_) => outcome is Err && text == failure_note(outcome->Err_0, url),
            }
        }),
{
}

/// A result says why a specialist failed exactly where one knew the site and
/// failed; that nobody knows the site, or that the address is malformed, goes
/// unsaid.
pub proof fn law_only_specialist_failures_are_reported(
    url: Seq<char>,
    parsed: Option<Seq<char>>,
    limit: Option<usize>,
    outcome: Result<(Seq<char>, SourceType), Seq<char>>,
    primary: Option<Result<Seq<char>, ErrorView>>,
    fallback: Option<Result<Seq<char>, ErrorView>>,
)
    requires
        fetch_result(url, parsed, limit, outcome, primary, fallback) is Ok,
    ensures
        ({
            let output = fetch_result(url, parsed, limit, outcome, primary, fallback)->Ok_0;
            let failed = parsed is Some && outcome is Err && outcome->Err_0
                != NO_SPECIALIST_MATCH@;
            &&& output.fallback_reason is Some <==> failed
            &&& failed ==> output.fallback_reason == Some(outcome->Err_0)
            &&& output.fallback_reason is Some ==> output.source_type == SourceType::Generic
        }),
{
}

/// A fetched text is within the limit, it is the start of the whole text, it is
/// marked exactly where something is missing, and the length given is that of the
/// whole.
pub proof fn law_fetch_limit_is_kept(
    url: Seq<char>,
    content: Seq<char>,
    limit: Option<usize>,
    source_type: SourceType,
    fallback_reason: Option<Seq<char>>,
)
    ensures
        ({
            let output = limited(url, content, limit, source_type, fallback_reason);
            &&& limit is Some ==> output.content.len() <= limit->0
            &&& output.content.is_prefix_of(content)
            &&& output.truncated <==> output.content != content
            &&& output.original_length == content.len()
        }),
{
    let output = limited(url, content, limit, source_type, fallback_reason);
    assert(output.content =~= content.subrange(0, output.content.len() as int));
}

/// The search for supplemental sources once the backend that it asks, if it asks
/// one, has replied.
pub open spec fn gathering_next(
    state: GatheringView,
    primary: Option<Result<Seq<SourceView>, ErrorView>>,
    fallback: Option<Result<Seq<SourceView>, ErrorView>>,
) -> GatheringView {
    match state {
        GatheringView::AskPrimary { .. } => gathering_step(state, primary->0),
        GatheringView::AskFallback => gathering_step(state, fallback->0),
        GatheringView::Done { .. } => state,
    }
}

/// The search for supplemental sources asks at most two backends, each one that is
/// there, and comes to what their replies amount to.
pub proof fn law_gathering_completes(
    count: nat,
    primary: Option<Result<Seq<SourceView>, ErrorView>>,
    fallback: Option<Result<Seq<SourceView>, ErrorView>>,
)
    ensures
        ({
            let start = gathering_start(count, repliers(primary, fallback));
            let once = gathering_next(start, primary, fallback);
            let twice = gathering_next(once, primary, fallback);
            let (sources, origin) = gathered(count, primary, fallback);
            &&& count == 0 ==> start is Done
            &&& start is AskPrimary ==> primary is Some
            &&& start is AskFallback || once is AskFallback ==> fallback is Some
            &&& twice == GatheringView::Done { sources, origin }
        }),
{
}

/// Supplemental sources come from one backend or from none, and which one is known
/// exactly where there are any.
pub proof fn law_sources_have_one_origin(
    count: nat,
    primary: Option<Result<Seq<SourceView>, ErrorView>>,
    fallback: Option<Result<Seq<SourceView>, ErrorView>>,
)
    ensures
        ({
            let (sources, origin) = gathered(count, primary, fallback);
            &&& sources.len() == 0 <==> origin == RawSourceOrigin::Absent
            &&& origin == RawSourceOrigin::Primary ==> primary == Some(
                Ok::<Seq<SourceView>, ErrorView>(sources),
            )
            &&& origin == RawSourceOrigin::Fallback ==> fallback == Some(
                Ok::<Seq<SourceView>, ErrorView>(sources),
            ) && !(primary is Some && found(primary->0))
        }),
{
}

/// The listing of a site once the backend that it asks, if it asks one, has
/// replied.
pub open spec fn map_next(
    state: SiteMapView,
    primary: Option<Result<Seq<SourceView>, ErrorView>>,
    fallback: Option<Result<Seq<SourceView>, ErrorView>>,
) -> SiteMapView {
    match state {
        SiteMapView::AskPrimary { .. } => map_step(state, primary->0),
        SiteMapView::AskFallback => map_step(state, fallback->0),
        SiteMapView::Done(_) => state,
    }
}

/// The listing of a site asks at most two backends, each one that is there, and
/// comes to what their replies amount to.
pub proof fn law_listing_completes(
    primary: Option<Result<Seq<SourceView>, ErrorView>>,
    fallback: Option<Result<Seq<SourceView>, ErrorView>>,
)
    ensures
        ({
            let start = map_start(repliers(primary, fallback));
            let once = map_next(start, primary, fallback);
            let twice = map_next(once, primary, fallback);
            &&& start is AskPrimary ==> primary is Some
            &&& start is AskFallback || once is AskFallback ==> fallback is Some
            &&& twice == SiteMapView::Done(map_result(primary, fallback))
        }),
{
}

/// A fetch through the source backends comes to the text of the primary one where
/// that is not blank, and to exactly what the fallback replies where it is asked;
/// without a fallback the failure of the primary one is reported as it is.
pub proof fn law_backends_are_taken_at_their_word(
    text: Seq<char>,
    error: ErrorView,
    other: Result<Seq<char>, ErrorView>,
)
    ensures
        !is_blank(text) ==> {
            &&& generic_result(Some(Ok(text)), None) == Ok::<Seq<char>, ErrorView>(text)
            &&& generic_result(Some(Ok(text)), Some(other)) == Ok::<Seq<char>, ErrorView>(text)
        },
        is_blank(text) ==> {
            &&& generic_result(Some(Ok(text)), Some(other)) == other
            &&& generic_result(Some(Ok(text)), None) == Err::<Seq<char>, ErrorView>(
                ErrorView::Provider("primary fetch provider returned empty content"@),
            )
        },
        generic_result(Some(Err(error)), Some(other)) == other,
        generic_result(Some(Err(error)), None) == Err::<Seq<char>, ErrorView>(error),
        generic_result(None, Some(other)) == other,
        generic_result(None, None) == Err::<Seq<char>, ErrorView>(
            ErrorView::MissingConfig("TAVILY_API_KEY or FIRECRAWL_API_KEY"@),
        ),
{
}

/// Whatever is replied to the fetch of a page, it stays the fetch of that page,
/// under the same limit and with the same backends.
pub proof fn law_fetch_stays_the_same_fetch(
    url: Seq<char>,
    parsed: Option<Seq<char>>,
    limit: Option<usize>,
    backends: Backends,
    run: FetchRunView,
    outcome: Result<(Seq<char>, SourceType), Seq<char>>,
    reply: Result<Seq<char>, ErrorView>,
)
    ensures
        fetch_start(url, parsed, limit, backends).url == url,
        fetch_start(url, parsed, limit, backends).limit == limit,
        fetch_start(url, parsed, limit, backends).backends == backends,
        parsed is Some ==> fetch_start(url, parsed, limit, backends).stage == (
        FetchStageView::Resolve { parsed: parsed->0 }),
        fetch::after_resolution(run, outcome).url == run.url,
        fetch::after_resolution(run, outcome).limit == run.limit,
        fetch::after_resolution(run, outcome).backends == run.backends,
        fetch::after_reply(run, reply).url == run.url,
        fetch::after_reply(run, reply).limit == run.limit,
        fetch::after_reply(run, reply).backends == run.backends,
{
}

/// The text of a specialist is returned as its own; where there is none, the text
/// of a source backend is, and where there is none either, the failure of the
/// backends. The start of the text is returned that the limit leaves, and what
/// went before is told only where a specialist that knows the site failed.
pub proof fn law_fetch_returns_what_was_delivered(
    url: Seq<char>,
    parsed: Option<Seq<char>>,
    limit: Option<usize>,
    outcome: Result<(Seq<char>, SourceType), Seq<char>>,
    primary: Option<Result<Seq<char>, ErrorView>>,
    fallback: Option<Result<Seq<char>, ErrorView>>,
)
    ensures
        ({
            let result = fetch_result(url, parsed, limit, outcome, primary, fallback);
            let generic = generic_result(primary, fallback);
            let special = parsed is Some && outcome is Ok;
            let whole = if special {
                outcome->Ok_0.0
            } else {
                generic->Ok_0
            };
            &&& result is Ok <==> special || generic is Ok
            &&& result is Err ==> result->Err_0 == generic->Err_0
            &&& result is Ok ==> {
                let output = result->Ok_0;
                &&& output.url == url
                &&& output.original_length == whole.len()
                &&& limit is None ==> output.content == whole
                &&& limit is Some && whole.len() <= limit->0 ==> output.content == whole
                &&& limit is Some && whole.len() > limit->0 ==> output.content == whole.take(
                    limit->0 as int,
                )
                &&& output.truncated <==> limit is Some && whole.len() > limit->0
                &&& output.source_type == if special {
                    outcome->Ok_0.1
                } else {
                    SourceType::Generic
                }
                &&& output.fallback_reason == if parsed is Some && outcome is Err
                    && outcome->Err_0 != "no_specialist_match"@ {
                    Some(outcome->Err_0)
                } else {
                    None
                }
            }
        }),
{
}

/// A limit that the caller gives holds, whatever the configuration says: the text
/// that a fetch comes to has no more characters. Without one, the configured limit
/// holds; without that, the text is whole.
pub proof fn law_callers_limit_goes_first(
    config: Config,
    max_chars: Option<usize>,
    url: Seq<char>,
    parsed: Option<Seq<char>>,
    outcome: Result<(Seq<char>, SourceType), Seq<char>>,
    primary: Option<Result<Seq<char>, ErrorView>>,
    fallback: Option<Result<Seq<char>, ErrorView>>,
)
    ensures
        ({
            let limit = fetch_limit(config, max_chars);
            let result = fetch_result(url, parsed, limit, outcome, primary, fallback);
            &&& max_chars matches Some(n) ==> {
                &&& limit == Some(n)
                &&& result is Ok ==> result->Ok_0.content.len() <= n
            }
            &&& max_chars is None ==> limit == config.fetch_max_chars
            &&& max_chars is None && config.fetch_max_chars is None && result is Ok
                ==> !result->Ok_0.truncated
        }),
{
    law_fetch_returns_what_was_delivered(
        url,
        parsed,
        fetch_limit(config, max_chars),
        outcome,
        primary,
        fallback,
    );
}

/// What a source carries, case by case: the start of the text that a specialist or
/// else a backend delivered, or the note that says why there is none.
pub proof fn law_carried_texts_case_by_case(
    url: Seq<char>,
    parsed: Seq<char>,
    max_chars: nat,
    text: Seq<char>,
    reason: Seq<char>,
    error: ErrorView,
    outcome: ResolutionView,
    generic: Option<Result<Seq<char>, ErrorView>>,
)
    ensures
        ({
            let note = |why: Seq<char>| "_Failed to retrieve: "@ + why + "_\n\nSource: "@ + url;
            let start = if text.len() <= max_chars {
                text
            } else {
                text.take(max_chars as int)
            };
            let carried = |outcome: ResolutionView, generic: Option<Result<Seq<char>, ErrorView>>|
                enriched_text(url, Some(parsed), max_chars, outcome, generic);
            &&& enriched_text(url, None, max_chars, outcome, generic) == note("invalid_url"@)
            &&& text.len() > 0 ==> carried(ResolutionView::Text(text), generic) == start
            &&& text.len() == 0 ==> carried(ResolutionView::Text(text), generic) == note(
                "empty_content"@,
            )
            &&& carried(ResolutionView::TimedOut, generic) == note("timeout"@)
            &&& carried(ResolutionView::Failed(reason), None) == note("timeout"@)
            &&& text.len() > 0 ==> carried(ResolutionView::Failed(reason), Some(Ok(text)))
                == start
            &&& text.len() == 0 ==> carried(ResolutionView::Failed(reason), Some(Ok(text)))
                == note(reason)
            &&& carried(ResolutionView::Failed(reason), Some(Err(error))) == note(reason)
        }),
{
}

/// Whatever is replied to the fetch of one page, it stays the fetch of that page:
/// its place, its address, its limit and the backends that it may use. It starts
/// with the specialists where the page has an address.
pub proof fn law_page_fetch_stays_the_same_fetch(
    index: nat,
    url: Seq<char>,
    parsed: Option<Seq<char>>,
    max_chars: nat,
    backends: Backends,
    job: JobView,
    outcome: ResolutionView,
    reply: Result<Seq<char>, ErrorView>,
)
    ensures
        ({
            let start = job_start(index, url, parsed, max_chars, backends);
            let same = |one: JobView, two: JobView|
                one.index == two.index && one.url == two.url && one.parsed == two.parsed
                    && one.max_chars == two.max_chars && one.backends == two.backends;
            &&& start.index == index
            &&& start.url == url
            &&& start.parsed == parsed
            &&& start.max_chars == max_chars
            &&& start.backends == backends
            &&& parsed is Some ==> start.stage == (EnrichStageView::Resolve {
                parsed: parsed->0,
            })
            &&& same(enrich::after_resolution(job, outcome), job)
            &&& same(enrich::after_reply(job, reply), job)
            &&& same(enrich::after_deadline(job), job)
        }),
{
}

/// Where the specialists and the primary backend fail, the fallback backend is
/// asked wherever there is one, and the source carries the start of its text;
/// alone, it is asked at once.
pub proof fn law_fallback_delivers_the_page(
    job: JobView,
    reason: Seq<char>,
    first: Result<Seq<char>, ErrorView>,
    text: Seq<char>,
)
    requires
        job.stage is Resolve,
        job.backends.fallback,
        text.len() > 0,
    ensures
        ({
            let asked = enrich::after_resolution(job, ResolutionView::Failed(reason));
            let carried = EnrichStageView::Done(
                if text.len() <= job.max_chars {
                    text
                } else {
                    text.take(job.max_chars as int)
                },
            );
            &&& !job.backends.primary ==> enrich::after_reply(asked, Ok(text)).stage == carried
            &&& job.backends.primary && (first is Err || is_blank(first->Ok_0))
                ==> enrich::after_reply(enrich::after_reply(asked, first), Ok(text)).stage
                == carried
        }),
{
}

/// Supplemental sources are all that the primary backend found, in its order; where
/// it found none or failed, all that the fallback found; nobody is asked for none.
pub proof fn law_gathered_sources_are_the_backends(
    count: nat,
    sources: Seq<SourceView>,
    error: ErrorView,
    other: Option<Result<Seq<SourceView>, ErrorView>>,
)
    requires
        sources.len() > 0,
    ensures
        gathered(0, Some(Ok(sources)), other) == (
            Seq::<SourceView>::empty(),
            RawSourceOrigin::Absent,
        ),
        gathering_start(0, Backends { primary: true, fallback: true }) is Done,
        count > 0 ==> {
            &&& gathered(count, Some(Ok(sources)), other) == (sources, RawSourceOrigin::Primary)
            &&& gathered(count, None, Some(Ok(sources))) == (sources, RawSourceOrigin::Fallback)
            &&& gathered(count, Some(Err(error)), Some(Ok(sources))) == (
                sources,
                RawSourceOrigin::Fallback,
            )
            &&& gathered(count, Some(Ok(Seq::empty())), Some(Ok(sources))) == (
                sources,
                RawSourceOrigin::Fallback,
            )
        },
        gathered(count, Some(Err(error)), Some(Err(error))).0.len() == 0,
        gathered(count, Some(Err(error)), None).0.len() == 0,
        gathered(count, None, Some(Err(error))).0.len() == 0,
        gathered(count, None, None).0.len() == 0,
{
}

/// The listing of a site is exactly the reply of the primary backend where that
/// lists anything, and exactly the reply of the fallback where it is asked: all of
/// its pages in their order, or its failure. Without a fallback the failure of the
/// primary backend is reported as it is.
pub proof fn law_listings_are_the_backends(
    sources: Seq<SourceView>,
    error: ErrorView,
    other: Result<Seq<SourceView>, ErrorView>,
)
    ensures
        sources.len() > 0 ==> {
            &&& map_result(Some(Ok(sources)), None) == Ok::<Seq<SourceView>, ErrorView>(sources)
            &&& map_result(Some(Ok(sources)), Some(other)) == Ok::<Seq<SourceView>, ErrorView>(
                sources,
            )
        },
        sources.len() == 0 ==> {
            &&& map_result(Some(Ok(sources)), Some(other)) == other
            &&& map_result(Some(Ok(sources)), None) == Err::<Seq<SourceView>, ErrorView>(
                ErrorView::Provider("primary map provider returned no sources"@),
            )
        },
        map_result(Some(Err(error)), Some(other)) == other,
        map_result(Some(Err(error)), None) == Err::<Seq<SourceView>, ErrorView>(error),
        map_result(None, Some(other)) == other,
        map_result(None, None) == Err::<Seq<SourceView>, ErrorView>(
            ErrorView::MissingConfig("TAVILY_API_KEY or FIRECRAWL_API_KEY"@),
        ),
{
}

/// A listing asks the primary backend first where there is one, else the fallback;
/// what the fallback replies ends the listing as it is, and so does what the
/// primary backend lists.
pub proof fn law_listing_steps_take_replies_whole(
    backends: Backends,
    reply: Result<Seq<SourceView>, ErrorView>,
)
    ensures
        backends.primary ==> map_start(backends) == (SiteMapView::AskPrimary {
            has_fallback: backends.fallback,
        }),
        !backends.primary && backends.fallback ==> map_start(backends) is AskFallback,
        map_step(SiteMapView::AskFallback, reply) == SiteMapView::Done(reply),
        reply is Ok && reply->Ok_0.len() > 0 ==> map_step(
            SiteMapView::AskPrimary { has_fallback: backends.fallback },
            reply,
        ) == SiteMapView::Done(reply),
        reply is Err || reply->Ok_0.len() == 0 ==> map_step(
            SiteMapView::AskPrimary { has_fallback: true },
            reply,
        ) is AskFallback,
        reply is Err ==> map_step(SiteMapView::AskPrimary { has_fallback: false }, reply)
            == SiteMapView::Done(reply),
{
}

/// A fetch through the source backends asks the primary one first where there is
/// one, else the fallback; what the fallback replies ends it as it is, and so does
/// text of the primary one.
pub proof fn law_generic_steps_take_replies_whole(
    backends: Backends,
    reply: Result<Seq<char>, ErrorView>,
)
    ensures
        backends.primary ==> generic_start(backends) == (GenericFetchView::AskPrimary {
            has_fallback: backends.fallback,
        }),
        !backends.primary && backends.fallback ==> generic_start(backends) is AskFallback,
        generic_step(GenericFetchView::AskFallback, reply) == GenericFetchView::Done(reply),
        reply is Ok && !is_blank(reply->Ok_0) ==> generic_step(
            GenericFetchView::AskPrimary { has_fallback: backends.fallback },
            reply,
        ) == GenericFetchView::Done(reply),
        reply is Err || is_blank(reply->Ok_0) ==> generic_step(
            GenericFetchView::AskPrimary { has_fallback: true },
            reply,
        ) is AskFallback,
        reply is Err ==> generic_step(GenericFetchView::AskPrimary { has_fallback: false }, reply)
            == GenericFetchView::Done(reply),
{
}

/// A search for supplemental sources asks the primary backend first where there is
/// one, else the fallback; what they find ends it, with all that was found.
pub proof fn law_gathering_steps_take_replies_whole(
    count: nat,
    backends: Backends,
    reply: Result<Seq<SourceView>, ErrorView>,
)
    requires
        count > 0,
    ensures
        backends.primary ==> gathering_start(count, backends) == (GatheringView::AskPrimary {
            has_fallback: backends.fallback,
        }),
        !backends.primary && backends.fallback ==> gathering_start(
            count,
            backends,
        ) is AskFallback,
        reply is Ok && reply->Ok_0.len() > 0 ==> {
            &&& gathering_step(
                GatheringView::AskPrimary { has_fallback: backends.fallback },
                reply,
            ) == (GatheringView::Done { sources: reply->Ok_0, origin: RawSourceOrigin::Primary })
            &&& gathering_step(GatheringView::AskFallback, reply) == (GatheringView::Done {
                sources: reply->Ok_0,
                origin: RawSourceOrigin::Fallback,
            })
        },
        reply is Err || reply->Ok_0.len() == 0 ==> gathering_step(
            GatheringView::AskPrimary { has_fallback: true },
            reply,
        ) is AskFallback,
{
}

} // verus!
