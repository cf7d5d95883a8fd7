//! What a caller holds in hand after each operation of the service.

use crate::answer::RawSourceOrigin;
use crate::cache::SourceCache;
use crate::config::Config;
use crate::doctor::{DoctorReport, Probe};
use crate::error::GrokSearchError;
use crate::fetch::{fetch_reply, FetchStage, WebFetchRun};
use crate::gather::{found, opt_sources_reply, search_reply, SourceGathering};
use crate::model::search::{SearchFilters, SearchResponse};
use crate::model::source::{sources_of, sources_reply, Source};
use crate::model::tool::{
    GetSourcesOutput, SourceType, WebFetchOutput, WebSearchInput, WebSearchOutput,
};
use crate::plan::ProviderPlan;
use crate::provider::{Backends, SourceProvider};
use crate::search::{SearchDraft, WebSearchRun};
use crate::service::SearchService;
use crate::sitemap::{map_reply, SiteMapStage, WebMapRun};
use crate::text::is_blank;
use vstd::prelude::*;

verus! {

/// A search that was started carries the caller's words, restrictions and wishes;
/// one is refused only for its response format.
pub proof fn law_started_search_carries_the_input(
    service: SearchService,
    input: WebSearchInput,
    session_id: String,
    result: Result<WebSearchRun, GrokSearchError>,
)
    requires
        call_ensures(SearchService::begin_search, (&service, input, session_id), result),
    ensures
        input.response_format is None ==> result is Ok,
        result matches Err(error) ==> error is InvalidParams,
        result matches Ok(run) ==> {
            &&& run.session_id@ == session_id@
            &&& run.query@ == input.query@
            &&& run.filters.recency_days == input.recency_days
            &&& run.filters.include_domains@.len() == input.include_domains@.len()
            &&& run.filters.exclude_domains@.len() == input.exclude_domains@.len()
            &&& input.extra_sources is Some ==> run.extra_sources == input.extra_sources->0
            &&& input.extra_sources is None ==> run.extra_sources
                == service@.config.default_extra_sources
            &&& input.model is Some ==> run.request.model@ == input.model->0@
            &&& input.model is None ==> run.request.model@ == service@.default_model
            &&& input.response_format is None && input.include_content is Some
                ==> run.include_content == input.include_content->0
            &&& run.speculative_count >= run.extra_sources
            &&& run.speculative_count >= service@.config.fallback_sources
        },
{
    if let Ok(run) = result {
        assert(run@.filters.include_domains.len() == run.filters.include_domains@.len());
        assert(run@.filters.exclude_domains.len() == run.filters.exclude_domains@.len());
    }
}

/// A draft that stands in for a failed answer holds the first sources that the
/// backend found, none lost, and goes by the reason of the failure; its pages may be
/// fetched through every backend that the service has.
pub proof fn law_draft_of_a_failure_holds_the_sources(
    service: SearchService,
    run: WebSearchRun,
    error: GrokSearchError,
    raw: Vec<Source>,
    origin: RawSourceOrigin,
    draft: SearchDraft,
)
    requires
        call_ensures(SearchService::draft_search, (&service, run, Err(error), raw, origin), draft),
    ensures
        draft@.session_id == run.session_id@,
        draft@.fallback_reason is Some,
        draft@.sources.len() == if raw@.len() < service@.config.fallback_sources {
            raw@.len() as int
        } else {
            service@.config.fallback_sources as int
        },
        forall|i: int|
            0 <= i < draft@.sources.len() ==> (#[trigger] draft@.sources[i]).url == raw@[i].url@,
        draft@.pool.backends.primary <==> service@.plan.primary is Some,
        draft@.pool.backends.fallback <==> service@.plan.fallback is Some,
{
}

/// The result of a draft belongs to its session; the answer is whole where it is
/// verified, and the sources are in their order; all of them are kept.
pub proof fn law_result_belongs_to_its_draft(
    response_max_chars: usize,
    draft: SearchDraft,
    result: (WebSearchOutput, Vec<Source>),
)
    requires
        call_ensures(crate::search::finish_search, (response_max_chars, draft), result),
    ensures
        result.0.session_id@ == draft@.session_id,
        result.0.sources_count == draft@.sources.len(),
        result.1@.len() == draft@.sources.len(),
        result.0.fallback_used <==> draft@.fallback_reason is Some,
        draft@.fallback_reason is None ==> result.0.content@ == draft@.content,
        forall|i: int|
            0 <= i < result.1@.len() ==> (#[trigger] result.1@[i]).url@ == draft@.sources[i].url,
{
    let kept = sources_of(result.1@);
    assert(kept.len() == result.1@.len());
    assert forall|i: int| 0 <= i < result.1@.len() implies (#[trigger] result.1@[i]).url@
        == draft@.sources[i].url by {
        assert(kept[i] == result.1@[i]@);
    }
}

/// A page is served exactly where the session is kept, and tells where it stands.
pub proof fn law_page_is_served_where_kept(
    service: SearchService,
    sessions: SourceCache,
    session_id: &str,
    offset: usize,
    limit: Option<usize>,
    result: Result<GetSourcesOutput, GrokSearchError>,
)
    requires
        call_ensures(
            SearchService::get_sources,
            (&service, &sessions, session_id, offset, limit),
            result,
        ),
    ensures
        result is Ok <==> sessions@.lookup(session_id@) is Some,
        result matches Err(error) ==> error is NotFound,
        result matches Ok(page) ==> {
            &&& page.session_id@ == session_id@
            &&& page.offset == offset
            &&& page.sources_count == page.sources@.len()
            &&& page.total_sources == sessions@.lookup(session_id@)->0.len()
            &&& limit is Some ==> page.sources@.len() <= limit->0
        },
{
    if let Ok(page) = result {
        crate::laws::sessions::law_page_holds_what_was_asked_for(
            session_id@,
            sessions@.lookup(session_id@)->0,
            offset as nat,
            crate::paging::limit_of(limit),
            service@.config.response_max_chars as nat,
        );
        assert(page@.sources.len() == page.sources@.len());
    }
}

/// The fetch that is started is that of the caller's page, under the caller's limit
/// where there is one, and through the backends that the service has.
pub proof fn law_fetch_is_the_callers(
    service: SearchService,
    url: &str,
    max_chars: Option<usize>,
    run: WebFetchRun,
)
    requires
        call_ensures(SearchService::web_fetch, (&service, url, max_chars), run),
    ensures
        run.url@ == url@,
        max_chars is Some ==> run.limit == max_chars,
        max_chars is None ==> run.limit == service@.config.fetch_max_chars,
        run.backends.primary <==> service@.plan.primary is Some,
        run.backends.fallback <==> service@.plan.fallback is Some,
{
}

/// A fetched page is within its limit, which is the one that the fetch began with.
pub proof fn law_fetched_page_is_within_the_limit(
    run: WebFetchRun,
    outcome: Result<(String, SourceType), String>,
    reply: Result<String, GrokSearchError>,
    resolved: WebFetchRun,
    replied: WebFetchRun,
)
    requires
        call_ensures(WebFetchRun::on_resolved, (run, outcome), resolved),
        call_ensures(WebFetchRun::on_reply, (run, reply), replied),
        run.stage !is Done,
    ensures
        resolved.limit == run.limit && resolved.url@ == run.url@,
        replied.limit == run.limit && replied.url@ == run.url@,
        resolved.stage matches FetchStage::Done(Ok(output)) ==> {
            &&& output.url@ == run.url@
            &&& run.limit is Some ==> output.content@.len() <= run.limit->0
        },
        replied.stage matches FetchStage::Done(Ok(output)) ==> {
            &&& output.url@ == run.url@
            &&& run.limit is Some ==> output.content@.len() <= run.limit->0
        },
{
    assert(resolved@.limit == resolved.limit && replied@.limit == replied.limit);
    if let FetchStage::Done(Ok(output)) = resolved.stage {
        assert(resolved@.stage->Done_0->Ok_0 == output@);
    }
    if let FetchStage::Done(Ok(output)) = replied.stage {
        assert(replied@.stage->Done_0->Ok_0 == output@);
    }
}

/// Cutting a page to a limit keeps its start and tells its whole length.
pub proof fn law_limited_page_is_the_start(
    url: &str,
    content: String,
    max_chars: Option<usize>,
    source_type: SourceType,
    fallback_reason: Option<String>,
    output: WebFetchOutput,
)
    requires
        call_ensures(
            crate::fetch::apply_fetch_limit,
            (url, content, max_chars, source_type, fallback_reason),
            output,
        ),
    ensures
        output.url@ == url@,
        output.original_length == content@.len(),
        output.source_type == source_type,
        output.fallback_reason is Some <==> fallback_reason is Some,
        max_chars is None ==> output.content@ == content@ && !output.truncated,
        max_chars matches Some(limit) ==> {
            &&& content@.len() <= limit ==> output.content@ == content@ && !output.truncated
            &&& content@.len() > limit ==> output.content@ == content@.take(limit as int)
                && output.truncated
        },
{
}

/// The listing that is started is that of the caller's site and size, and what the
/// backends reply to it is returned whole.
pub proof fn law_listing_is_the_callers(
    service: SearchService,
    url: &str,
    max_results: usize,
    run: WebMapRun,
    reply: Result<Vec<Source>, GrokSearchError>,
    after: WebMapRun,
)
    requires
        call_ensures(SearchService::web_map, (&service, url, max_results), run),
        call_ensures(WebMapRun::on_reply, (run, reply), after),
    ensures
        run.url@ == url@,
        run.max_results == max_results,
        after.url@ == url@,
        after.max_results == max_results,
        service@.plan.primary is Some <==> run.stage is AskPrimary,
        service@.plan.primary is None && service@.plan.fallback is Some
            <==> run.stage is AskFallback,
        run.stage is AskFallback || (run.stage is AskPrimary && reply is Ok
            && reply->Ok_0@.len() > 0) ==> {
            &&& after.stage is Done
            &&& after.stage->Done_0 is Ok <==> reply is Ok
            &&& reply matches Ok(sources) ==> {
                let listed = after.stage->Done_0->Ok_0@;
                &&& listed.len() == sources@.len()
                &&& forall|i: int|
                    0 <= i < listed.len() ==> (#[trigger] listed[i])@ == sources@[i]@
            }
        },
{
    if run.stage is AskFallback || (run.stage is AskPrimary && reply is Ok && reply->Ok_0@.len()
        > 0) {
        let told = sources_reply(reply);
        assert(after@.stage == crate::sitemap::SiteMapView::Done(told));
        assert(after.stage is Done);
        assert(sources_reply(after.stage->Done_0) == told);
        if let Ok(sources) = reply {
            let listed = after.stage->Done_0->Ok_0@;
            let seen = sources_of(listed);
            let given = sources_of(sources@);
            assert(seen == given);
            assert(listed.len() == seen.len() && sources@.len() == given.len());
            assert forall|i: int| 0 <= i < listed.len() implies (#[trigger] listed[i])@
                == sources@[i]@ by {
                assert(seen[i] == listed[i]@);
                assert(given[i] == sources@[i]@);
            }
        }
    }
}

/// A report tells what the probes found, and only of backends that there are.
pub proof fn law_doctor_tells_what_was_found(
    service: SearchService,
    default_auth_path: Option<String>,
    grok: Probe,
    tavily: Option<Probe>,
    firecrawl: Option<Probe>,
    report: DoctorReport,
)
    requires
        call_ensures(
            SearchService::doctor,
            (&service, default_auth_path, grok, tavily, firecrawl),
            report,
        ),
    ensures
        report.grok.reachable == grok.ok,
        report.grok.detail@ == grok.detail@,
        report.grok.model@ == service@.default_model,
        service@.plan.primary is Some && tavily is Some ==> {
            &&& report.tavily.reachable == tavily->0.ok
            &&& report.tavily.detail@ == tavily->0.detail@
        },
        service@.plan.primary is None ==> {
            &&& !report.tavily.reachable
            &&& report.tavily.detail@ == "TAVILY_API_KEY not configured"@
        },
        service@.plan.fallback is Some && firecrawl is Some ==> {
            &&& report.firecrawl.reachable == firecrawl->0.ok
            &&& report.firecrawl.detail@ == firecrawl->0.detail@
        },
        service@.plan.fallback is None ==> {
            &&& !report.firecrawl.reachable
            &&& report.firecrawl.detail@ == "FIRECRAWL_API_KEY not configured"@
        },
{
    assert(report@.grok.model == report.grok.model@);
    assert(report@.tavily.detail == report.tavily.detail@);
    assert(report@.firecrawl.detail == report.firecrawl.detail@);
}

/// A service with given backends has exactly these, with the settings given.
pub proof fn law_service_has_its_backends(
    config: Config,
    plan: ProviderPlan,
    cache_size: usize,
    service: SearchService,
    backends: Backends,
)
    requires
        call_ensures(SearchService::with_plan, (config, plan, cache_size), service),
        call_ensures(SearchService::backends, (&service,), backends),
    ensures
        service@.config == config,
        service@.cache_size == cache_size,
        backends.primary <==> plan.primary is Some,
        backends.fallback <==> plan.fallback is Some,
{
}

/// A backend is asked for the page, the site or the sources that the caller asks
/// for, with all that goes with the request; its reply is its own, and there is one
/// exactly where there is a backend.
pub proof fn law_backends_are_asked_what_was_asked<P: SourceProvider>(
    provider: P,
    text: &str,
    count: usize,
    filters: &SearchFilters,
    page: Result<String, GrokSearchError>,
    sources: Result<Vec<Source>, GrokSearchError>,
)
    ensures
        fetch_reply(Some(provider), text, Some(page)) <==> call_ensures(
            P::fetch,
            (&provider, text),
            page,
        ),
        map_reply(Some(provider), text, count, Some(sources)) <==> call_ensures(
            P::map,
            (&provider, text, count),
            sources,
        ),
        search_reply(Some(provider), text, count, filters, Some(sources)) <==> call_ensures(
            P::search_sources,
            (&provider, text, count, filters),
            sources,
        ),
        !fetch_reply(Some(provider), text, None),
        !map_reply(Some(provider), text, count, None),
        !search_reply(Some(provider), text, count, filters, None),
        !fetch_reply(None::<P>, text, Some(page)),
        !map_reply(None::<P>, text, count, Some(sources)),
        !search_reply(None::<P>, text, count, filters, Some(sources)),
{
}

/// A page that is fetched through a single backend is what that backend replies,
/// unless it replies a blank page.
pub proof fn law_single_backend_delivers_the_page<P: SourceProvider, F: SourceProvider>(
    provider: P,
    url: &str,
    result: Result<String, GrokSearchError>,
)
    requires
        call_ensures(
            crate::fetch::generic_source_fetch::<P, F>,
            (&Some(provider), &None::<F>, url),
            result,
        ),
    ensures
        result matches Ok(text) ==> !is_blank(text@) && exists|reply: String|
            reply@ == text@ && #[trigger] call_ensures(P::fetch, (&provider, url), Ok(reply)),
{
    let (first, second) = choose|
        first: Option<Result<String, GrokSearchError>>,
        second: Option<Result<String, GrokSearchError>>,
    |
        #![trigger crate::fetch::opt_text_reply(first), crate::fetch::opt_text_reply(second)]
        {
            let answered = first is Some && crate::fetch::usable(
                crate::error::text_reply(first->0),
            );
            &&& fetch_reply(Some(provider), url, first)
            &&& !answered ==> fetch_reply(None::<F>, url, second)
            &&& crate::error::text_reply(result) == crate::fetch::generic_result(
                crate::fetch::opt_text_reply(first),
                crate::fetch::opt_text_reply(second),
            )
        };
    if let Ok(text) = result {
        assert(first is Some);
        assert(first->0 is Ok);
        let reply = first->0->Ok_0;
        assert(first->0 == Ok::<String, GrokSearchError>(reply));
        assert(reply@ == text@);
        assert(call_ensures(P::fetch, (&provider, url), Ok(reply)));
    }
}

/// A gathering that is over holds all that the backend found.
pub proof fn law_gathering_loses_nothing(
    state: SourceGathering,
    reply: Result<Vec<Source>, GrokSearchError>,
    after: SourceGathering,
)
    requires
        call_ensures(SourceGathering::on_reply, (state, reply), after),
        state !is Done,
        reply is Ok,
        reply->Ok_0@.len() > 0,
    ensures
        after is Done,
        state is AskPrimary ==> after->origin == RawSourceOrigin::Primary,
        state is AskFallback ==> after->origin == RawSourceOrigin::Fallback,
        after->sources@.len() == reply->Ok_0@.len(),
        forall|i: int|
            0 <= i < after->sources@.len() ==> (#[trigger] after->sources@[i])@
                == reply->Ok_0@[i]@,
{
    let given = sources_of(reply->Ok_0@);
    assert(given.len() == reply->Ok_0@.len());
    assert(after@ is Done);
    let seen = sources_of(after->sources@);
    assert(after@->sources == seen && seen == given);
    assert(seen.len() == after->sources@.len());
    assert forall|i: int| 0 <= i < after->sources@.len() implies (
    #[trigger] after->sources@[i])@ == reply->Ok_0@[i]@ by {
        assert(seen[i] == after->sources@[i]@);
        assert(given[i] == reply->Ok_0@[i]@);
    }
}

/// The stage of a listing, asked alone, takes replies whole as well.
pub proof fn law_listing_stage_takes_the_fallback_whole(
    reply: Result<Vec<Source>, GrokSearchError>,
    after: SiteMapStage,
)
    requires
        call_ensures(SiteMapStage::on_reply, (SiteMapStage::AskFallback, reply), after),
    ensures
        after is Done,
        after->Done_0 is Ok <==> reply is Ok,
        reply is Ok ==> after->Done_0->Ok_0@.len() == reply->Ok_0@.len(),
        reply is Err ==> after->Done_0->Err_0@ == reply->Err_0@,
{
    assert(after@ is Done);
    let told = sources_reply(reply);
    assert(sources_reply(after->Done_0) == told);
    if reply is Ok {
        assert(told->Ok_0.len() == reply->Ok_0@.len());
        assert(sources_of(after->Done_0->Ok_0@).len()
            == after->Done_0->Ok_0@.len());
    }
}

/// An answer of the language model is verified exactly where it has text and cites
/// something.
pub proof fn law_verified_answers_are_told_apart(
    response: SearchResponse,
    reason: Option<&'static str>,
)
    requires
        call_ensures(crate::answer::grok_unverifiable_reason, (&response,), reason),
    ensures
        reason is None <==> !is_blank(response.content@) && response.sources@.len() > 0,
{
    assert(response@.sources.len() == response.sources@.len());
}

/// A site that is listed through the fallback alone is what the fallback replies.
pub proof fn law_single_backend_lists_the_site<P: SourceProvider, F: SourceProvider>(
    provider: F,
    url: &str,
    max_results: usize,
    result: Result<Vec<Source>, GrokSearchError>,
)
    requires
        call_ensures(
            crate::sitemap::map_site::<P, F>,
            (&None::<P>, &Some(provider), url, max_results),
            result,
        ),
    ensures
        exists|reply: Result<Vec<Source>, GrokSearchError>|
            #[trigger] call_ensures(F::map, (&provider, url, max_results), reply)
                && sources_reply(reply) == sources_reply(result),
{
    let (first, second) = choose|
        first: Option<Result<Vec<Source>, GrokSearchError>>,
        second: Option<Result<Vec<Source>, GrokSearchError>>,
    |
        #![trigger opt_sources_reply(first), opt_sources_reply(second)]
        {
            let answered = first is Some && found(sources_reply(first->0));
            &&& map_reply(None::<P>, url, max_results, first)
            &&& !answered ==> map_reply(Some(provider), url, max_results, second)
            &&& sources_reply(result) == crate::sitemap::map_result(
                opt_sources_reply(first),
                opt_sources_reply(second),
            )
        };
    assert(first is None && second is Some);
    assert(call_ensures(F::map, (&provider, url, max_results), second->0));
}

/// Sources that are gathered from a single backend are those that it finds for the
/// query, the count and the restrictions of the caller; none where it fails.
pub proof fn law_single_backend_is_gathered<P: SourceProvider, F: SourceProvider>(
    provider: P,
    query: &str,
    count: usize,
    filters: &SearchFilters,
    result: (Vec<Source>, RawSourceOrigin),
)
    requires
        count > 0,
        call_ensures(
            crate::gather::fetch_raw_extra_sources::<P, F>,
            (&Some(provider), &None::<F>, query, count, filters),
            result,
        ),
    ensures
        exists|reply: Result<Vec<Source>, GrokSearchError>|
            {
                &&& #[trigger] call_ensures(
                    P::search_sources,
                    (&provider, query, count, filters),
                    reply,
                )
                &&& reply is Ok ==> sources_of(result.0@) == sources_of(reply->Ok_0@)
                &&& reply is Err ==> result.0@.len() == 0
            },
{
    let (first, second) = choose|
        first: Option<Result<Vec<Source>, GrokSearchError>>,
        second: Option<Result<Vec<Source>, GrokSearchError>>,
    |
        #![trigger opt_sources_reply(first), opt_sources_reply(second)]
        {
            let answered = first is Some && found(sources_reply(first->0));
            &&& count > 0 ==> search_reply(Some(provider), query, count, filters, first)
            &&& count > 0 && !answered ==> search_reply(None::<F>, query, count, filters, second)
            &&& (sources_of(result.0@), result.1) == crate::gather::gathered(
                count as nat,
                opt_sources_reply(first),
                opt_sources_reply(second),
            )
        };
    assert(first is Some);
    let reply = first->0;
    assert(call_ensures(P::search_sources, (&provider, query, count, filters), reply));
    assert(sources_of(result.0@).len() == result.0@.len());
    if reply is Ok {
        assert(sources_of(result.0@) =~= sources_of(reply->Ok_0@));
    }
}

/// Services with made-up backends keep two hundred and fifty-six sessions, and have
/// the backends that go with them.
pub proof fn law_made_up_services_are_complete(
    plain: SearchService,
    has_fallback: bool,
    routed: SearchService,
    custom_ai: bool,
    overrides: Vec<(String, String)>,
    custom: SearchService,
)
    requires
        call_ensures(SearchService::fake_with_sources, (), plain),
        call_ensures(SearchService::fake_with_router, (has_fallback,), routed),
        call_ensures(SearchService::fake_custom, (custom_ai, has_fallback, overrides), custom),
    ensures
        plain@.cache_size == 256 && routed@.cache_size == 256 && custom@.cache_size == 256,
        plain@.plan.primary is Some && plain@.plan.fallback is None,
        routed@.plan.primary is Some && custom@.plan.primary is Some,
        routed@.plan.fallback is Some <==> has_fallback,
        custom@.plan.fallback is Some <==> has_fallback,
        plain@.plan.ai is Fake && routed@.plan.ai is Fake,
        custom@.plan.ai is Supplied <==> custom_ai,
{
}

} // verus!
