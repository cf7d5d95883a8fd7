//! The plain values that the laws speak of are those that the program holds.

use crate::config::vars_of;
use crate::doctor::{probe_of, DoctorReport, Probe};
use crate::enrich::{EnrichStage, EnrichStageView, Resolution, ResolutionView};
use crate::error::{text_reply, ErrorView, GrokSearchError};
use crate::fetch::{
    opt_text_reply, resolution, FetchStage, FetchStageView, GenericFetch, GenericFetchView,
    WebFetchRun,
};
use crate::gather::{opt_sources_reply, GatheringView, SourceGathering};
use crate::model::search::{
    ContentBlock, ResponseView, SearchFilters, SearchRequest, SearchResponse,
};
use crate::model::source::{fields_view, sources_of, sources_reply, Source, SourceView};
use crate::model::tool::{
    GetSourcesOutput, PageView, SourceType, WebFetchOutput, WebSearchInput, WebSearchOutput,
};
use crate::paging::limit_of;
use crate::plan::{
    plan_reply, AiBackend, AiBackendView, Credential, CredentialView, PlanView, ProviderPlan,
    SourceBackend, SourceBackendView,
};
use crate::pool::results_of;
use crate::search::{answer_of, run_reply, RunView, WebSearchRun};
use crate::service::page_reply;
use crate::sitemap::{SiteMapStage, SiteMapView, WebMapRun};
use crate::text::{text_of, texts_of};
use vstd::prelude::*;

verus! {

/// A source is spoken of with all that it holds, field by field.
pub proof fn law_sources_are_seen_whole(source: Source)
    ensures
        source@.url == source.url@,
        source@.provider == source.provider@,
        source@.title is Some <==> source.title is Some,
        source.title is Some ==> source@.title->0 == source.title->0@,
        source@.description is Some <==> source.description is Some,
        source.description is Some ==> source@.description->0 == source.description->0@,
        source@.published_date is Some <==> source.published_date is Some,
        source.published_date is Some ==> source@.published_date->0 == source.published_date->0@,
        source@.content is Some <==> source.content is Some,
        source.content is Some ==> source@.content->0 == source.content->0@,
{
}

/// A search is spoken of with all that it holds, field by field.
pub proof fn law_inputs_are_seen_whole(input: WebSearchInput)
    ensures
        input@.query == input.query@,
        input@.platform is Some <==> input.platform is Some,
        input.platform is Some ==> input@.platform->0 == input.platform->0@,
        input@.model is Some <==> input.model is Some,
        input.model is Some ==> input@.model->0 == input.model->0@,
        input@.extra_sources == input.extra_sources,
        input@.recency_days == input.recency_days,
        input@.include_domains.len() == input.include_domains@.len(),
        forall|i: int| 0 <= i < input.include_domains@.len() ==> #[trigger] input@.include_domains[i] == input.include_domains@[i]@,
        input@.exclude_domains.len() == input.exclude_domains@.len(),
        forall|i: int| 0 <= i < input.exclude_domains@.len() ==> #[trigger] input@.exclude_domains[i] == input.exclude_domains@[i]@,
        input@.include_content == input.include_content,
        input@.response_format is Some <==> input.response_format is Some,
        input.response_format is Some ==> input@.response_format->0 == input.response_format->0@,
{
}

/// The result of a search is spoken of with all that it holds, field by field.
pub proof fn law_results_are_seen_whole(output: WebSearchOutput)
    ensures
        output@.session_id == output.session_id@,
        output@.content == output.content@,
        output@.sources_count == output.sources_count,
        output@.sources.len() == output.sources@.len(),
        forall|i: int| 0 <= i < output.sources@.len() ==> #[trigger] output@.sources[i] == output.sources@[i]@,
        output@.search_provider == output.search_provider@,
        output@.fallback_used == output.fallback_used,
        output@.fallback_reason is Some <==> output.fallback_reason is Some,
        output.fallback_reason is Some ==> output@.fallback_reason->0 == output.fallback_reason->0@,
        output@.truncated == output.truncated,
{
}

/// A page of sources is spoken of with all that it holds, field by field.
pub proof fn law_pages_are_seen_whole(page: GetSourcesOutput)
    ensures
        page@.session_id == page.session_id@,
        page@.sources_count == page.sources_count,
        page@.sources.len() == page.sources@.len(),
        forall|i: int| 0 <= i < page.sources@.len() ==> #[trigger] page@.sources[i] == page.sources@[i]@,
        page@.total_sources == page.total_sources,
        page@.offset == page.offset,
        page@.next_offset is Some <==> page.next_offset is Some,
        page.next_offset is Some ==> page@.next_offset->0 == page.next_offset->0,
        page@.truncated == page.truncated,
{
}

/// A fetched page is spoken of with all that it holds, field by field.
pub proof fn law_fetched_pages_are_seen_whole(fetched: WebFetchOutput)
    ensures
        fetched@.url == fetched.url@,
        fetched@.content == fetched.content@,
        fetched@.original_length == fetched.original_length,
        fetched@.truncated == fetched.truncated,
        fetched@.source_type == fetched.source_type,
        fetched@.fallback_reason is Some <==> fetched.fallback_reason is Some,
        fetched.fallback_reason is Some ==> fetched@.fallback_reason->0 == fetched.fallback_reason->0@,
{
}

/// A restriction is spoken of with all that it holds, field by field.
pub proof fn law_filters_are_seen_whole(filters: SearchFilters)
    ensures
        filters@.recency_days == filters.recency_days,
        filters@.include_domains.len() == filters.include_domains@.len(),
        forall|i: int| 0 <= i < filters.include_domains@.len() ==> #[trigger] filters@.include_domains[i] == filters.include_domains@[i]@,
        filters@.exclude_domains.len() == filters.exclude_domains@.len(),
        forall|i: int| 0 <= i < filters.exclude_domains@.len() ==> #[trigger] filters@.exclude_domains[i] == filters.exclude_domains@[i]@,
{
}

/// An answer is spoken of with all that it holds, field by field.
pub proof fn law_answers_are_seen_whole(response: SearchResponse)
    ensures
        response@.content == response.content@,
        response@.sources.len() == response.sources@.len(),
        forall|i: int| 0 <= i < response.sources@.len() ==> #[trigger] response@.sources[i] == response.sources@[i]@,
{
}

/// A started search is spoken of with all that it holds, field by field.
pub proof fn law_runs_are_seen_whole(run: WebSearchRun)
    ensures
        run@.session_id == run.session_id@,
        run@.include_content == run.include_content,
        run@.extra_sources == run.extra_sources,
        run@.request == run.request@,
        run@.query == run.query@,
        run@.filters == run.filters@,
        run@.speculative_count == run.speculative_count,
{
}

/// A probe is spoken of with all that it holds, field by field.
pub proof fn law_probes_are_seen_whole(probe: Probe)
    ensures
        probe@.ok == probe.ok,
        probe@.detail == probe.detail@,
{
}

/// A failure is spoken of by its kind, with its detail.
pub proof fn law_failures_are_seen_whole(name: &'static str, detail: String)
    ensures
        GrokSearchError::MissingConfig(name)@ == ErrorView::MissingConfig(name@),
        GrokSearchError::InvalidParams(detail)@ == ErrorView::InvalidParams(detail@),
        GrokSearchError::NotFound(detail)@ == ErrorView::NotFound(detail@),
        GrokSearchError::Provider(detail)@ == ErrorView::Provider(detail@),
        GrokSearchError::Timeout(detail)@ == ErrorView::Timeout(detail@),
        GrokSearchError::Parse(detail)@ == ErrorView::Parse(detail@),
        GrokSearchError::OAuth(detail)@ == ErrorView::OAuth(detail@),
{
}

/// What backends reply is spoken of as it is: success as success, with what it
/// delivered, and failure as failure.
pub proof fn law_replies_are_seen_whole(
    text: String,
    sources: Vec<Source>,
    answer: SearchResponse,
    error: GrokSearchError,
)
    ensures
        text_reply(Ok(text)) == Ok::<Seq<char>, ErrorView>(text@),
        text_reply(Err(error)) == Err::<Seq<char>, ErrorView>(error@),
        sources_reply(Ok(sources)) is Ok,
        sources_reply(Ok(sources))->Ok_0.len() == sources@.len(),
        forall|i: int|
            0 <= i < sources@.len() ==> #[trigger] sources_reply(Ok(sources))->Ok_0[i]
                == sources@[i]@,
        sources_reply(Err(error)) == Err::<Seq<SourceView>, ErrorView>(error@),
        answer_of(Ok(answer)) == Ok::<ResponseView, ErrorView>(answer@),
        answer_of(Err(error)) == Err::<ResponseView, ErrorView>(error@),
{
}

/// A request to the language model is spoken of with all that it holds.
pub proof fn law_requests_are_seen_whole(request: SearchRequest, index: int, part: int)
    requires
        0 <= index < request.messages@.len(),
        0 <= part < request.messages@[index].content@.len(),
    ensures
        request@.model == request.model@,
        request@.system is Some <==> request.system is Some,
        request.system is Some ==> request@.system->0 == request.system->0@,
        request@.tools == request.tools@,
        request@.messages.len() == request.messages@.len(),
        request@.messages[index].role == request.messages@[index].role@,
        request@.messages[index].content.len() == request.messages@[index].content@.len(),
        request.messages@[index].content@[part] matches ContentBlock::Text(text)
            ==> request@.messages[index].content[part] == text@,
{
}

/// The diagnostics are spoken of with all that they report.
pub proof fn law_reports_are_seen_whole(report: DoctorReport)
    ensures
        report@.provider == report.provider@,
        report@.transport == report.transport@,
        report@.grok.api_url == report.grok.api_url@,
        report@.grok.model == report.grok.model@,
        report@.grok.auth_mode == report.grok.auth_mode@,
        report@.grok.auth_file == report.grok.auth_file@,
        report@.grok.web_search_enabled == report.grok.web_search_enabled,
        report@.grok.x_search_enabled == report.grok.x_search_enabled,
        report@.grok.reachable == report.grok.reachable,
        report@.grok.detail == report.grok.detail@,
        report@.tavily.api_url == report.tavily.api_url@,
        report@.tavily.enabled == report.tavily.enabled,
        report@.tavily.reachable == report.tavily.reachable,
        report@.tavily.detail == report.tavily.detail@,
        report@.firecrawl.api_url == report.firecrawl.api_url@,
        report@.firecrawl.enabled == report.firecrawl.enabled,
        report@.firecrawl.reachable == report.firecrawl.reachable,
        report@.firecrawl.detail == report.firecrawl.detail@,
        report@.default_extra_sources == report.default_extra_sources,
        report@.fallback_sources == report.fallback_sources,
        report@.cache_size == report.cache_size,
        report@.timeout_seconds == report.timeout_seconds,
        report@.github_token == report.github_token@,
        report@.redacted.grok_api_key == report.redacted.grok_api_key@,
        report@.redacted.openai_compatible_api_key == report.redacted.openai_compatible_api_key@,
        report@.redacted.tavily_api_key == report.redacted.tavily_api_key@,
        report@.redacted.firecrawl_api_key == report.redacted.firecrawl_api_key@,
{
}

/// The backends of a service are spoken of as they are planned.
pub proof fn law_plans_are_seen_whole(plan: ProviderPlan)
    ensures
        plan@.x_search_ignored == plan.x_search_ignored,
        plan@.primary is Some <==> plan.primary is Some,
        plan@.fallback is Some <==> plan.fallback is Some,
        plan.primary is Some ==> plan@.primary->0 == plan.primary->0@,
        plan.fallback is Some ==> plan@.fallback->0 == plan.fallback->0@,
        plan@.backends().primary <==> plan.primary is Some,
        plan@.backends().fallback <==> plan.fallback is Some,
        match plan.ai {
            AiBackend::Responses { api_url, credential, web_search, x_search } => plan@.ai
                == (AiBackendView::Responses {
                api_url: api_url@,
                credential: match credential {
                    Credential::ApiKey(key) => CredentialView::ApiKey(key@),
                    Credential::OAuthFile(path) => CredentialView::OAuthFile(path@),
                },
                web_search,
                x_search,
            }),
            AiBackend::ChatCompletions { api_url, api_key, model, web_search } => plan@.ai
                == (AiBackendView::ChatCompletions {
                api_url: api_url@,
                api_key: api_key@,
                model: model@,
                web_search,
            }),
            AiBackend::Fake => plan@.ai is Fake,
            AiBackend::Supplied => plan@.ai is Supplied,
        },
        forall|backend: SourceBackend|
            #![trigger backend@]
            match backend {
                SourceBackend::Remote { api_url, api_key } => backend@
                    == (SourceBackendView::Remote { api_url: api_url@, api_key: api_key@ }),
                SourceBackend::Fake => backend@ is Fake,
                SourceBackend::Supplied => backend@ is Supplied,
            },
{
}

/// A fetch, a listing, a gathering and the fetch of one page are spoken of by the
/// stage that they are at, and over where they are over.
pub proof fn law_stages_are_seen_whole(
    fetch: GenericFetch,
    run: WebFetchRun,
    listing: WebMapRun,
    gathering: SourceGathering,
    stage: EnrichStage,
    report: Resolution,
)
    ensures
        match fetch {
            GenericFetch::AskPrimary { has_fallback } => fetch@ == (GenericFetchView::AskPrimary {
                has_fallback,
            }),
            GenericFetch::AskFallback => fetch@ is AskFallback,
            GenericFetch::Done(Ok(text)) => fetch@ == GenericFetchView::Done(Ok(text@)),
            GenericFetch::Done(Err(error)) => fetch@ == GenericFetchView::Done(Err(error@)),
        },
        run@.url == run.url@,
        run@.limit == run.limit,
        run@.backends == run.backends,
        match run.stage {
            FetchStage::Resolve { parsed } => run@.stage == (FetchStageView::Resolve {
                parsed: parsed@,
            }),
            FetchStage::Generic { fetch, reason } => {
                &&& run@.stage is Generic
                &&& run@.stage->fetch == fetch@
                &&& run@.stage->reason is Some <==> reason is Some
                &&& reason is Some ==> run@.stage->reason->0 == reason->0@
            },
            FetchStage::Done(Ok(output)) => run@.stage == FetchStageView::Done(Ok(output@)),
            FetchStage::Done(Err(error)) => run@.stage == FetchStageView::Done(Err(error@)),
        },
        listing@.url == listing.url@,
        listing@.max_results == listing.max_results,
        match listing.stage {
            SiteMapStage::AskPrimary { has_fallback } => listing@.stage
                == (SiteMapView::AskPrimary { has_fallback }),
            SiteMapStage::AskFallback => listing@.stage is AskFallback,
            SiteMapStage::Done(reply) => listing@.stage == SiteMapView::Done(
                sources_reply(reply),
            ),
        },
        match gathering {
            SourceGathering::AskPrimary { has_fallback } => gathering@
                == (GatheringView::AskPrimary { has_fallback }),
            SourceGathering::AskFallback => gathering@ is AskFallback,
            SourceGathering::Done { sources, origin } => {
                &&& gathering@ is Done
                &&& gathering@->origin == origin
                &&& gathering@->sources.len() == sources@.len()
                &&& forall|i: int|
                    0 <= i < sources@.len() ==> #[trigger] gathering@->sources[i] == sources@[i]@
            },
        },
        match stage {
            EnrichStage::Resolve { parsed } => stage@ == (EnrichStageView::Resolve {
                parsed: parsed@,
            }),
            EnrichStage::Generic { fetch, reason } => stage@ == (EnrichStageView::Generic {
                fetch: fetch@,
                reason: reason@,
            }),
            EnrichStage::Done(text) => stage@ == EnrichStageView::Done(text@),
        },
        match report {
            Resolution::Text(text) => report@ == ResolutionView::Text(text@),
            Resolution::Failed(reason) => report@ == ResolutionView::Failed(reason@),
            Resolution::TimedOut => report@ is TimedOut,
        },
{
}

/// What is handed on in another wrapping is the same: there where it was there, and
/// a failure where it was one.
pub proof fn law_wrapped_values_are_seen_whole(
    text: String,
    error: GrokSearchError,
    run: WebSearchRun,
    page: GetSourcesOutput,
    plan: ProviderPlan,
    probe: Probe,
    kind: SourceType,
    reply: Result<String, GrokSearchError>,
    sources: Result<Vec<Source>, GrokSearchError>,
    limit: usize,
)
    ensures
        text_of(Some(text)) == Some(text@),
        text_of(None) is None,
        run_reply(Ok(run)) == Ok::<RunView, ErrorView>(run@),
        run_reply(Err(error)) == Err::<RunView, ErrorView>(error@),
        page_reply(Ok(page)) == Ok::<PageView, ErrorView>(page@),
        page_reply(Err(error)) == Err::<PageView, ErrorView>(error@),
        plan_reply(Ok(plan)) == Ok::<PlanView, ErrorView>(plan@),
        plan_reply(Err(error)) == Err::<PlanView, ErrorView>(error@),
        probe_of(Some(probe)) == Some(probe@),
        probe_of(None) is None,
        resolution(Ok((text, kind))) == Ok::<(Seq<char>, SourceType), Seq<char>>((text@, kind)),
        resolution(Err(text)) == Err::<(Seq<char>, SourceType), Seq<char>>(text@),
        opt_text_reply(Some(reply)) == Some(text_reply(reply)),
        opt_text_reply(None) is None,
        opt_sources_reply(Some(sources)) == Some(sources_reply(sources)),
        opt_sources_reply(None) is None,
        limit_of(Some(limit)) == Some(limit as nat),
        limit_of(None) is None,
{
}

/// Lists are spoken of item by item, in their order.
pub proof fn law_lists_are_seen_whole(
    sources: Seq<Source>,
    texts: Seq<String>,
    vars: Seq<(String, String)>,
    fields: Seq<(&'static str, String)>,
    results: Seq<(usize, String)>,
    index: int,
)
    ensures
        sources_of(sources).len() == sources.len(),
        0 <= index < sources.len() ==> sources_of(sources)[index] == sources[index]@,
        texts_of(texts).len() == texts.len(),
        0 <= index < texts.len() ==> texts_of(texts)[index] == texts[index]@,
        vars_of(vars).len() == vars.len(),
        0 <= index < vars.len() ==> vars_of(vars)[index] == (vars[index].0@, vars[index].1@),
        fields_view(fields).len() == fields.len(),
        0 <= index < fields.len() ==> fields_view(fields)[index] == (
            fields[index].0@,
            fields[index].1@,
        ),
        results_of(results).len() == results.len(),
        0 <= index < results.len() ==> results_of(results)[index] == (
            results[index].0,
            results[index].1@,
        ),
{
}

} // verus!
