//! Diagnostics: which backends are configured, and which can be reached.

use crate::config::{secret_status, AuthMode, Config, RedactedDiagnostics, Transport};
use crate::error::{message_of, ErrorView, GrokSearchError};
use crate::model::search::{
    from_user, user_message, FiltersView, RequestView, SearchFilters, SearchRequest,
    SearchResponse, SearchTool,
};
use crate::model::source::{sources_reply, Source};
use crate::plan::either;
use crate::provider::{AiProvider, SourceProvider};
use crate::search::answer_of;
use crate::text::{copy_text, text_of};
use vstd::prelude::*;
use vstd::string::StringExecFns;

verus! {

/// Whether a backend could be reached, and what there is to say about it.
#[derive(Debug, PartialEq, Eq)]
pub struct Probe {
    pub ok: bool,
    pub detail: String,
}

/// A probe as plain values.
pub struct ProbeView {
    pub ok: bool,
    pub detail: Seq<char>,
}

impl View for Probe {
    type V = ProbeView;

    open spec fn view(&self) -> ProbeView {
        ProbeView { ok: self.ok, detail: self.detail@ }
    }
}

impl Probe {
    /// The backend was reached.
    pub fn ok(detail: String) -> (probe: Probe)
        ensures
            probe@ == (ProbeView { ok: true, detail: detail@ }),
    {
        Probe { ok: true, detail }
    }

    /// The backend failed.
    pub fn failed(detail: String) -> (probe: Probe)
        ensures
            probe@ == (ProbeView { ok: false, detail: detail@ }),
    {
        Probe { ok: false, detail }
    }

    /// The backend was not asked.
    pub fn skipped(detail: String) -> (probe: Probe)
        ensures
            probe@ == (ProbeView { ok: false, detail: detail@ }),
    {
        Probe { ok: false, detail }
    }
}

/// The request that finds out whether the language model can be reached.
pub open spec fn ping_request(config: Config, default_model: Seq<char>) -> RequestView {
    RequestView {
        model: default_model,
        system: None,
        messages: seq![user_message("ping"@)],
        tools: if config.web_search_enabled {
            seq![SearchTool::WebSearch]
        } else {
            Seq::empty()
        },
    }
}

/// What a reply of the language model says about it.
pub open spec fn ai_probe_of<T>(reply: Result<T, ErrorView>) -> ProbeView {
    match reply {
        Ok(_) => ProbeView { ok: true, detail: "grok responded"@ },
        Err(error) => ProbeView { ok: false, detail: message_of(error) },
    }
}

/// What a reply of a source backend says about it.
pub open spec fn source_probe_of<T>(
    reply: Result<T, ErrorView>,
    sample_url: Seq<char>,
) -> ProbeView {
    match reply {
        Ok(_) => ProbeView {
            ok: true,
            detail: "reachable (sample probe via "@ + sample_url + " ok)"@,
        },
        Err(error) => ProbeView { ok: false, detail: message_of(error) },
    }
}

/// The request that finds out whether the language model can be reached. It has
/// the shape of a real search, since the model's interface asks for that.
pub fn grok_ping(config: &Config, default_model: &str) -> (request: SearchRequest)
    ensures
        request@ == ping_request(*config, default_model@),
{
    let mut tools: Vec<SearchTool> = Vec::new();
    if config.web_search_enabled {
        tools.push(SearchTool::web_search());
    }
    let request = SearchRequest {
        model: default_model.to_owned(),
        system: None,
        messages: from_user("ping".to_owned()),
        tools,
    };
    assert(request@.messages =~= seq![user_message("ping"@)]);
    assert(request@.tools =~= ping_request(*config, default_model@).tools);
    request
}

/// What a reply of the language model says about it.
pub fn grok_probe(reply: &Result<SearchResponse, GrokSearchError>) -> (probe: Probe)
    ensures
        probe@ == ai_probe_of(answer_of(*reply)),
{
    match reply {
        Ok(_) => Probe::ok("grok responded".to_owned()),
        Err(error) => Probe::failed(error.message()),
    }
}

/// What a reply of a source backend says about it.
pub fn source_probe(reply: &Result<Vec<Source>, GrokSearchError>, sample_url: &str) -> (probe:
    Probe)
    ensures
        probe@ == source_probe_of(sources_reply(*reply), sample_url@),
{
    match reply {
        Ok(_) => Probe::ok(
            "reachable (sample probe via ".to_owned().concat(sample_url).concat(" ok)"),
        ),
        Err(error) => Probe::failed(error.message()),
    }
}

/// Asks the language model whether it is there.
pub fn probe_grok<A: AiProvider>(ai: &A, config: &Config, default_model: &str) -> (probe: Probe)
    ensures
        exists|request: SearchRequest, reply: Result<SearchResponse, GrokSearchError>|
            {
                &&& request@ == ping_request(*config, default_model@)
                &&& #[trigger] call_ensures(A::search, (ai, &request), reply)
                &&& probe@ == ai_probe_of(answer_of(reply))
            },
{
    let request = grok_ping(config, default_model);
    let reply = ai.search(&request);
    assert(call_ensures(A::search, (ai, &request), reply));
    grok_probe(&reply)
}

/// The page that probes of source backends refer to.
pub const SAMPLE_URL: &'static str = "https://example.com";

/// The search that finds out whether a source backend can be reached.
#[derive(Debug, PartialEq, Eq)]
pub struct SourcePing {
    pub query: &'static str,
    pub max_results: usize,
    pub filters: SearchFilters,
}

/// The search that finds out whether a source backend can be reached: for a single
/// page, without filters.
pub fn source_ping() -> (ping: SourcePing)
    ensures
        ping.query@ == "ping"@,
        ping.max_results == 1,
        ping.filters@ == FiltersView::none(),
{
    SourcePing { query: "ping", max_results: 1, filters: SearchFilters::default() }
}

/// Asks a source backend whether it is there, with a search for a single page.
pub fn probe_source<P: SourceProvider>(provider: &P, sample_url: &str) -> (probe: Probe)
    ensures
        exists|
            query: &str,
            filters: SearchFilters,
            reply: Result<Vec<Source>, GrokSearchError>,
        |
            {
                &&& query@ == "ping"@
                &&& filters@ == FiltersView::none()
                &&& #[trigger] call_ensures(
                    P::search_sources,
                    (provider, query, 1usize, &filters),
                    reply,
                )
                &&& probe@ == source_probe_of(sources_reply(reply), sample_url@)
            },
{
    let ping = source_ping();
    let reply = provider.search_sources(ping.query, ping.max_results, &ping.filters);
    assert(call_ensures(
        P::search_sources,
        (provider, ping.query, 1usize, &ping.filters),
        reply,
    ));
    source_probe(&reply, sample_url)
}

/// The language model in a report.
#[derive(Debug, PartialEq, Eq)]
pub struct GrokReport {
    pub api_url: String,
    pub model: String,
    pub auth_mode: &'static str,
    pub auth_file: String,
    pub web_search_enabled: bool,
    pub x_search_enabled: bool,
    pub reachable: bool,
    pub detail: String,
}

/// A source backend in a report.
#[derive(Debug, PartialEq, Eq)]
pub struct SourceReport {
    pub api_url: String,
    pub enabled: bool,
    pub reachable: bool,
    pub detail: String,
}

/// What the diagnostics report.
#[derive(Debug, PartialEq, Eq)]
pub struct DoctorReport {
    pub provider: &'static str,
    pub transport: &'static str,
    pub grok: GrokReport,
    pub tavily: SourceReport,
    pub firecrawl: SourceReport,
    pub default_extra_sources: usize,
    pub fallback_sources: usize,
    pub cache_size: usize,
    pub timeout_seconds: u64,
    pub github_token: &'static str,
    pub redacted: RedactedDiagnostics,
}

/// The language model in a report, as plain values.
pub struct GrokReportView {
    pub api_url: Seq<char>,
    pub model: Seq<char>,
    pub auth_mode: Seq<char>,
    pub auth_file: Seq<char>,
    pub web_search_enabled: bool,
    pub x_search_enabled: bool,
    pub reachable: bool,
    pub detail: Seq<char>,
}

/// A source backend in a report, as plain values.
pub struct SourceReportView {
    pub api_url: Seq<char>,
    pub enabled: bool,
    pub reachable: bool,
    pub detail: Seq<char>,
}

/// Which secrets are set, as plain values.
pub struct RedactedView {
    pub grok_api_key: Seq<char>,
    pub openai_compatible_api_key: Seq<char>,
    pub tavily_api_key: Seq<char>,
    pub firecrawl_api_key: Seq<char>,
}

/// What the diagnostics report, as plain values.
pub struct ReportView {
    pub provider: Seq<char>,
    pub transport: Seq<char>,
    pub grok: GrokReportView,
    pub tavily: SourceReportView,
    pub firecrawl: SourceReportView,
    pub default_extra_sources: usize,
    pub fallback_sources: usize,
    pub cache_size: usize,
    pub timeout_seconds: u64,
    pub github_token: Seq<char>,
    pub redacted: RedactedView,
}

impl View for GrokReport {
    type V = GrokReportView;

    open spec fn view(&self) -> GrokReportView {
        GrokReportView {
            api_url: self.api_url@,
            model: self.model@,
            auth_mode: self.auth_mode@,
            auth_file: self.auth_file@,
            web_search_enabled: self.web_search_enabled,
            x_search_enabled: self.x_search_enabled,
            reachable: self.reachable,
            detail: self.detail@,
        }
    }
}

impl View for SourceReport {
    type V = SourceReportView;

    open spec fn view(&self) -> SourceReportView {
        SourceReportView {
            api_url: self.api_url@,
            enabled: self.enabled,
            reachable: self.reachable,
            detail: self.detail@,
        }
    }
}

impl View for DoctorReport {
    type V = ReportView;

    open spec fn view(&self) -> ReportView {
        ReportView {
            provider: self.provider@,
            transport: self.transport@,
            grok: self.grok@,
            tavily: self.tavily@,
            firecrawl: self.firecrawl@,
            default_extra_sources: self.default_extra_sources,
            fallback_sources: self.fallback_sources,
            cache_size: self.cache_size,
            timeout_seconds: self.timeout_seconds,
            github_token: self.github_token@,
            redacted: RedactedView {
                grok_api_key: self.redacted.grok_api_key@,
                openai_compatible_api_key: self.redacted.openai_compatible_api_key@,
                tavily_api_key: self.redacted.tavily_api_key@,
                firecrawl_api_key: self.redacted.firecrawl_api_key@,
            },
        }
    }
}

/// The name of the transport that requests really take.
pub open spec fn transport_label(transport: Transport) -> Seq<char> {
    match transport {
        Transport::Responses => "grok_responses"@,
        Transport::ChatCompletions => "openai_compatible"@,
    }
}

/// The address that requests to the language model really go to.
pub open spec fn ai_api_url(config: Config) -> Seq<char> {
    match config.transport {
        Transport::Responses => config.grok_api_url@,
        Transport::ChatCompletions => match config.openai_compatible_api_url {
            Some(url) => url@,
            None => ""@,
        },
    }
}

/// A probe, or the note that its backend was not asked.
pub open spec fn probe_or_skipped(probe: Option<ProbeView>, note: Seq<char>) -> ProbeView {
    match probe {
        Some(probe) => probe,
        None => ProbeView { ok: false, detail: note },
    }
}

/// An optional probe as plain values.
pub open spec fn probe_of(probe: Option<Probe>) -> Option<ProbeView> {
    match probe {
        Some(probe) => Some(probe@),
        None => None,
    }
}

/// What the diagnostics report of a configuration, given what the probes of the
/// backends found; a source backend without a probe is one that is not there.
pub open spec fn report(
    config: Config,
    default_model: Seq<char>,
    default_auth_path: Option<Seq<char>>,
    grok: ProbeView,
    tavily: Option<ProbeView>,
    firecrawl: Option<ProbeView>,
) -> ReportView {
    let tavily_probe = probe_or_skipped(tavily, "TAVILY_API_KEY not configured"@);
    let firecrawl_probe = probe_or_skipped(firecrawl, "FIRECRAWL_API_KEY not configured"@);
    ReportView {
        provider: transport_label(config.transport),
        transport: transport_label(config.transport),
        grok: GrokReportView {
            api_url: ai_api_url(config),
            model: default_model,
            auth_mode: match config.grok_auth_mode {
                AuthMode::ApiKey => "api_key"@,
                AuthMode::OAuth => "oauth"@,
            },
            auth_file: match either(text_of(config.grok_auth_file), default_auth_path) {
                Some(path) => path,
                None => "unavailable"@,
            },
            web_search_enabled: config.web_search_enabled,
            x_search_enabled: config.transport == Transport::Responses && config.x_search_enabled,
            reachable: grok.ok,
            detail: grok.detail,
        },
        tavily: SourceReportView {
            api_url: config.tavily_api_url@,
            enabled: config.tavily_enabled,
            reachable: tavily_probe.ok,
            detail: tavily_probe.detail,
        },
        firecrawl: SourceReportView {
            api_url: config.firecrawl_api_url@,
            enabled: config.firecrawl_enabled,
            reachable: firecrawl_probe.ok,
            detail: firecrawl_probe.detail,
        },
        default_extra_sources: config.default_extra_sources,
        fallback_sources: config.fallback_sources,
        cache_size: config.cache_size,
        timeout_seconds: config.timeout_ms / 1000,
        github_token: secret_status(text_of(config.github_token)),
        redacted: RedactedView {
            grok_api_key: secret_status(text_of(config.grok_api_key)),
            openai_compatible_api_key: secret_status(text_of(config.openai_compatible_api_key)),
            tavily_api_key: secret_status(text_of(config.tavily_api_key)),
            firecrawl_api_key: secret_status(text_of(config.firecrawl_api_key)),
        },
    }
}

/// A probe, or the note that its backend was not asked.
fn or_skipped(probe: Option<Probe>, note: &str) -> (result: Probe)
    ensures
        result@ == probe_or_skipped(probe_of(probe), note@),
{
    match probe {
        Some(probe) => probe,
        None => Probe::skipped(note.to_owned()),
    }
}

/// What the diagnostics report. The transport, the address and the model are those
/// that requests really use, and a search that the transport does not offer is
/// reported as off. No secret is in the report.
pub fn doctor_report(
    config: &Config,
    default_model: &str,
    default_auth_path: Option<String>,
    grok: Probe,
    tavily: Option<Probe>,
    firecrawl: Option<Probe>,
) -> (result: DoctorReport)
    ensures
        result@ == report(
            *config,
            default_model@,
            text_of(default_auth_path),
            grok@,
            probe_of(tavily),
            probe_of(firecrawl),
        ),
{
    let tavily_probe = or_skipped(tavily, "TAVILY_API_KEY not configured");
    let firecrawl_probe = or_skipped(firecrawl, "FIRECRAWL_API_KEY not configured");
    let (label, api_url, x_search_enabled) = match config.transport {
        Transport::Responses => (
            "grok_responses",
            config.grok_api_url.clone(),
            config.x_search_enabled,
        ),
        Transport::ChatCompletions => (
            "openai_compatible",
            match copy_text(&config.openai_compatible_api_url) {
                Some(url) => url,
                None => "".to_owned(),
            },
            false,
        ),
    };
    let named = copy_text(&config.grok_auth_file);
    let path = if named.is_some() {
        named
    } else {
        default_auth_path
    };
    DoctorReport {
        provider: label,
        transport: label,
        grok: GrokReport {
            api_url,
            model: default_model.to_owned(),
            auth_mode: match config.grok_auth_mode {
                AuthMode::ApiKey => "api_key",
                AuthMode::OAuth => "oauth",
            },
            auth_file: match path {
                Some(path) => path,
                None => "unavailable".to_owned(),
            },
            web_search_enabled: config.web_search_enabled,
            x_search_enabled,
            reachable: grok.ok,
            detail: grok.detail,
        },
        tavily: SourceReport {
            api_url: config.tavily_api_url.clone(),
            enabled: config.tavily_enabled,
            reachable: tavily_probe.ok,
            detail: tavily_probe.detail,
        },
        firecrawl: SourceReport {
            api_url: config.firecrawl_api_url.clone(),
            enabled: config.firecrawl_enabled,
            reachable: firecrawl_probe.ok,
            detail: firecrawl_probe.detail,
        },
        default_extra_sources: config.default_extra_sources,
        fallback_sources: config.fallback_sources,
        cache_size: config.cache_size,
        timeout_seconds: config.timeout_ms / 1000,
        github_token: config.github_token_status(),
        redacted: config.redacted_diagnostics(),
    }
}

} // verus!
