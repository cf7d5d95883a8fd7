use grok_search::answer::RawSourceOrigin;
use grok_search::cache::SourceCache;
use grok_search::config::{resolve_default_model, Config, Transport};
use grok_search::doctor::{grok_probe, probe_grok, Probe};
use grok_search::enrich::{EnrichJob, EnrichStage, Resolution};
use grok_search::error::GrokSearchError;
use grok_search::fetch::{GenericFetch, NO_SPECIALIST_MATCH};
use grok_search::gather::fetch_raw_extra_sources;
use grok_search::model::search::{SearchFilters, SearchRequest, SearchResponse};
use grok_search::model::source::Source;
use grok_search::model::tool::{GetSourcesOutput, WebSearchInput, WebSearchOutput};
use grok_search::plan::{AiBackend, ProviderPlan, SourceBackend};
use grok_search::provider::{AiProvider, FakeAiProvider, FakeSourceProvider, SourceProvider};
use grok_search::search::SearchDraft;
use grok_search::service::SearchService;

fn vars(pairs: &[(&str, &str)]) -> Vec<(String, String)> {
    pairs.iter().map(|(k, v)| (k.to_string(), v.to_string())).collect()
}

fn config_from(pairs: &[(&str, &str)]) -> Config {
    Config::from_env_map(&vars(pairs))
}

/// A service together with the sessions that it keeps.
struct Running {
    service: SearchService,
    sessions: SourceCache,
}

impl Running {
    fn finish_search(&mut self, draft: SearchDraft) -> WebSearchOutput {
        self.service.finish_search(&mut self.sessions, draft)
    }

    fn get_sources(
        &self,
        session_id: &str,
        offset: usize,
        limit: Option<usize>,
    ) -> Result<GetSourcesOutput, GrokSearchError> {
        self.service.get_sources(&self.sessions, session_id, offset, limit)
    }
}

impl std::ops::Deref for Running {
    type Target = SearchService;

    fn deref(&self) -> &SearchService {
        &self.service
    }
}

fn service_with(config: Config, has_primary: bool) -> Running {
    let plan = ProviderPlan {
        ai: AiBackend::Fake,
        primary: if has_primary { Some(SourceBackend::Fake) } else { None },
        fallback: None,
        x_search_ignored: false,
    };
    let service = SearchService::with_plan(config, plan, 64);
    let sessions = service.new_sessions();
    Running { service, sessions }
}

fn enrich_config() -> Config {
    config_from(&[("GROK_SEARCH_API_KEY", "fake-grok"), ("TAVILY_API_KEY", "fake-tavily")])
}

fn base_input() -> WebSearchInput {
    WebSearchInput { query: "q".to_string(), ..Default::default() }
}

/// Finds pages, but cannot fetch any.
struct SearchOkFetchErrProvider;

impl SourceProvider for SearchOkFetchErrProvider {
    fn search_sources(
        &self,
        _query: &str,
        max_results: usize,
        _filters: &SearchFilters,
    ) -> Result<Vec<Source>, GrokSearchError> {
        Ok((0..max_results)
            .map(|idx| Source::new(format!("https://example.com/source-{idx}"), "tavily"))
            .collect())
    }

    fn fetch(&self, _url: &str) -> Result<String, GrokSearchError> {
        Err(GrokSearchError::Provider("generic fetch unavailable".to_string()))
    }

    fn map(&self, _url: &str, _max_results: usize) -> Result<Vec<Source>, GrokSearchError> {
        Ok(Vec::new())
    }
}

/// A language model that always fails in the same way.
struct FailingAi(fn() -> GrokSearchError);

impl AiProvider for FailingAi {
    fn search(&self, _request: &SearchRequest) -> Result<SearchResponse, GrokSearchError> {
        Err((self.0)())
    }
}

/// A language model that always gives the same answer.
struct FixedAi(&'static str, usize);

impl AiProvider for FixedAi {
    fn search(&self, _request: &SearchRequest) -> Result<SearchResponse, GrokSearchError> {
        Ok(SearchResponse {
            content: self.0.to_string(),
            sources: (0..self.1)
                .map(|i| Source::new(format!("https://cited.example/{i}"), "grok_responses"))
                .collect(),
        })
    }
}

fn run_job<P: SourceProvider>(
    job: EnrichJob,
    primary: &Option<P>,
    resolve: &dyn Fn(&str) -> Resolution,
) -> EnrichJob {
    let mut job = job;
    loop {
        let url = job.url().to_string();
        job = match job.stage() {
            EnrichStage::Done(_) => return job,
            EnrichStage::Resolve { parsed } => {
                let outcome = resolve(parsed.as_str());
                job.on_resolved(outcome)
            }
            EnrichStage::Generic { fetch: GenericFetch::AskPrimary { .. }, .. } => {
                let reply = primary.as_ref().unwrap().fetch(&url);
                job.on_reply(reply)
            }
            EnrichStage::Generic { .. } => panic!("no fallback is configured"),
        };
    }
}

/// Runs a search to its end; returns the result and the most fetches that ran at
/// the same time.
fn search_with<A: AiProvider, P: SourceProvider>(
    svc: &mut Running,
    ai: &A,
    primary: &Option<P>,
    resolve: &dyn Fn(&str) -> Resolution,
    input: WebSearchInput,
) -> Result<(WebSearchOutput, usize), GrokSearchError> {
    let run = svc.web_search(input)?;
    let answer = ai.search(&run.request);
    let (raw, origin) = fetch_raw_extra_sources(
        primary,
        &None::<FakeSourceProvider>,
        &run.query,
        run.speculative_count,
        &run.filters,
    );
    let mut draft = svc.draft_search(run, answer, raw, origin);
    let mut running: Vec<EnrichJob> = Vec::new();
    let mut peak = 0;
    while !draft.is_done() {
        while let Some(job) = draft.next_job() {
            running.push(job);
        }
        peak = peak.max(running.len());
        // The latest fetch ends first, so that texts come in out of order.
        let job = running.pop().expect("a fetch is running");
        draft.finish_job(run_job(job, primary, resolve));
    }
    Ok((svc.finish_search(draft), peak))
}

fn counting(_url: &str) -> Resolution {
    Resolution::Text("content".to_string())
}

fn no_specialist(_url: &str) -> Resolution {
    Resolution::Failed(NO_SPECIALIST_MATCH.to_string())
}

fn search(svc: &mut Running, resolve: &dyn Fn(&str) -> Resolution, input: WebSearchInput) -> WebSearchOutput {
    search_with(svc, &FakeAiProvider, &Some(FakeSourceProvider), resolve, input).expect("web_search").0
}

#[test]
fn service_constructs_for_chat_completions_transport() {
    let config = config_from(&[
        ("OPENAI_COMPATIBLE_API_URL", "https://example.com/v1"),
        ("OPENAI_COMPATIBLE_API_KEY", "sk-fake"),
        ("OPENAI_COMPATIBLE_MODEL", "grok-4.3-fast"),
        ("TAVILY_API_KEY", "fake-tavily"),
    ]);
    assert_eq!(config.transport, Transport::ChatCompletions);
    let svc = SearchService::new(config, None).expect("service should build");
    assert_eq!(
        svc.plan().ai,
        AiBackend::ChatCompletions {
            api_url: "https://example.com/v1".to_string(),
            api_key: "sk-fake".to_string(),
            model: "grok-4.3-fast".to_string(),
            web_search: true,
        }
    );
    assert!(svc.backends().primary);
    assert!(!svc.backends().fallback);
}

#[test]
fn service_rejects_chat_completions_without_url() {
    let config = config_from(&[("OPENAI_COMPATIBLE_API_KEY", "sk-fake")]);
    // Without the address the model's own interface is used, and its key is missing.
    assert_eq!(
        SearchService::new(config, None).err(),
        Some(GrokSearchError::MissingConfig("GROK_SEARCH_API_KEY"))
    );
}

#[test]
fn default_model_follows_chat_completions_when_compat_model_set() {
    let config = config_from(&[
        ("OPENAI_COMPATIBLE_API_URL", "https://example.com/v1"),
        ("OPENAI_COMPATIBLE_API_KEY", "sk-fake"),
        ("OPENAI_COMPATIBLE_MODEL", "gpt-4o-mini"),
        ("GROK_SEARCH_MODEL", "grok-4-1-fast-reasoning"),
    ]);
    assert_eq!(config.transport, Transport::ChatCompletions);
    assert_eq!(resolve_default_model(&config), "gpt-4o-mini");
}

#[test]
fn default_model_falls_back_to_grok_model_when_compat_model_missing() {
    let config = config_from(&[
        ("OPENAI_COMPATIBLE_API_URL", "https://example.com/v1"),
        ("OPENAI_COMPATIBLE_API_KEY", "sk-fake"),
        ("GROK_SEARCH_MODEL", "grok-4-1-fast-reasoning"),
    ]);
    assert_eq!(config.transport, Transport::ChatCompletions);
    assert_eq!(resolve_default_model(&config), "grok-4-1-fast-reasoning");
}

#[test]
fn default_model_uses_grok_model_on_responses_transport() {
    let config = config_from(&[
        ("GROK_SEARCH_API_KEY", "xai-fake"),
        ("GROK_SEARCH_MODEL", "grok-4-1-fast-reasoning"),
        ("OPENAI_COMPATIBLE_MODEL", "gpt-4o-mini"),
    ]);
    assert_eq!(config.transport, Transport::Responses);
    assert_eq!(resolve_default_model(&config), "grok-4-1-fast-reasoning");
}

fn doctor_probe(svc: &SearchService) -> Probe {
    grok_probe(&FakeAiProvider.search(&svc.grok_ping()))
}

#[test]
fn doctor_reports_openai_compatible_transport_fields() {
    let config = config_from(&[
        ("OPENAI_COMPATIBLE_API_URL", "https://compat.example/v1"),
        ("OPENAI_COMPATIBLE_API_KEY", "sk-fake"),
        ("OPENAI_COMPATIBLE_MODEL", "gpt-4o-mini"),
        ("GROK_SEARCH_MODEL", "grok-4-1-fast-reasoning"),
        ("GROK_SEARCH_X_SEARCH", "true"),
    ]);
    assert_eq!(config.transport, Transport::ChatCompletions);
    assert!(config.x_search_enabled);
    let svc = service_with(config, false);
    let report = svc.doctor(None, doctor_probe(&svc), None, None);
    assert_eq!(report.provider, "openai_compatible");
    assert_eq!(report.transport, "openai_compatible");
    assert_eq!(report.grok.api_url, "https://compat.example/v1");
    assert_eq!(report.grok.model, "gpt-4o-mini");
    assert_eq!(report.grok.x_search_enabled, false);
    assert_eq!(report.grok.detail, "grok responded");
    assert_eq!(report.tavily.detail, "TAVILY_API_KEY not configured");
    assert_eq!(report.firecrawl.detail, "FIRECRAWL_API_KEY not configured");
}

#[test]
fn doctor_still_reports_grok_responses_on_responses_transport() {
    let config = config_from(&[
        ("GROK_SEARCH_API_KEY", "xai-fake"),
        ("GROK_SEARCH_MODEL", "grok-4-1-fast-reasoning"),
    ]);
    assert_eq!(config.transport, Transport::Responses);
    let svc = service_with(config, false);
    let report = svc.doctor(None, doctor_probe(&svc), None, None);
    assert_eq!(report.provider, "grok_responses");
    assert_eq!(report.grok.model, "grok-4-1-fast-reasoning");
    assert_eq!(report.grok.auth_file, "unavailable");
}

#[test]
fn doctor_reports_github_token_status() {
    let config = config_from(&[("GROK_SEARCH_API_KEY", "xai-fake"), ("GITHUB_TOKEN", "ghp_test")]);
    let svc = service_with(config, false);
    let report = svc.doctor(None, doctor_probe(&svc), None, None);
    assert_eq!(report.github_token, "set");
    assert!(!format!("{report:?}").contains("ghp_test"), "token value leaked: {report:?}");
    assert!(!format!("{report:?}").contains("xai-fake"));

    let svc_unset = service_with(config_from(&[("GROK_SEARCH_API_KEY", "xai-fake")]), false);
    let report_unset = svc_unset.doctor(None, doctor_probe(&svc_unset), None, None);
    assert_eq!(report_unset.github_token, "unset");
}

#[test]
fn fake_with_router_constructs_and_clones() {
    let svc = SearchService::fake_with_router(false);
    assert_eq!(svc.plan().primary, Some(SourceBackend::Supplied));
    assert_eq!(svc.plan().fallback, None);
    assert_eq!(svc.plan().ai, AiBackend::Fake);
    let clone = svc.clone();
    assert_eq!(clone, svc);
    assert_eq!(clone.plan().primary, Some(SourceBackend::Supplied));
}

#[test]
fn counting_extractor_self_test() {
    let mut svc = service_with(enrich_config(), true);
    let (_, peak) =
        search_with(&mut svc, &FakeAiProvider, &Some(FakeSourceProvider), &counting, base_input())
            .expect("web_search");
    assert!(peak >= 1);
}

#[test]
fn web_search_inline_default_fills_content() {
    let mut svc = service_with(enrich_config(), true);
    let out = search(&mut svc, &counting, base_input());
    assert!(!out.sources.is_empty());
    assert_eq!(out.sources.len(), 4);
    for s in &out.sources {
        let c = s.content.as_deref().unwrap_or("");
        assert!(!c.is_empty(), "every source must have non-empty content");
    }
    assert_eq!(out.search_provider, "grok_responses");
    assert!(!out.fallback_used);
    assert_eq!(out.content, "OpenAI published a verifiable update.");
}

#[test]
fn enrich_generic_url_uses_provider_fetch_fallback() {
    let mut svc = service_with(enrich_config(), true);
    let out = search(&mut svc, &no_specialist, base_input());
    assert!(!out.sources.is_empty());
    for s in &out.sources {
        let c = s.content.as_deref().unwrap_or("");
        assert!(c.starts_with("Fetched content from"), "got: {c:?}");
        assert!(!c.contains("no_specialist_match"), "got: {c:?}");
    }
}

#[test]
fn enrich_concurrency_is_bounded() {
    let mut config = enrich_config();
    config.enrich_concurrency = 2;
    let mut svc = service_with(config, true);
    let (_, peak) =
        search_with(&mut svc, &FakeAiProvider, &Some(FakeSourceProvider), &counting, base_input())
            .expect("web_search");
    assert!(peak <= 2, "peak={peak}");
    assert_eq!(peak, 2);
}

#[test]
fn enrich_truncates_to_max_chars() {
    let mut svc = service_with(enrich_config(), true);
    let oversize = |_: &str| Resolution::Text("x".repeat(20_000));
    let out = search(&mut svc, &oversize, base_input());
    for s in &out.sources {
        let len = s.content.as_deref().map(|c| c.chars().count()).unwrap_or(0);
        assert!(len <= 15_000, "content len {len} exceeds cap");
        assert!(len > 0);
    }
}

#[test]
fn enrich_fault_isolation_one_fails_rest_ok() {
    let mut svc = service_with(enrich_config(), true);
    let resolve = |url: &str| {
        if url.contains("openai.com") {
            Resolution::Failed("always_fails".to_string())
        } else {
            counting(url)
        }
    };
    let (out, _) = search_with(
        &mut svc,
        &FakeAiProvider,
        &Some(SearchOkFetchErrProvider),
        &resolve,
        base_input(),
    )
    .expect("web_search returns Ok despite one failure");
    let failed =
        out.sources.iter().find(|s| s.url.contains("openai.com")).expect("grok source present");
    let passed = out
        .sources
        .iter()
        .find(|s| s.url.contains("example.com"))
        .expect("supplemental source present");
    assert!(
        failed.content.as_deref().unwrap_or("").starts_with("_Failed to retrieve:"),
        "got: {:?}",
        failed.content
    );
    assert_eq!(
        failed.content.as_deref(),
        Some("_Failed to retrieve: always_fails_\n\nSource: https://openai.com/news")
    );
    let pc = passed.content.as_deref().unwrap_or("");
    assert!(!pc.is_empty() && !pc.starts_with("_Failed to retrieve:"), "got: {pc:?}");
}

#[test]
fn enrich_specialist_failure_rescued_by_generic_fetch() {
    let mut svc = service_with(enrich_config(), true);
    let resolve = |url: &str| {
        if url.contains("openai.com") {
            Resolution::Failed("always_fails".to_string())
        } else {
            no_specialist(url)
        }
    };
    let out = search(&mut svc, &resolve, base_input());
    let failed =
        out.sources.iter().find(|s| s.url.contains("openai.com")).expect("grok source present");
    let content = failed.content.as_deref().unwrap_or("");
    assert!(content.starts_with("Fetched content from"), "got: {content:?}");
    assert!(!content.starts_with("_Failed to retrieve:"), "got: {content:?}");
}

#[test]
fn enrich_timeout_yields_note_not_error() {
    let mut config = enrich_config();
    config.timeout_ms = 50;
    let mut svc = service_with(config, true);
    let hanging = |_: &str| Resolution::TimedOut;
    let out = search(&mut svc, &hanging, base_input());
    assert!(!out.sources.is_empty());
    for s in &out.sources {
        assert!(s.content.as_deref().unwrap_or("").contains("timeout"), "got: {:?}", s.content);
    }
}

/// A source as a JSON object.
fn written(source: &Source) -> serde_json::Value {
    let fields = source.fields().into_iter();
    fields.map(|(name, text)| (name.to_string(), serde_json::Value::String(text))).collect()
}

#[test]
fn include_content_false_omits_content_field() {
    let mut svc = service_with(enrich_config(), true);
    let mut input = base_input();
    input.include_content = Some(false);
    let out = search(&mut svc, &counting, input);
    assert_eq!(out.sources.len(), 4);
    for s in &out.sources {
        assert!(s.content.is_none());
        let value = written(s);
        assert!(value.get("content").is_none(), "JSON must omit the content key, not emit null");
        assert_eq!(value.get("url"), Some(&serde_json::Value::String(s.url.clone())));
    }
    let out = search(&mut svc, &counting, base_input());
    for s in &out.sources {
        assert_eq!(
            written(s).get("content"),
            Some(&serde_json::Value::String("content".to_string()))
        );
    }
}

#[test]
fn extra_sources_zero_suppresses_inline() {
    let mut svc = service_with(enrich_config(), true);
    let mut input = base_input();
    input.extra_sources = Some(0);
    let out = search(&mut svc, &counting, input);
    assert_eq!(out.sources.len(), 1);
    for s in &out.sources {
        assert!(s.content.is_none(), "extra_sources=0 must keep the legacy no-content shape");
    }
}

#[test]
fn get_sources_inherits_enriched_content() {
    let mut svc = service_with(enrich_config(), true);
    let out = search(&mut svc, &counting, base_input());
    let again = svc.get_sources(&out.session_id, 0, None).expect("get_sources");
    assert_eq!(out.sources.len(), again.sources.len());
    for (a, b) in out.sources.iter().zip(again.sources.iter()) {
        assert_eq!(a.url, b.url);
        assert_eq!(a.content, b.content, "get_sources must reuse the cached enriched content");
    }
}

#[test]
fn response_format_overrides_include_content() {
    let mut svc = service_with(enrich_config(), true);
    let mut input = base_input();
    input.include_content = Some(true);
    input.response_format = Some("concise".to_string());
    assert!(search(&mut svc, &counting, input).sources.iter().all(|s| s.content.is_none()));
    let mut input = base_input();
    input.include_content = Some(false);
    input.response_format = Some("detailed".to_string());
    assert!(search(&mut svc, &counting, input).sources.iter().all(|s| s.content.is_some()));
}

#[test]
fn unknown_response_format_is_refused() {
    let svc = service_with(enrich_config(), true);
    let mut input = base_input();
    input.response_format = Some("verbose".to_string());
    assert_eq!(
        svc.web_search(input).err(),
        Some(GrokSearchError::InvalidParams(
            "response_format must be \"concise\" or \"detailed\", got \"verbose\"".to_string()
        ))
    );
}

#[test]
fn failed_model_falls_back_to_sources() {
    let cases: [(fn() -> GrokSearchError, &str); 4] = [
        (|| GrokSearchError::Timeout("t".to_string()), "grok_timeout"),
        (|| GrokSearchError::OAuth("o".to_string()), "grok_auth_error"),
        (|| GrokSearchError::Parse("p".to_string()), "grok_parse_error"),
        (|| GrokSearchError::Provider("x".to_string()), "grok_provider_error"),
    ];
    for (error, reason) in cases {
        let mut svc = service_with(enrich_config(), true);
        let (out, _) = search_with(
            &mut svc,
            &FailingAi(error),
            &Some(FakeSourceProvider),
            &counting,
            base_input(),
        )
        .expect("the search goes on");
        assert_eq!(out.fallback_reason.as_deref(), Some(reason));
        assert!(out.fallback_used);
        assert_eq!(out.search_provider, "source_fallback");
        assert_eq!(out.sources_count, 5);
        assert_eq!(
            out.content,
            "Grok Responses search did not return a verifiable answer. Source fallback returned 5 source(s); evaluate them directly rather than treating any text as a verified answer."
        );
        for s in &out.sources {
            assert_eq!(s.provider, "tavily_fallback");
            assert_eq!(s.content.as_deref(), Some("content"));
        }
    }
}

#[test]
fn fallback_enriches_even_without_extra_sources() {
    let mut svc = service_with(enrich_config(), true);
    let mut input = base_input();
    input.extra_sources = Some(0);
    let (out, _) = search_with(
        &mut svc,
        &FixedAi("an answer", 0),
        &Some(FakeSourceProvider),
        &counting,
        input,
    )
    .expect("web_search");
    assert_eq!(out.fallback_reason.as_deref(), Some("grok_sources_empty"));
    assert_eq!(
        out.content,
        "Grok Responses returned an answer without verifiable search sources, so source fallback returned 5 source(s). Original Grok answer was not treated as verified; evaluate the listed sources directly."
    );
    assert!(out.sources.iter().all(|s| s.content.is_some()));
}

#[test]
fn blank_answer_is_not_verified() {
    let mut svc = service_with(enrich_config(), true);
    let (out, _) = search_with(
        &mut svc,
        &FixedAi(" \u{3000}\n", 2),
        &Some(FakeSourceProvider),
        &counting,
        base_input(),
    )
    .expect("web_search");
    assert_eq!(out.fallback_reason.as_deref(), Some("grok_content_empty"));
    assert!(out.sources.iter().all(|s| !s.url.contains("cited.example")));
}

#[test]
fn citations_lead_and_supplements_follow() {
    let mut svc = service_with(enrich_config(), true);
    let (out, _) = search_with(
        &mut svc,
        &FixedAi("an answer", 2),
        &Some(FakeSourceProvider),
        &counting,
        base_input(),
    )
    .expect("web_search");
    let urls: Vec<&str> = out.sources.iter().map(|s| s.url.as_str()).collect();
    assert_eq!(
        urls,
        vec![
            "https://cited.example/0",
            "https://cited.example/1",
            "https://example.com/source-0",
            "https://example.com/source-1",
            "https://example.com/source-2",
        ]
    );
    assert_eq!(out.sources[4].provider, "tavily_enrichment");
}

#[test]
fn sources_behind_the_inline_window_stay_plain() {
    let mut config = enrich_config();
    config.max_inline_sources = 2;
    let mut svc = service_with(config, true);
    let out = search(&mut svc, &counting, base_input());
    let filled: Vec<bool> = out.sources.iter().map(|s| s.content.is_some()).collect();
    assert_eq!(filled, vec![true, true, false, false]);
}

#[test]
fn a_lost_fetch_leaves_a_note() {
    let svc = service_with(enrich_config(), true);
    let run = svc.web_search(base_input()).expect("web_search");
    let answer = FakeAiProvider.search(&run.request);
    let mut draft = svc.draft_search(run, answer, Vec::new(), RawSourceOrigin::Absent);
    let job = draft.next_job().expect("one source");
    assert!(!draft.is_done());
    draft.lose_job(job.index() + 1);
    assert!(!draft.is_done());
    draft.lose_job(job.index());
    assert!(draft.is_done());
    let mut svc = svc;
    let out = svc.finish_search(draft);
    assert_eq!(out.sources.len(), 1);
    assert_eq!(
        out.sources[0].content,
        Some(format!("_Failed to retrieve: interrupted_\n\nSource: {}", out.sources[0].url))
    );
}

#[test]
fn clones_share_sessions() {
    let mut svc = service_with(enrich_config(), true);
    let clone = svc.service.clone();
    assert_eq!(clone, svc.service);
    let first = search(&mut svc, &counting, base_input());
    let page = clone.get_sources(&svc.sessions, &first.session_id, 0, None).expect("get_sources");
    assert_eq!(page.sources, first.sources);
    // What the clone keeps, the service finds.
    let run = clone.web_search(base_input()).expect("web_search");
    let answer = FakeAiProvider.search(&run.request);
    let draft = clone.draft_search(run, answer, Vec::new(), RawSourceOrigin::Absent);
    let second = clone.finish_search(&mut svc.sessions, draft);
    let page = svc.get_sources(&second.session_id, 0, None).expect("get_sources");
    assert_eq!(page.sources, second.sources);
    assert!(svc.get_sources(&first.session_id, 0, None).is_ok());
}

#[test]
fn only_the_fetch_of_its_own_page_counts() {
    let svc = service_with(enrich_config(), true);
    let run = svc.web_search(base_input()).expect("web_search");
    let answer = FakeAiProvider.search(&run.request);
    let mut draft = svc.draft_search(run, answer, Vec::new(), RawSourceOrigin::Absent);
    let job = draft.next_job().expect("one source");
    let limit = enrich_config().enrich_max_chars;
    let fetch = |index: usize, url: &str, limit: usize| {
        EnrichJob::start(index, url.to_string(), limit, svc.backends())
    };
    let page = || Resolution::Text("text".to_string());
    let url = job.url().to_string();
    // Not over yet, then for another page, another place, under another limit.
    draft.finish_job(fetch(0, &url, limit));
    draft.finish_job(fetch(0, "https://elsewhere.example/", limit).on_resolved(page()));
    draft.finish_job(fetch(1, &url, limit).on_resolved(page()));
    draft.finish_job(fetch(0, &url, limit + 1).on_resolved(page()));
    assert!(!draft.is_done());
    draft.finish_job(job.on_resolved(page()));
    assert!(draft.is_done());
    let mut svc = svc;
    let out = svc.finish_search(draft);
    assert_eq!(out.sources[0].content.as_deref(), Some("text"));
}

#[test]
fn empty_pages_get_a_note() {
    let mut svc = service_with(enrich_config(), true);
    let out = search(&mut svc, &|_| Resolution::Text(String::new()), base_input());
    assert_eq!(out.sources.len(), 4);
    for source in &out.sources {
        assert_eq!(
            source.content,
            Some(format!("_Failed to retrieve: empty_content_\n\nSource: {}", source.url))
        );
    }
}

#[test]
fn malformed_address_gets_a_note() {
    let svc = service_with(enrich_config(), true);
    let run = svc.web_search(base_input()).expect("web_search");
    let answer = Ok(SearchResponse {
        content: "a".to_string(),
        sources: vec![Source::new("not an address".to_string(), "grok_responses")],
    });
    let mut draft = svc.draft_search(run, answer, Vec::new(), RawSourceOrigin::Absent);
    let job = draft.next_job().expect("one source");
    assert_eq!(
        *job.stage(),
        EnrichStage::Done(
            "_Failed to retrieve: invalid_url_\n\nSource: not an address".to_string()
        )
    );
}

#[test]
fn parsed_addresses_are_in_normal_form() {
    let svc = service_with(enrich_config(), true);
    let run = svc.web_search(base_input()).expect("web_search");
    let answer = Ok(SearchResponse {
        content: "a".to_string(),
        sources: vec![Source::new("HTTPS://Example.COM:443/a/../b".to_string(), "grok_responses")],
    });
    let mut draft = svc.draft_search(run, answer, Vec::new(), RawSourceOrigin::Absent);
    let job = draft.next_job().expect("one source");
    assert_eq!(
        *job.stage(),
        EnrichStage::Resolve { parsed: "https://example.com/b".to_string() }
    );
}

#[test]
fn session_names_are_twelve_hex_digits() {
    let svc = SearchService::fake_with_sources();
    let one = svc.web_search(base_input()).expect("web_search").session_id;
    let two = svc.web_search(base_input()).expect("web_search").session_id;
    for id in [&one, &two] {
        assert_eq!(id.len(), 12);
        assert!(id.chars().all(|c| c.is_ascii_digit() || ('a'..='f').contains(&c)));
    }
    assert_ne!(one, two);
}

#[test]
fn overrides_replace_settings() {
    let svc = SearchService::fake_custom(true, true, vars(&[("TAVILY_API_KEY", "other")]));
    assert_eq!(svc.config().tavily_api_key.as_deref(), Some("other"));
    assert_eq!(svc.config().grok_api_key.as_deref(), Some("fake-grok"));
    assert_eq!(svc.config().firecrawl_api_key.as_deref(), Some("fake-firecrawl"));
    assert_eq!(svc.plan().ai, AiBackend::Supplied);
    assert!(svc.backends().fallback);
}

#[test]
fn oauth_needs_a_sign_in_file() {
    let oauth = || {
        let mut config = enrich_config();
        config.grok_auth_mode = grok_search::config::AuthMode::OAuth;
        config
    };
    assert_eq!(
        SearchService::new(oauth(), None).err(),
        Some(GrokSearchError::OAuth(
            "oauth_auth_path_unavailable: set GROK_SEARCH_AUTH_FILE".to_string()
        ))
    );
    let svc = SearchService::new(oauth(), Some("/tmp/auth.json".to_string())).expect("service");
    let report = svc.doctor(
        Some("/tmp/auth.json".to_string()),
        Probe::failed("down".to_string()),
        Some(Probe::failed("slow".to_string())),
        Some(Probe::ok("of no backend".to_string())),
    );
    assert_eq!(report.grok.auth_mode, "oauth");
    assert_eq!(report.grok.auth_file, "/tmp/auth.json");
    assert_eq!(report.grok.detail, "down");
    assert_eq!((report.tavily.reachable, report.tavily.detail.as_str()), (false, "slow"));
    assert_eq!(
        (report.firecrawl.reachable, report.firecrawl.detail.as_str()),
        (false, "FIRECRAWL_API_KEY not configured")
    );
    assert_eq!(report.timeout_seconds, 60);
}

#[test]
fn gateway_names_the_setting_it_lacks() {
    let gateway = || {
        let mut config = enrich_config();
        config.transport = Transport::ChatCompletions;
        config
    };
    assert_eq!(
        SearchService::new(gateway(), None).err(),
        Some(GrokSearchError::MissingConfig("OPENAI_COMPATIBLE_API_URL"))
    );
    let mut config = gateway();
    config.openai_compatible_api_url = Some("https://g.example".to_string());
    assert_eq!(
        SearchService::new(config, None).err(),
        Some(GrokSearchError::MissingConfig("OPENAI_COMPATIBLE_API_KEY"))
    );
}

#[test]
fn disabled_backends_are_left_out() {
    let mut config = enrich_config();
    config.tavily_enabled = false;
    let svc = SearchService::new(config, None).expect("service");
    assert!(!svc.backends().primary);
}

#[test]
fn probe_reports_the_failure() {
    let config = enrich_config();
    let probe = probe_grok(
        &FailingAi(|| GrokSearchError::Timeout("30s".to_string())),
        &config,
        "grok-4-1-fast-reasoning",
    );
    assert_eq!(probe, Probe { ok: false, detail: "timeout: 30s".to_string() });
}

#[test]
fn reports_do_not_depend_on_secrets() {
    let with = |key: &str| {
        let svc = SearchService::new(
            config_from(&[
                ("GROK_SEARCH_API_KEY", key),
                ("TAVILY_API_KEY", key),
                ("GITHUB_TOKEN", key),
            ]),
            None,
        )
        .expect("service");
        svc.doctor(None, Probe::ok("up".to_string()), Some(Probe::ok("up".to_string())), None)
    };
    assert_eq!(with("one-secret"), with("another-secret"));
}

#[test]
fn probes_name_the_model_that_searches_use() {
    let svc = SearchService::new(
        config_from(&[
            ("OPENAI_COMPATIBLE_API_URL", "https://g.example/v1"),
            ("OPENAI_COMPATIBLE_API_KEY", "sk-fake"),
            ("OPENAI_COMPATIBLE_MODEL", "gpt-4o-mini"),
        ]),
        None,
    )
    .expect("service");
    assert_eq!(svc.grok_ping().model, "gpt-4o-mini");
    assert_eq!(svc.web_search(base_input()).expect("web_search").request.model, "gpt-4o-mini");
}

#[test]
fn cut_results_can_still_be_read_in_full() {
    let mut config = enrich_config();
    config.response_max_chars = 1500;
    let mut svc = service_with(config, true);
    let long = |_: &str| Resolution::Text("y".repeat(1000));
    let out = search(&mut svc, &long, base_input());
    assert!(out.truncated);
    assert_eq!(out.sources_count, 4);
    assert_eq!(out.content, "OpenAI published a verifiable update.");
    for index in 0..4 {
        let page = svc.get_sources(&out.session_id, index, Some(1)).expect("get_sources");
        assert_eq!(page.sources[0].content, Some("y".repeat(1000)));
    }
}

#[test]
fn notes_name_the_place_in_the_session() {
    let mut config = enrich_config();
    config.response_max_chars = 1500;
    let mut svc = service_with(config, true);
    let long = |_: &str| Resolution::Text("y".repeat(1000));
    let out = search(&mut svc, &long, base_input());
    let id = out.session_id.as_str();
    let note = |place: usize, source: &Source| {
        format!(
            "response budget reached — full text via web_fetch(\"{}\") or get_sources(session_id=\"{id}\", offset={place}, limit=1)]_",
            source.url
        )
    };
    let last = out.sources.last().unwrap();
    assert!(last.content.as_ref().unwrap().ends_with(&note(out.sources.len() - 1, last)));
    // The second source of a page that starts at the third one is the fourth.
    let page = svc.get_sources(id, 2, Some(2)).expect("get_sources");
    assert!(page.truncated);
    let cut = &page.sources[1];
    assert!(cut.content.as_ref().unwrap().ends_with(&note(3, cut)), "{:?}", cut.content);
    let again = svc.get_sources(id, 3, Some(1)).expect("get_sources");
    assert_eq!(again.sources[0].url, cut.url);
    assert_eq!(again.sources[0].content, Some("y".repeat(1000)));
}

#[test]
fn searches_and_fetches_get_the_same_text() {
    let mut svc = service_with(enrich_config(), true);
    let out = search(&mut svc, &no_specialist, base_input());
    let url = out.sources[0].url.clone();
    let run = svc.web_fetch(&url, None).on_resolved(Err(NO_SPECIALIST_MATCH.to_string()));
    let run = run.on_reply(FakeSourceProvider.fetch(&url));
    let grok_search::fetch::FetchStage::Done(Ok(page)) = run.stage else { panic!("no result") };
    assert_eq!(Some(page.content), out.sources[0].content);
}
