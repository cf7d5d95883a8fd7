use grok_search::answer::{
    enrichment_label, fallback_label, grok_error_reason, grok_unverifiable_reason, RawSourceOrigin,
};
use grok_search::budget::{apply_response_budget, source_weight};
use grok_search::cache::SourceCache;
use grok_search::doctor::{probe_source, source_ping, Probe, SAMPLE_URL};
use grok_search::enrich::{EnrichJob, EnrichStage, Resolution};
use grok_search::error::GrokSearchError;
use grok_search::fetch::{
    apply_fetch_limit, generic_source_fetch, FetchStage, GenericFetch, WebFetchRun,
    NO_SPECIALIST_MATCH,
};
use grok_search::gather::fetch_raw_extra_sources;
use grok_search::model::search::{ContentBlock, SearchFilters, SearchResponse, SearchTool};
use grok_search::model::source::{merge_sources, with_provider, Source};
use grok_search::model::tool::{SourceType, WebSearchInput};
use grok_search::paging::source_page;
use grok_search::pool::apply_enrichment;
use grok_search::provider::{Backends, FakeSourceProvider, SourceProvider};
use grok_search::request::build_search_request;
use grok_search::service::SearchService;
use grok_search::session::session_id;
use grok_search::sitemap::{map_site, SiteMapStage};
use grok_search::text::{blank, decimal_text, join, take_chars};

/// Replies to everything with the same.
struct Fixed {
    sources: fn() -> Result<Vec<Source>, GrokSearchError>,
    text: fn() -> Result<String, GrokSearchError>,
}

impl SourceProvider for Fixed {
    fn search_sources(
        &self,
        _query: &str,
        _max_results: usize,
        _filters: &SearchFilters,
    ) -> Result<Vec<Source>, GrokSearchError> {
        (self.sources)()
    }

    fn fetch(&self, _url: &str) -> Result<String, GrokSearchError> {
        (self.text)()
    }

    fn map(&self, _url: &str, _max_results: usize) -> Result<Vec<Source>, GrokSearchError> {
        (self.sources)()
    }
}

fn empty() -> Fixed {
    Fixed { sources: || Ok(Vec::new()), text: || Ok(" \n".to_string()) }
}

fn failing() -> Fixed {
    Fixed {
        sources: || Err(GrokSearchError::Provider("down".to_string())),
        text: || Err(GrokSearchError::Provider("down".to_string())),
    }
}

fn source(url: &str, content: Option<&str>) -> Source {
    let mut source = Source::new(url.to_string(), "tavily");
    source.content = content.map(|c| c.to_string());
    source
}

fn none() -> Option<Fixed> {
    None
}

#[test]
fn weight_counts_every_field() {
    let full = Source {
        url: "1234".to_string(),
        provider: "12".to_string(),
        title: Some("é".to_string()),
        description: Some("123".to_string()),
        published_date: Some("12345".to_string()),
        content: Some("1234567".to_string()),
    };
    assert_eq!(source_weight(&full), 4 + 2 + 1 + 3 + 5 + 7 + 64);
    assert_eq!(source_weight(&source("u", None)), 1 + 6 + 64);
}

#[test]
fn fitting_response_is_untouched() {
    let mut sources = vec![source("u", Some("text"))];
    let before = sources.clone();
    assert!(!apply_response_budget(10, &mut sources, 10 + 75, "s"));
    assert_eq!(sources, before);
    // Too long, but a text shorter than its note has nothing to give.
    assert!(!apply_response_budget(10, &mut sources, 10 + 74, "s"));
    assert_eq!(sources, before);
    let mut nothing: Vec<Source> = Vec::new();
    assert!(!apply_response_budget(10, &mut nothing, 5, "s"));
    assert!(nothing.is_empty());
}

#[test]
fn tail_text_keeps_its_start_where_that_is_enough() {
    let long = "a".repeat(1000);
    let mut sources = vec![source("u0", Some(&long)), source("u1", Some(&long))];
    // Each source weighs 2 + 6 + 1000 + 64.
    assert!(apply_response_budget(0, &mut sources, 2 * 1072 - 50, "sid"));
    assert_eq!(sources[0].content.as_deref(), Some(long.as_str()));
    let note = "_[truncated: response budget reached — full text via web_fetch(\"u1\") or get_sources(session_id=\"sid\", offset=1, limit=1)]_";
    let kept = 1000 - 50 - note.chars().count() - 2;
    assert_eq!(sources[1].content, Some(format!("{}\n\n{note}", "a".repeat(kept))));
    assert_eq!(source_weight(&sources[0]) + source_weight(&sources[1]), 2 * 1072 - 50);
}

#[test]
fn tail_text_is_omitted_where_its_start_does_not_fit() {
    let long = "a".repeat(1000);
    let mut sources = vec![source("u0", Some(&long)), source("u1", Some(&long))];
    assert!(apply_response_budget(0, &mut sources, 1210, "sid"));
    assert_eq!(
        sources[1].content.as_deref(),
        Some("_[inline content omitted: response budget reached — full text via web_fetch(\"u1\") or get_sources(session_id=\"sid\", offset=1, limit=1)]_")
    );
    // What the note itself takes is cut from the source before.
    let head = sources[0].content.as_deref().unwrap();
    assert!(head.starts_with("aaaa") && head.ends_with("offset=0, limit=1)]_"), "{head}");
    assert_eq!(source_weight(&sources[0]) + source_weight(&sources[1]), 1210);
}

#[test]
fn sources_go_once_no_text_is_left() {
    let mut sources: Vec<Source> = (0..5).map(|i| source(&format!("u{i}"), Some("short"))).collect();
    // Each source weighs 2 + 6 + 5 + 64.
    assert!(apply_response_budget(0, &mut sources, 2 * 77, "sid"));
    assert_eq!(sources.len(), 2);
    assert_eq!(sources[1], source("u1", Some("short")));
    assert!(apply_response_budget(1000, &mut sources, 0, "sid"));
    assert_eq!(sources, vec![source("u0", Some("short"))]);
    assert!(!apply_response_budget(1000, &mut sources, 0, "sid"));
    assert_eq!(sources, vec![source("u0", Some("short"))]);
}

#[test]
fn fetch_limit_counts_characters() {
    let out = apply_fetch_limit("u", "äöü".to_string(), Some(2), SourceType::Generic, None);
    assert_eq!(out.content, "äö");
    assert_eq!(out.original_length, 3);
    assert!(out.truncated);
    let out = apply_fetch_limit("u", "äöü".to_string(), Some(3), SourceType::Wikipedia, None);
    assert_eq!((out.content.as_str(), out.truncated, out.original_length), ("äöü", false, 3));
    let out = apply_fetch_limit(
        "u",
        "äöü".to_string(),
        None,
        SourceType::Generic,
        Some("r".to_string()),
    );
    assert_eq!((out.content.as_str(), out.truncated, out.original_length), ("äöü", false, 3));
    assert_eq!(out.fallback_reason.as_deref(), Some("r"));
    let out = apply_fetch_limit("u", "ab".to_string(), Some(0), SourceType::Generic, None);
    assert_eq!((out.content.as_str(), out.truncated, out.original_length), ("", true, 2));
}

#[test]
fn generic_fetch_tries_primary_then_fallback() {
    let url = "https://a.example";
    assert_eq!(
        generic_source_fetch(&Some(FakeSourceProvider), &Some(failing()), url),
        Ok("Fetched content from https://a.example".to_string())
    );
    assert_eq!(
        generic_source_fetch(&Some(empty()), &Some(FakeSourceProvider), url),
        Ok("Fetched content from https://a.example".to_string())
    );
    // Whatever the fallback replies is returned, even a blank text.
    assert_eq!(generic_source_fetch(&Some(failing()), &Some(empty()), url), Ok(" \n".to_string()));
    assert_eq!(
        generic_source_fetch(&Some(empty()), &none(), url),
        Err(GrokSearchError::Provider("primary fetch provider returned empty content".to_string()))
    );
    assert_eq!(
        generic_source_fetch(&Some(failing()), &none(), url),
        Err(GrokSearchError::Provider("down".to_string()))
    );
    assert_eq!(
        generic_source_fetch(&none(), &none(), url),
        Err(GrokSearchError::MissingConfig("TAVILY_API_KEY or FIRECRAWL_API_KEY"))
    );
}

#[test]
fn web_fetch_prefers_the_specialist() {
    let svc = SearchService::fake_with_sources();
    let run = svc.web_fetch("https://en.wikipedia.org/wiki/Rust", Some(4));
    let FetchStage::Resolve { ref parsed } = run.stage else { panic!("{run:?}") };
    assert_eq!(parsed, "https://en.wikipedia.org/wiki/Rust");
    let run = run.on_resolved(Ok(("Rusty".to_string(), SourceType::Wikipedia)));
    let FetchStage::Done(Ok(out)) = run.stage else { panic!("no result") };
    assert_eq!(out.content, "Rust");
    assert_eq!(out.source_type, SourceType::Wikipedia);
    assert_eq!(out.original_length, 5);
    assert_eq!(out.fallback_reason, None);
}

fn generic_after(reason: &str) -> Option<String> {
    let svc = SearchService::fake_with_sources();
    let run = svc.web_fetch("https://a.example/", None).on_resolved(Err(reason.to_string()));
    assert!(matches!(
        run.stage,
        FetchStage::Generic { fetch: GenericFetch::AskPrimary { has_fallback: false }, .. }
    ));
    let run = run.on_reply(Ok("text".to_string()));
    let FetchStage::Done(Ok(out)) = run.stage else { panic!("no result") };
    assert_eq!(out.source_type, SourceType::Generic);
    assert_eq!(out.url, "https://a.example/");
    assert_eq!(out.content, "text");
    out.fallback_reason
}

#[test]
fn web_fetch_reports_only_real_specialist_failures() {
    assert_eq!(generic_after(NO_SPECIALIST_MATCH), None);
    assert_eq!(generic_after("rate limited"), Some("rate limited".to_string()));
}

#[test]
fn web_fetch_of_malformed_address_goes_generic() {
    let svc = SearchService::fake_with_sources();
    let run = svc.web_fetch("no address", None);
    assert!(matches!(run.stage, FetchStage::Generic { reason: None, .. }));
    let run = run.on_reply(Err(GrokSearchError::Timeout("t".to_string())));
    assert_eq!(run.stage, FetchStage::Done(Err(GrokSearchError::Timeout("t".to_string()))));
}

#[test]
fn web_fetch_without_backends_is_refused() {
    let run = WebFetchRun::start("x", None, Backends { primary: false, fallback: false });
    assert_eq!(
        run.stage,
        FetchStage::Done(Err(GrokSearchError::MissingConfig("TAVILY_API_KEY or FIRECRAWL_API_KEY")))
    );
}

#[test]
fn enrichment_times_out_at_any_stage() {
    let both = Backends { primary: true, fallback: true };
    let start = || EnrichJob::start(3, "https://a.example/".to_string(), 10, both);
    let late = "_Failed to retrieve: timeout_\n\nSource: https://a.example/".to_string();
    assert_eq!(*start().on_resolved(Resolution::TimedOut).stage(), EnrichStage::Done(late.clone()));
    let job = start().on_resolved(Resolution::Failed("r".to_string()));
    let job = job.on_reply(Ok("  ".to_string()));
    assert!(matches!(job.stage(), EnrichStage::Generic { fetch: GenericFetch::AskFallback, .. }));
    assert_eq!(*job.on_deadline().stage(), EnrichStage::Done(late));
    let job = start().on_resolved(Resolution::Failed("r".to_string()));
    let job = job.on_reply(Err(GrokSearchError::Parse("p".to_string())));
    let job = job.on_reply(Ok("0123456789abc".to_string()));
    assert_eq!(*job.stage(), EnrichStage::Done("0123456789".to_string()));
    assert_eq!((job.index(), job.url()), (3, "https://a.example/"));
}

#[test]
fn empty_text_ends_in_a_note() {
    let both = Backends { primary: true, fallback: true };
    let start = || EnrichJob::start(0, "https://a.example/".to_string(), 10, both);
    let note = |reason: &str| {
        EnrichStage::Done(format!("_Failed to retrieve: {reason}_\n\nSource: https://a.example/"))
    };
    let job = start().on_resolved(Resolution::Text(String::new()));
    assert_eq!(*job.stage(), note("empty_content"));
    let job = start().on_resolved(Resolution::Failed("rate_limited".to_string()));
    let job = job.on_reply(Ok(String::new()));
    let job = job.on_reply(Ok(String::new()));
    assert_eq!(*job.stage(), note("rate_limited"));
    let alone = Backends { primary: false, fallback: true };
    let job = EnrichJob::begin(
        0,
        "https://a.example/".to_string(),
        Some("https://a.example/".to_string()),
        10,
        alone,
    );
    let job = job.on_resolved(Resolution::Failed("no_match".to_string())).on_reply(Ok(String::new()));
    assert_eq!(*job.stage(), note("no_match"));
}

#[test]
fn finished_fetch_gives_its_text_for_its_own_page() {
    let both = Backends { primary: true, fallback: true };
    let url = "https://a.example/";
    let parsed = Some(url.to_string());
    let job = EnrichJob::start(0, url.to_string(), 10, both);
    assert_eq!(job.text_for(url, &parsed, 10), None);
    let job = job.on_resolved(Resolution::Text("text".to_string()));
    assert_eq!(job.text_for(url, &parsed, 10), Some("text".to_string()));
    assert_eq!(job.text_for("https://b.example/", &parsed, 10), None);
    assert_eq!(job.text_for(url, &None, 10), None);
    assert_eq!(job.text_for(url, &parsed, 11), None);
}

#[test]
fn source_backends_are_probed_with_a_single_page_search() {
    let ping = source_ping();
    assert_eq!((ping.query, ping.max_results), ("ping", 1));
    assert_eq!(ping.filters, SearchFilters::default());
    assert_eq!(SAMPLE_URL, "https://example.com");
}

#[test]
fn enrichment_is_independent_of_arrival_order() {
    let sources = || vec![source("a", None), source("b", None), source("c", None)];
    let one = apply_enrichment(
        sources(),
        &vec![(0, "x".to_string()), (2, "z".to_string())],
    );
    let two = apply_enrichment(
        sources(),
        &vec![(2, "z".to_string()), (0, "x".to_string())],
    );
    assert_eq!(one, two);
    assert_eq!(one, vec![source("a", Some("x")), source("b", None), source("c", Some("z"))]);
}

#[test]
fn gathering_asks_in_order() {
    let filters = SearchFilters::default();
    let (sources, origin) =
        fetch_raw_extra_sources(&Some(FakeSourceProvider), &none(), "q", 2, &filters);
    assert_eq!((sources.len(), origin), (2, RawSourceOrigin::Primary));
    assert_eq!(sources[1].url, "https://example.com/source-1");
    assert_eq!(sources[1].title.as_deref(), Some("Source 1"));
    let (sources, origin) =
        fetch_raw_extra_sources(&Some(empty()), &Some(FakeSourceProvider), "q", 3, &filters);
    assert_eq!((sources.len(), origin), (3, RawSourceOrigin::Fallback));
    let (sources, origin) =
        fetch_raw_extra_sources(&Some(failing()), &Some(empty()), "q", 3, &filters);
    assert_eq!((sources.len(), origin), (0, RawSourceOrigin::Absent));
    let (sources, origin) =
        fetch_raw_extra_sources(&Some(FakeSourceProvider), &none(), "q", 0, &filters);
    assert_eq!((sources.len(), origin), (0, RawSourceOrigin::Absent));
}

#[test]
fn mapping_asks_in_order() {
    let pages = map_site(&Some(FakeSourceProvider), &none(), "https://a.example", 2).unwrap();
    assert_eq!(pages[1].url, "https://a.example/page-1");
    assert_eq!(map_site(&Some(failing()), &Some(FakeSourceProvider), "u", 1).unwrap().len(), 1);
    assert_eq!(map_site(&Some(failing()), &Some(empty()), "u", 1), Ok(Vec::new()));
    assert_eq!(
        map_site(&Some(empty()), &none(), "u", 1),
        Err(GrokSearchError::Provider("primary map provider returned no sources".to_string()))
    );
    assert_eq!(
        map_site(&Some(failing()), &none(), "u", 1),
        Err(GrokSearchError::Provider("down".to_string()))
    );
    assert_eq!(
        map_site(&none(), &none(), "u", 1),
        Err(GrokSearchError::MissingConfig("TAVILY_API_KEY or FIRECRAWL_API_KEY"))
    );
}

#[test]
fn web_map_asks_the_primary_first() {
    let svc = SearchService::fake_with_router(true);
    let run = svc.web_map("https://a.example", 7);
    assert_eq!((run.url.as_str(), run.max_results), ("https://a.example", 7));
    assert_eq!(run.stage, SiteMapStage::AskPrimary { has_fallback: true });
    let run = run.on_reply(Ok(Vec::new()));
    assert_eq!(run.stage, SiteMapStage::AskFallback);
    let run = run.on_reply(Ok(Vec::new()));
    assert_eq!(run.stage, SiteMapStage::Done(Ok(Vec::new())));
}

#[test]
fn labels_follow_the_origin() {
    assert_eq!(enrichment_label(RawSourceOrigin::Primary), "tavily_enrichment");
    assert_eq!(enrichment_label(RawSourceOrigin::Fallback), "firecrawl_enrichment");
    assert_eq!(enrichment_label(RawSourceOrigin::Absent), "tavily_enrichment");
    assert_eq!(fallback_label(RawSourceOrigin::Primary), "tavily_fallback");
    assert_eq!(fallback_label(RawSourceOrigin::Fallback), "firecrawl_enrichment");
    assert_eq!(fallback_label(RawSourceOrigin::Absent), "tavily_fallback");
}

#[test]
fn reasons_are_stable() {
    let reason = |e: GrokSearchError| grok_error_reason(&e);
    assert_eq!(reason(GrokSearchError::Timeout("x".to_string())), "grok_timeout");
    assert_eq!(reason(GrokSearchError::OAuth("x".to_string())), "grok_auth_error");
    assert_eq!(reason(GrokSearchError::Parse("x".to_string())), "grok_parse_error");
    assert_eq!(reason(GrokSearchError::NotFound("x".to_string())), "grok_provider_error");
    assert_eq!(reason(GrokSearchError::InvalidParams("x".to_string())), "grok_provider_error");
    assert_eq!(reason(GrokSearchError::MissingConfig("x")), "grok_provider_error");
    let response = |content: &str, n: usize| SearchResponse {
        content: content.to_string(),
        sources: (0..n).map(|_| source("u", None)).collect(),
    };
    assert_eq!(grok_unverifiable_reason(&response("\t", 1)), Some("grok_content_empty"));
    assert_eq!(grok_unverifiable_reason(&response("a", 0)), Some("grok_sources_empty"));
    assert_eq!(grok_unverifiable_reason(&response("a", 1)), None);
}

#[test]
fn request_spells_out_the_restrictions() {
    let input = WebSearchInput {
        query: "rust".to_string(),
        platform: Some("GitHub".to_string()),
        recency_days: Some(30),
        include_domains: vec!["a.org".to_string(), "b.org".to_string()],
        exclude_domains: vec!["c.org".to_string()],
        ..Default::default()
    };
    let extra = vec![
        Source::new("https://a.org/1".to_string(), "x").with_title("One".to_string()),
        Source::new("https://a.org/2".to_string(), "x"),
    ];
    let request = build_search_request("m", &input, &extra);
    assert_eq!(request.model, "m");
    assert_eq!(request.tools, vec![SearchTool::WebSearch]);
    assert_eq!(
        request.system.as_deref(),
        Some("Answer concisely with factual claims grounded in web search sources. Prefer primary sources. If sources are weak or unavailable, say so.")
    );
    assert_eq!(request.messages.len(), 1);
    assert_eq!(request.messages[0].role, "user");
    assert_eq!(
        request.messages[0].content,
        vec![ContentBlock::Text(
            "rust\n\nFocus platform: GitHub\n\nRestrict evidence to sources published within the last 30 day(s).\n\nPrefer sources from: a.org, b.org\n\nDo not cite sources from: c.org\n\nAdditional sources:\n- https://a.org/1 | One\n- https://a.org/2\n"
                .to_string()
        )]
    );
    let plain = WebSearchInput {
        query: "rust".to_string(),
        platform: Some(String::new()),
        model: Some("other".to_string()),
        ..Default::default()
    };
    let request = build_search_request("m", &plain, &Vec::new());
    assert_eq!(request.model, "other");
    assert_eq!(request.messages[0].content, vec![ContentBlock::Text("rust".to_string())]);
}

#[test]
fn search_asks_for_enough_sources() {
    let svc = SearchService::fake_with_sources();
    let run = |extra: Option<usize>| {
        let input = WebSearchInput { extra_sources: extra, ..Default::default() };
        let run = svc.begin_search(input, "0123456789ab".to_string()).unwrap();
        (run.extra_sources, run.speculative_count)
    };
    assert_eq!(run(None), (3, 5));
    assert_eq!(run(Some(9)), (9, 9));
    assert_eq!(run(Some(0)), (0, 5));
}

#[test]
fn session_name_is_the_start_of_the_identifier() {
    assert_eq!(session_id(0x0123_4567_89ab_cdef_0123_4567_89ab_cdef), "0123456789ab");
    assert_eq!(session_id(0), "000000000000");
    assert_eq!(session_id(u128::MAX), "ffffffffffff");
}

#[test]
fn cache_keeps_the_latest_sessions() {
    let mut cache = SourceCache::new(2);
    cache.set("a".to_string(), vec![source("1", None)]);
    cache.set("b".to_string(), vec![source("2", None)]);
    cache.set("a".to_string(), vec![source("3", None)]);
    cache.set("c".to_string(), vec![source("4", None)]);
    assert_eq!(cache.get("a"), Some(vec![source("3", None)]));
    assert_eq!(cache.get("b"), None);
    assert_eq!(cache.get("c"), Some(vec![source("4", None)]));
    let mut nothing = SourceCache::new(0);
    nothing.set("a".to_string(), Vec::new());
    assert_eq!(nothing.get("a"), None);
}

#[test]
fn unknown_session_is_not_found() {
    let svc = SearchService::fake_with_sources();
    assert_eq!(
        svc.get_sources(&svc.new_sessions(), "nope", 0, None).err(),
        Some(GrokSearchError::NotFound("session_id=nope".to_string()))
    );
}

fn pages() -> Vec<Source> {
    (0..5).map(|i| source(&format!("u{i}"), None)).collect()
}

#[test]
fn pages_follow_each_other() {
    let page = source_page("s", pages(), 0, Some(2), 10_000);
    assert_eq!((page.sources_count, page.total_sources, page.next_offset), (2, 5, Some(2)));
    let page = source_page("s", pages(), 4, Some(2), 10_000);
    assert_eq!((page.sources_count, page.next_offset), (1, None));
    assert_eq!(page.sources[0].url, "u4");
    let page = source_page("s", pages(), 9, None, 10_000);
    assert_eq!((page.sources_count, page.offset, page.next_offset), (0, 9, None));
    assert!(!page.truncated);
    let page = source_page("s", pages(), 1, Some(usize::MAX), 10_000);
    assert_eq!((page.sources_count, page.next_offset), (4, None));
}

#[test]
fn following_pages_reaches_every_source() {
    let mut urls: Vec<String> = Vec::new();
    let mut offset = Some(0);
    while let Some(at) = offset {
        // Each source weighs 72: only one fits.
        let page = source_page("s", pages(), at, Some(3), 80);
        assert!(page.truncated || at == 4);
        urls.extend(page.sources.into_iter().map(|s| s.url));
        offset = page.next_offset;
    }
    assert_eq!(urls, vec!["u0", "u1", "u2", "u3", "u4"]);
}

#[test]
fn merging_keeps_each_address_once() {
    let merged = merge_sources(
        vec![source("a", Some("1")), source("b", None), source("a", Some("2"))],
        vec![source("b", Some("3")), source("c", None)],
    );
    assert_eq!(merged, vec![source("a", Some("1")), source("b", None), source("c", None)]);
}

#[test]
fn provider_label_is_replaced() {
    let labelled = with_provider(vec![source("a", Some("1"))], "tavily_fallback");
    assert_eq!(labelled[0].provider, "tavily_fallback");
    assert_eq!(labelled[0].content.as_deref(), Some("1"));
}

#[test]
fn source_probes_tell_what_came_back() {
    assert_eq!(
        probe_source(&FakeSourceProvider, "https://example.com"),
        Probe {
            ok: true,
            detail: "reachable (sample probe via https://example.com ok)".to_string()
        }
    );
    assert_eq!(
        probe_source(&failing(), "https://example.com"),
        Probe { ok: false, detail: "provider error: down".to_string() }
    );
}

#[test]
fn error_messages_name_the_kind() {
    let text = |e: GrokSearchError| e.message();
    assert_eq!(text(GrokSearchError::MissingConfig("K")), "missing config: K");
    assert_eq!(text(GrokSearchError::InvalidParams("x".to_string())), "invalid params: x");
    assert_eq!(text(GrokSearchError::NotFound("x".to_string())), "not found: x");
    assert_eq!(text(GrokSearchError::Provider("x".to_string())), "provider error: x");
    assert_eq!(text(GrokSearchError::Timeout("x".to_string())), "timeout: x");
    assert_eq!(text(GrokSearchError::Parse("x".to_string())), "parse error: x");
    assert_eq!(text(GrokSearchError::OAuth("x".to_string())), "oauth error: x");
}

#[test]
fn text_helpers() {
    assert_eq!(decimal_text(0), "0");
    assert_eq!(decimal_text(u64::MAX), "18446744073709551615");
    assert_eq!(join(&vec!["a".to_string(), "b".to_string()], ", "), "a, b");
    assert_eq!(join(&Vec::new(), ", "), "");
    assert_eq!(take_chars("äöü", 2), "äö");
    for code in 0..0x11_0000u32 {
        if let Some(c) = char::from_u32(code) {
            assert_eq!(blank(&c.to_string()), c.to_string().trim().is_empty());
        }
    }
}
