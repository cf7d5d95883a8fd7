//! The search service: its settings and its backends.
//!
//! The service decides; whoever holds it does the work that takes time. A search,
//! a fetch and a listing are each handed out as a value that says what to ask of
//! which backend next, and that takes the replies. The sessions that are kept are a
//! value of their own, which all clones of a service read and write.

use crate::answer::RawSourceOrigin;
use crate::cache::{CacheView, SourceCache};
use crate::config::{configured, default_model_of, resolve_default_model, vars_of, Config};
use crate::doctor::{
    doctor_report, grok_ping, ping_request, probe_of, report, DoctorReport, Probe,
};
use crate::error::{ErrorView, GrokSearchError};
use crate::fetch::{fetch_start, WebFetchRun};
use crate::model::search::{SearchRequest, SearchResponse};
use crate::model::source::{sources_of, Source};
use crate::model::tool::{
    GetSourcesOutput, PageView, WebSearchInput, WebSearchOutput,
};
use crate::paging::{limit_of, page, source_page};
use crate::plan::{
    plan_for, provider_plan, AiBackend, AiBackendView, PlanView, ProviderPlan, SourceBackend,
    SourceBackendView,
};
use crate::provider::Backends;
use crate::search::{
    answer_of, drafted, final_sources, finish_search, run_reply, search_output, search_start,
    start_search, SearchDraft, WebSearchRun,
};
use crate::session::{fresh_session_id, is_drawn_session_id, is_session_id};
use crate::sitemap::{map_start, MapRunView, WebMapRun};
use crate::text::text_of;
use crate::urls::parsed_url;
use vstd::prelude::*;
use vstd::string::StringExecFns;

verus! {

/// How much of a discussion page a specialist returns.
#[derive(Debug, Clone, Copy, PartialEq, Eq, Structural)]
pub struct SourceCaps {
    pub max_answers: usize,
    pub max_comments: usize,
}

/// The search service. Clones are interchangeable: what one of them keeps in the
/// sessions that they share, every other finds there.
#[derive(Debug, PartialEq, Eq)]
pub struct SearchService {
    config: Config,
    /// The model that every request names unless the caller names another. It is
    /// settled once, so that each transport gets a model that it understands.
    default_model: String,
    plan: ProviderPlan,
    /// How many sessions are kept for paging.
    cache_size: usize,
}

/// The search service, as plain values.
pub struct ServiceView {
    pub config: Config,
    pub default_model: Seq<char>,
    pub plan: PlanView,
    pub cache_size: nat,
}

impl View for SearchService {
    type V = ServiceView;

    closed spec fn view(&self) -> ServiceView {
        ServiceView {
            config: self.config,
            default_model: self.default_model@,
            plan: self.plan@,
            cache_size: self.cache_size as nat,
        }
    }
}

impl Clone for SearchService {
    fn clone(&self) -> (copy: Self)
        ensures
            copy@ == self@,
    {
        SearchService {
            config: self.config.clone(),
            default_model: self.default_model.clone(),
            plan: self.plan.clone(),
            cache_size: self.cache_size,
        }
    }
}

impl ServiceView {
    /// A service that has just been set up.
    pub open spec fn fresh(config: Config, plan: PlanView, cache_size: nat) -> ServiceView {
        ServiceView {
            config,
            default_model: default_model_of(config),
            plan,
            cache_size,
        }
    }

    /// The default model is the one that the transport understands.
    pub open spec fn wf(self) -> bool {
        self.default_model == default_model_of(self.config)
    }
}

/// The settings of a service whose backends are made up or brought by the caller.
pub open spec fn fake_vars(has_fallback: bool) -> Seq<(Seq<char>, Seq<char>)> {
    let keys = seq![
        ("GROK_SEARCH_API_KEY"@, "fake-grok"@),
        ("TAVILY_API_KEY"@, "fake-tavily"@),
    ];
    if has_fallback {
        keys.push(("FIRECRAWL_API_KEY"@, "fake-firecrawl"@))
    } else {
        keys
    }
}

/// The backends of a service whose source backends the caller brings.
pub open spec fn supplied_plan(custom_ai: bool, has_fallback: bool) -> PlanView {
    PlanView {
        ai: if custom_ai {
            AiBackendView::Supplied
        } else {
            AiBackendView::Fake
        },
        primary: Some(SourceBackendView::Supplied),
        fallback: if has_fallback {
            Some(SourceBackendView::Supplied)
        } else {
            None
        },
        x_search_ignored: false,
    }
}

/// How many sessions a service with made-up backends keeps.
pub const FAKE_CACHE_SIZE: usize = 256;

/// One page of a session, or that the session is not kept.
pub open spec fn page_reply(reply: Result<GetSourcesOutput, GrokSearchError>) -> Result<
    PageView,
    ErrorView,
> {
    match reply {
        Ok(output) => Ok(output@),
        Err(error) => Err(error@),
    }
}

/// What a request for a page is answered.
pub open spec fn page_for(
    service: ServiceView,
    sessions: CacheView,
    session_id: Seq<char>,
    offset: nat,
    limit: Option<nat>,
) -> Result<PageView, ErrorView> {
    match sessions.lookup(session_id) {
        Some(sources) => Ok(
            page(
                session_id,
                sources,
                offset,
                limit,
                service.config.response_max_chars as nat,
            ),
        ),
        None => Err(ErrorView::NotFound("session_id="@ + session_id)),
    }
}

/// The length limit of a fetch: the caller's, or else the configured one.
pub open spec fn fetch_limit(config: Config, max_chars: Option<usize>) -> Option<usize> {
    if max_chars is Some {
        max_chars
    } else {
        config.fetch_max_chars
    }
}

/// The settings of a service whose backends are made up or brought by the caller.
fn fake_settings(has_fallback: bool) -> (vars: Vec<(String, String)>)
    ensures
        vars_of(vars@) == fake_vars(has_fallback),
{
    let mut vars: Vec<(String, String)> = Vec::new();
    vars.push(("GROK_SEARCH_API_KEY".to_owned(), "fake-grok".to_owned()));
    vars.push(("TAVILY_API_KEY".to_owned(), "fake-tavily".to_owned()));
    if has_fallback {
        vars.push(("FIRECRAWL_API_KEY".to_owned(), "fake-firecrawl".to_owned()));
    }
    assert(vars_of(vars@) =~= fake_vars(has_fallback));
    vars
}

impl SearchService {
    /// Sets up a service with the given backends.
    pub fn with_plan(config: Config, plan: ProviderPlan, cache_size: usize) -> (service:
        SearchService)
        ensures
            service@ == ServiceView::fresh(config, plan@, cache_size as nat),
            service@.wf(),
    {
        let default_model = resolve_default_model(&config);
        SearchService { config, default_model, plan, cache_size }
    }

    /// Sets up the service that a configuration calls for, or says which setting
    /// it lacks. The sign-in file is looked for at `default_auth_path` where the
    /// configuration does not name one.
    pub fn new(config: Config, default_auth_path: Option<String>) -> (result: Result<
        SearchService,
        GrokSearchError,
    >)
        ensures
            match plan_for(config, text_of(default_auth_path)) {
                Ok(plan) => {
                    &&& result is Ok
                    &&& result->Ok_0@ == ServiceView::fresh(
                        config,
                        plan,
                        config.cache_size as nat,
                    )
                    &&& result->Ok_0@.wf()
                },
                Err(error) => result is Err && result->Err_0@ == error,
            },
    {
        match provider_plan(&config, default_auth_path) {
            Ok(plan) => {
                let cache_size = config.cache_size;
                Ok(SearchService::with_plan(config, plan, cache_size))
            },
            Err(error) => Err(error),
        }
    }

    /// A service with a made-up language model and a made-up source backend.
    pub fn fake_with_sources() -> (service: SearchService)
        ensures
            service@ == ServiceView::fresh(
                service@.config,
                PlanView {
                    ai: AiBackendView::Fake,
                    primary: Some(SourceBackendView::Fake),
                    fallback: None,
                    x_search_ignored: false,
                },
                FAKE_CACHE_SIZE as nat,
            ),
            configured(service@.config, fake_vars(false)),
            service@.wf(),
    {
        let config = Config::from_env_map(&fake_settings(false));
        let plan = ProviderPlan {
            ai: AiBackend::Fake,
            primary: Some(SourceBackend::Fake),
            fallback: None,
            x_search_ignored: false,
        };
        SearchService::with_plan(config, plan, FAKE_CACHE_SIZE)
    }

    /// A service whose source backends the caller brings, and its language model
    /// too where `custom_ai` says so; the settings can be overridden.
    pub fn fake_custom(
        custom_ai: bool,
        has_fallback: bool,
        overrides: Vec<(String, String)>,
    ) -> (service: SearchService)
        ensures
            service@ == ServiceView::fresh(
                service@.config,
                supplied_plan(custom_ai, has_fallback),
                FAKE_CACHE_SIZE as nat,
            ),
            configured(service@.config, fake_vars(has_fallback) + vars_of(overrides@)),
            service@.wf(),
    {
        let ghost given = overrides@;
        let mut vars = fake_settings(has_fallback);
        let mut more = overrides;
        let ghost before = vars@;
        vars.append(&mut more);
        assert(vars_of(vars@) =~= vars_of(before) + vars_of(given));
        let config = Config::from_env_map(&vars);
        let plan = ProviderPlan {
            ai: if custom_ai {
                AiBackend::Supplied
            } else {
                AiBackend::Fake
            },
            primary: Some(SourceBackend::Supplied),
            fallback: if has_fallback {
                Some(SourceBackend::Supplied)
            } else {
                None
            },
            x_search_ignored: false,
        };
        SearchService::with_plan(config, plan, FAKE_CACHE_SIZE)
    }

    /// A service with a made-up language model whose source backends, and whose
    /// specialists, the caller brings.
    pub fn fake_with_router(has_fallback: bool) -> (service: SearchService)
        ensures
            service@ == ServiceView::fresh(
                service@.config,
                supplied_plan(false, has_fallback),
                FAKE_CACHE_SIZE as nat,
            ),
            configured(service@.config, fake_vars(has_fallback)),
            service@.wf(),
    {
        let none: Vec<(String, String)> = Vec::new();
        assert(fake_vars(has_fallback) + vars_of(none@) =~= fake_vars(has_fallback));
        SearchService::fake_custom(false, has_fallback, none)
    }

    /// The settings of the service.
    pub fn config(&self) -> (config: &Config)
        ensures
            *config == self@.config,
    {
        &self.config
    }

    /// The backends of the service.
    pub fn plan(&self) -> (plan: &ProviderPlan)
        ensures
            plan@ == self@.plan,
    {
        &self.plan
    }

    /// Which source backends the service has.
    pub fn backends(&self) -> (backends: Backends)
        ensures
            backends == self@.plan.backends(),
    {
        Backends { primary: self.plan.primary.is_some(), fallback: self.plan.fallback.is_some() }
    }

    /// Where the service keeps its sessions: none at first, and no more than it was
    /// set up for. All clones of the service are to be given the same.
    pub fn new_sessions(&self) -> (sessions: SourceCache)
        ensures
            sessions@ == CacheView::empty(self@.cache_size),
            sessions@.wf(),
    {
        SourceCache::new(self.cache_size)
    }

    /// How much of a discussion page a specialist is to return.
    pub fn source_caps(&self) -> (caps: SourceCaps)
        ensures
            caps.max_answers == self@.config.source_max_answers,
            caps.max_comments == self@.config.source_max_comments,
    {
        SourceCaps {
            max_answers: self.config.source_max_answers,
            max_comments: self.config.source_max_comments,
        }
    }

    /// Starts a search under a new session name.
    pub fn web_search(&self, input: WebSearchInput) -> (result: Result<
        WebSearchRun,
        GrokSearchError,
    >)
        ensures
            exists|session_id: Seq<char>|
                {
                    &&& is_session_id(session_id)
                    &&& #[trigger] is_drawn_session_id(session_id)
                    &&& run_reply(result) == search_start(
                        self@.config,
                        self@.default_model,
                        input@,
                        session_id,
                    )
                },
    {
        let session_id = fresh_session_id();
        assert(is_drawn_session_id(session_id@));
        self.begin_search(input, session_id)
    }

    /// Starts a search under the given session name.
    pub fn begin_search(&self, input: WebSearchInput, session_id: String) -> (result: Result<
        WebSearchRun,
        GrokSearchError,
    >)
        ensures
            run_reply(result) == search_start(
                self@.config,
                self@.default_model,
                input@,
                session_id@,
            ),
    {
        start_search(&self.config, self.default_model.as_str(), input, session_id)
    }

    /// Drafts the result of a search from what the language model and the source
    /// backends replied.
    pub fn draft_search(
        &self,
        run: WebSearchRun,
        answer: Result<SearchResponse, GrokSearchError>,
        raw_sources: Vec<Source>,
        origin: RawSourceOrigin,
    ) -> (draft: SearchDraft)
        ensures
            draft@ == drafted(
                self@.config,
                self@.plan.backends(),
                run@,
                answer_of(answer),
                sources_of(raw_sources@),
                origin,
            ),
            draft@.pool.backends == self@.plan.backends(),
            draft@.wf(),
    {
        SearchDraft::new(&self.config, self.backends(), run, answer, raw_sources, origin)
    }

    /// Turns a draft into the result, and keeps its sources for paging, uncut.
    pub fn finish_search(&self, sessions: &mut SourceCache, draft: SearchDraft) -> (output:
        WebSearchOutput)
        requires
            old(sessions)@.wf(),
            draft@.wf(),
        ensures
            output@ == search_output(self@.config.response_max_chars as nat, draft@),
            final(sessions)@ == old(sessions)@.stored(draft@.session_id, final_sources(draft@)),
            final(sessions)@.wf(),
    {
        let (output, kept) = finish_search(self.config.response_max_chars, draft);
        sessions.set(output.session_id.clone(), kept);
        output
    }

    /// One page of the sources that are kept for a session.
    pub fn get_sources(
        &self,
        sessions: &SourceCache,
        session_id: &str,
        offset: usize,
        limit: Option<usize>,
    ) -> (result: Result<GetSourcesOutput, GrokSearchError>)
        ensures
            page_reply(result) == page_for(
                self@,
                sessions@,
                session_id@,
                offset as nat,
                limit_of(limit),
            ),
    {
        match sessions.get(session_id) {
            Some(sources) => Ok(
                source_page(session_id, sources, offset, limit, self.config.response_max_chars),
            ),
            None => Err(
                GrokSearchError::NotFound("session_id=".to_owned().concat(session_id)),
            ),
        }
    }

    /// Starts the fetch of a page.
    pub fn web_fetch(&self, url: &str, max_chars: Option<usize>) -> (run: WebFetchRun)
        ensures
            run@ == fetch_start(
                url@,
                parsed_url(url@),
                fetch_limit(self@.config, max_chars),
                self@.plan.backends(),
            ),
            run.url@ == url@,
            max_chars is Some ==> run.limit == max_chars,
            max_chars is None ==> run.limit == self@.config.fetch_max_chars,
            run.backends.primary == self@.plan.primary is Some,
            run.backends.fallback == self@.plan.fallback is Some,
    {
        let limit = if max_chars.is_some() {
            max_chars
        } else {
            self.config.fetch_max_chars
        };
        WebFetchRun::start(url, limit, self.backends())
    }

    /// Starts the listing of a site.
    pub fn web_map(&self, url: &str, max_results: usize) -> (run: WebMapRun)
        ensures
            run@ == (MapRunView {
                url: url@,
                max_results: max_results as nat,
                stage: map_start(self@.plan.backends()),
            }),
            run.url@ == url@,
            run.max_results == max_results,
    {
        WebMapRun::start(url, max_results, self.backends())
    }

    /// The request that finds out whether the language model can be reached.
    pub fn grok_ping(&self) -> (request: SearchRequest)
        ensures
            request@ == ping_request(self@.config, self@.default_model),
    {
        grok_ping(&self.config, self.default_model.as_str())
    }

    /// What the diagnostics report, given what the probes of the backends found. It
    /// takes a probe of each source backend that the service has; a probe of one
    /// that it does not have counts for nothing.
    pub fn doctor(
        &self,
        default_auth_path: Option<String>,
        grok: Probe,
        tavily: Option<Probe>,
        firecrawl: Option<Probe>,
    ) -> (result: DoctorReport)
        requires
            self@.plan.backends().primary ==> tavily is Some,
            self@.plan.backends().fallback ==> firecrawl is Some,
        ensures
            result@ == report(
                self@.config,
                self@.default_model,
                text_of(default_auth_path),
                grok@,
                if self@.plan.backends().primary {
                    probe_of(tavily)
                } else {
                    None
                },
                if self@.plan.backends().fallback {
                    probe_of(firecrawl)
                } else {
                    None
                },
            ),
            result.grok.reachable == grok.ok,
            result.grok.detail@ == grok.detail@,
            self@.plan.backends().primary ==> {
                &&& result@.tavily.reachable == tavily->0@.ok
                &&& result@.tavily.detail == tavily->0@.detail
            },
            !self@.plan.backends().primary ==> {
                &&& !result@.tavily.reachable
                &&& result@.tavily.detail == "TAVILY_API_KEY not configured"@
            },
            self@.plan.backends().fallback ==> {
                &&& result@.firecrawl.reachable == firecrawl->0@.ok
                &&& result@.firecrawl.detail == firecrawl->0@.detail
            },
            !self@.plan.backends().fallback ==> {
                &&& !result@.firecrawl.reachable
                &&& result@.firecrawl.detail == "FIRECRAWL_API_KEY not configured"@
            },
    {
        let tavily = if self.plan.primary.is_some() {
            tavily
        } else {
            None
        };
        let firecrawl = if self.plan.fallback.is_some() {
            firecrawl
        } else {
            None
        };
        doctor_report(
            &self.config,
            self.default_model.as_str(),
            default_auth_path,
            grok,
            tavily,
            firecrawl,
        )
    }
}

} // verus!
