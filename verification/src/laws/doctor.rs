//! What the diagnostics tell, and what they keep to themselves.

use crate::config::{default_model_of, AuthMode, Config, Transport};
use crate::doctor::{ai_probe_of, ping_request, report, source_probe_of, ProbeView};
use crate::error::{message_of, ErrorView};
use crate::model::search::{ResponseView, SearchTool};
use crate::model::source::SourceView;
use crate::plan::{plan_for, AiBackendView, CredentialView, PlanView, SourceBackendView};
use crate::provider::{fake_answer, fake_page, fake_source};
use crate::service::{supplied_plan, ServiceView};
use crate::text::decimal;
use vstd::prelude::*;

verus! {

/// Whether two configurations differ in nothing but the secrets that they hold,
/// and hold the same ones.
pub open spec fn same_but_for_secrets(one: Config, two: Config) -> bool {
    &&& two == (Config {
        grok_api_key: two.grok_api_key,
        openai_compatible_api_key: two.openai_compatible_api_key,
        tavily_api_key: two.tavily_api_key,
        firecrawl_api_key: two.firecrawl_api_key,
        github_token: two.github_token,
        ..one
    })
    &&& one.grok_api_key is Some == two.grok_api_key is Some
    &&& one.openai_compatible_api_key is Some == two.openai_compatible_api_key is Some
    &&& one.tavily_api_key is Some == two.tavily_api_key is Some
    &&& one.firecrawl_api_key is Some == two.firecrawl_api_key is Some
    &&& one.github_token is Some == two.github_token is Some
}

/// No secret is in a report: given the same probes, services whose configurations
/// differ in nothing but their secrets report the same.
pub proof fn law_reports_hold_no_secrets(
    one: Config,
    two: Config,
    default_auth_path: Option<Seq<char>>,
    grok: ProbeView,
    tavily: Option<ProbeView>,
    firecrawl: Option<ProbeView>,
)
    requires
        same_but_for_secrets(one, two),
    ensures
        report(one, default_model_of(one), default_auth_path, grok, tavily, firecrawl) == report(
            two,
            default_model_of(two),
            default_auth_path,
            grok,
            tavily,
            firecrawl,
        ),
{
}

/// A report is true of the backend that requests really go to: its transport, its
/// address, its model and the searches that it offers.
pub proof fn law_reports_tell_the_real_backend(
    config: Config,
    default_auth_path: Option<Seq<char>>,
    grok: ProbeView,
    tavily: Option<ProbeView>,
    firecrawl: Option<ProbeView>,
)
    requires
        plan_for(config, default_auth_path) is Ok,
    ensures
        ({
            let told = report(
                config,
                default_model_of(config),
                default_auth_path,
                grok,
                tavily,
                firecrawl,
            );
            &&& told.provider == told.transport
            &&& match plan_for(config, default_auth_path)->Ok_0.ai {
                AiBackendView::Responses { api_url, web_search, x_search, .. } => {
                    &&& told.provider == "grok_responses"@
                    &&& told.grok.api_url == api_url
                    &&& told.grok.model == config.grok_model@
                    &&& told.grok.web_search_enabled == web_search
                    &&& told.grok.x_search_enabled == x_search
                },
                AiBackendView::ChatCompletions { api_url, model, web_search, .. } => {
                    &&& told.provider == "openai_compatible"@
                    &&& told.grok.api_url == api_url
                    &&& told.grok.model == model
                    &&& told.grok.web_search_enabled == web_search
                    &&& !told.grok.x_search_enabled
                },
                _ => false,
            }
        }),
{
}

/// The language model is asked for its state under the model name that searches
/// use, so that a probe fails where a search would for want of the model.
pub proof fn law_probes_use_the_default_model(config: Config)
    ensures
        ping_request(config, default_model_of(config)).model == match config.transport {
            Transport::Responses => config.grok_model@,
            Transport::ChatCompletions => match config.openai_compatible_model {
                Some(model) => model@,
                None => config.grok_model@,
            },
        },
{
}

/// A service can be set up exactly where its transport has what it needs to be
/// reached; the source backends never stand in the way.
pub proof fn law_setup_needs_only_the_language_model(
    config: Config,
    default_auth_path: Option<Seq<char>>,
)
    ensures
        plan_for(config, default_auth_path) is Ok <==> match config.transport {
            Transport::ChatCompletions => config.openai_compatible_api_url is Some
                && config.openai_compatible_api_key is Some,
            Transport::Responses => match config.grok_auth_mode {
                AuthMode::ApiKey => config.grok_api_key is Some,
                AuthMode::OAuth => config.grok_auth_file is Some
                    || default_auth_path is Some,
            },
        },
{
}

/// A report tells of each backend what its probe found: it is reachable exactly
/// where its probe was good, with the detail of the probe; a source backend that
/// was not asked is not reachable, and the report says which key it lacks.
pub proof fn law_reports_tell_what_the_probes_found(
    config: Config,
    default_model: Seq<char>,
    default_auth_path: Option<Seq<char>>,
    grok: ProbeView,
    tavily: Option<ProbeView>,
    firecrawl: Option<ProbeView>,
)
    ensures
        ({
            let told = report(config, default_model, default_auth_path, grok, tavily, firecrawl);
            &&& told.grok.reachable <==> grok.ok
            &&& told.grok.detail == grok.detail
            &&& tavily matches Some(probe) ==> {
                &&& told.tavily.reachable <==> probe.ok
                &&& told.tavily.detail == probe.detail
            }
            &&& tavily is None ==> !told.tavily.reachable && told.tavily.detail
                == "TAVILY_API_KEY not configured"@
            &&& firecrawl matches Some(probe) ==> {
                &&& told.firecrawl.reachable <==> probe.ok
                &&& told.firecrawl.detail == probe.detail
            }
            &&& firecrawl is None ==> !told.firecrawl.reachable && told.firecrawl.detail
                == "FIRECRAWL_API_KEY not configured"@
        }),
{
}

/// A report tells the settings as they are, the file that the sign-in is really read
/// from, the time limit in whole seconds, and of each secret only whether it is set.
pub proof fn law_reports_tell_the_settings(
    config: Config,
    default_model: Seq<char>,
    default_auth_path: Option<Seq<char>>,
    grok: ProbeView,
    tavily: Option<ProbeView>,
    firecrawl: Option<ProbeView>,
)
    ensures
        ({
            let told = report(config, default_model, default_auth_path, grok, tavily, firecrawl);
            let status = |set: bool|
                if set {
                    "set"@
                } else {
                    "unset"@
                };
            &&& told.grok.model == default_model
            &&& config.grok_auth_mode == AuthMode::ApiKey ==> told.grok.auth_mode == "api_key"@
            &&& config.grok_auth_mode == AuthMode::OAuth ==> told.grok.auth_mode == "oauth"@
            &&& config.grok_auth_file is Some ==> told.grok.auth_file
                == config.grok_auth_file->0@
            &&& config.grok_auth_file is None && default_auth_path is Some
                ==> told.grok.auth_file == default_auth_path->0
            &&& config.grok_auth_file is None && default_auth_path is None
                ==> told.grok.auth_file == "unavailable"@
            &&& told.grok.web_search_enabled == config.web_search_enabled
            &&& config.transport == Transport::Responses ==> {
                &&& told.provider == "grok_responses"@
                &&& told.transport == "grok_responses"@
                &&& told.grok.api_url == config.grok_api_url@
                &&& told.grok.x_search_enabled == config.x_search_enabled
            }
            &&& config.transport == Transport::ChatCompletions ==> {
                &&& told.provider == "openai_compatible"@
                &&& told.transport == "openai_compatible"@
                &&& config.openai_compatible_api_url is Some ==> told.grok.api_url
                    == config.openai_compatible_api_url->0@
                &&& config.openai_compatible_api_url is None ==> told.grok.api_url == ""@
                &&& !told.grok.x_search_enabled
            }
            &&& told.tavily.api_url == config.tavily_api_url@
            &&& told.tavily.enabled == config.tavily_enabled
            &&& told.firecrawl.api_url == config.firecrawl_api_url@
            &&& told.firecrawl.enabled == config.firecrawl_enabled
            &&& told.default_extra_sources == config.default_extra_sources
            &&& told.fallback_sources == config.fallback_sources
            &&& told.cache_size == config.cache_size
            &&& 1000 * told.timeout_seconds <= config.timeout_ms < 1000 * told.timeout_seconds
                + 1000
            &&& told.github_token == status(config.github_token is Some)
            &&& told.redacted.grok_api_key == status(config.grok_api_key is Some)
            &&& told.redacted.openai_compatible_api_key == status(
                config.openai_compatible_api_key is Some,
            )
            &&& told.redacted.tavily_api_key == status(config.tavily_api_key is Some)
            &&& told.redacted.firecrawl_api_key == status(config.firecrawl_api_key is Some)
        }),
{
}

/// A probe is good exactly where the backend replied without failure, whatever the
/// reply holds; where it failed, the detail is the failure.
pub proof fn law_probes_tell_success_from_failure(
    answer: ResponseView,
    sources: Seq<SourceView>,
    error: ErrorView,
    sample_url: Seq<char>,
)
    ensures
        ai_probe_of(Ok::<ResponseView, ErrorView>(answer)).ok,
        ai_probe_of(Ok::<ResponseView, ErrorView>(answer)).detail == "grok responded"@,
        !ai_probe_of(Err::<ResponseView, ErrorView>(error)).ok,
        ai_probe_of(Err::<ResponseView, ErrorView>(error)).detail == message_of(error),
        source_probe_of(Ok::<Seq<SourceView>, ErrorView>(sources), sample_url).ok,
        source_probe_of(Ok::<Seq<SourceView>, ErrorView>(sources), sample_url).detail
            == "reachable (sample probe via "@ + sample_url + " ok)"@,
        !source_probe_of(Err::<Seq<SourceView>, ErrorView>(error), sample_url).ok,
        source_probe_of(Err::<Seq<SourceView>, ErrorView>(error), sample_url).detail
            == message_of(error),
{
}

/// The probe of the language model has the shape of a search: one message of the
/// user, to the given model, with the search tool exactly where searches may use it.
pub proof fn law_probe_has_the_shape_of_a_search(config: Config, default_model: Seq<char>)
    ensures
        ({
            let request = ping_request(config, default_model);
            &&& request.model == default_model
            &&& request.system is None
            &&& request.messages.len() == 1
            &&& request.messages[0].role == "user"@
            &&& request.messages[0].content.len() == 1
            &&& request.messages[0].content[0] == "ping"@
            &&& config.web_search_enabled ==> request.tools == seq![SearchTool::WebSearch]
            &&& !config.web_search_enabled ==> request.tools.len() == 0
        }),
{
}

/// A service is set up to reach the language model as its settings say, or says
/// which setting is missing.
pub proof fn law_setup_follows_the_settings(config: Config, default_auth_path: Option<Seq<char>>)
    ensures
        ({
            let set_up = plan_for(config, default_auth_path);
            match config.transport {
                Transport::Responses => {
                    let credential = set_up->Ok_0.ai->credential;
                    &&& set_up is Ok ==> {
                        &&& set_up->Ok_0.ai is Responses
                        &&& set_up->Ok_0.ai->Responses_api_url == config.grok_api_url@
                        &&& set_up->Ok_0.ai->Responses_web_search == config.web_search_enabled
                        &&& set_up->Ok_0.ai->x_search == config.x_search_enabled
                        &&& !set_up->Ok_0.x_search_ignored
                    }
                    &&& config.grok_auth_mode == AuthMode::ApiKey ==> {
                        &&& config.grok_api_key is Some ==> set_up is Ok && credential
                            == CredentialView::ApiKey(config.grok_api_key->0@)
                        &&& config.grok_api_key is None ==> set_up is Err && set_up->Err_0
                            == ErrorView::MissingConfig("GROK_SEARCH_API_KEY"@)
                    }
                    &&& config.grok_auth_mode == AuthMode::OAuth ==> {
                        &&& config.grok_auth_file is Some ==> set_up is Ok && credential
                            == CredentialView::OAuthFile(config.grok_auth_file->0@)
                        &&& config.grok_auth_file is None && default_auth_path is Some
                            ==> set_up is Ok && credential == CredentialView::OAuthFile(
                            default_auth_path->0,
                        )
                        &&& config.grok_auth_file is None && default_auth_path is None
                            ==> set_up is Err && set_up->Err_0 == ErrorView::OAuth(
                            "oauth_auth_path_unavailable: set GROK_SEARCH_AUTH_FILE"@,
                        )
                    }
                },
                Transport::ChatCompletions => {
                    let url = config.openai_compatible_api_url;
                    let key = config.openai_compatible_api_key;
                    &&& url is None ==> set_up is Err && set_up->Err_0
                        == ErrorView::MissingConfig("OPENAI_COMPATIBLE_API_URL"@)
                    &&& url is Some && key is None ==> set_up is Err && set_up->Err_0
                        == ErrorView::MissingConfig("OPENAI_COMPATIBLE_API_KEY"@)
                    &&& url is Some && key is Some ==> {
                        &&& set_up is Ok
                        &&& set_up->Ok_0.ai is ChatCompletions
                        &&& set_up->Ok_0.ai->ChatCompletions_api_url == url->0@
                        &&& set_up->Ok_0.ai->api_key == key->0@
                        &&& config.openai_compatible_model is Some ==> set_up->Ok_0.ai->model
                            == config.openai_compatible_model->0@
                        &&& config.openai_compatible_model is None ==> set_up->Ok_0.ai->model
                            == config.grok_model@
                        &&& set_up->Ok_0.ai->ChatCompletions_web_search
                            == config.web_search_enabled
                        &&& set_up->Ok_0.x_search_ignored == config.x_search_enabled
                    }
                },
            }
        }),
{
}

/// A service has the primary source backend exactly where it is switched on and its
/// key is set, and the fallback likewise; each is reached at its own address with
/// its own key.
pub proof fn law_source_backends_follow_their_keys(
    config: Config,
    default_auth_path: Option<Seq<char>>,
)
    requires
        plan_for(config, default_auth_path) is Ok,
    ensures
        ({
            let plan = plan_for(config, default_auth_path)->Ok_0;
            &&& plan.backends().primary <==> config.tavily_enabled && config.tavily_api_key is Some
            &&& plan.backends().primary <==> plan.primary is Some
            &&& plan.primary is Some ==> plan.primary->0 == (SourceBackendView::Remote {
                api_url: config.tavily_api_url@,
                api_key: config.tavily_api_key->0@,
            })
            &&& plan.backends().fallback <==> config.firecrawl_enabled
                && config.firecrawl_api_key is Some
            &&& plan.backends().fallback <==> plan.fallback is Some
            &&& plan.fallback is Some ==> plan.fallback->0 == (SourceBackendView::Remote {
                api_url: config.firecrawl_api_url@,
                api_key: config.firecrawl_api_key->0@,
            })
        }),
{
}

/// A service that has just been set up has the settings and the backends that it
/// was given, and a default model that its transport understands.
pub proof fn law_new_service_has_what_it_was_given(
    config: Config,
    plan: PlanView,
    cache_size: nat,
)
    ensures
        ({
            let service = ServiceView::fresh(config, plan, cache_size);
            &&& service.config == config
            &&& service.plan == plan
            &&& service.cache_size == cache_size
            &&& service.wf()
            &&& config.transport == Transport::Responses ==> service.default_model
                == config.grok_model@
            &&& config.transport == Transport::ChatCompletions
                && config.openai_compatible_model is Some ==> service.default_model
                == config.openai_compatible_model->0@
            &&& config.transport == Transport::ChatCompletions
                && config.openai_compatible_model is None ==> service.default_model
                == config.grok_model@
        }),
{
}

/// A service whose backends the caller brings has a primary source backend, and a
/// fallback exactly where the caller brings one; its language model is made up
/// unless the caller brings that too.
pub proof fn law_supplied_backends_are_used(custom_ai: bool, has_fallback: bool)
    ensures
        ({
            let plan = supplied_plan(custom_ai, has_fallback);
            &&& plan.backends().primary
            &&& plan.backends().fallback <==> has_fallback
            &&& plan.primary == Some(SourceBackendView::Supplied)
            &&& has_fallback ==> plan.fallback == Some(SourceBackendView::Supplied)
            &&& custom_ai ==> plan.ai is Supplied
            &&& !custom_ai ==> plan.ai is Fake
            &&& !plan.x_search_ignored
        }),
{
}

/// The made-up language model gives a verifiable answer with one source, and the
/// made-up source backend numbers what it finds and lists.
pub proof fn law_made_up_backends_are_verifiable(index: nat, url: Seq<char>)
    ensures
        fake_answer().content == "OpenAI published a verifiable update."@,
        fake_answer().sources.len() == 1,
        fake_answer().sources[0].url == "https://openai.com/news"@,
        fake_answer().sources[0].provider == "grok_responses"@,
        fake_answer().sources[0].title == Some("OpenAI News"@),
        fake_answer().sources[0].content is None,
        fake_source(index).url == "https://example.com/source-"@ + decimal(index),
        fake_source(index).title == Some("Source "@ + decimal(index)),
        fake_source(index).provider == "tavily"@,
        fake_source(index).content is None,
        fake_page(url, index).url == url + "/page-"@ + decimal(index),
        fake_page(url, index).provider == "tavily"@,
        fake_page(url, index).content is None,
{
}

} // verus!
