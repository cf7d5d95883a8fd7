//! Which backends a configuration calls for.

use crate::config::{default_model_of, resolve_default_model, AuthMode, Config, Transport};
use crate::error::{ErrorView, GrokSearchError};
use crate::provider::Backends;
use crate::text::{copy_text, text_of};
use vstd::prelude::*;

verus! {

/// How the service signs in to the model's own interface.
#[derive(Debug, PartialEq, Eq)]
pub enum Credential {
    ApiKey(String),
    /// The file that holds the sign-in.
    OAuthFile(String),
}

/// How the language model is reached.
#[derive(Debug, PartialEq, Eq)]
pub enum AiBackend {
    Responses { api_url: String, credential: Credential, web_search: bool, x_search: bool },
    ChatCompletions { api_url: String, api_key: String, model: String, web_search: bool },
    /// The made-up language model.
    Fake,
    /// One that the caller brings.
    Supplied,
}

/// How a source backend is reached.
#[derive(Debug, PartialEq, Eq)]
pub enum SourceBackend {
    Remote { api_url: String, api_key: String },
    /// The made-up source backend.
    Fake,
    /// One that the caller brings.
    Supplied,
}

/// The backends of a service.
#[derive(Debug, PartialEq, Eq)]
pub struct ProviderPlan {
    pub ai: AiBackend,
    pub primary: Option<SourceBackend>,
    pub fallback: Option<SourceBackend>,
    /// Whether a setting asks for a search that the transport does not offer.
    pub x_search_ignored: bool,
}

impl Clone for Credential {
    fn clone(&self) -> (copy: Self)
        ensures
            copy == *self,
    {
        match self {
            Credential::ApiKey(key) => Credential::ApiKey(key.clone()),
            Credential::OAuthFile(path) => Credential::OAuthFile(path.clone()),
        }
    }
}

impl Clone for AiBackend {
    fn clone(&self) -> (copy: Self)
        ensures
            copy == *self,
    {
        match self {
            AiBackend::Responses { api_url, credential, web_search, x_search } => {
                AiBackend::Responses {
                    api_url: api_url.clone(),
                    credential: credential.clone(),
                    web_search: *web_search,
                    x_search: *x_search,
                }
            },
            AiBackend::ChatCompletions { api_url, api_key, model, web_search } => {
                AiBackend::ChatCompletions {
                    api_url: api_url.clone(),
                    api_key: api_key.clone(),
                    model: model.clone(),
                    web_search: *web_search,
                }
            },
            AiBackend::Fake => AiBackend::Fake,
            AiBackend::Supplied => AiBackend::Supplied,
        }
    }
}

impl Clone for SourceBackend {
    fn clone(&self) -> (copy: Self)
        ensures
            copy == *self,
    {
        match self {
            SourceBackend::Remote { api_url, api_key } => SourceBackend::Remote {
                api_url: api_url.clone(),
                api_key: api_key.clone(),
            },
            SourceBackend::Fake => SourceBackend::Fake,
            SourceBackend::Supplied => SourceBackend::Supplied,
        }
    }
}

/// A copy of an optional source backend.
fn copy_backend(backend: &Option<SourceBackend>) -> (copy: Option<SourceBackend>)
    ensures
        copy == *backend,
{
    match backend {
        Some(backend) => Some(backend.clone()),
        None => None,
    }
}

impl Clone for ProviderPlan {
    fn clone(&self) -> (copy: Self)
        ensures
            copy == *self,
    {
        ProviderPlan {
            ai: self.ai.clone(),
            primary: copy_backend(&self.primary),
            fallback: copy_backend(&self.fallback),
            x_search_ignored: self.x_search_ignored,
        }
    }
}

/// How the service signs in, as plain values.
pub enum CredentialView {
    ApiKey(Seq<char>),
    OAuthFile(Seq<char>),
}

/// How the language model is reached, as plain values.
pub enum AiBackendView {
    Responses { api_url: Seq<char>, credential: CredentialView, web_search: bool, x_search: bool },
    ChatCompletions {
        api_url: Seq<char>,
        api_key: Seq<char>,
        model: Seq<char>,
        web_search: bool,
    },
    Fake,
    Supplied,
}

/// How a source backend is reached, as plain values.
pub enum SourceBackendView {
    Remote { api_url: Seq<char>, api_key: Seq<char> },
    Fake,
    Supplied,
}

/// The backends of a service, as plain values.
pub struct PlanView {
    pub ai: AiBackendView,
    pub primary: Option<SourceBackendView>,
    pub fallback: Option<SourceBackendView>,
    pub x_search_ignored: bool,
}

impl View for Credential {
    type V = CredentialView;

    open spec fn view(&self) -> CredentialView {
        match self {
            Credential::ApiKey(key) => CredentialView::ApiKey(key@),
            Credential::OAuthFile(path) => CredentialView::OAuthFile(path@),
        }
    }
}

impl View for AiBackend {
    type V = AiBackendView;

    open spec fn view(&self) -> AiBackendView {
        match self {
            AiBackend::Responses { api_url, credential, web_search, x_search } => {
                AiBackendView::Responses {
                    api_url: api_url@,
                    credential: credential@,
                    web_search: *web_search,
                    x_search: *x_search,
                }
            },
            AiBackend::ChatCompletions { api_url, api_key, model, web_search } => {
                AiBackendView::ChatCompletions {
                    api_url: api_url@,
                    api_key: api_key@,
                    model: model@,
                    web_search: *web_search,
                }
            },
            AiBackend::Fake => AiBackendView::Fake,
            AiBackend::Supplied => AiBackendView::Supplied,
        }
    }
}

impl View for SourceBackend {
    type V = SourceBackendView;

    open spec fn view(&self) -> SourceBackendView {
        match self {
            SourceBackend::Remote { api_url, api_key } => SourceBackendView::Remote {
                api_url: api_url@,
                api_key: api_key@,
            },
            SourceBackend::Fake => SourceBackendView::Fake,
            SourceBackend::Supplied => SourceBackendView::Supplied,
        }
    }
}

/// An optional source backend, as plain values.
pub open spec fn backend_of(backend: Option<SourceBackend>) -> Option<SourceBackendView> {
    match backend {
        Some(backend) => Some(backend@),
        None => None,
    }
}

impl View for ProviderPlan {
    type V = PlanView;

    open spec fn view(&self) -> PlanView {
        PlanView {
            ai: self.ai@,
            primary: backend_of(self.primary),
            fallback: backend_of(self.fallback),
            x_search_ignored: self.x_search_ignored,
        }
    }
}

impl PlanView {
    /// Which source backends there are.
    pub open spec fn backends(self) -> Backends {
        Backends { primary: self.primary is Some, fallback: self.fallback is Some }
    }
}

/// The first of two values that is there.
pub open spec fn either(
    first: Option<Seq<char>>,
    second: Option<Seq<char>>,
) -> Option<Seq<char>> {
    if first is Some {
        first
    } else {
        second
    }
}

/// How the service signs in: with the key, which must be set, or with the file
/// that is named, or else with the one at the usual place.
pub open spec fn credential_for(config: Config, default_auth_path: Option<Seq<char>>) -> Result<
    CredentialView,
    ErrorView,
> {
    match config.grok_auth_mode {
        AuthMode::ApiKey => match config.grok_api_key {
            Some(key) => Ok(CredentialView::ApiKey(key@)),
            None => Err(ErrorView::MissingConfig("GROK_SEARCH_API_KEY"@)),
        },
        AuthMode::OAuth => match either(text_of(config.grok_auth_file), default_auth_path) {
            Some(path) => Ok(CredentialView::OAuthFile(path)),
            None => Err(
                ErrorView::OAuth("oauth_auth_path_unavailable: set GROK_SEARCH_AUTH_FILE"@),
            ),
        },
    }
}

/// How the language model is reached, or which setting is missing for it.
pub open spec fn ai_backend_for(config: Config, default_auth_path: Option<Seq<char>>) -> Result<
    AiBackendView,
    ErrorView,
> {
    match config.transport {
        Transport::Responses => match credential_for(config, default_auth_path) {
            Ok(credential) => Ok(
                AiBackendView::Responses {
                    api_url: config.grok_api_url@,
                    credential,
                    web_search: config.web_search_enabled,
                    x_search: config.x_search_enabled,
                },
            ),
            Err(error) => Err(error),
        },
        Transport::ChatCompletions => match (
            config.openai_compatible_api_url,
            config.openai_compatible_api_key,
        ) {
            (None, _) => Err(ErrorView::MissingConfig("OPENAI_COMPATIBLE_API_URL"@)),
            (Some(_), None) => Err(ErrorView::MissingConfig("OPENAI_COMPATIBLE_API_KEY"@)),
            (Some(url), Some(key)) => Ok(
                AiBackendView::ChatCompletions {
                    api_url: url@,
                    api_key: key@,
                    model: default_model_of(config),
                    web_search: config.web_search_enabled,
                },
            ),
        },
    }
}

/// How a source backend is reached; there is none without a key, or where it is
/// switched off.
pub open spec fn source_backend_for(
    enabled: bool,
    api_url: Seq<char>,
    api_key: Option<Seq<char>>,
) -> Option<SourceBackendView> {
    match api_key {
        Some(api_key) if enabled => Some(SourceBackendView::Remote { api_url, api_key }),
        _ => None,
    }
}

/// The backends that a configuration calls for, or which setting is missing.
pub open spec fn plan_for(config: Config, default_auth_path: Option<Seq<char>>) -> Result<
    PlanView,
    ErrorView,
> {
    match ai_backend_for(config, default_auth_path) {
        Ok(ai) => Ok(
            PlanView {
                ai,
                primary: source_backend_for(
                    config.tavily_enabled,
                    config.tavily_api_url@,
                    text_of(config.tavily_api_key),
                ),
                fallback: source_backend_for(
                    config.firecrawl_enabled,
                    config.firecrawl_api_url@,
                    text_of(config.firecrawl_api_key),
                ),
                x_search_ignored: config.transport == Transport::ChatCompletions
                    && config.x_search_enabled,
            },
        ),
        Err(error) => Err(error),
    }
}

/// The backends that a configuration calls for, as plain values.
pub open spec fn plan_reply(reply: Result<ProviderPlan, GrokSearchError>) -> Result<
    PlanView,
    ErrorView,
> {
    match reply {
        Ok(plan) => Ok(plan@),
        Err(error) => Err(error@),
    }
}

/// How the service signs in.
fn credential(config: &Config, default_auth_path: Option<String>) -> (result: Result<
    Credential,
    GrokSearchError,
>)
    ensures
        match result {
            Ok(credential) => Ok(credential@),
            Err(error) => Err(error@),
        } == credential_for(*config, text_of(default_auth_path)),
{
    match config.grok_auth_mode {
        AuthMode::ApiKey => match copy_text(&config.grok_api_key) {
            Some(key) => Ok(Credential::ApiKey(key)),
            None => Err(GrokSearchError::MissingConfig("GROK_SEARCH_API_KEY")),
        },
        AuthMode::OAuth => {
            let named = copy_text(&config.grok_auth_file);
            let path = if named.is_some() {
                named
            } else {
                default_auth_path
            };
            match path {
                Some(path) => Ok(Credential::OAuthFile(path)),
                None => Err(
                    GrokSearchError::OAuth(
                        "oauth_auth_path_unavailable: set GROK_SEARCH_AUTH_FILE".to_owned(),
                    ),
                ),
            }
        },
    }
}

/// How the language model is reached.
fn ai_backend(config: &Config, default_auth_path: Option<String>) -> (result: Result<
    AiBackend,
    GrokSearchError,
>)
    ensures
        match result {
            Ok(backend) => Ok(backend@),
            Err(error) => Err(error@),
        } == ai_backend_for(*config, text_of(default_auth_path)),
{
    match config.transport {
        Transport::Responses => match credential(config, default_auth_path) {
            Ok(credential) => Ok(
                AiBackend::Responses {
                    api_url: config.grok_api_url.clone(),
                    credential,
                    web_search: config.web_search_enabled,
                    x_search: config.x_search_enabled,
                },
            ),
            Err(error) => Err(error),
        },
        Transport::ChatCompletions => {
            let api_url = match copy_text(&config.openai_compatible_api_url) {
                Some(api_url) => api_url,
                None => {
                    return Err(GrokSearchError::MissingConfig("OPENAI_COMPATIBLE_API_URL"));
                },
            };
            let api_key = match copy_text(&config.openai_compatible_api_key) {
                Some(api_key) => api_key,
                None => {
                    return Err(GrokSearchError::MissingConfig("OPENAI_COMPATIBLE_API_KEY"));
                },
            };
            Ok(
                AiBackend::ChatCompletions {
                    api_url,
                    api_key,
                    model: resolve_default_model(config),
                    web_search: config.web_search_enabled,
                },
            )
        },
    }
}

/// How a source backend is reached.
fn source_backend(enabled: bool, api_url: &String, api_key: &Option<String>) -> (backend: Option<
    SourceBackend,
>)
    ensures
        backend_of(backend) == source_backend_for(enabled, api_url@, text_of(*api_key)),
{
    if !enabled {
        return None;
    }
    match copy_text(api_key) {
        Some(api_key) => Some(SourceBackend::Remote { api_url: api_url.clone(), api_key }),
        None => None,
    }
}

/// The backends that a configuration calls for, or which setting is missing.
pub fn provider_plan(config: &Config, default_auth_path: Option<String>) -> (result: Result<
    ProviderPlan,
    GrokSearchError,
>)
    ensures
        plan_reply(result) == plan_for(*config, text_of(default_auth_path)),
{
    let ai = match ai_backend(config, default_auth_path) {
        Ok(ai) => ai,
        Err(error) => {
            return Err(error);
        },
    };
    let on_gateway = match config.transport {
        Transport::ChatCompletions => true,
        Transport::Responses => false,
    };
    Ok(
        ProviderPlan {
            ai,
            primary: source_backend(
                config.tavily_enabled,
                &config.tavily_api_url,
                &config.tavily_api_key,
            ),
            fallback: source_backend(
                config.firecrawl_enabled,
                &config.firecrawl_api_url,
                &config.firecrawl_api_key,
            ),
            x_search_ignored: on_gateway && config.x_search_enabled,
        },
    )
}

} // verus!
