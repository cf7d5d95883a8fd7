//! The settings of the service.

use crate::text::{copy_text, same_text, text_of};
use vstd::prelude::*;

verus! {

/// How the language model is reached.
#[derive(Debug, Clone, Copy, PartialEq, Eq, Structural)]
pub enum Transport {
    /// Through the model's own search interface.
    Responses,
    /// Through a gateway that speaks the chat-completions interface.
    ChatCompletions,
}

/// How the service signs in to the model's own interface.
#[derive(Debug, Clone, Copy, PartialEq, Eq, Structural)]
pub enum AuthMode {
    ApiKey,
    OAuth,
}

/// The settings of the service.
#[derive(Debug, PartialEq, Eq)]
pub struct Config {
    pub transport: Transport,
    pub grok_auth_mode: AuthMode,
    pub grok_api_key: Option<String>,
    /// The file that holds the sign-in, where one was named.
    pub grok_auth_file: Option<String>,
    pub grok_api_url: String,
    pub grok_model: String,
    pub web_search_enabled: bool,
    pub x_search_enabled: bool,
    pub openai_compatible_api_url: Option<String>,
    pub openai_compatible_api_key: Option<String>,
    pub openai_compatible_model: Option<String>,
    pub tavily_enabled: bool,
    pub tavily_api_key: Option<String>,
    pub tavily_api_url: String,
    pub firecrawl_enabled: bool,
    pub firecrawl_api_key: Option<String>,
    pub firecrawl_api_url: String,
    pub github_token: Option<String>,
    /// How many supplemental sources a search asks for unless it says otherwise.
    pub default_extra_sources: usize,
    /// How many sources stand in for an answer that cannot be verified.
    pub fallback_sources: usize,
    /// How many sessions are kept for paging.
    pub cache_size: usize,
    /// How long one request may take, in milliseconds.
    pub timeout_ms: u64,
    /// The longest page text that a fetch returns; all of it when unset.
    pub fetch_max_chars: Option<usize>,
    pub source_max_answers: usize,
    pub source_max_comments: usize,
    /// How many pages are fetched at the same time for one search.
    pub enrich_concurrency: usize,
    /// The longest page text that a search carries for one source.
    pub enrich_max_chars: usize,
    /// How many sources of one search carry page text.
    pub max_inline_sources: usize,
    /// The longest response: answer and sources together.
    pub response_max_chars: usize,
}

impl Clone for Config {
    fn clone(&self) -> (copy: Self)
        ensures
            copy == *self,
    {
        Config {
            transport: self.transport,
            grok_auth_mode: self.grok_auth_mode,
            grok_api_key: copy_text(&self.grok_api_key),
            grok_auth_file: copy_text(&self.grok_auth_file),
            grok_api_url: self.grok_api_url.clone(),
            grok_model: self.grok_model.clone(),
            web_search_enabled: self.web_search_enabled,
            x_search_enabled: self.x_search_enabled,
            openai_compatible_api_url: copy_text(&self.openai_compatible_api_url),
            openai_compatible_api_key: copy_text(&self.openai_compatible_api_key),
            openai_compatible_model: copy_text(&self.openai_compatible_model),
            tavily_enabled: self.tavily_enabled,
            tavily_api_key: copy_text(&self.tavily_api_key),
            tavily_api_url: self.tavily_api_url.clone(),
            firecrawl_enabled: self.firecrawl_enabled,
            firecrawl_api_key: copy_text(&self.firecrawl_api_key),
            firecrawl_api_url: self.firecrawl_api_url.clone(),
            github_token: copy_text(&self.github_token),
            default_extra_sources: self.default_extra_sources,
            fallback_sources: self.fallback_sources,
            cache_size: self.cache_size,
            timeout_ms: self.timeout_ms,
            fetch_max_chars: self.fetch_max_chars,
            source_max_answers: self.source_max_answers,
            source_max_comments: self.source_max_comments,
            enrich_concurrency: self.enrich_concurrency,
            enrich_max_chars: self.enrich_max_chars,
            max_inline_sources: self.max_inline_sources,
            response_max_chars: self.response_max_chars,
        }
    }
}

/// Named values as plain text.
pub open spec fn vars_of(vars: Seq<(String, String)>) -> Seq<(Seq<char>, Seq<char>)> {
    Seq::new(vars.len(), |i: int| (vars[i].0@, vars[i].1@))
}

/// The value under a name; the last one, where the name occurs more than once.
pub open spec fn setting(vars: Seq<(Seq<char>, Seq<char>)>, name: Seq<char>) -> Option<Seq<char>>
    decreases vars.len(),
{
    if vars.len() == 0 {
        None
    } else if vars.last().0 == name {
        Some(vars.last().1)
    } else {
        setting(vars.drop_last(), name)
    }
}

/// The gateway is used exactly when both its address and its key are given.
pub open spec fn transport_for(vars: Seq<(Seq<char>, Seq<char>)>) -> Transport {
    if setting(vars, "OPENAI_COMPATIBLE_API_URL"@) is Some && setting(
        vars,
        "OPENAI_COMPATIBLE_API_KEY"@,
    ) is Some {
        Transport::ChatCompletions
    } else {
        Transport::Responses
    }
}

/// Whether a configuration is the one that named values give; what is not named
/// has its default.
pub open spec fn configured(config: Config, vars: Seq<(Seq<char>, Seq<char>)>) -> bool {
    &&& config.transport == transport_for(vars)
    &&& config.grok_auth_mode == AuthMode::ApiKey
    &&& text_of(config.grok_api_key) == setting(vars, "GROK_SEARCH_API_KEY"@)
    &&& text_of(config.grok_auth_file) == setting(vars, "GROK_SEARCH_AUTH_FILE"@)
    &&& config.grok_api_url@ == "https://api.x.ai/v1"@
    &&& config.grok_model@ == match setting(vars, "GROK_SEARCH_MODEL"@) {
        Some(model) => model,
        None => "grok-4-1-fast-reasoning"@,
    }
    &&& config.web_search_enabled
    &&& config.x_search_enabled == (setting(vars, "GROK_SEARCH_X_SEARCH"@) == Some("true"@))
    &&& text_of(config.openai_compatible_api_url) == setting(
        vars,
        "OPENAI_COMPATIBLE_API_URL"@,
    )
    &&& text_of(config.openai_compatible_api_key) == setting(
        vars,
        "OPENAI_COMPATIBLE_API_KEY"@,
    )
    &&& text_of(config.openai_compatible_model) == setting(vars, "OPENAI_COMPATIBLE_MODEL"@)
    &&& config.tavily_enabled
    &&& text_of(config.tavily_api_key) == setting(vars, "TAVILY_API_KEY"@)
    &&& config.tavily_api_url@ == "https://api.tavily.com"@
    &&& config.firecrawl_enabled
    &&& text_of(config.firecrawl_api_key) == setting(vars, "FIRECRAWL_API_KEY"@)
    &&& config.firecrawl_api_url@ == "https://api.firecrawl.dev/v1"@
    &&& text_of(config.github_token) == setting(vars, "GITHUB_TOKEN"@)
    &&& config.default_extra_sources == 3
    &&& config.fallback_sources == 5
    &&& config.cache_size == 256
    &&& config.timeout_ms == 60_000
    &&& config.fetch_max_chars is None
    &&& config.source_max_answers == 5
    &&& config.source_max_comments == 30
    &&& config.enrich_concurrency == 5
    &&& config.enrich_max_chars == 15_000
    &&& config.max_inline_sources == 8
    &&& config.response_max_chars == 100_000
}

/// How a secret is reported: whether there is one, never what it is.
pub open spec fn secret_status(secret: Option<Seq<char>>) -> Seq<char> {
    if secret is Some {
        "set"@
    } else {
        "unset"@
    }
}

/// Which secrets are set.
#[derive(Debug, PartialEq, Eq)]
pub struct RedactedDiagnostics {
    pub grok_api_key: &'static str,
    pub openai_compatible_api_key: &'static str,
    pub tavily_api_key: &'static str,
    pub firecrawl_api_key: &'static str,
}

/// The model that the chosen transport understands.
pub open spec fn default_model_of(config: Config) -> Seq<char> {
    match (config.transport, config.openai_compatible_model) {
        (Transport::ChatCompletions, Some(model)) => model@,
        _ => config.grok_model@,
    }
}

fn status(secret: &Option<String>) -> (text: &'static str)
    ensures
        text@ == secret_status(text_of(*secret)),
{
    match secret {
        Some(_) => "set",
        None => "unset",
    }
}

/// The value under a name; the last one, where the name occurs more than once.
fn lookup(vars: &Vec<(String, String)>, name: &str) -> (value: Option<String>)
    ensures
        text_of(value) == setting(vars_of(vars@), name@),
{
    let ghost all = vars_of(vars@);
    let mut n = vars.len();
    assert(all.take(n as int) =~= all);
    while n > 0
        invariant
            n <= vars.len(),
            all == vars_of(vars@),
            setting(all, name@) == setting(all.take(n as int), name@),
        decreases n,
    {
        n = n - 1;
        assert(all.take(n + 1).drop_last() =~= all.take(n as int));
        if same_text(vars[n].0.as_str(), name) {
            return Some(vars[n].1.clone());
        }
    }
    None
}

impl Config {
    /// The settings that a list of named values gives; what is not named keeps
    /// its default.
    pub fn from_env_map(vars: &Vec<(String, String)>) -> (config: Config)
        ensures
            configured(config, vars_of(vars@)),
    {
        let api_url = lookup(vars, "OPENAI_COMPATIBLE_API_URL");
        let api_key = lookup(vars, "OPENAI_COMPATIBLE_API_KEY");
        let transport = if api_url.is_some() && api_key.is_some() {
            Transport::ChatCompletions
        } else {
            Transport::Responses
        };
        let grok_model = match lookup(vars, "GROK_SEARCH_MODEL") {
            Some(model) => model,
            None => "grok-4-1-fast-reasoning".to_owned(),
        };
        let x_search_enabled = match lookup(vars, "GROK_SEARCH_X_SEARCH") {
            Some(value) => same_text(value.as_str(), "true"),
            None => false,
        };
        Config {
            transport,
            grok_auth_mode: AuthMode::ApiKey,
            grok_api_key: lookup(vars, "GROK_SEARCH_API_KEY"),
            grok_auth_file: lookup(vars, "GROK_SEARCH_AUTH_FILE"),
            grok_api_url: "https://api.x.ai/v1".to_owned(),
            grok_model,
            web_search_enabled: true,
            x_search_enabled,
            openai_compatible_api_url: api_url,
            openai_compatible_api_key: api_key,
            openai_compatible_model: lookup(vars, "OPENAI_COMPATIBLE_MODEL"),
            tavily_enabled: true,
            tavily_api_key: lookup(vars, "TAVILY_API_KEY"),
            tavily_api_url: "https://api.tavily.com".to_owned(),
            firecrawl_enabled: true,
            firecrawl_api_key: lookup(vars, "FIRECRAWL_API_KEY"),
            firecrawl_api_url: "https://api.firecrawl.dev/v1".to_owned(),
            github_token: lookup(vars, "GITHUB_TOKEN"),
            default_extra_sources: 3,
            fallback_sources: 5,
            cache_size: 256,
            timeout_ms: 60_000,
            fetch_max_chars: None,
            source_max_answers: 5,
            source_max_comments: 30,
            enrich_concurrency: 5,
            enrich_max_chars: 15_000,
            max_inline_sources: 8,
            response_max_chars: 100_000,
        }
    }

    /// Whether a token for the code host is set.
    pub fn github_token_status(&self) -> (text: &'static str)
        ensures
            text@ == secret_status(text_of(self.github_token)),
    {
        status(&self.github_token)
    }

    /// Which secrets are set, without their values.
    pub fn redacted_diagnostics(&self) -> (redacted: RedactedDiagnostics)
        ensures
            redacted.grok_api_key@ == secret_status(text_of(self.grok_api_key)),
            redacted.openai_compatible_api_key@ == secret_status(
                text_of(self.openai_compatible_api_key),
            ),
            redacted.tavily_api_key@ == secret_status(text_of(self.tavily_api_key)),
            redacted.firecrawl_api_key@ == secret_status(text_of(self.firecrawl_api_key)),
    {
        RedactedDiagnostics {
            grok_api_key: status(&self.grok_api_key),
            openai_compatible_api_key: status(&self.openai_compatible_api_key),
            tavily_api_key: status(&self.tavily_api_key),
            firecrawl_api_key: status(&self.firecrawl_api_key),
        }
    }
}

/// The model that the chosen transport understands: the model's own name on its
/// own interface; on the gateway the name configured for it, where there is one.
pub fn resolve_default_model(config: &Config) -> (model: String)
    ensures
        model@ == default_model_of(*config),
{
    match config.transport {
        Transport::Responses => config.grok_model.clone(),
        Transport::ChatCompletions => match copy_text(&config.openai_compatible_model) {
            Some(model) => model,
            None => config.grok_model.clone(),
        },
    }
}

} // verus!
