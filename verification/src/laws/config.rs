//! How settings are read.

use crate::config::{configured, setting, transport_for, AuthMode, Config, Transport};
use crate::service::fake_vars;
use vstd::prelude::*;

verus! {

/// Later settings override earlier ones, name by name, and leave the others alone.
pub proof fn law_later_settings_win(
    vars: Seq<(Seq<char>, Seq<char>)>,
    overrides: Seq<(Seq<char>, Seq<char>)>,
    name: Seq<char>,
)
    ensures
        setting(vars + overrides, name) == if setting(overrides, name) is Some {
            setting(overrides, name)
        } else {
            setting(vars, name)
        },
    decreases overrides.len(),
{
    let all = vars + overrides;
    if overrides.len() == 0 {
        assert(all =~= vars);
    } else {
        assert(all.drop_last() =~= vars + overrides.drop_last());
        law_later_settings_win(vars, overrides.drop_last(), name);
    }
}

/// The gateway is used only where all that it takes to reach it is given; any less
/// leaves the model's own interface.
pub proof fn law_incomplete_gateway_is_not_used(vars: Seq<(Seq<char>, Seq<char>)>)
    ensures
        transport_for(vars) == Transport::ChatCompletions <==> {
            &&& setting(vars, "OPENAI_COMPATIBLE_API_URL"@) is Some
            &&& setting(vars, "OPENAI_COMPATIBLE_API_KEY"@) is Some
        },
{
}

/// A setting is what it was last set to; other settings do not touch it, and one
/// that is never set is not there.
pub proof fn law_setting_is_what_it_was_set_to(
    vars: Seq<(Seq<char>, Seq<char>)>,
    name: Seq<char>,
    value: Seq<char>,
    other: Seq<char>,
)
    ensures
        setting(Seq::empty(), name) is None,
        setting(vars.push((name, value)), name) == Some(value),
        other != name ==> setting(vars.push((other, value)), name) == setting(vars, name),
{
    assert(vars.push((name, value)).drop_last() =~= vars);
    assert(vars.push((other, value)).drop_last() =~= vars);
}

/// Each setting that is read goes to its own place, as it is.
pub proof fn law_settings_go_to_their_places(
    config: Config,
    vars: Seq<(Seq<char>, Seq<char>)>,
)
    requires
        configured(config, vars),
    ensures
        setting(vars, "GROK_SEARCH_API_KEY"@) is Some <==> config.grok_api_key is Some,
        config.grok_api_key is Some ==> config.grok_api_key->0@ == setting(
            vars,
            "GROK_SEARCH_API_KEY"@,
        )->0,
        setting(vars, "GROK_SEARCH_AUTH_FILE"@) is Some <==> config.grok_auth_file is Some,
        config.grok_auth_file is Some ==> config.grok_auth_file->0@ == setting(
            vars,
            "GROK_SEARCH_AUTH_FILE"@,
        )->0,
        setting(vars, "GROK_SEARCH_MODEL"@) is Some ==> config.grok_model@ == setting(
            vars,
            "GROK_SEARCH_MODEL"@,
        )->0,
        setting(vars, "GROK_SEARCH_MODEL"@) is None ==> config.grok_model@
            == "grok-4-1-fast-reasoning"@,
        config.x_search_enabled <==> setting(vars, "GROK_SEARCH_X_SEARCH"@) == Some("true"@),
        setting(vars, "OPENAI_COMPATIBLE_API_URL"@) is Some
            <==> config.openai_compatible_api_url is Some,
        config.openai_compatible_api_url is Some ==> config.openai_compatible_api_url->0@
            == setting(vars, "OPENAI_COMPATIBLE_API_URL"@)->0,
        setting(vars, "OPENAI_COMPATIBLE_API_KEY"@) is Some
            <==> config.openai_compatible_api_key is Some,
        config.openai_compatible_api_key is Some ==> config.openai_compatible_api_key->0@
            == setting(vars, "OPENAI_COMPATIBLE_API_KEY"@)->0,
        setting(vars, "OPENAI_COMPATIBLE_MODEL"@) is Some
            <==> config.openai_compatible_model is Some,
        config.openai_compatible_model is Some ==> config.openai_compatible_model->0@ == setting(
            vars,
            "OPENAI_COMPATIBLE_MODEL"@,
        )->0,
        setting(vars, "TAVILY_API_KEY"@) is Some <==> config.tavily_api_key is Some,
        config.tavily_api_key is Some ==> config.tavily_api_key->0@ == setting(
            vars,
            "TAVILY_API_KEY"@,
        )->0,
        setting(vars, "FIRECRAWL_API_KEY"@) is Some <==> config.firecrawl_api_key is Some,
        config.firecrawl_api_key is Some ==> config.firecrawl_api_key->0@ == setting(
            vars,
            "FIRECRAWL_API_KEY"@,
        )->0,
        setting(vars, "GITHUB_TOKEN"@) is Some <==> config.github_token is Some,
        config.github_token is Some ==> config.github_token->0@ == setting(
            vars,
            "GITHUB_TOKEN"@,
        )->0,
        config.transport == Transport::ChatCompletions
            <==> config.openai_compatible_api_url is Some
            && config.openai_compatible_api_key is Some,
{
}

/// What no setting changes has its default.
pub proof fn law_the_rest_has_its_default(config: Config, vars: Seq<(Seq<char>, Seq<char>)>)
    requires
        configured(config, vars),
    ensures
        config.grok_auth_mode == AuthMode::ApiKey,
        config.grok_api_url@ == "https://api.x.ai/v1"@,
        config.tavily_api_url@ == "https://api.tavily.com"@,
        config.firecrawl_api_url@ == "https://api.firecrawl.dev/v1"@,
        config.web_search_enabled && config.tavily_enabled && config.firecrawl_enabled,
        config.default_extra_sources == 3,
        config.fallback_sources == 5,
        config.cache_size == 256,
        config.timeout_ms == 60_000,
        config.fetch_max_chars is None,
        config.source_max_answers == 5,
        config.source_max_comments == 30,
        config.enrich_concurrency == 5,
        config.enrich_max_chars == 15_000,
        config.max_inline_sources == 8,
        config.response_max_chars == 100_000,
{
}

/// A service with made-up backends has the keys that it needs, a key for the
/// fallback exactly where it has one; the caller's settings go before its own.
pub proof fn law_made_up_services_have_their_keys(
    config: Config,
    has_fallback: bool,
    overrides: Seq<(Seq<char>, Seq<char>)>,
)
    requires
        configured(config, fake_vars(has_fallback) + overrides),
    ensures
        overrides.len() == 0 ==> {
            &&& config.grok_api_key is Some && config.grok_api_key->0@ == "fake-grok"@
            &&& config.tavily_api_key is Some && config.tavily_api_key->0@ == "fake-tavily"@
            &&& config.firecrawl_api_key is Some <==> has_fallback
            &&& has_fallback ==> config.firecrawl_api_key->0@ == "fake-firecrawl"@
            &&& config.transport == Transport::Responses
        },
        setting(overrides, "TAVILY_API_KEY"@) is Some ==> config.tavily_api_key is Some
            && config.tavily_api_key->0@ == setting(overrides, "TAVILY_API_KEY"@)->0,
        setting(overrides, "GROK_SEARCH_API_KEY"@) is Some ==> config.grok_api_key is Some
            && config.grok_api_key->0@ == setting(overrides, "GROK_SEARCH_API_KEY"@)->0,
{
    let vars = fake_vars(has_fallback);
    law_later_settings_win(vars, overrides, "TAVILY_API_KEY"@);
    law_later_settings_win(vars, overrides, "GROK_SEARCH_API_KEY"@);
    if overrides.len() == 0 {
        assert(vars + overrides =~= vars);
        reveal_strlit("GROK_SEARCH_API_KEY");
        reveal_strlit("TAVILY_API_KEY");
        reveal_strlit("FIRECRAWL_API_KEY");
        reveal_strlit("OPENAI_COMPATIBLE_API_URL");
        assert("GROK_SEARCH_API_KEY"@.len() == 19);
        assert("TAVILY_API_KEY"@.len() == 14);
        assert("FIRECRAWL_API_KEY"@.len() == 17);
        assert("OPENAI_COMPATIBLE_API_URL"@.len() == 25);
        let grok = Seq::<(Seq<char>, Seq<char>)>::empty().push(
            ("GROK_SEARCH_API_KEY"@, "fake-grok"@),
        );
        let tavily = grok.push(("TAVILY_API_KEY"@, "fake-tavily"@));
        let all = if has_fallback {
            tavily.push(("FIRECRAWL_API_KEY"@, "fake-firecrawl"@))
        } else {
            tavily
        };
        assert(vars =~= all);
        lemma_set(
            Seq::empty(),
            "GROK_SEARCH_API_KEY"@,
            "fake-grok"@,
        );
        lemma_set(grok, "TAVILY_API_KEY"@, "fake-tavily"@);
        lemma_set(tavily, "FIRECRAWL_API_KEY"@, "fake-firecrawl"@);
    }
}

/// What setting one name does to every name.
proof fn lemma_set(vars: Seq<(Seq<char>, Seq<char>)>, name: Seq<char>, value: Seq<char>)
    ensures
        forall|other: Seq<char>| #[trigger]
            setting(vars.push((name, value)), other) == if other == name {
                Some(value)
            } else {
                setting(vars, other)
            },
{
    assert(vars.push((name, value)).drop_last() =~= vars);
}

} // verus!
