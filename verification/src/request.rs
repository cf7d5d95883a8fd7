//! The request that a search sends to the language model.

use crate::model::search::{from_user, user_message, RequestView, SearchRequest, SearchTool};
use crate::model::source::{sources_of, Source, SourceView};
use crate::model::tool::{InputView, WebSearchInput};
use crate::text::{copy_text, decimal, decimal_text, join, joined, texts_of};
use vstd::prelude::*;
use vstd::string::StringExecFns;

verus! {

/// What the language model is told before every search.
pub open spec fn system_prompt() -> Seq<char> {
    "Answer concisely with factual claims grounded in web search sources. Prefer primary sources. If sources are weak or unavailable, say so."@
}

/// The line that lists one source.
pub open spec fn source_line(source: SourceView) -> Seq<char> {
    "- "@ + source.url + match source.title {
        Some(title) => " | "@ + title,
        None => Seq::empty(),
    } + "\n"@
}

/// The lines that list sources.
pub open spec fn source_lines(sources: Seq<SourceView>) -> Seq<char>
    decreases sources.len(),
{
    if sources.len() == 0 {
        Seq::empty()
    } else {
        source_lines(sources.drop_last()) + source_line(sources.last())
    }
}

/// A list of domains under a heading; nothing where there is none.
pub open spec fn domain_section(heading: Seq<char>, domains: Seq<Seq<char>>) -> Seq<char> {
    if domains.len() == 0 {
        Seq::empty()
    } else {
        heading + joined(domains, ", "@)
    }
}

/// What the user asks for, in words.
pub open spec fn prompt(input: InputView, extra_sources: Seq<SourceView>) -> Seq<char> {
    input.query + match input.platform {
        Some(platform) => if platform.len() > 0 {
            "\n\nFocus platform: "@ + platform
        } else {
            Seq::empty()
        },
        None => Seq::empty(),
    } + match input.recency_days {
        Some(days) => "\n\nRestrict evidence to sources published within the last "@ + decimal(
            days as nat,
        ) + " day(s)."@,
        None => Seq::empty(),
    } + domain_section("\n\nPrefer sources from: "@, input.include_domains) + domain_section(
        "\n\nDo not cite sources from: "@,
        input.exclude_domains,
    ) + if extra_sources.len() == 0 {
        Seq::empty()
    } else {
        "\n\nAdditional sources:\n"@ + source_lines(extra_sources)
    }
}

/// The request that a search sends.
pub open spec fn search_request(
    default_model: Seq<char>,
    input: InputView,
    extra_sources: Seq<SourceView>,
) -> RequestView {
    RequestView {
        model: match input.model {
            Some(model) => model,
            None => default_model,
        },
        system: Some(system_prompt()),
        messages: seq![user_message(prompt(input, extra_sources))],
        tools: seq![SearchTool::WebSearch],
    }
}

/// Adds a list of domains under a heading, where there is one.
fn append_domains(content: &mut String, heading: &str, domains: &Vec<String>)
    ensures
        final(content)@ == old(content)@ + domain_section(
            heading@,
            texts_of(domains@),
        ),
{
    if domains.len() > 0 {
        content.append(heading);
        content.append(join(domains, ", ").as_str());
        assert(content@ =~= old(content)@ + domain_section(
            heading@,
            texts_of(domains@),
        ));
    } else {
        assert(content@ =~= old(content)@ + Seq::empty());
    }
}

/// Adds the lines that list sources, where there are any.
fn append_sources(content: &mut String, sources: &Vec<Source>)
    ensures
        final(content)@ == old(content)@ + if sources@.len() == 0 {
            Seq::empty()
        } else {
            "\n\nAdditional sources:\n"@ + source_lines(sources_of(sources@))
        },
{
    if sources.len() == 0 {
        assert(content@ =~= old(content)@ + Seq::empty());
        return;
    }
    content.append("\n\nAdditional sources:\n");
    let ghost start = content@;
    for i in 0..sources.len()
        invariant
            content@ =~= start + source_lines(sources_of(sources@).take(i as int)),
    {
        let ghost before = content@;
        content.append("- ");
        content.append(sources[i].url.as_str());
        if let Some(title) = &sources[i].title {
            content.append(" | ");
            content.append(title.as_str());
        }
        content.append("\n");
        proof {
            let next = sources_of(sources@).take(i + 1);
            assert(next.drop_last() =~= sources_of(sources@).take(i as int));
            assert(next.last() == sources@[i as int]@);
            assert(content@ =~= before + source_line(sources@[i as int]@));
        }
    }
    assert(sources_of(sources@).take(sources.len() as int) =~= sources_of(sources@));
    assert(content@ =~= old(content)@ + ("\n\nAdditional sources:\n"@ + source_lines(
        sources_of(sources@),
    )));
}

/// The request that a search sends: the query with what the caller restricts it
/// to, for the caller's model or else the default one.
pub fn build_search_request(
    default_model: &str,
    input: &WebSearchInput,
    extra_sources: &Vec<Source>,
) -> (request: SearchRequest)
    ensures
        request@ == search_request(default_model@, input@, sources_of(extra_sources@)),
{
    let mut content = input.query.clone();
    let ghost query = content@;
    if let Some(platform) = &input.platform {
        if !platform.as_str().is_empty() {
            content.append("\n\nFocus platform: ");
            content.append(platform.as_str());
        }
    }
    let ghost platform_part = match input@.platform {
        Some(platform) => if platform.len() > 0 {
            "\n\nFocus platform: "@ + platform
        } else {
            Seq::empty()
        },
        None => Seq::empty(),
    };
    assert(content@ =~= query + platform_part);
    let ghost before = content@;
    if let Some(days) = input.recency_days {
        content.append("\n\nRestrict evidence to sources published within the last ");
        content.append(decimal_text(days as u64).as_str());
        content.append(" day(s).");
    }
    let ghost recency_part = match input.recency_days {
        Some(days) => "\n\nRestrict evidence to sources published within the last "@ + decimal(
            days as nat,
        ) + " day(s)."@,
        None => Seq::empty(),
    };
    assert(content@ =~= before + recency_part);
    append_domains(&mut content, "\n\nPrefer sources from: ", &input.include_domains);
    append_domains(&mut content, "\n\nDo not cite sources from: ", &input.exclude_domains);
    append_sources(&mut content, extra_sources);
    assert(content@ == prompt(input@, sources_of(extra_sources@)));
    let mut tools: Vec<SearchTool> = Vec::new();
    tools.push(SearchTool::web_search());
    let request = SearchRequest {
        model: match copy_text(&input.model) {
            Some(model) => model,
            None => default_model.to_owned(),
        },
        system: Some(
            "Answer concisely with factual claims grounded in web search sources. Prefer primary sources. If sources are weak or unavailable, say so.".to_owned(),
        ),
        messages: from_user(content),
        tools,
    };
    assert(request@.messages =~= seq![
        user_message(prompt(input@, sources_of(extra_sources@))),
    ]);
    assert(request@.tools =~= seq![SearchTool::WebSearch]);
    request
}

} // verus!
