//! What a search asks of its backends.

use crate::config::Config;
use crate::error::ErrorView;
use crate::model::source::{fields_of, SourceView};
use crate::model::search::SearchTool;
use crate::model::tool::InputView;
use crate::request::{prompt, search_request, source_lines};
use crate::search::search_start;
use crate::text::{decimal, joined};
use vstd::prelude::*;

verus! {

/// A search is asked under the name that it was given, in the caller's words and
/// with all of the caller's restrictions; it asks for as many supplemental sources
/// as the caller wants, or else as many as configured.
pub proof fn law_search_asks_what_the_caller_asks(
    config: Config,
    default_model: Seq<char>,
    input: InputView,
    session_id: Seq<char>,
)
    requires
        search_start(config, default_model, input, session_id) is Ok,
    ensures
        ({
            let run = search_start(config, default_model, input, session_id)->Ok_0;
            &&& run.session_id == session_id
            &&& run.query == input.query
            &&& run.filters.recency_days == input.recency_days
            &&& run.filters.include_domains == input.include_domains
            &&& run.filters.exclude_domains == input.exclude_domains
            &&& input.extra_sources matches Some(count) ==> run.extra_sources == count
            &&& input.extra_sources is None ==> run.extra_sources == config.default_extra_sources
            &&& run.speculative_count >= run.extra_sources
            &&& run.speculative_count >= config.fallback_sources
            &&& run.speculative_count == run.extra_sources || run.speculative_count
                == config.fallback_sources
        }),
{
}

/// Whether sources carry page text: a concise response has none, a detailed one
/// has it; without a format the flag decides, and without both they carry it.
pub proof fn law_format_and_flag_decide_on_page_text(
    config: Config,
    default_model: Seq<char>,
    input: InputView,
    session_id: Seq<char>,
)
    ensures
        ({
            let start = search_start(config, default_model, input, session_id);
            match input.response_format {
                Some(format) => {
                    &&& format == "concise"@ ==> start is Ok && !start->Ok_0.include_content
                    &&& format == "detailed"@ ==> start is Ok && start->Ok_0.include_content
                    &&& format != "concise"@ && format != "detailed"@ ==> start == Err::<
                        crate::search::RunView,
                        ErrorView,
                    >(
                        ErrorView::InvalidParams(
                            "response_format must be \"concise\" or \"detailed\", got \""@ + format
                                + "\""@,
                        ),
                    )
                },
                None => {
                    &&& start is Ok
                    &&& start->Ok_0.include_content == (input.include_content != Some(false))
                },
            }
        }),
{
    reveal_strlit("concise");
    reveal_strlit("detailed");
    assert("concise"@.len() != "detailed"@.len());
}

/// The request of a search is one message of the user, to the caller's model or
/// else the default one, with the instruction to ground the answer in sources and
/// the tool that searches the web.
pub proof fn law_request_is_one_grounded_search(
    config: Config,
    default_model: Seq<char>,
    input: InputView,
    session_id: Seq<char>,
)
    requires
        search_start(config, default_model, input, session_id) is Ok,
    ensures
        ({
            let request = search_start(config, default_model, input, session_id)->Ok_0.request;
            &&& input.model is Some ==> request.model == input.model->0
            &&& input.model is None ==> request.model == default_model
            &&& request.system == Some(
                "Answer concisely with factual claims grounded in web search sources. Prefer primary sources. If sources are weak or unavailable, say so."@,
            )
            &&& request.messages.len() == 1
            &&& request.messages[0].role == "user"@
            &&& request.messages[0].content.len() == 1
            &&& request.messages[0].content[0] == prompt(input, Seq::empty())
            &&& request.tools.len() == 1
            &&& request.tools[0] == SearchTool::WebSearch
        }),
{
}

/// A request names the sources that are handed to it, and nothing else of it
/// depends on them.
pub proof fn law_request_names_the_sources_at_hand(
    default_model: Seq<char>,
    input: InputView,
    sources: Seq<SourceView>,
)
    ensures
        ({
            let with = search_request(default_model, input, sources);
            let bare = search_request(default_model, input, Seq::empty());
            &&& with.model == bare.model
            &&& with.system == bare.system
            &&& with.tools == bare.tools
            &&& with.messages.len() == 1
            &&& with.messages[0].role == "user"@
            &&& with.messages[0].content == seq![prompt(input, sources)]
        }),
{
}

/// A search for the given words without any restriction.
pub open spec fn bare(query: Seq<char>) -> InputView {
    InputView {
        query,
        platform: None,
        model: None,
        extra_sources: None,
        recency_days: None,
        include_domains: Seq::empty(),
        exclude_domains: Seq::empty(),
        include_content: None,
        response_format: None,
    }
}

/// What is asked for in words are the caller's words, followed by each restriction
/// in turn: what a restriction adds does not depend on the words, nor on any other
/// restriction.
pub proof fn law_prompt_adds_each_restriction(input: InputView, sources: Seq<SourceView>)
    ensures
        prompt(input, sources) == input.query + prompt(
            InputView { platform: input.platform, ..bare(Seq::empty()) },
            Seq::empty(),
        ) + prompt(
            InputView { recency_days: input.recency_days, ..bare(Seq::empty()) },
            Seq::empty(),
        ) + prompt(
            InputView { include_domains: input.include_domains, ..bare(Seq::empty()) },
            Seq::empty(),
        ) + prompt(
            InputView { exclude_domains: input.exclude_domains, ..bare(Seq::empty()) },
            Seq::empty(),
        ) + prompt(bare(Seq::empty()), sources),
{
    let none = Seq::<char>::empty();
    let platform = prompt(InputView { platform: input.platform, ..bare(none) }, Seq::empty());
    let recency = prompt(InputView { recency_days: input.recency_days, ..bare(none) }, Seq::empty());
    let preferred = prompt(
        InputView { include_domains: input.include_domains, ..bare(none) },
        Seq::empty(),
    );
    let exclude = prompt(
        InputView { exclude_domains: input.exclude_domains, ..bare(none) },
        Seq::empty(),
    );
    law_prompt_of_one_restriction(
        match input.platform {
            Some(platform) => platform,
            None => none,
        },
        match input.recency_days {
            Some(days) => days,
            None => 0,
        },
        input.include_domains,
    );
    law_prompt_of_one_restriction(none, 0, input.exclude_domains);
    assert(prompt(input, sources) =~= input.query + platform + recency + preferred + exclude
        + prompt(bare(none), sources));
}

/// What each restriction adds: the platform where it has a name, the age in days,
/// and the domains to prefer or to avoid where there are any.
pub proof fn law_prompt_of_one_restriction(
    platform: Seq<char>,
    days: u32,
    domains: Seq<Seq<char>>,
)
    ensures
        prompt(bare(Seq::empty()), Seq::empty()) == Seq::<char>::empty(),
        prompt(
            InputView { platform: Some(platform), ..bare(Seq::empty()) },
            Seq::empty(),
        ) == if platform.len() == 0 {
            Seq::<char>::empty()
        } else {
            "\n\nFocus platform: "@ + platform
        },
        prompt(
            InputView { recency_days: Some(days), ..bare(Seq::empty()) },
            Seq::empty(),
        ) == "\n\nRestrict evidence to sources published within the last "@ + decimal(days as nat)
            + " day(s)."@,
        prompt(
            InputView { include_domains: domains, ..bare(Seq::empty()) },
            Seq::empty(),
        ) == if domains.len() == 0 {
            Seq::<char>::empty()
        } else {
            "\n\nPrefer sources from: "@ + joined(domains, ", "@)
        },
        prompt(
            InputView { exclude_domains: domains, ..bare(Seq::empty()) },
            Seq::empty(),
        ) == if domains.len() == 0 {
            Seq::<char>::empty()
        } else {
            "\n\nDo not cite sources from: "@ + joined(domains, ", "@)
        },
{
    let none = Seq::<char>::empty();
    assert(prompt(bare(none), Seq::empty()) =~= none);
    let focused = prompt(InputView { platform: Some(platform), ..bare(none) }, Seq::empty());
    assert(focused =~= if platform.len() == 0 {
        none
    } else {
        "\n\nFocus platform: "@ + platform
    });
    let recent = prompt(InputView { recency_days: Some(days), ..bare(none) }, Seq::empty());
    assert(recent =~= "\n\nRestrict evidence to sources published within the last "@ + decimal(
        days as nat,
    ) + " day(s)."@);
    let preferred = prompt(InputView { include_domains: domains, ..bare(none) }, Seq::empty());
    assert(preferred =~= if domains.len() == 0 {
        none
    } else {
        "\n\nPrefer sources from: "@ + joined(domains, ", "@)
    });
    let avoided = prompt(InputView { exclude_domains: domains, ..bare(none) }, Seq::empty());
    assert(avoided =~= if domains.len() == 0 {
        none
    } else {
        "\n\nDo not cite sources from: "@ + joined(domains, ", "@)
    });
}

/// Sources at hand are listed under a heading, one line each in their order: the
/// address, and the title where there is one.
pub proof fn law_prompt_lists_sources(
    first: Seq<SourceView>,
    second: Seq<SourceView>,
    source: SourceView,
)
    ensures
        first.len() > 0 ==> prompt(bare(Seq::empty()), first) == "\n\nAdditional sources:\n"@
            + source_lines(first),
        source_lines(first + second) == source_lines(first) + source_lines(second),
        source_lines(seq![source]) == match source.title {
            Some(title) => "- "@ + source.url + " | "@ + title + "\n"@,
            None => "- "@ + source.url + "\n"@,
        },
        source_lines(Seq::empty()) == Seq::<char>::empty(),
    decreases second.len(),
{
    let all = first + second;
    if first.len() > 0 {
        assert(prompt(bare(Seq::empty()), first) =~= "\n\nAdditional sources:\n"@ + source_lines(
            first,
        ));
    }
    if second.len() == 0 {
        assert(all =~= first);
        assert(source_lines(first) + source_lines(second) =~= source_lines(first));
    } else {
        law_prompt_lists_sources(first, second.drop_last(), source);
        assert(all.drop_last() =~= first + second.drop_last());
        assert(source_lines(all) =~= source_lines(first) + source_lines(second));
    }
    let one = seq![source];
    assert(one.drop_last() =~= Seq::empty());
    assert(source_lines(one.drop_last()) == Seq::<char>::empty());
    let line = "- "@ + source.url + match source.title {
        Some(title) => " | "@ + title,
        None => Seq::empty(),
    } + "\n"@;
    assert(source_lines(one) =~= line);
    match source.title {
        Some(title) => {
            assert(line =~= "- "@ + source.url + " | "@ + title + "\n"@);
        },
        None => {
            assert(line =~= "- "@ + source.url + "\n"@);
        },
    }
}

/// A source is written out with its address, its backend, and exactly those of its
/// title, description, date and text that are known, each under its own name.
pub proof fn law_sources_are_written_as_far_as_known(source: SourceView)
    ensures
        ({
            let fields = fields_of(source);
            let known = |value: Option<Seq<char>>|
                if value is Some {
                    1int
                } else {
                    0int
                };
            &&& fields.len() == 2 + known(source.title) + known(source.description) + known(
                source.published_date,
            ) + known(source.content)
            &&& fields[0] == ("url"@, source.url)
            &&& fields[1] == ("provider"@, source.provider)
            &&& source.title is Some ==> fields[2] == ("title"@, source.title->0)
            &&& source.description is Some ==> fields[2 + known(source.title)] == (
                "description"@,
                source.description->0,
            )
            &&& source.published_date is Some ==> fields[2 + known(source.title) + known(
                source.description,
            )] == ("published_date"@, source.published_date->0)
            &&& source.content is Some ==> fields[fields.len() - 1] == (
                "content"@,
                source.content->0,
            )
        }),
{
}

} // verus!
