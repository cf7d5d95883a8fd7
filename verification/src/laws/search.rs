//! What a search guarantees, whatever its backends reply.

use crate::answer::{enrichment_label_of, fallback_label_of, RawSourceOrigin};
use crate::config::Config;
use crate::enrich;
use crate::enrich::{
    can_deliver, enriched_text, failure_note, EnrichStageView, JobView, ResolutionView,
};
use crate::error::ErrorView;
use crate::budget::total_weight;
use crate::laws::budget::{law_only_texts_change, law_result_fits_or_one_source_is_left};
use crate::laws::fetch::{
    law_enriched_text_is_bounded, law_enriched_text_is_never_empty, law_fallback_delivers_the_page,
};
use crate::model::search::ResponseView;
use crate::model::source::{distinct, lists_url, merged, relabelled, SourceView};
use crate::model::tool::InputView;
use crate::pool::{
    enriched, lemma_remove_value, lemma_text_for, lemma_text_for_push, text_for, PoolView,
    INTERRUPTED,
};
use crate::provider::Backends;
use crate::search::{
    drafted, drafted_sources, enriches, fallback_reason_of, fallback_text, final_content,
    final_sources, first_sources, search_output, search_start, wants_content, DraftView, RunView,
};
use crate::text::{decimal, is_blank};
use crate::urls::parsed_url;
use vstd::prelude::*;

verus! {

/// The response format goes before the older flag: where it is given, the flag has
/// no effect.
pub proof fn law_response_format_goes_first(one: InputView, two: InputView)
    requires
        one.response_format is Some,
        one.response_format == two.response_format,
    ensures
        wants_content(one) == wants_content(two),
{
}

/// A search is refused exactly where its response format is given and is neither
/// of the two that there are.
pub proof fn law_only_unknown_formats_are_refused(
    config: Config,
    default_model: Seq<char>,
    input: InputView,
    session_id: Seq<char>,
)
    ensures
        search_start(config, default_model, input, session_id) is Err <==> {
            &&& input.response_format is Some
            &&& input.response_format->0 != "concise"@
            &&& input.response_format->0 != "detailed"@
        },
{
}

/// The source backends are asked once, for as many sources as the more demanding
/// of the two outcomes needs: cutting what they return to the need of either
/// outcome loses nothing that this outcome could have used.
pub proof fn law_one_request_serves_both_outcomes(
    config: Config,
    default_model: Seq<char>,
    input: InputView,
    session_id: Seq<char>,
    raw: Seq<SourceView>,
)
    requires
        search_start(config, default_model, input, session_id) is Ok,
    ensures
        ({
            let run = search_start(config, default_model, input, session_id)->Ok_0;
            &&& run.extra_sources <= run.speculative_count
            &&& config.fallback_sources <= run.speculative_count
            &&& raw.len() >= run.speculative_count ==> {
                &&& first_sources(raw, run.extra_sources).len() == run.extra_sources
                &&& first_sources(raw, config.fallback_sources as nat).len()
                    == config.fallback_sources
            }
            &&& run.speculative_count == 0 <==> run.extra_sources == 0
                && config.fallback_sources == 0
        }),
{
}

/// A request names the caller's model where there is one, else the default.
pub proof fn law_caller_model_wins(
    config: Config,
    default_model: Seq<char>,
    input: InputView,
    session_id: Seq<char>,
)
    requires
        search_start(config, default_model, input, session_id) is Ok,
    ensures
        search_start(config, default_model, input, session_id)->Ok_0.request.model == match input.model {
            Some(model) => model,
            None => default_model,
        },
{
}

/// A search whose pages are not to be fetched has nothing to wait for, at once.
pub proof fn law_no_page_is_fetched_without_need(
    config: Config,
    backends: Backends,
    run: RunView,
    answer: Result<ResponseView, ErrorView>,
    raw: Seq<SourceView>,
    origin: RawSourceOrigin,
)
    requires
        !enriches(run, answer),
    ensures
        ({
            let draft = drafted(config, backends, run, answer, raw, origin);
            &&& draft.pool.urls.len() == 0
            &&& draft.pool.done()
            &&& !draft.pool.can_start()
        }),
{
}

/// A caller who does not want page text gets none: the sources are returned as the
/// backends named them, on either outcome.
pub proof fn law_opt_out_is_honoured(
    config: Config,
    backends: Backends,
    run: RunView,
    answer: Result<ResponseView, ErrorView>,
    raw: Seq<SourceView>,
    origin: RawSourceOrigin,
)
    requires
        !run.include_content,
    ensures
        ({
            let draft = drafted(config, backends, run, answer, raw, origin);
            &&& draft.pool.done()
            &&& final_sources(draft) == drafted_sources(config, run, answer, raw, origin)
        }),
{
    let draft = drafted(config, backends, run, answer, raw, origin);
    lemma_nothing_to_fetch(draft);
}

/// A verified answer without supplemental sources carries no page text either, even
/// where the caller wants it.
pub proof fn law_no_extra_sources_no_page_text(
    config: Config,
    backends: Backends,
    run: RunView,
    answer: Result<ResponseView, ErrorView>,
    raw: Seq<SourceView>,
    origin: RawSourceOrigin,
)
    requires
        run.extra_sources == 0,
        fallback_reason_of(answer) is None,
    ensures
        ({
            let draft = drafted(config, backends, run, answer, raw, origin);
            &&& draft.pool.done()
            &&& final_sources(draft) == distinct(answer->Ok_0.sources)
        }),
{
    let draft = drafted(config, backends, run, answer, raw, origin);
    lemma_nothing_to_fetch(draft);
    let extra = relabelled(first_sources(raw, 0), enrichment_label_of(origin));
    assert(answer->Ok_0.sources + extra =~= answer->Ok_0.sources);
}

proof fn lemma_nothing_to_fetch(draft: DraftView)
    requires
        draft.pool.results.len() == 0,
    ensures
        final_sources(draft) == draft.sources,
{
    assert(final_sources(draft) =~= draft.sources);
}

/// At every moment of a search, enrichment leaves the number and the order of the
/// sources alone and changes nothing but their text; sources behind those that are
/// to carry text stay as they are.
pub proof fn law_enrichment_changes_only_texts(draft: DraftView, index: int)
    requires
        draft.wf(),
        0 <= index < draft.sources.len(),
    ensures
        final_sources(draft).len() == draft.sources.len(),
        final_sources(draft)[index].with_content(None) == draft.sources[index].with_content(None),
        index >= draft.pool.urls.len() ==> final_sources(draft)[index] == draft.sources[index],
{
    lemma_text_for(draft.pool.results, index);
}

/// A search fetches the pages of its first sources, as many as may carry text; it
/// reads the address of each once, as the source gives it.
pub proof fn law_first_sources_are_fetched(
    config: Config,
    backends: Backends,
    run: RunView,
    answer: Result<ResponseView, ErrorView>,
    raw: Seq<SourceView>,
    origin: RawSourceOrigin,
)
    requires
        enriches(run, answer),
    ensures
        ({
            let draft = drafted(config, backends, run, answer, raw, origin);
            let pool = draft.pool;
            &&& pool.urls.len() == if draft.sources.len() < config.max_inline_sources {
                draft.sources.len() as int
            } else {
                config.max_inline_sources as int
            }
            &&& pool.parsed.len() == pool.urls.len()
            &&& pool.max_chars == config.enrich_max_chars
            &&& forall|i: int|
                0 <= i < pool.urls.len() ==> {
                    &&& #[trigger] pool.urls[i] == draft.sources[i].url
                    &&& pool.parsed[i] == parsed_url(draft.sources[i].url)
                }
        }),
{
}

/// Whether fetches are for the same pages, under the same limits and through the
/// same backends.
pub open spec fn same_pages(one: PoolView, two: PoolView) -> bool {
    &&& one.urls == two.urls
    &&& one.parsed == two.parsed
    &&& one.max_chars == two.max_chars
    &&& one.concurrency == two.concurrency
    &&& one.backends == two.backends
}

/// Whatever happens to the fetches, which pages they are for stays as it was.
pub proof fn law_fetches_keep_their_pages(pool: PoolView, job: JobView, index: usize)
    ensures
        same_pages(pool.started(), pool),
        same_pages(pool.finished(job), pool),
        same_pages(pool.broken(index), pool),
{
}

/// At every moment of a search, a source for which a text has come in carries what
/// the fetch of its own page amounts to, or the note that this fetch broke off.
pub proof fn law_sources_carry_their_own_pages(draft: DraftView, index: int)
    requires
        draft.wf(),
        0 <= index < draft.sources.len(),
        draft.pool.has_result(index),
    ensures
        index < draft.pool.urls.len(),
        ({
            let content = final_sources(draft)[index].content;
            let url = draft.sources[index].url;
            &&& content is Some
            &&& can_deliver(url, draft.pool.parsed[index], draft.pool.max_chars, content->0)
                || content->0 == failure_note(INTERRUPTED@, url)
            &&& draft.pool.max_chars > 0 ==> content->0.len() > 0
            &&& content->0.len() <= draft.pool.max_chars || exists|reason: Seq<char>|
                content->0 == #[trigger] failure_note(reason, url)
        }),
{
    let url = draft.sources[index].url;
    let parsed = draft.pool.parsed[index];
    let max_chars = draft.pool.max_chars;
    lemma_text_for(draft.pool.results, index);
    let text = text_for(draft.pool.results, index)->0;
    let k = choose|k: int|
        0 <= k < draft.pool.results.len() && #[trigger] draft.pool.results[k] == (
            index as usize,
            text,
        );
    assert(draft.pool.results[k].0 == index as usize);
    assert(draft.pool.can_carry(index, text));
    assert(draft.pool.urls[index] == url);
    if can_deliver(url, parsed, max_chars, text) {
        let (outcome, generic) = choose|
            outcome: ResolutionView,
            generic: Option<Result<Seq<char>, ErrorView>>,
        |
            text == #[trigger] enriched_text(url, parsed, max_chars, outcome, generic);
        law_enriched_text_is_bounded(url, parsed, max_chars, outcome, generic);
        if max_chars > 0 {
            law_enriched_text_is_never_empty(url, parsed, max_chars, outcome, generic);
        }
    } else {
        reveal_strlit("_Failed to retrieve: ");
    }
}

/// Once no page is left to wait for, every source that was to carry text carries
/// text of its own page or a note, whatever failed; it is not empty, unless no text
/// may be carried at all.
pub proof fn law_every_page_arrives(draft: DraftView, index: int)
    requires
        draft.wf(),
        draft.pool.done(),
        0 <= index < draft.pool.urls.len(),
    ensures
        draft.pool.has_result(index),
        ({
            let content = final_sources(draft)[index].content;
            let url = draft.sources[index].url;
            &&& content is Some
            &&& can_deliver(url, draft.pool.parsed[index], draft.pool.max_chars, content->0)
                || content->0 == failure_note(INTERRUPTED@, url)
            &&& draft.pool.max_chars > 0 ==> content->0.len() > 0
        }),
{
    assert(!draft.pool.running.contains(index as usize));
    assert(draft.pool.has_result(index as usize as int));
    law_sources_carry_their_own_pages(draft, index);
}

/// Never do more fetches run at the same time than the configuration allows.
pub proof fn law_concurrency_is_bounded(draft: DraftView)
    requires
        draft.wf(),
    ensures
        draft.pool.running.len() <= draft.pool.concurrency,
        draft.pool.can_start() ==> draft.pool.started().running.len() <= draft.pool.concurrency,
{
}

/// As long as fetches may run at all, a search that waits for none either is done
/// or can start one.
pub proof fn law_enrichment_does_not_stall(pool: PoolView)
    requires
        pool.wf(),
        pool.concurrency > 0,
        pool.running.len() == 0,
    ensures
        pool.done() || pool.can_start(),
{
}

/// The order in which page texts come in does not matter.
pub proof fn law_arrival_order_does_not_matter(
    sources: Seq<SourceView>,
    one: Seq<(usize, Seq<char>)>,
    two: Seq<(usize, Seq<char>)>,
)
    requires
        forall|j: int, k: int|
            0 <= j < k < one.len() ==> (#[trigger] one[j]).0 != (#[trigger] one[k]).0,
        forall|entry: (usize, Seq<char>)| #[trigger] one.contains(entry) <==> two.contains(entry),
    ensures
        enriched(sources, one) == enriched(sources, two),
{
    assert forall|i: int| text_for(one, i) == text_for(two, i) by {
        lemma_text_for(one, i);
        lemma_text_for(two, i);
        if text_for(one, i) is Some {
            let k = choose|k: int|
                0 <= k < one.len() && #[trigger] one[k] == (i as usize, text_for(one, i)->0);
            assert(one.contains(one[k]));
            assert(two.contains(one[k]));
            let at = choose|k: int| 0 <= k < one.len() && (#[trigger] one[k]).0 == i;
            let j = choose|j: int| 0 <= j < two.len() && two[j] == one[k];
            assert(two[j].0 == i);
        }
        if text_for(two, i) is Some {
            let k = choose|k: int|
                0 <= k < two.len() && #[trigger] two[k] == (i as usize, text_for(two, i)->0);
            assert(two.contains(two[k]));
            assert(one.contains(two[k]));
            let j = choose|j: int| 0 <= j < one.len() && one[j] == two[k];
            let at = choose|k: int| 0 <= k < two.len() && (#[trigger] two[k]).0 == i;
            assert(one[j].0 == i);
            let m = choose|m: int|
                0 <= m < one.len() && #[trigger] one[m] == (i as usize, text_for(one, i)->0);
            assert(m == j);
        }
    }
    assert(enriched(sources, one) =~= enriched(sources, two));
}

proof fn lemma_distinct(sources: Seq<SourceView>)
    ensures
        ({
            let kept = distinct(sources);
            &&& kept.len() <= sources.len()
            &&& forall|i: int, j: int|
                0 <= i < j < kept.len() ==> (#[trigger] kept[i]).url != (#[trigger] kept[j]).url
            &&& forall|i: int| 0 <= i < kept.len() ==> sources.contains(#[trigger] kept[i])
            &&& forall|i: int| 0 <= i < sources.len() ==> lists_url(kept, (#[trigger] sources[i]).url)
        }),
    decreases sources.len(),
{
    if sources.len() > 0 {
        let earlier = distinct(sources.drop_last());
        let kept = distinct(sources);
        let last = sources.len() - 1;
        lemma_distinct(sources.drop_last());
        assert forall|i: int| 0 <= i < kept.len() implies sources.contains(#[trigger] kept[i]) by {
            if i < earlier.len() {
                assert(kept[i] == earlier[i]);
                let k = choose|k: int|
                    0 <= k < sources.drop_last().len() && sources.drop_last()[k] == earlier[i];
                assert(sources[k] == kept[i]);
            } else {
                assert(sources[last] == kept[i]);
            }
        }
        assert forall|i: int, j: int| 0 <= i < j < kept.len() implies (#[trigger] kept[i]).url != (
        #[trigger] kept[j]).url by {
            assert(kept[i] == earlier[i]);
            if j < earlier.len() {
                assert(kept[j] == earlier[j]);
            }
        }
        assert forall|i: int| 0 <= i < sources.len() implies lists_url(
            kept,
            (#[trigger] sources[i]).url,
        ) by {
            if i < last {
                assert(sources.drop_last()[i] == sources[i]);
                let k = choose|k: int|
                    0 <= k < earlier.len() && (#[trigger] earlier[k]).url == sources[i].url;
                assert(kept[k].url == sources[i].url);
            } else if !lists_url(earlier, sources.last().url) {
                assert(kept[earlier.len() as int].url == sources[i].url);
            }
        }
    }
}

proof fn lemma_distinct_prefix(first: Seq<SourceView>, second: Seq<SourceView>)
    ensures
        ({
            let head = distinct(first);
            let kept = distinct(first + second);
            &&& head.len() <= kept.len() <= head.len() + second.len()
            &&& kept.take(head.len() as int) == head
            &&& forall|i: int|
                head.len() <= i < kept.len() ==> second.contains(#[trigger] kept[i])
        }),
    decreases second.len(),
{
    let head = distinct(first);
    let kept = distinct(first + second);
    if second.len() == 0 {
        assert(first + second =~= first);
        assert(kept.take(head.len() as int) =~= head);
    } else {
        let before = distinct(first + second.drop_last());
        assert((first + second).drop_last() =~= first + second.drop_last());
        lemma_distinct_prefix(first, second.drop_last());
        assert(kept.take(head.len() as int) =~= before.take(head.len() as int));
        assert forall|i: int| head.len() <= i < kept.len() implies second.contains(
            #[trigger] kept[i],
        ) by {
            if i < before.len() {
                assert(kept[i] == before[i]);
                let k = choose|k: int|
                    0 <= k < second.drop_last().len() && second.drop_last()[k] == before[i];
                assert(second[k] == kept[i]);
            } else {
                assert(second[second.len() - 1] == kept[i]);
            }
        }
    }
}

/// Beside a verified answer, the sources that it cites come first and as they are;
/// at most as many supplemental ones as asked for follow, under the name of the
/// backend that delivered them; no address occurs twice.
pub proof fn law_citations_come_first(
    config: Config,
    run: RunView,
    answer: Result<ResponseView, ErrorView>,
    raw: Seq<SourceView>,
    origin: RawSourceOrigin,
)
    requires
        fallback_reason_of(answer) is None,
    ensures
        ({
            let cited = distinct(answer->Ok_0.sources);
            let sources = drafted_sources(config, run, answer, raw, origin);
            &&& cited.len() <= sources.len() <= cited.len() + run.extra_sources
            &&& sources.take(cited.len() as int) == cited
            &&& forall|i: int|
                cited.len() <= i < sources.len() ==> (#[trigger] sources[i]).provider
                    == enrichment_label_of(origin)
            &&& forall|i: int, j: int|
                0 <= i < j < sources.len() ==> (#[trigger] sources[i]).url != (
                #[trigger] sources[j]).url
        }),
{
    let cited = distinct(answer->Ok_0.sources);
    let extra = relabelled(first_sources(raw, run.extra_sources), enrichment_label_of(origin));
    let sources = drafted_sources(config, run, answer, raw, origin);
    lemma_distinct_prefix(answer->Ok_0.sources, extra);
    lemma_distinct(answer->Ok_0.sources + extra);
    assert forall|i: int| cited.len() <= i < sources.len() implies (
    #[trigger] sources[i]).provider == enrichment_label_of(origin) by {
        let k = choose|k: int| 0 <= k < extra.len() && extra[k] == sources[i];
    }
}

/// Merging loses no address, invents no source, and keeps each address once.
pub proof fn law_merging_keeps_each_address_once(
    first: Seq<SourceView>,
    second: Seq<SourceView>,
)
    ensures
        ({
            let all = merged(first, second);
            &&& forall|i: int|
                0 <= i < first.len() ==> lists_url(all, (#[trigger] first[i]).url)
            &&& forall|i: int|
                0 <= i < second.len() ==> lists_url(all, (#[trigger] second[i]).url)
            &&& forall|i: int|
                0 <= i < all.len() ==> first.contains(#[trigger] all[i]) || second.contains(all[i])
            &&& forall|i: int, j: int|
                0 <= i < j < all.len() ==> (#[trigger] all[i]).url != (#[trigger] all[j]).url
        }),
{
    let all = merged(first, second);
    let both = first + second;
    lemma_distinct(both);
    assert forall|i: int| 0 <= i < first.len() implies lists_url(
        all,
        (#[trigger] first[i]).url,
    ) by {
        assert(both[i] == first[i]);
    }
    assert forall|i: int| 0 <= i < second.len() implies lists_url(
        all,
        (#[trigger] second[i]).url,
    ) by {
        assert(both[first.len() + i] == second[i]);
    }
    assert forall|i: int| 0 <= i < all.len() implies first.contains(#[trigger] all[i])
        || second.contains(all[i]) by {
        let k = choose|k: int| 0 <= k < both.len() && both[k] == all[i];
        if k < first.len() {
            assert(first[k] == all[i]);
        } else {
            assert(second[k - first.len()] == all[i]);
        }
    }
}

/// Where the answer cannot be verified, the result holds supplemental sources
/// alone: at most as many as configured, in the order of the backend, under the
/// name of the fallback.
pub proof fn law_fallback_holds_backend_sources(
    config: Config,
    run: RunView,
    answer: Result<ResponseView, ErrorView>,
    raw: Seq<SourceView>,
    origin: RawSourceOrigin,
)
    requires
        fallback_reason_of(answer) is Some,
    ensures
        ({
            let sources = drafted_sources(config, run, answer, raw, origin);
            &&& sources.len() <= config.fallback_sources
            &&& sources.len() <= raw.len()
            &&& forall|i: int|
                0 <= i < sources.len() ==> #[trigger] sources[i] == (SourceView {
                    provider: fallback_label_of(origin),
                    ..raw[i]
                })
        }),
{
}

/// A verified answer is an answer that has text and cites something.
pub proof fn law_verified_answers_have_text_and_sources(answer: Result<ResponseView, ErrorView>)
    ensures
        fallback_reason_of(answer) is None <==> {
            &&& answer is Ok
            &&& !is_blank(answer->Ok_0.content)
            &&& answer->Ok_0.sources.len() > 0
        },
{
}

/// The text of a verified answer is returned whole, however small the budget is;
/// one that cannot be verified is never passed off as an answer.
pub proof fn law_answer_is_whole_or_withheld(response_max_chars: nat, draft: DraftView)
    ensures
        ({
            let output = search_output(response_max_chars, draft);
            &&& draft.fallback_reason is None ==> output.content == draft.content
            &&& draft.fallback_reason is Some ==> output.content == fallback_text(
                draft.content,
                output.sources_count,
            )
            &&& output.fallback_used <==> draft.fallback_reason is Some
            &&& output.fallback_reason == draft.fallback_reason
        }),
{
}

/// A result tells how many sources are kept for the session, not how many fit the
/// response.
pub proof fn law_count_is_that_of_the_session(response_max_chars: nat, draft: DraftView)
    ensures
        ({
            let output = search_output(response_max_chars, draft);
            &&& output.sources_count == final_sources(draft).len()
            &&& output.sources.len() <= output.sources_count
            &&& output.truncated <==> output.sources != final_sources(draft)
        }),
{
    crate::budget::lemma_no_more_sources(
        final_content(draft).len(),
        final_sources(draft),
        response_max_chars,
        draft.session_id,
        0,
    );
}

/// The names under which supplemental sources are returned follow the backend that
/// found them, and the names of the reasons follow what went wrong.
pub proof fn law_names_follow_origin_and_failure(
    detail: Seq<char>,
    sources: Seq<SourceView>,
    content: Seq<char>,
)
    ensures
        enrichment_label_of(RawSourceOrigin::Primary) == "tavily_enrichment"@,
        enrichment_label_of(RawSourceOrigin::Fallback) == "firecrawl_enrichment"@,
        enrichment_label_of(RawSourceOrigin::Absent) == "tavily_enrichment"@,
        fallback_label_of(RawSourceOrigin::Primary) == "tavily_fallback"@,
        fallback_label_of(RawSourceOrigin::Fallback) == "firecrawl_enrichment"@,
        fallback_label_of(RawSourceOrigin::Absent) == "tavily_fallback"@,
        fallback_reason_of(Err(ErrorView::Timeout(detail))) == Some("grok_timeout"@),
        fallback_reason_of(Err(ErrorView::OAuth(detail))) == Some("grok_auth_error"@),
        fallback_reason_of(Err(ErrorView::Parse(detail))) == Some("grok_parse_error"@),
        fallback_reason_of(Err(ErrorView::Provider(detail))) == Some("grok_provider_error"@),
        fallback_reason_of(Err(ErrorView::NotFound(detail))) == Some("grok_provider_error"@),
        fallback_reason_of(Err(ErrorView::InvalidParams(detail))) == Some(
            "grok_provider_error"@,
        ),
        fallback_reason_of(Err(ErrorView::MissingConfig(detail))) == Some(
            "grok_provider_error"@,
        ),
        is_blank(content) ==> fallback_reason_of(Ok(ResponseView { content, sources })) == Some(
            "grok_content_empty"@,
        ),
        !is_blank(content) && sources.len() == 0 ==> fallback_reason_of(
            Ok(ResponseView { content, sources }),
        ) == Some("grok_sources_empty"@),
        !is_blank(content) && sources.len() > 0 ==> fallback_reason_of(
            Ok(ResponseView { content, sources }),
        ) is None,
{
}

/// A source under the name of another backend is the same source but for that name,
/// and no source is lost or moved.
pub proof fn law_relabelling_changes_only_the_name(
    sources: Seq<SourceView>,
    provider: Seq<char>,
    index: int,
)
    requires
        0 <= index < sources.len(),
    ensures
        ({
            let renamed = relabelled(sources, provider);
            &&& renamed.len() == sources.len()
            &&& renamed[index].provider == provider
            &&& renamed[index].url == sources[index].url
            &&& renamed[index].title == sources[index].title
            &&& renamed[index].description == sources[index].description
            &&& renamed[index].published_date == sources[index].published_date
            &&& renamed[index].content == sources[index].content
        }),
{
}

/// Where the answer cannot be verified, the result holds exactly as many of the
/// sources that the backend found as there are, and as are allowed to stand in;
/// the first of them, each as it was found but for the name of the fallback.
pub proof fn law_fallback_loses_no_source(
    config: Config,
    backends: Backends,
    run: RunView,
    answer: Result<ResponseView, ErrorView>,
    raw: Seq<SourceView>,
    origin: RawSourceOrigin,
)
    requires
        answer is Err || is_blank(answer->Ok_0.content) || answer->Ok_0.sources.len() == 0,
    ensures
        ({
            let sources = drafted(config, backends, run, answer, raw, origin).sources;
            &&& sources.len() == if raw.len() < config.fallback_sources {
                raw.len() as int
            } else {
                config.fallback_sources as int
            }
            &&& forall|i: int|
                0 <= i < sources.len() ==> {
                    &&& (#[trigger] sources[i]).url == raw[i].url
                    &&& sources[i].title == raw[i].title
                    &&& sources[i].description == raw[i].description
                    &&& sources[i].published_date == raw[i].published_date
                    &&& sources[i].content == raw[i].content
                    &&& sources[i].provider == match origin {
                        RawSourceOrigin::Fallback => "firecrawl_enrichment"@,
                        _ => "tavily_fallback"@,
                    }
                }
        }),
{
}

/// Beside a verified answer, every page that it cites is in the result, and so is
/// every page among the first that the backend found, as many as the caller wants;
/// and nothing else is.
pub proof fn law_supplements_join_the_answer(
    config: Config,
    backends: Backends,
    run: RunView,
    answer: Result<ResponseView, ErrorView>,
    raw: Seq<SourceView>,
    origin: RawSourceOrigin,
)
    requires
        answer is Ok,
        !is_blank(answer->Ok_0.content),
        answer->Ok_0.sources.len() > 0,
    ensures
        ({
            let sources = drafted(config, backends, run, answer, raw, origin).sources;
            let cited = answer->Ok_0.sources;
            let name = match origin {
                RawSourceOrigin::Fallback => "firecrawl_enrichment"@,
                _ => "tavily_enrichment"@,
            };
            &&& forall|i: int|
                0 <= i < cited.len() ==> exists|k: int|
                    0 <= k < sources.len() && (#[trigger] sources[k]).url == (
                    #[trigger] cited[i]).url
            &&& forall|i: int|
                0 <= i < raw.len() && i < run.extra_sources ==> exists|k: int|
                    0 <= k < sources.len() && (#[trigger] sources[k]).url == (
                    #[trigger] raw[i]).url
            &&& forall|k: int|
                0 <= k < sources.len() ==> cited.contains(#[trigger] sources[k]) || exists|i: int|
                    0 <= i < raw.len() && i < run.extra_sources && sources[k] == (SourceView {
                        provider: name,
                        ..#[trigger] raw[i]
                    })
        }),
{
    let sources = drafted(config, backends, run, answer, raw, origin).sources;
    let cited = answer->Ok_0.sources;
    let name = enrichment_label_of(origin);
    let extra = relabelled(first_sources(raw, run.extra_sources), name);
    law_merging_keeps_each_address_once(cited, extra);
    assert forall|i: int| 0 <= i < cited.len() implies exists|k: int|
        0 <= k < sources.len() && (#[trigger] sources[k]).url == (#[trigger] cited[i]).url by {
        assert(lists_url(sources, cited[i].url));
    }
    assert forall|i: int| 0 <= i < raw.len() && i < run.extra_sources implies exists|k: int|
        0 <= k < sources.len() && (#[trigger] sources[k]).url == (#[trigger] raw[i]).url by {
        assert(extra[i].url == raw[i].url);
        assert(lists_url(sources, extra[i].url));
    }
    assert forall|k: int| 0 <= k < sources.len() implies cited.contains(#[trigger] sources[k])
        || exists|i: int|
        0 <= i < raw.len() && i < run.extra_sources && sources[k] == (SourceView {
            provider: name,
            ..#[trigger] raw[i]
        }) by {
        if !cited.contains(sources[k]) {
            let i = choose|i: int| 0 <= i < extra.len() && extra[i] == sources[k];
            assert(sources[k] == (SourceView { provider: name, ..raw[i] }));
        }
    }
}

/// Merging keeps the first source of each address, and keeps the order: a source
/// with an address that no earlier one has is in the result, and two such sources
/// stand in the result as they stood before.
pub proof fn law_merging_keeps_the_first_in_order(
    first: Seq<SourceView>,
    second: Seq<SourceView>,
    early: int,
    late: int,
)
    requires
        0 <= early < late < first.len() + second.len(),
        forall|j: int| 0 <= j < early ==> (#[trigger] (first + second)[j]).url != (first
            + second)[early].url,
        forall|j: int| 0 <= j < late ==> (#[trigger] (first + second)[j]).url != (first
            + second)[late].url,
    ensures
        exists|i: int, k: int|
            0 <= i < k < merged(first, second).len() && #[trigger] merged(first, second)[i] == (
            first + second)[early] && #[trigger] merged(first, second)[k] == (first
                + second)[late],
{
    let both = first + second;
    let kept = merged(first, second);
    lemma_firsts_keep_order(both, early, late);
    let (i, k) = choose|i: int, k: int|
        0 <= i < k < distinct(both).len() && #[trigger] distinct(both)[i] == both[early]
            && #[trigger] distinct(both)[k] == both[late];
    assert(kept[i] == both[early] && kept[k] == both[late]);
}

/// A source with an address that no earlier one has is kept.
proof fn lemma_first_stays(sources: Seq<SourceView>, at: int)
    requires
        0 <= at < sources.len(),
        forall|j: int| 0 <= j < at ==> (#[trigger] sources[j]).url != sources[at].url,
    ensures
        distinct(sources).contains(sources[at]),
    decreases sources.len(),
{
    let kept = distinct(sources);
    let earlier = distinct(sources.drop_last());
    lemma_distinct(sources.drop_last());
    if at < sources.len() - 1 {
        assert forall|j: int| 0 <= j < at implies (#[trigger] sources.drop_last()[j]).url
            != sources.drop_last()[at].url by {
            assert(sources[j].url != sources[at].url);
        }
        lemma_first_stays(sources.drop_last(), at);
        let i = choose|i: int| 0 <= i < earlier.len() && earlier[i] == sources.drop_last()[at];
        assert(kept[i] == sources[at]);
    } else {
        if lists_url(earlier, sources.last().url) {
            let i = choose|i: int|
                0 <= i < earlier.len() && (#[trigger] earlier[i]).url == sources.last().url;
            assert(sources.drop_last().contains(earlier[i]));
            let j = choose|j: int|
                0 <= j < sources.drop_last().len() && sources.drop_last()[j] == earlier[i];
            assert(sources[j].url == sources[at].url);
            assert(false);
        }
        assert(kept[earlier.len() as int] == sources[at]);
    }
}

proof fn lemma_firsts_keep_order(sources: Seq<SourceView>, early: int, late: int)
    requires
        0 <= early < late < sources.len(),
        forall|j: int| 0 <= j < early ==> (#[trigger] sources[j]).url != sources[early].url,
        forall|j: int| 0 <= j < late ==> (#[trigger] sources[j]).url != sources[late].url,
    ensures
        exists|i: int, k: int|
            0 <= i < k < distinct(sources).len() && #[trigger] distinct(sources)[i]
                == sources[early] && #[trigger] distinct(sources)[k] == sources[late],
    decreases sources.len(),
{
    let kept = distinct(sources);
    let before = sources.drop_last();
    let earlier = distinct(before);
    assert forall|j: int| 0 <= j < early implies (#[trigger] before[j]).url
        != before[early].url by {
        assert(sources[j].url != sources[early].url);
    }
    if late < sources.len() - 1 {
        assert forall|j: int| 0 <= j < late implies (#[trigger] before[j]).url
            != before[late].url by {
            assert(sources[j].url != sources[late].url);
        }
        lemma_firsts_keep_order(before, early, late);
        let (i, k) = choose|i: int, k: int|
            0 <= i < k < earlier.len() && #[trigger] earlier[i] == before[early]
                && #[trigger] earlier[k] == before[late];
        assert(kept[i] == sources[early]);
        assert(kept[k] == sources[late]);
    } else {
        lemma_first_stays(before, early);
        lemma_first_stays(sources, late);
        lemma_distinct(before);
        let i = choose|i: int| 0 <= i < earlier.len() && earlier[i] == before[early];
        if lists_url(earlier, sources.last().url) {
            let n = choose|n: int|
                0 <= n < earlier.len() && (#[trigger] earlier[n]).url == sources.last().url;
            assert(before.contains(earlier[n]));
            let j = choose|j: int| 0 <= j < before.len() && before[j] == earlier[n];
            assert(sources[j].url == sources[late].url);
            assert(false);
        }
        assert(kept[i] == sources[early]);
        assert(kept[earlier.len() as int] == sources[late]);
    }
}

/// A draft keeps the session and the text of the answer, says why sources stand in
/// exactly where they do, and may use every backend that the service has for as
/// many pages at the same time, and as much text of each, as configured. Pages are
/// fetched for the first sources that may carry text, where the caller wants text
/// and there are supplemental sources or sources stand in; else for none.
pub proof fn law_draft_holds_what_was_replied(
    config: Config,
    backends: Backends,
    run: RunView,
    answer: Result<ResponseView, ErrorView>,
    raw: Seq<SourceView>,
    origin: RawSourceOrigin,
)
    ensures
        ({
            let draft = drafted(config, backends, run, answer, raw, origin);
            let verified = answer is Ok && !is_blank(answer->Ok_0.content)
                && answer->Ok_0.sources.len() > 0;
            &&& draft.session_id == run.session_id
            &&& answer is Ok ==> draft.content == answer->Ok_0.content
            &&& answer is Err ==> draft.content.len() == 0
            &&& draft.fallback_reason is None <==> verified
            &&& draft.pool.backends == backends
            &&& draft.pool.concurrency == config.enrich_concurrency
            &&& draft.pool.max_chars == config.enrich_max_chars
            &&& draft.pool.next == 0
            &&& draft.pool.running.len() == 0
            &&& draft.pool.results.len() == 0
            &&& draft.pool.urls.len() == if !run.include_content || (verified
                && run.extra_sources == 0) {
                0int
            } else if draft.sources.len() < config.max_inline_sources {
                draft.sources.len() as int
            } else {
                config.max_inline_sources as int
            }
            &&& forall|i: int|
                0 <= i < draft.pool.urls.len() ==> #[trigger] draft.pool.urls[i]
                    == draft.sources[i].url
        }),
{
}

/// Another fetch is started exactly where a page is left and fewer fetches run than
/// may; it is that of the first page that is left, and may use every backend that
/// the search may.
pub proof fn law_next_fetch_is_the_next_page(pool: PoolView)
    requires
        pool.wf(),
    ensures
        pool.can_start() <==> pool.next < pool.urls.len() && pool.running.len()
            < pool.concurrency,
        pool.can_start() ==> {
            let job = pool.next_job();
            &&& job.index == pool.next
            &&& job.url == pool.urls[pool.next as int]
            &&& job.parsed == pool.parsed[pool.next as int]
            &&& job.max_chars == pool.max_chars
            &&& job.backends == pool.backends
            &&& pool.started().next == pool.next + 1
            &&& pool.started().running.contains(pool.next as usize)
            &&& pool.started().running.len() == pool.running.len() + 1
            &&& pool.started().results == pool.results
        },
        pool.done() <==> pool.next == pool.urls.len() && pool.running.len() == 0,
{
    let started = pool.started();
    assert(started.running[pool.running.len() as int] == pool.next as usize);
}

/// Where the specialists and the primary backend have no page for a source, and the
/// service has a fallback backend, the fetch that a search starts for that source
/// comes to the start of the text that the fallback delivers.
pub proof fn law_search_reaches_the_fallback(
    config: Config,
    backends: Backends,
    run: RunView,
    answer: Result<ResponseView, ErrorView>,
    raw: Seq<SourceView>,
    origin: RawSourceOrigin,
    reason: Seq<char>,
    first: Result<Seq<char>, ErrorView>,
    text: Seq<char>,
)
    requires
        backends.fallback,
        first is Err || is_blank(first->Ok_0),
        text.len() > 0,
    ensures
        ({
            let pool = drafted(config, backends, run, answer, raw, origin).pool;
            let job = pool.next_job();
            let asked = enrich::after_resolution(job, ResolutionView::Failed(reason));
            let carried = EnrichStageView::Done(
                if text.len() <= config.enrich_max_chars {
                    text
                } else {
                    text.take(config.enrich_max_chars as int)
                },
            );
            pool.can_start() && pool.parsed[0] is Some ==> {
                &&& backends.primary ==> enrich::after_reply(
                    enrich::after_reply(asked, first),
                    Ok(text),
                ).stage == carried
                &&& !backends.primary ==> enrich::after_reply(asked, Ok(text)).stage == carried
            }
        }),
{
    let pool = drafted(config, backends, run, answer, raw, origin).pool;
    let job = pool.next_job();
    if pool.can_start() && pool.parsed[0] is Some {
        assert(job.stage is Resolve);
        law_fallback_delivers_the_page(job, reason, first, text);
    }
}

/// A fetch that is over puts its text on its own source and touches no other.
pub proof fn law_finished_text_is_carried(draft: DraftView, job: JobView, text: Seq<char>)
    requires
        draft.wf(),
        job.index <= usize::MAX,
        draft.pool.running.contains(job.index as usize),
        job.stage == EnrichStageView::Done(text),
        job.url == draft.pool.urls[job.index as int],
        job.parsed == draft.pool.parsed[job.index as int],
        job.max_chars == draft.pool.max_chars,
    ensures
        ({
            let after = DraftView { pool: draft.pool.finished(job), ..draft };
            let sources = final_sources(after);
            &&& job.index < sources.len()
            &&& sources.len() == draft.sources.len()
            &&& sources[job.index as int].content == Some(text)
            &&& forall|i: int|
                0 <= i < sources.len() && i != job.index ==> #[trigger] sources[i]
                    == final_sources(draft)[i]
            &&& !after.pool.running.contains(job.index as usize)
        }),
{
    lemma_settling(draft, job.index as usize, text);
}

/// A fetch that broke off puts a note on its own source and touches no other.
pub proof fn law_broken_fetch_leaves_a_note(draft: DraftView, index: usize)
    requires
        draft.wf(),
        draft.pool.running.contains(index),
    ensures
        ({
            let after = DraftView { pool: draft.pool.broken(index), ..draft };
            let sources = final_sources(after);
            &&& index < sources.len()
            &&& sources.len() == draft.sources.len()
            &&& sources[index as int].content == Some(
                "_Failed to retrieve: "@ + "interrupted"@ + "_\n\nSource: "@
                    + draft.sources[index as int].url,
            )
            &&& forall|i: int|
                0 <= i < sources.len() && i != index ==> #[trigger] sources[i] == final_sources(
                    draft,
                )[i]
            &&& !after.pool.running.contains(index)
        }),
{
    let text = failure_note(INTERRUPTED@, draft.pool.urls[index as int]);
    lemma_settling(draft, index, text);
}

proof fn lemma_settling(draft: DraftView, index: usize, text: Seq<char>)
    requires
        draft.wf(),
        draft.pool.running.contains(index),
    ensures
        ({
            let after = DraftView { pool: draft.pool.settled(index, text), ..draft };
            let sources = final_sources(after);
            &&& index < draft.pool.urls.len()
            &&& draft.pool.urls[index as int] == draft.sources[index as int].url
            &&& sources.len() == draft.sources.len()
            &&& sources[index as int].content == Some(text)
            &&& forall|i: int|
                0 <= i < sources.len() && i != index ==> #[trigger] sources[i] == final_sources(
                    draft,
                )[i]
            &&& !after.pool.running.contains(index)
        }),
{
    let k = choose|k: int| 0 <= k < draft.pool.running.len() && draft.pool.running[k] == index;
    assert(draft.pool.running[k] < draft.pool.next);
    lemma_text_for_push(draft.pool.results, index, text);
    lemma_remove_value(draft.pool.running, index);
    let after = DraftView { pool: draft.pool.settled(index, text), ..draft };
    assert(draft.pool.urls[index as int] == draft.sources[index as int].url);
    assert forall|i: int| 0 <= i < draft.sources.len() && i != index implies
        #[trigger] final_sources(after)[i] == final_sources(draft)[i] by {
        assert(text_for(after.pool.results, i) == text_for(draft.pool.results, i));
    }
}

/// A result belongs to its session, tells where its answer comes from, and holds
/// the sources from the first on; where sources stand in for the answer, it says
/// how many there are, and why.
pub proof fn law_result_tells_where_it_comes_from(
    response_max_chars: nat,
    draft: DraftView,
    index: int,
)
    ensures
        ({
            let output = search_output(response_max_chars, draft);
            let count = draft.sources.len();
            &&& output.session_id == draft.session_id
            &&& output.sources_count == count
            &&& output.sources.len() <= count
            &&& 0 <= index < output.sources.len() ==> output.sources[index].with_content(None)
                == draft.sources[index].with_content(None)
            &&& draft.fallback_reason is None ==> {
                &&& output.content == draft.content
                &&& output.search_provider == "grok_responses"@
                &&& !output.fallback_used
                &&& output.fallback_reason is None
            }
            &&& draft.fallback_reason is Some ==> {
                &&& output.search_provider == "source_fallback"@
                &&& output.fallback_used
                &&& output.fallback_reason == draft.fallback_reason
                &&& is_blank(draft.content) ==> output.content
                    == "Grok Responses search did not return a verifiable answer. Source fallback returned "@
                    + decimal(count)
                    + " source(s); evaluate them directly rather than treating any text as a verified answer."@
                &&& !is_blank(draft.content) ==> output.content
                    == "Grok Responses returned an answer without verifiable search sources, so source fallback returned "@
                    + decimal(count)
                    + " source(s). Original Grok answer was not treated as verified; evaluate the listed sources directly."@
            }
        }),
{
    let output = search_output(response_max_chars, draft);
    law_count_is_that_of_the_session(response_max_chars, draft);
    if 0 <= index < output.sources.len() {
        law_only_texts_change(
            final_content(draft).len(),
            final_sources(draft),
            response_max_chars,
            draft.session_id,
            0,
            index,
        );
    }
}

/// The answer and the sources of a result are together no longer than a response
/// may be, unless a single source is left; and where they are from the start,
/// nothing is taken from them.
pub proof fn law_result_keeps_the_budget(response_max_chars: nat, draft: DraftView)
    ensures
        ({
            let output = search_output(response_max_chars, draft);
            let whole = final_sources(draft);
            &&& output.sources.len() <= 1 || output.content.len() + total_weight(output.sources)
                <= response_max_chars
            &&& output.content.len() + total_weight(whole) <= response_max_chars
                ==> output.sources == whole && !output.truncated
            &&& output.truncated <==> output.sources != whole
            &&& output.truncated ==> output.content.len() + total_weight(whole)
                > response_max_chars
        }),
{
    law_result_fits_or_one_source_is_left(
        final_content(draft).len(),
        final_sources(draft),
        response_max_chars,
        draft.session_id,
        0,
    );
}

/// Texts that came in are carried by the sources that they came in for, and by no
/// other; sources for which none came in are as they were.
pub proof fn law_texts_go_where_they_came_in_for(
    sources: Seq<SourceView>,
    results: Seq<(usize, Seq<char>)>,
    index: usize,
    text: Seq<char>,
)
    ensures
        enriched(sources, Seq::empty()) == sources,
        enriched(sources, results).len() == sources.len(),
        forall|i: int|
            0 <= i < sources.len() && i != index ==> #[trigger] enriched(
                sources,
                results.push((index, text)),
            )[i] == enriched(sources, results)[i],
        index < sources.len() ==> {
            let carried = enriched(sources, results.push((index, text)))[index as int];
            &&& carried.content == Some(text)
            &&& carried.url == sources[index as int].url
            &&& carried.provider == sources[index as int].provider
            &&& carried.title == sources[index as int].title
            &&& carried.description == sources[index as int].description
            &&& carried.published_date == sources[index as int].published_date
        },
{
    lemma_text_for_push(results, index, text);
    assert(enriched(sources, Seq::empty()) =~= sources);
}

/// A fetch changes nothing where it is not over, where its page is not being waited
/// for, or where it was for another page or under another limit; and giving up on
/// a page that is not being waited for changes nothing either.
pub proof fn law_foreign_fetches_change_nothing(pool: PoolView, job: JobView, index: usize)
    requires
        job.index <= usize::MAX,
    ensures
        job.stage !is Done ==> pool.finished(job) == pool,
        !pool.running.contains(job.index as usize) ==> pool.finished(job) == pool,
        job.url != pool.urls[job.index as int] ==> pool.finished(job) == pool,
        job.parsed != pool.parsed[job.index as int] ==> pool.finished(job) == pool,
        job.max_chars != pool.max_chars ==> pool.finished(job) == pool,
        !pool.running.contains(index) ==> pool.broken(index) == pool,
{
}

} // verus!
