//! What the response budget guarantees.

use crate::budget::{
    budgeted, cut_note, fits, omit_note, response_weight, shortened, shrunk, shrunk_from,
    total_weight, weight,
};
use crate::model::source::SourceView;
use crate::text::{decimal, opt_len};
use vstd::prelude::*;

verus! {

/// Whether a source has given up all the text that a note could replace.
pub open spec fn spent(
    given: SourceView,
    kept: SourceView,
    session_id: Seq<char>,
    index: nat,
) -> bool {
    let omitted = omit_note(given.url, session_id, index);
    ||| opt_len(given.content) <= omitted.len() && kept == given
    ||| kept == given.with_content(Some(omitted))
}

/// Whether a source lost the end of its text to a note, and only that.
pub open spec fn cut_short(
    given: SourceView,
    kept: SourceView,
    session_id: Seq<char>,
    index: nat,
) -> bool {
    let cut = cut_note(given.url, session_id, index);
    exists|n: int|
        0 < n <= opt_len(given.content) - cut.len() && given.content is Some && kept
            == given.with_content(Some(#[trigger] given.content->0.take(n) + cut))
}

proof fn lemma_total_after_update(sources: Seq<SourceView>, index: int, source: SourceView)
    requires
        0 <= index < sources.len(),
    ensures
        total_weight(sources.update(index, source)) == total_weight(sources) - weight(
            sources[index],
        ) + weight(source),
    decreases sources.len(),
{
    let changed = sources.update(index, source);
    if index == sources.len() - 1 {
        assert(changed.drop_last() =~= sources.drop_last());
    } else {
        assert(changed.drop_last() =~= sources.drop_last().update(index, source));
        lemma_total_after_update(sources.drop_last(), index, source);
    }
}

/// What has become of the sources from `start` on, and of the room that is left.
proof fn lemma_shrunk_from(
    answer_chars: nat,
    sources: Seq<SourceView>,
    budget: nat,
    session_id: Seq<char>,
    base: nat,
    start: nat,
)
    requires
        start <= sources.len(),
    ensures
        ({
            let kept = shrunk_from(answer_chars, sources, budget, session_id, base, start);
            &&& kept.len() == sources.len()
            &&& forall|i: int| 0 <= i < start ==> kept[i] == #[trigger] sources[i]
            &&& forall|i: int|
                start <= i < sources.len() ==> {
                    ||| kept[i] == #[trigger] sources[i]
                    ||| spent(sources[i], kept[i], session_id, base + i as nat)
                    ||| cut_short(sources[i], kept[i], session_id, base + i as nat)
                }
            &&& forall|i: int, j: int|
                start <= i < j < sources.len() && kept[i] != #[trigger] sources[i] ==> spent(
                    #[trigger] sources[j],
                    kept[j],
                    session_id,
                    base + j as nat,
                )
            &&& !fits(answer_chars, kept, budget) ==> forall|i: int|
                start <= i < sources.len() ==> spent(
                    #[trigger] sources[i],
                    kept[i],
                    session_id,
                    base + i as nat,
                )
        }),
    decreases sources.len() - start,
{
    if start < sources.len() {
        lemma_shrunk_from(answer_chars, sources, budget, session_id, base, start + 1);
        let later = shrunk_from(answer_chars, sources, budget, session_id, base, start + 1);
        let kept = shrunk_from(answer_chars, sources, budget, session_id, base, start);
        let excess = response_weight(answer_chars, later) - budget;
        let at = start as int;
        let source = sources[at];
        assert(later[at] == source);
        let content = shrunk(source, excess, session_id, base + start);
        lemma_total_after_update(later, at, source.with_content(content));
        let omitted = omit_note(source.url, session_id, base + start);
        let cut = cut_note(source.url, session_id, base + start);
        let length = opt_len(source.content);
        if excess > 0 && length > omitted.len() {
            if length > excess + cut.len() {
                let n = length - excess - cut.len();
                assert(content == Some(source.content->0.take(n) + cut));
                assert(cut_short(source, kept[at], session_id, base + start));
                assert(fits(answer_chars, kept, budget));
            }
        } else {
            assert(source.with_content(content) == source);
            assert(kept =~= later);
        }
        assert forall|i: int| start <= i < sources.len() implies {
            ||| kept[i] == #[trigger] sources[i]
            ||| spent(sources[i], kept[i], session_id, base + i as nat)
            ||| cut_short(sources[i], kept[i], session_id, base + i as nat)
        } by {
            if i > start {
                assert(kept[i] == later[i]);
            }
        }
        assert forall|i: int, j: int|
            start <= i < j < sources.len() && kept[i] != #[trigger] sources[i] implies spent(
            #[trigger] sources[j],
            kept[j],
            session_id,
            base + j as nat,
        ) by {
            assert(kept[j] == later[j]);
            if i > start {
                assert(kept[i] == later[i]);
            }
        }
    }
}

proof fn lemma_shortened(answer_chars: nat, sources: Seq<SourceView>, budget: nat)
    ensures
        ({
            let kept = shortened(answer_chars, sources, budget);
            &&& kept.len() <= sources.len()
            &&& kept == sources.take(kept.len() as int)
            &&& fits(answer_chars, kept, budget) || kept.len() <= 1
            &&& sources.len() > 0 ==> kept.len() > 0
            &&& kept.len() < sources.len() ==> !fits(answer_chars, sources, budget)
            &&& forall|n: int|
                kept.len() < n <= sources.len() ==> !fits(
                    answer_chars,
                    #[trigger] sources.take(n),
                    budget,
                )
        }),
    decreases sources.len(),
{
    let kept = shortened(answer_chars, sources, budget);
    if response_weight(answer_chars, sources) > budget && sources.len() > 1 {
        lemma_shortened(answer_chars, sources.drop_last(), budget);
        assert(kept =~= sources.take(kept.len() as int));
        assert forall|n: int| kept.len() < n <= sources.len() implies !fits(
            answer_chars,
            #[trigger] sources.take(n),
            budget,
        ) by {
            if n == sources.len() {
                assert(sources.take(n) =~= sources);
            } else {
                assert(sources.take(n) =~= sources.drop_last().take(n));
            }
        }
    } else {
        assert(kept =~= sources.take(kept.len() as int));
    }
}

/// A response that fits is returned whole.
pub proof fn law_fitting_response_is_untouched(
    answer_chars: nat,
    sources: Seq<SourceView>,
    budget: nat,
    session_id: Seq<char>,
    base: nat,
)
    requires
        fits(answer_chars, sources, budget),
    ensures
        budgeted(answer_chars, sources, budget, session_id, base) == sources,
{
}

/// A list comes back whole exactly where the response fits, or where there is
/// nothing to take: a single source at most, whose text no note could replace.
pub proof fn law_untouched_list(
    answer_chars: nat,
    sources: Seq<SourceView>,
    budget: nat,
    session_id: Seq<char>,
    base: nat,
)
    ensures
        budgeted(answer_chars, sources, budget, session_id, base) == sources <==> {
            ||| fits(answer_chars, sources, budget)
            ||| sources.len() == 0
            ||| sources.len() == 1 && opt_len(sources[0].content) <= omit_note(
                sources[0].url,
                session_id,
                base,
            ).len()
        },
{
    let all = shrunk_from(answer_chars, sources, budget, session_id, base, 0);
    let kept = budgeted(answer_chars, sources, budget, session_id, base);
    lemma_shrunk_from(answer_chars, sources, budget, session_id, base, 0);
    lemma_shortened(answer_chars, all, budget);
    if kept == sources && !fits(answer_chars, sources, budget) {
        assert(all =~= sources);
        assert(sources.len() == 1 ==> spent(sources[0], all[0], session_id, base));
    }
    if sources.len() == 1 {
        let later = shrunk_from(answer_chars, sources, budget, session_id, base, 1);
        assert(later == sources);
        let excess = response_weight(answer_chars, sources) - budget;
        if opt_len(sources[0].content) <= omit_note(sources[0].url, session_id, base).len() {
            assert(shrunk(sources[0], excess, session_id, base) == sources[0].content);
            assert(all =~= sources);
        }
    }
}

/// What is returned fits the budget, unless a single source is left.
pub proof fn law_result_fits_or_one_source_is_left(
    answer_chars: nat,
    sources: Seq<SourceView>,
    budget: nat,
    session_id: Seq<char>,
    base: nat,
)
    ensures
        ({
            let kept = budgeted(answer_chars, sources, budget, session_id, base);
            fits(answer_chars, kept, budget) || kept.len() <= 1
        }),
{
    lemma_shortened(
        answer_chars,
        shrunk_from(answer_chars, sources, budget, session_id, base, 0),
        budget,
    );
}

/// A list that is not empty keeps at least its first source.
pub proof fn law_first_source_stays(
    answer_chars: nat,
    sources: Seq<SourceView>,
    budget: nat,
    session_id: Seq<char>,
    base: nat,
)
    requires
        sources.len() > 0,
    ensures
        0 < budgeted(answer_chars, sources, budget, session_id, base).len() <= sources.len(),
{
    lemma_shrunk_from(answer_chars, sources, budget, session_id, base, 0);
    lemma_shortened(
        answer_chars,
        shrunk_from(answer_chars, sources, budget, session_id, base, 0),
        budget,
    );
}

/// The sources that are returned are the first of the list, in their order, and
/// nothing but their text differs: it is whole, or a note stands in its place,
/// or its start stands before a note.
pub proof fn law_only_texts_change(
    answer_chars: nat,
    sources: Seq<SourceView>,
    budget: nat,
    session_id: Seq<char>,
    base: nat,
    index: int,
)
    requires
        0 <= index < budgeted(answer_chars, sources, budget, session_id, base).len(),
    ensures
        ({
            let kept = budgeted(answer_chars, sources, budget, session_id, base);
            &&& kept.len() <= sources.len()
            &&& kept[index].with_content(None) == sources[index].with_content(None)
            &&& {
                ||| kept[index] == sources[index]
                ||| spent(sources[index], kept[index], session_id, base + index as nat)
                ||| cut_short(sources[index], kept[index], session_id, base + index as nat)
            }
        }),
{
    lemma_shrunk_from(answer_chars, sources, budget, session_id, base, 0);
    lemma_shortened(
        answer_chars,
        shrunk_from(answer_chars, sources, budget, session_id, base, 0),
        budget,
    );
}

/// No text gets longer.
pub proof fn law_texts_never_grow(
    answer_chars: nat,
    sources: Seq<SourceView>,
    budget: nat,
    session_id: Seq<char>,
    base: nat,
    index: int,
)
    requires
        0 <= index < budgeted(answer_chars, sources, budget, session_id, base).len(),
    ensures
        opt_len(budgeted(answer_chars, sources, budget, session_id, base)[index].content) <= opt_len(
            sources[index].content,
        ),
{
    lemma_texts_shrink(answer_chars, sources, budget, session_id, base, 0);
    lemma_shrunk_from(answer_chars, sources, budget, session_id, base, 0);
    lemma_shortened(
        answer_chars,
        shrunk_from(answer_chars, sources, budget, session_id, base, 0),
        budget,
    );
    let all = shrunk_from(answer_chars, sources, budget, session_id, base, 0);
    assert(opt_len(all[index].content) <= opt_len(sources[index].content));
}

proof fn lemma_texts_shrink(
    answer_chars: nat,
    sources: Seq<SourceView>,
    budget: nat,
    session_id: Seq<char>,
    base: nat,
    start: nat,
)
    requires
        start <= sources.len(),
    ensures
        forall|i: int|
            0 <= i < sources.len() ==> opt_len(
                #[trigger] shrunk_from(
                    answer_chars,
                    sources,
                    budget,
                    session_id,
                    base,
                    start,
                )[i].content,
            ) <= opt_len(sources[i].content),
    decreases sources.len() - start,
{
    if start < sources.len() {
        lemma_texts_shrink(answer_chars, sources, budget, session_id, base, start + 1);
        lemma_shrunk_from(answer_chars, sources, budget, session_id, base, start + 1);
        let later = shrunk_from(answer_chars, sources, budget, session_id, base, start + 1);
        let kept = shrunk_from(answer_chars, sources, budget, session_id, base, start);
        assert forall|i: int| 0 <= i < sources.len() implies opt_len(#[trigger] kept[i].content)
            <= opt_len(sources[i].content) by {
            assert(opt_len(later[i].content) <= opt_len(sources[i].content));
            if i == start {
                assert(later[i] == sources[i]);
            } else {
                assert(kept[i] == later[i]);
            }
        }
    }
}

/// The head of the list is spared: the text of a source is touched only once
/// every source behind it has given up what a note could replace.
pub proof fn law_tail_gives_way_first(
    answer_chars: nat,
    sources: Seq<SourceView>,
    budget: nat,
    session_id: Seq<char>,
    base: nat,
    head: int,
    tail: int,
)
    requires
        ({
            let kept = budgeted(answer_chars, sources, budget, session_id, base);
            0 <= head < tail < kept.len() && kept[head] != sources[head]
        }),
    ensures
        spent(
            sources[tail],
            budgeted(answer_chars, sources, budget, session_id, base)[tail],
            session_id,
            base + tail as nat,
        ),
{
    lemma_shrunk_from(answer_chars, sources, budget, session_id, base, 0);
    lemma_shortened(
        answer_chars,
        shrunk_from(answer_chars, sources, budget, session_id, base, 0),
        budget,
    );
}

/// A source is left out only where no text is left that a note could replace,
/// and only where the list with it would still be too long.
pub proof fn law_sources_go_last(
    answer_chars: nat,
    sources: Seq<SourceView>,
    budget: nat,
    session_id: Seq<char>,
    base: nat,
    index: int,
)
    requires
        ({
            let kept = budgeted(answer_chars, sources, budget, session_id, base);
            0 <= index < kept.len() < sources.len()
        }),
    ensures
        ({
            let kept = budgeted(answer_chars, sources, budget, session_id, base);
            let all = shrunk_from(answer_chars, sources, budget, session_id, base, 0);
            &&& spent(sources[index], kept[index], session_id, base + index as nat)
            &&& kept == all.take(kept.len() as int)
            &&& !fits(answer_chars, all.take(kept.len() as int + 1), budget)
        }),
{
    lemma_shrunk_from(answer_chars, sources, budget, session_id, base, 0);
    lemma_shortened(
        answer_chars,
        shrunk_from(answer_chars, sources, budget, session_id, base, 0),
        budget,
    );
}

/// Other text leaves all else of a source as it was.
pub proof fn law_new_text_leaves_the_rest(source: SourceView, content: Option<Seq<char>>)
    ensures
        source.with_content(content).content == content,
        source.with_content(content).url == source.url,
        source.with_content(content).provider == source.provider,
        source.with_content(content).title == source.title,
        source.with_content(content).description == source.description,
        source.with_content(content).published_date == source.published_date,
{
}

/// A source weighs as much as all its texts together, and sixty-four on top for
/// what stands around them.
pub proof fn law_every_text_weighs(source: SourceView, text: Seq<char>)
    ensures
        weight(
            SourceView {
                title: None,
                description: None,
                published_date: None,
                content: None,
                ..source
            },
        ) == source.url.len() + source.provider.len() + 64,
        weight(SourceView { title: Some(text), ..source }) == weight(
            SourceView { title: None, ..source },
        ) + text.len(),
        weight(SourceView { description: Some(text), ..source }) == weight(
            SourceView { description: None, ..source },
        ) + text.len(),
        weight(SourceView { published_date: Some(text), ..source }) == weight(
            SourceView { published_date: None, ..source },
        ) + text.len(),
        weight(SourceView { content: Some(text), ..source }) == weight(
            SourceView { content: None, ..source },
        ) + text.len(),
{
}

/// A response weighs as much as its answer and all its sources, and fits exactly
/// where that is no more than the budget.
pub proof fn law_weights_add_up(
    answer_chars: nat,
    first: Seq<SourceView>,
    second: Seq<SourceView>,
    source: SourceView,
    budget: nat,
)
    ensures
        total_weight(first + second) == total_weight(first) + total_weight(second),
        total_weight(seq![source]) == weight(source),
        total_weight(Seq::empty()) == 0,
        fits(answer_chars, first, budget) <==> answer_chars + total_weight(first) <= budget,
    decreases second.len(),
{
    let all = first + second;
    assert(seq![source].drop_last() =~= Seq::empty());
    assert(total_weight(seq![source].drop_last()) == 0);
    if second.len() == 0 {
        assert(all =~= first);
    } else {
        law_weights_add_up(answer_chars, first, second.drop_last(), source, budget);
        assert(all.drop_last() =~= first + second.drop_last());
    }
}

/// A note names the page and the place of its source in the session, for the two
/// ways in which the text can still be had.
pub proof fn law_notes_name_both_ways_out(url: Seq<char>, session_id: Seq<char>, index: nat)
    ensures
        omit_note(url, session_id, index)
            == "_["@ + "inline content omitted"@
            + ": response budget reached — full text via web_fetch(\""@ + url
            + "\") or get_sources(session_id=\""@ + session_id + "\", offset="@ + decimal(index)
            + ", limit=1)]_"@,
        cut_note(url, session_id, index)
            == "\n\n"@ + ("_["@ + "truncated"@
            + ": response budget reached — full text via web_fetch(\""@ + url
            + "\") or get_sources(session_id=\""@ + session_id + "\", offset="@ + decimal(index)
            + ", limit=1)]_"@),
{
}

/// What has been shrunk from `start` on: a text that keeps its start fills the
/// budget to the last character, and what was shrunk last was shrunk because it had
/// to be, and no further than to its start where that was enough.
proof fn lemma_shrunk_as_needed(
    answer_chars: nat,
    sources: Seq<SourceView>,
    budget: nat,
    session_id: Seq<char>,
    base: nat,
    start: nat,
)
    requires
        start <= sources.len(),
    ensures
        ({
            let kept = shrunk_from(answer_chars, sources, budget, session_id, base, start);
            &&& forall|i: int|
                start <= i < sources.len() && kept[i] != #[trigger] sources[i] && kept[i].content
                    != Some(omit_note(sources[i].url, session_id, base + i as nat))
                    ==> response_weight(answer_chars, kept) == budget
            &&& forall|h: int|
                start <= h < sources.len() && kept[h] != #[trigger] sources[h] && (forall|j: int|
                    start <= j < h ==> kept[j] == #[trigger] sources[j]) ==> {
                    &&& !fits(answer_chars, kept.update(h, sources[h]), budget)
                    &&& kept[h].content == Some(
                        omit_note(sources[h].url, session_id, base + h as nat),
                    ) ==> !fits(
                        answer_chars,
                        kept.update(
                            h,
                            sources[h].with_content(
                                Some(
                                    sources[h].content->0.take(1) + cut_note(
                                        sources[h].url,
                                        session_id,
                                        base + h as nat,
                                    ),
                                ),
                            ),
                        ),
                        budget,
                    ) || response_weight(answer_chars, kept) == budget
                }
        }),
    decreases sources.len() - start,
{
    if start < sources.len() {
        lemma_shrunk_as_needed(answer_chars, sources, budget, session_id, base, start + 1);
        lemma_shrunk_from(answer_chars, sources, budget, session_id, base, start + 1);
        let later = shrunk_from(answer_chars, sources, budget, session_id, base, start + 1);
        let kept = shrunk_from(answer_chars, sources, budget, session_id, base, start);
        let at = start as int;
        let source = sources[at];
        let excess = response_weight(answer_chars, later) - budget;
        let content = shrunk(source, excess, session_id, base + start);
        let cut = cut_note(source.url, session_id, base + start);
        assert(later[at] == source);
        lemma_total_after_update(later, at, source.with_content(content));
        if kept[at] == source {
            assert(kept =~= later);
            assert forall|h: int|
                start <= h < sources.len() && kept[h] != #[trigger] sources[h] && (forall|j: int|
                    start <= j < h ==> kept[j] == #[trigger] sources[j]) implies forall|j: int|
                start + 1 <= j < h ==> later[j] == #[trigger] sources[j] by {
            }
        } else {
            assert(excess > 0);
            let given = source.content->0;
            let single = source.with_content(Some(given.take(1) + cut));
            lemma_total_after_update(later, at, single);
            assert(kept.update(at, source) =~= later);
            assert(kept.update(at, single) =~= later.update(at, single));
            assert forall|i: int|
                start <= i < sources.len() && kept[i] != #[trigger] sources[i] && kept[i].content
                    != Some(
                    omit_note(sources[i].url, session_id, base + i as nat),
                ) implies response_weight(answer_chars, kept) == budget by {
                if i > start {
                    assert(kept[i] == later[i]);
                    assert(later[i] != sources[i]);
                    assert(response_weight(answer_chars, later) == budget);
                    assert(false);
                }
            }
        }
    }
}

/// Where a text keeps its start, the response is as long as the budget allows, to
/// the character: no more is cut than has to be.
pub proof fn law_cutting_fills_the_budget(
    answer_chars: nat,
    sources: Seq<SourceView>,
    budget: nat,
    session_id: Seq<char>,
    base: nat,
    index: int,
)
    requires
        ({
            let kept = budgeted(answer_chars, sources, budget, session_id, base);
            &&& 0 <= index < kept.len()
            &&& kept[index] != sources[index]
            &&& kept[index].content != Some(
                omit_note(sources[index].url, session_id, base + index as nat),
            )
        }),
    ensures
        ({
            let kept = budgeted(answer_chars, sources, budget, session_id, base);
            &&& answer_chars + total_weight(kept) == budget
            &&& kept.len() == sources.len()
        }),
{
    let all = shrunk_from(answer_chars, sources, budget, session_id, base, 0);
    lemma_shrunk_from(answer_chars, sources, budget, session_id, base, 0);
    lemma_shrunk_as_needed(answer_chars, sources, budget, session_id, base, 0);
    lemma_shortened(answer_chars, all, budget);
    assert(all[index] != sources[index]);
}

/// The foremost text that is touched is touched because it has to be: with it the
/// response would be too long. And it makes way for a note as a whole only where
/// not even its first character could stay, or the budget is filled to the last
/// character.
pub proof fn law_texts_give_way_only_where_they_must(
    answer_chars: nat,
    sources: Seq<SourceView>,
    budget: nat,
    session_id: Seq<char>,
    base: nat,
    head: int,
)
    requires
        ({
            let kept = budgeted(answer_chars, sources, budget, session_id, base);
            &&& kept.len() == sources.len()
            &&& 0 <= head < kept.len()
            &&& kept[head] != sources[head]
            &&& forall|j: int| 0 <= j < head ==> kept[j] == #[trigger] sources[j]
        }),
    ensures
        ({
            let kept = budgeted(answer_chars, sources, budget, session_id, base);
            let source = sources[head];
            let place = base + head as nat;
            &&& answer_chars + total_weight(kept.update(head, source)) > budget
            &&& kept[head].content == Some(omit_note(source.url, session_id, place)) ==> {
                ||| answer_chars + total_weight(kept) == budget
                ||| answer_chars + total_weight(
                    kept.update(
                        head,
                        source.with_content(
                            Some(
                                source.content->0.take(1) + cut_note(
                                    source.url,
                                    session_id,
                                    place,
                                ),
                            ),
                        ),
                    ),
                ) > budget
            }
        }),
{
    let all = shrunk_from(answer_chars, sources, budget, session_id, base, 0);
    lemma_shrunk_from(answer_chars, sources, budget, session_id, base, 0);
    lemma_shrunk_as_needed(answer_chars, sources, budget, session_id, base, 0);
    lemma_shortened(answer_chars, all, budget);
    assert(all =~= budgeted(answer_chars, sources, budget, session_id, base));
}

} // verus!
