//! The response budget: how a list of sources is cut down until the answer and
//! the list together are no longer than the caller can take.

use crate::model::source::{sources_of, Source, SourceView};
use crate::text::{decimal, decimal_text, opt_chars, opt_len};
use vstd::prelude::*;
use vstd::string::{StrSliceExecFns, StringExecFns};

verus! {

/// What the keys, quotes and separators around one source are taken to cost.
pub const JSON_OVERHEAD: usize = 64;

/// The approximate length of one source once it is written out.
pub open spec fn weight(source: SourceView) -> nat {
    source.url.len() + source.provider.len() + opt_len(source.title) + opt_len(source.description)
        + opt_len(source.published_date) + opt_len(source.content) + JSON_OVERHEAD as nat
}

/// The length of all sources of a list together.
pub open spec fn total_weight(sources: Seq<SourceView>) -> nat
    decreases sources.len(),
{
    if sources.len() == 0 {
        0
    } else {
        total_weight(sources.drop_last()) + weight(sources.last())
    }
}

/// The length of a response: its answer and its sources.
pub open spec fn response_weight(answer_chars: nat, sources: Seq<SourceView>) -> nat {
    answer_chars + total_weight(sources)
}

/// The note that tells where the text of a source can still be had.
pub open spec fn recovery_note(
    verb: Seq<char>,
    url: Seq<char>,
    session_id: Seq<char>,
    index: nat,
) -> Seq<char> {
    "_["@ + verb + ": response budget reached — full text via web_fetch(\""@ + url
        + "\") or get_sources(session_id=\""@ + session_id + "\", offset="@ + decimal(index)
        + ", limit=1)]_"@
}

/// The note that stands in place of a text.
pub open spec fn omit_note(url: Seq<char>, session_id: Seq<char>, index: nat) -> Seq<char> {
    recovery_note("inline content omitted"@, url, session_id, index)
}

/// What follows the start of a text that was cut.
pub open spec fn cut_note(url: Seq<char>, session_id: Seq<char>, index: nat) -> Seq<char> {
    "\n\n"@ + recovery_note("truncated"@, url, session_id, index)
}

/// What is left of the text of a source when the response is `excess`
/// characters too long. A text that a note would not shorten stays; one that
/// can give up the whole excess keeps its start; any other makes way for a note.
pub open spec fn shrunk(
    source: SourceView,
    excess: int,
    session_id: Seq<char>,
    index: nat,
) -> Option<Seq<char>> {
    let omitted = omit_note(source.url, session_id, index);
    let cut = cut_note(source.url, session_id, index);
    let length = opt_len(source.content);
    if excess <= 0 || length <= omitted.len() {
        source.content
    } else if length > excess + cut.len() {
        Some(source.content->0.take(length - excess - cut.len()) + cut)
    } else {
        Some(omitted)
    }
}

/// The sources once those from `start` on have been shrunk as far as the budget
/// asks for, the last one first. The first source of the list stands at `base` in
/// its session.
pub open spec fn shrunk_from(
    answer_chars: nat,
    sources: Seq<SourceView>,
    budget: nat,
    session_id: Seq<char>,
    base: nat,
    start: nat,
) -> Seq<SourceView>
    decreases sources.len() - start,
{
    if start >= sources.len() {
        sources
    } else {
        let later = shrunk_from(answer_chars, sources, budget, session_id, base, start + 1);
        let excess = response_weight(answer_chars, later) - budget;
        let source = later[start as int];
        later.update(
            start as int,
            source.with_content(shrunk(source, excess, session_id, base + start)),
        )
    }
}

/// The longest start of the list with which the response fits the budget; at
/// least one source stays.
pub open spec fn shortened(answer_chars: nat, sources: Seq<SourceView>, budget: nat) -> Seq<
    SourceView,
>
    decreases sources.len(),
{
    if response_weight(answer_chars, sources) > budget && sources.len() > 1 {
        shortened(answer_chars, sources.drop_last(), budget)
    } else {
        sources
    }
}

/// Whether the response is within the budget as it stands.
pub open spec fn fits(answer_chars: nat, sources: Seq<SourceView>, budget: nat) -> bool {
    response_weight(answer_chars, sources) <= budget
}

/// The sources that a response within the budget returns. The first source of the
/// list stands at `base` in its session; notes tell the places in the session.
pub open spec fn budgeted(
    answer_chars: nat,
    sources: Seq<SourceView>,
    budget: nat,
    session_id: Seq<char>,
    base: nat,
) -> Seq<SourceView> {
    if fits(answer_chars, sources, budget) {
        sources
    } else {
        shortened(
            answer_chars,
            shrunk_from(answer_chars, sources, budget, session_id, base, 0),
            budget,
        )
    }
}

/// The sum of a list of lengths.
spec fn sum(lengths: Seq<u128>) -> nat
    decreases lengths.len(),
{
    if lengths.len() == 0 {
        0
    } else {
        sum(lengths.drop_last()) + lengths.last() as nat
    }
}

/// Whether the list holds the length of each source.
spec fn measures(lengths: Seq<u128>, sources: Seq<SourceView>) -> bool {
    &&& lengths.len() == sources.len()
    &&& forall|i: int| 0 <= i < sources.len() ==> #[trigger] lengths[i] == weight(sources[i])
}

proof fn lemma_sum_is_total(lengths: Seq<u128>, sources: Seq<SourceView>)
    requires
        measures(lengths, sources),
    ensures
        sum(lengths) == total_weight(sources),
    decreases sources.len(),
{
    if sources.len() > 0 {
        assert(measures(lengths.drop_last(), sources.drop_last()));
        lemma_sum_is_total(lengths.drop_last(), sources.drop_last());
        assert(lengths[sources.len() - 1] == weight(sources[sources.len() - 1]));
    }
}

proof fn lemma_sum_grows(lengths: Seq<u128>, n: nat)
    requires
        n <= lengths.len(),
    ensures
        sum(lengths.take(n as int)) <= sum(lengths),
    decreases lengths.len(),
{
    if n == lengths.len() {
        assert(lengths.take(n as int) =~= lengths);
    } else {
        lemma_sum_grows(lengths.drop_last(), n);
        assert(lengths.drop_last().take(n as int) =~= lengths.take(n as int));
    }
}

/// The approximate length of one source once it is written out.
pub fn source_weight(source: &Source) -> (result: u128)
    ensures
        result == weight(source@),
{
    source.url.as_str().unicode_len() as u128 + source.provider.as_str().unicode_len() as u128
        + opt_chars(&source.title) as u128 + opt_chars(&source.description) as u128 + opt_chars(
        &source.published_date,
    ) as u128 + opt_chars(&source.content) as u128 + JSON_OVERHEAD as u128
}

/// The sum of an answer's length and the lengths of its sources, as far as the
/// integer reaches.
fn measure(answer_chars: usize, lengths: &Vec<u128>) -> (total: u128)
    ensures
        answer_chars + sum(lengths@) <= u128::MAX ==> total == answer_chars + sum(lengths@),
        answer_chars + sum(lengths@) > u128::MAX ==> total == u128::MAX,
{
    let mut total: u128 = answer_chars as u128;
    for i in 0..lengths.len()
        invariant
            total == answer_chars + sum(lengths@.take(i as int)),
    {
        proof {
            assert(lengths@.take(i + 1).drop_last() =~= lengths@.take(i as int));
            lemma_sum_grows(lengths@, (i + 1) as nat);
        }
        match total.checked_add(lengths[i]) {
            Some(more) => {
                total = more;
            },
            None => {
                return u128::MAX;
            },
        }
    }
    assert(lengths@.take(lengths.len() as int) =~= lengths@);
    total
}

/// The note that tells where the text of a source can still be had.
fn note(verb: &str, url: &str, session_id: &str, index: usize) -> (text: String)
    ensures
        text@ == recovery_note(verb@, url@, session_id@, index as nat),
{
    let number = decimal_text(index as u64);
    let mut text = "_[".to_owned();
    text.append(verb);
    text.append(": response budget reached — full text via web_fetch(\"");
    text.append(url);
    text.append("\") or get_sources(session_id=\"");
    text.append(session_id);
    text.append("\", offset=");
    text.append(number.as_str());
    text.append(", limit=1)]_");
    text
}

/// What is left of the text of a source when the response is too long by more
/// than zero characters; `None` where the text stays as it is.
fn shrink(source: &Source, excess: u128, session_id: &str, index: usize) -> (text: Option<String>)
    requires
        excess > 0,
    ensures
        match text {
            Some(new) => Some(new@),
            None => source@.content,
        } == shrunk(source@, excess as int, session_id@, index as nat),
        text is Some ==> text->0@.len() < opt_len(source@.content),
        opt_len(source@.content) <= usize::MAX,
{
    match &source.content {
        None => None,
        Some(content) => {
            let length = content.as_str().unicode_len();
            let omitted = note("inline content omitted", source.url.as_str(), session_id, index);
            if length <= omitted.as_str().unicode_len() {
                return None;
            }
            let mut cut = "\n\n".to_owned();
            cut.append(note("truncated", source.url.as_str(), session_id, index).as_str());
            let spent = cut.as_str().unicode_len();
            if excess < length as u128 && spent < length - excess as usize {
                let kept = length - excess as usize - spent;
                let mut text = content.as_str().substring_char(0, kept).to_owned();
                text.append(cut.as_str());
                assert(text@ =~= content@.take(kept as int) + cut@);
                Some(text)
            } else {
                Some(omitted)
            }
        },
    }
}

/// Once the response fits, nothing further is shrunk.
proof fn lemma_shrinking_stops(
    answer_chars: nat,
    sources: Seq<SourceView>,
    budget: nat,
    session_id: Seq<char>,
    base: nat,
    start: nat,
)
    requires
        start <= sources.len(),
        fits(
            answer_chars,
            shrunk_from(answer_chars, sources, budget, session_id, base, start),
            budget,
        ),
    ensures
        shrunk_from(answer_chars, sources, budget, session_id, base, 0) == shrunk_from(
            answer_chars,
            sources,
            budget,
            session_id,
            base,
            start,
        ),
    decreases start,
{
    if start > 0 {
        let before = (start - 1) as nat;
        let later = shrunk_from(answer_chars, sources, budget, session_id, base, start);
        lemma_same_length(answer_chars, sources, budget, session_id, base, start);
        assert(shrunk_from(answer_chars, sources, budget, session_id, base, before) =~= later);
        lemma_shrinking_stops(answer_chars, sources, budget, session_id, base, before);
    }
}

/// Shrinking keeps the number of sources, and the sources it has not come to.
proof fn lemma_same_length(
    answer_chars: nat,
    sources: Seq<SourceView>,
    budget: nat,
    session_id: Seq<char>,
    base: nat,
    start: nat,
)
    ensures
        shrunk_from(answer_chars, sources, budget, session_id, base, start).len() == sources.len(),
        forall|i: int|
            0 <= i < start && i < sources.len() ==> #[trigger] shrunk_from(
                answer_chars,
                sources,
                budget,
                session_id,
                base,
                start,
            )[i] == sources[i],
    decreases sources.len() - start,
{
    if start < sources.len() {
        lemma_same_length(answer_chars, sources, budget, session_id, base, start + 1);
    }
}

/// Leaving sources out keeps no more than there were.
proof fn lemma_shortened_length(answer_chars: nat, sources: Seq<SourceView>, budget: nat)
    ensures
        shortened(answer_chars, sources, budget).len() <= sources.len(),
    decreases sources.len(),
{
    if response_weight(answer_chars, sources) > budget && sources.len() > 1 {
        lemma_shortened_length(answer_chars, sources.drop_last(), budget);
    }
}

/// A response never gets more sources.
pub proof fn lemma_no_more_sources(
    answer_chars: nat,
    sources: Seq<SourceView>,
    budget: nat,
    session_id: Seq<char>,
    base: nat,
)
    ensures
        budgeted(answer_chars, sources, budget, session_id, base).len() <= sources.len(),
{
    lemma_same_length(answer_chars, sources, budget, session_id, base, 0);
    lemma_shortened_length(
        answer_chars,
        shrunk_from(answer_chars, sources, budget, session_id, base, 0),
        budget,
    );
}

/// Cuts the list down until `answer_chars` and the list together fit the budget,
/// from the last source on: first texts make way for notes that say where they
/// can be had, then, where that is not enough, whole sources go, but for the
/// first. Returns whether the list was changed. The answer is never touched.
pub fn apply_response_budget(
    answer_chars: usize,
    sources: &mut Vec<Source>,
    budget: usize,
    session_id: &str,
) -> (trimmed: bool)
    ensures
        sources_of(final(sources)@) == budgeted(
            answer_chars as nat,
            sources_of(old(sources)@),
            budget as nat,
            session_id@,
            0,
        ),
        trimmed == (sources_of(final(sources)@) != sources_of(old(sources)@)),
{
    trim_sources(answer_chars, sources, budget, session_id, 0)
}

/// Cuts down a list whose first source stands at `first` in its session, so that
/// the notes tell where in the session each text can be had.
pub fn trim_sources(
    answer_chars: usize,
    sources: &mut Vec<Source>,
    budget: usize,
    session_id: &str,
    first: usize,
) -> (trimmed: bool)
    requires
        first + old(sources).len() <= usize::MAX,
    ensures
        sources_of(final(sources)@) == budgeted(
            answer_chars as nat,
            sources_of(old(sources)@),
            budget as nat,
            session_id@,
            first as nat,
        ),
        trimmed == (sources_of(final(sources)@) != sources_of(old(sources)@)),
{
    let ghost base = first as nat;
    let ghost given = sources_of(sources@);
    let ghost answer = answer_chars as nat;
    let mut lengths: Vec<u128> = Vec::new();
    for i in 0..sources.len()
        invariant
            lengths.len() == i,
            forall|j: int| 0 <= j < i ==> #[trigger] lengths@[j] == weight(sources@[j]@),
    {
        lengths.push(source_weight(&sources[i]));
    }
    let mut total: u128 = measure(answer_chars, &lengths);
    proof {
        lemma_sum_is_total(lengths@, given);
    }
    if total <= budget as u128 {
        return false;
    }
    let mut trimmed = false;
    let mut index = sources.len();
    assert(shrunk_from(answer, given, budget as nat, session_id@, base, index as nat) == given);
    while index > 0 && total > budget as u128
        invariant
            answer == answer_chars,
            base == first,
            first + given.len() <= usize::MAX,
            index <= given.len(),
            trimmed == (sources_of(sources@) != given),
            sources_of(sources@).len() == given.len(),
            sources_of(sources@) == shrunk_from(
                answer,
                given,
                budget as nat,
                session_id@,
                base,
                index as nat,
            ),
            measures(lengths@, sources_of(sources@)),
            answer + sum(lengths@) <= u128::MAX ==> total == answer + sum(lengths@),
            answer + sum(lengths@) > u128::MAX ==> total == u128::MAX,
        decreases index,
    {
        index = index - 1;
        let ghost before = sources_of(sources@);
        let ghost measured = total as int;
        proof {
            lemma_sum_is_total(lengths@, before);
            lemma_same_length(answer, given, budget as nat, session_id@, base, (index + 1) as nat);
            assert(before[index as int] == given[index as int]);
        }
        let text = shrink(&sources[index], total - budget as u128, session_id, first + index);
        if let Some(new) = text {
            let source = sources[index].clone();
            sources.set(index, Source { content: Some(new), ..source });
            lengths.set(index, source_weight(&sources[index]));
            total = measure(answer_chars, &lengths);
            trimmed = true;
            assert(sources_of(sources@)[index as int].content != given[index as int].content);
        }
        proof {
            let source = before[index as int];
            let excess = response_weight(answer, before) - budget;
            assert(shrunk(source, measured - budget, session_id@, base + index as nat) == shrunk(
                source,
                excess,
                session_id@,
                base + index as nat,
            ));
            assert(sources_of(sources@) =~= before.update(
                index as int,
                source.with_content(shrunk(source, excess, session_id@, base + index as nat)),
            ));
        }
    }
    proof {
        lemma_sum_is_total(lengths@, sources_of(sources@));
        if index > 0 {
            lemma_shrinking_stops(answer, given, budget as nat, session_id@, base, index as nat);
        }
    }
    let ghost shrunk_all = sources_of(sources@);
    while total > budget as u128 && sources.len() > 1
        invariant
            answer == answer_chars,
            trimmed == (sources_of(sources@) != given),
            sources.len() <= given.len(),
            measures(lengths@, sources_of(sources@)),
            shortened(answer, sources_of(sources@), budget as nat) == shortened(
                answer,
                shrunk_all,
                budget as nat,
            ),
            answer + sum(lengths@) <= u128::MAX ==> total == answer + sum(lengths@),
            answer + sum(lengths@) > u128::MAX ==> total == u128::MAX,
        decreases sources.len(),
    {
        proof {
            lemma_sum_is_total(lengths@, sources_of(sources@));
        }
        let ghost before = sources_of(sources@);
        sources.pop();
        lengths.pop();
        assert(sources_of(sources@) =~= before.drop_last());
        total = measure(answer_chars, &lengths);
        trimmed = true;
    }
    proof {
        lemma_sum_is_total(lengths@, sources_of(sources@));
    }
    trimmed
}

} // verus!
