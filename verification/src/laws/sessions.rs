//! What is kept of a search, and how it is read back page by page.

use crate::budget::{budgeted, cut_note, fits, omit_note, total_weight};
use crate::cache::{kept_under, without, CacheView};
use crate::error::ErrorView;
use crate::laws::budget::{
    cut_short, law_first_source_stays, law_only_texts_change,
    law_result_fits_or_one_source_is_left, law_untouched_list,
};
use crate::model::source::SourceView;
use crate::model::tool::PageView;
use crate::paging::{page, page_sources, page_start};
use crate::search::{final_content, final_sources, search_output, DraftView};
use crate::service::{page_for, SearchService, ServiceView};
use crate::text::opt_len;
use vstd::prelude::*;

verus! {

proof fn lemma_kept_under_push(
    entries: Seq<(Seq<char>, Seq<SourceView>)>,
    entry: (Seq<char>, Seq<SourceView>),
    session_id: Seq<char>,
)
    ensures
        kept_under(entries.push(entry), session_id) == if entry.0 == session_id {
            Some(entry.1)
        } else {
            kept_under(entries, session_id)
        },
{
    assert(entries.push(entry).drop_last() =~= entries);
}

proof fn lemma_kept_under_without(
    entries: Seq<(Seq<char>, Seq<SourceView>)>,
    session_id: Seq<char>,
    other: Seq<char>,
)
    requires
        other != session_id,
    ensures
        kept_under(without(entries, session_id), other) == kept_under(entries, other),
    decreases entries.len(),
{
    if entries.len() > 0 {
        lemma_kept_under_without(entries.drop_last(), session_id, other);
        if entries.last().0 != session_id {
            lemma_kept_under_push(
                without(entries.drop_last(), session_id),
                entries.last(),
                other,
            );
        }
    }
}

proof fn lemma_kept_under_skip(
    entries: Seq<(Seq<char>, Seq<SourceView>)>,
    n: nat,
    session_id: Seq<char>,
)
    requires
        n <= entries.len(),
    ensures
        ({
            let found = kept_under(entries.skip(n as int), session_id);
            found == kept_under(entries, session_id) || found is None
        }),
    decreases entries.len(),
{
    if n < entries.len() {
        let rest = entries.skip(n as int);
        assert(rest.last() == entries.last());
        assert(rest.drop_last() =~= entries.drop_last().skip(n as int));
        lemma_kept_under_skip(entries.drop_last(), n, session_id);
    }
}

/// A session that has just been stored is found, with the sources that were
/// stored, in every cache that keeps any session at all.
pub proof fn law_stored_session_is_found(
    cache: CacheView,
    session_id: Seq<char>,
    sources: Seq<SourceView>,
)
    requires
        cache.capacity > 0,
    ensures
        cache.stored(session_id, sources).lookup(session_id) == Some(sources),
{
    let stored = cache.stored(session_id, sources);
    assert(stored.entries.last() == (session_id, sources));
}

/// Storing a session changes no other: each is found as before, or no longer kept.
pub proof fn law_storing_changes_no_other_session(
    cache: CacheView,
    session_id: Seq<char>,
    sources: Seq<SourceView>,
    other: Seq<char>,
)
    requires
        other != session_id,
    ensures
        ({
            let found = cache.stored(session_id, sources).lookup(other);
            found == cache.lookup(other) || found is None
        }),
{
    let rest = without(cache.entries, session_id);
    let all = rest.push((session_id, sources));
    lemma_kept_under_without(cache.entries, session_id, other);
    lemma_kept_under_push(rest, (session_id, sources), other);
    if all.len() > cache.capacity {
        lemma_kept_under_skip(all, (all.len() - cache.capacity) as nat, other);
    }
}

/// While there is room, storing a session drops none.
pub proof fn law_sessions_stay_while_there_is_room(
    cache: CacheView,
    session_id: Seq<char>,
    sources: Seq<SourceView>,
    other: Seq<char>,
)
    requires
        other != session_id,
        without(cache.entries, session_id).len() < cache.capacity,
    ensures
        cache.stored(session_id, sources).lookup(other) == cache.lookup(other),
{
    lemma_kept_under_without(cache.entries, session_id, other);
    lemma_kept_under_push(
        without(cache.entries, session_id),
        (session_id, sources),
        other,
    );
}

/// The kept sessions once the result of a search has been kept.
pub open spec fn after_search(sessions: CacheView, draft: DraftView) -> CacheView {
    sessions.stored(draft.session_id, final_sources(draft))
}

/// After a search, every page of its session is served from its sources with all
/// their text, whatever the response to the search had to leave out.
pub proof fn law_search_can_be_paged(
    service: ServiceView,
    sessions: CacheView,
    draft: DraftView,
    offset: nat,
    limit: Option<nat>,
)
    requires
        sessions.capacity > 0,
    ensures
        page_for(
            service,
            after_search(sessions, draft),
            draft.session_id,
            offset,
            limit,
        ) == Ok::<PageView, ErrorView>(
            page(
                draft.session_id,
                final_sources(draft),
                offset,
                limit,
                service.config.response_max_chars as nat,
            ),
        ),
{
    law_stored_session_is_found(sessions, draft.session_id, final_sources(draft));
}

/// A clone of a service finds every session that the service finds, and the other
/// way round, with the same sources: which of the two finished a search does not
/// matter.
pub proof fn law_clones_share_sessions(
    service: SearchService,
    clone: SearchService,
    sessions: CacheView,
    session_id: Seq<char>,
    offset: nat,
    limit: Option<nat>,
)
    requires
        call_ensures(SearchService::clone, (&service,), clone),
    ensures
        clone@ == service@,
        page_for(clone@, sessions, session_id, offset, limit) == page_for(
            service@,
            sessions,
            session_id,
            offset,
            limit,
        ),
{
}

/// Asking for the sources of a search gives back the sources that the search
/// returned, text included, where the search did not cut anything.
pub proof fn law_sources_are_read_back(
    service: ServiceView,
    sessions: CacheView,
    draft: DraftView,
)
    requires
        sessions.capacity > 0,
        !search_output(service.config.response_max_chars as nat, draft).truncated,
    ensures
        ({
            let output = search_output(service.config.response_max_chars as nat, draft);
            let reply = page_for(
                service,
                after_search(sessions, draft),
                draft.session_id,
                0,
                None,
            );
            &&& reply is Ok
            &&& reply->Ok_0.sources == output.sources
            &&& reply->Ok_0.sources_count == output.sources_count
            &&& reply->Ok_0.next_offset is None
            &&& !reply->Ok_0.truncated
        }),
{
    law_search_can_be_paged(service, sessions, draft, 0, None);
    let sources = final_sources(draft);
    assert(page_sources(sources, 0, None) =~= sources);
    let budget = service.config.response_max_chars as nat;
    law_untouched_list(final_content(draft).len(), sources, budget, draft.session_id, 0);
    law_untouched_list(0, sources, budget, draft.session_id, 0);
}

/// Whether a text holds, in place of another or at its end, the note that the
/// text of the source at a place of a session can be had there.
pub open spec fn points_to(
    text: Seq<char>,
    url: Seq<char>,
    session_id: Seq<char>,
    place: nat,
) -> bool {
    ||| text == omit_note(url, session_id, place)
    ||| exists|start: Seq<char>| text == #[trigger] (start + cut_note(url, session_id, place))
}

/// Whether a page holds a single source, which is the given one: whole where it
/// fits the budget alone, and with nothing but its text cut where it does not.
pub open spec fn leads_to(output: PageView, source: SourceView, budget: nat) -> bool {
    &&& output.sources.len() == 1
    &&& output.sources[0].url == source.url
    &&& output.sources[0].with_content(None) == source.with_content(None)
    &&& fits(0, seq![source], budget) ==> output.sources[0] == source
}

/// A source that a note points to is found where the note says: asking for one
/// source at that offset gives the source with that address, and its whole text
/// where it fits a response of its own.
proof fn lemma_place_is_found(
    session_id: Seq<char>,
    sources: Seq<SourceView>,
    place: nat,
    budget: nat,
)
    requires
        place < sources.len(),
    ensures
        leads_to(page(session_id, sources, place, Some(1), budget), sources[place as int], budget),
{
    let single = page_sources(sources, place, Some(1));
    assert(single =~= seq![sources[place as int]]);
    law_first_source_stays(0, single, budget, session_id, place);
    law_only_texts_change(0, single, budget, session_id, place, 0);
}

proof fn lemma_changed_texts_hold_notes(
    answer_chars: nat,
    sources: Seq<SourceView>,
    budget: nat,
    session_id: Seq<char>,
    base: nat,
    index: int,
)
    requires
        ({
            let kept = budgeted(answer_chars, sources, budget, session_id, base);
            0 <= index < kept.len() && kept[index] != sources[index]
        }),
    ensures
        ({
            let content = budgeted(
                answer_chars,
                sources,
                budget,
                session_id,
                base,
            )[index].content;
            &&& index < sources.len()
            &&& content is Some
            &&& points_to(content->0, sources[index].url, session_id, base + index as nat)
        }),
{
    let kept = budgeted(answer_chars, sources, budget, session_id, base);
    let given = sources[index];
    let place = base + index as nat;
    law_only_texts_change(answer_chars, sources, budget, session_id, base, index);
    if cut_short(given, kept[index], session_id, place) {
        let cut = cut_note(given.url, session_id, place);
        let n = choose|n: int|
            0 < n <= opt_len(given.content) - cut.len() && given.content is Some && kept[index]
                == given.with_content(Some(#[trigger] given.content->0.take(n) + cut));
        assert(kept[index].content->0 == given.content->0.take(n) + cut);
    }
}

/// A note in the result of a search leads back to its source: where the text of a
/// source was cut, it names a place of the session, and asking for one source at
/// that place gives this source.
pub proof fn law_search_notes_lead_back(
    service: ServiceView,
    sessions: CacheView,
    draft: DraftView,
    index: int,
)
    requires
        sessions.capacity > 0,
        ({
            let kept = search_output(service.config.response_max_chars as nat, draft).sources;
            0 <= index < kept.len() && kept[index] != final_sources(draft)[index]
        }),
    ensures
        ({
            let budget = service.config.response_max_chars as nat;
            let source = final_sources(draft)[index];
            let content = search_output(budget, draft).sources[index].content;
            let reply = page_for(
                service,
                after_search(sessions, draft),
                draft.session_id,
                index as nat,
                Some(1),
            );
            &&& content is Some
            &&& points_to(content->0, source.url, draft.session_id, index as nat)
            &&& reply is Ok
            &&& leads_to(reply->Ok_0, source, budget)
        }),
{
    let budget = service.config.response_max_chars as nat;
    let sources = final_sources(draft);
    lemma_changed_texts_hold_notes(
        final_content(draft).len(),
        sources,
        budget,
        draft.session_id,
        0,
        index,
    );
    lemma_place_is_found(draft.session_id, sources, index as nat, budget);
    law_search_can_be_paged(service, sessions, draft, index as nat, Some(1));
}

/// A note on a page leads back to its source too, wherever the page starts: it
/// names the place in the session.
pub proof fn law_page_notes_lead_back(
    session_id: Seq<char>,
    sources: Seq<SourceView>,
    offset: nat,
    limit: Option<nat>,
    budget: nat,
    index: int,
)
    requires
        ({
            let kept = page(session_id, sources, offset, limit, budget).sources;
            0 <= index < kept.len() && kept[index] != sources[offset + index]
        }),
    ensures
        ({
            let place = offset + index as nat;
            let source = sources[place as int];
            let content = page(session_id, sources, offset, limit, budget).sources[index].content;
            &&& place < sources.len()
            &&& content is Some
            &&& points_to(content->0, source.url, session_id, place)
            &&& leads_to(page(session_id, sources, place, Some(1), budget), source, budget)
        }),
{
    let uncut = page_sources(sources, offset, limit);
    let start = page_start(sources.len(), offset);
    law_page_holds_consecutive_sources(session_id, sources, offset, limit, budget, index);
    assert(uncut[index] == sources[offset + index]);
    lemma_changed_texts_hold_notes(0, uncut, budget, session_id, start, index);
    lemma_place_is_found(session_id, sources, offset + index as nat, budget);
}

/// A session that is not kept is refused, by name.
pub proof fn law_unknown_session_is_refused(
    service: ServiceView,
    sessions: CacheView,
    session_id: Seq<char>,
    offset: nat,
    limit: Option<nat>,
)
    ensures
        page_for(service, sessions, session_id, offset, limit) is Err <==> sessions.lookup(
            session_id,
        ) is None,
{
}

/// An offset behind the end gives an empty last page, not an error.
pub proof fn law_page_behind_the_end_is_empty(
    session_id: Seq<char>,
    sources: Seq<SourceView>,
    offset: nat,
    limit: Option<nat>,
    budget: nat,
)
    requires
        offset >= sources.len(),
    ensures
        ({
            let output = page(session_id, sources, offset, limit, budget);
            &&& output.sources.len() == 0
            &&& output.sources_count == 0
            &&& output.next_offset is None
            &&& output.total_sources == sources.len()
            &&& !output.truncated
        }),
{
    assert(page_sources(sources, offset, limit) =~= Seq::empty());
    assert(total_weight(Seq::empty()) == 0);
}

/// A page holds the sources from its offset on, in their order and no more than
/// were asked for; nothing but their text differs.
pub proof fn law_page_holds_consecutive_sources(
    session_id: Seq<char>,
    sources: Seq<SourceView>,
    offset: nat,
    limit: Option<nat>,
    budget: nat,
    index: int,
)
    requires
        0 <= index < page(session_id, sources, offset, limit, budget).sources.len(),
    ensures
        ({
            let output = page(session_id, sources, offset, limit, budget);
            &&& offset + output.sources.len() <= sources.len()
            &&& limit is Some ==> output.sources.len() <= limit->0
            &&& output.sources[index].with_content(None) == sources[offset + index].with_content(
                None,
            )
        }),
{
    let start = page_start(sources.len(), offset);
    law_only_texts_change(
        0,
        page_sources(sources, offset, limit),
        budget,
        session_id,
        start,
        index,
    );
}

/// Paging makes progress: a page that starts before the end, and may hold a source
/// at all, holds one, and the next page starts right behind the last source that
/// was returned; the page after which nothing is left says so.
pub proof fn law_pages_advance(
    session_id: Seq<char>,
    sources: Seq<SourceView>,
    offset: nat,
    limit: Option<nat>,
    budget: nat,
)
    requires
        offset < sources.len(),
        limit != Some(0nat),
    ensures
        ({
            let output = page(session_id, sources, offset, limit, budget);
            let served = offset + output.sources.len();
            &&& output.sources.len() > 0
            &&& served <= sources.len()
            &&& output.next_offset == if served < sources.len() {
                Some(served)
            } else {
                None
            }
        }),
{
    law_first_source_stays(0, page_sources(sources, offset, limit), budget, session_id, offset);
}

/// The sources of all pages from an offset on, each page taken where the one
/// before it said the next would start.
pub open spec fn pages_from(
    session_id: Seq<char>,
    sources: Seq<SourceView>,
    offset: nat,
    limit: Option<nat>,
    budget: nat,
) -> Seq<SourceView>
    decreases sources.len() - offset,
{
    let output = page(session_id, sources, offset, limit, budget);
    output.sources + match output.next_offset {
        Some(next) => if offset < next && offset < sources.len() {
            pages_from(session_id, sources, next, limit, budget)
        } else {
            Seq::empty()
        },
        None => Seq::empty(),
    }
}

/// Following the pages reaches every source exactly once, in order, however small
/// the pages and the budget are.
pub proof fn law_pages_cover_every_source(
    session_id: Seq<char>,
    sources: Seq<SourceView>,
    offset: nat,
    limit: Option<nat>,
    budget: nat,
)
    requires
        offset <= sources.len(),
        limit != Some(0nat) || offset == sources.len(),
    ensures
        ({
            let all = pages_from(session_id, sources, offset, limit, budget);
            &&& all.len() == sources.len() - offset
            &&& forall|i: int|
                0 <= i < all.len() ==> (#[trigger] all[i]).with_content(None) == sources[offset
                    + i].with_content(None)
        }),
    decreases sources.len() - offset,
{
    let output = page(session_id, sources, offset, limit, budget);
    let all = pages_from(session_id, sources, offset, limit, budget);
    if offset == sources.len() {
        law_page_behind_the_end_is_empty(session_id, sources, offset, limit, budget);
    } else {
        law_pages_advance(session_id, sources, offset, limit, budget);
        let served = offset + output.sources.len();
        if served < sources.len() {
            law_pages_cover_every_source(session_id, sources, served, limit, budget);
        }
        assert forall|i: int| 0 <= i < all.len() implies (#[trigger] all[i]).with_content(None)
            == sources[offset + i].with_content(None) by {
            if i < output.sources.len() {
                law_page_holds_consecutive_sources(
                    session_id,
                    sources,
                    offset,
                    limit,
                    budget,
                    i,
                );
            } else {
                let later = pages_from(session_id, sources, served, limit, budget);
                assert(all[i] == later[i - output.sources.len()]);
            }
        }
    }
}

/// A session that is not kept is named in the refusal.
pub proof fn law_refusal_names_the_session(
    service: ServiceView,
    sessions: CacheView,
    session_id: Seq<char>,
    offset: nat,
    limit: Option<nat>,
)
    requires
        sessions.lookup(session_id) is None,
    ensures
        page_for(service, sessions, session_id, offset, limit) == Err::<PageView, ErrorView>(
            ErrorView::NotFound("session_id="@ + session_id),
        ),
{
}

/// A session that is kept is paged within the length that a response may have, and
/// from the sources that are kept for it.
pub proof fn law_kept_session_is_paged(
    service: ServiceView,
    sessions: CacheView,
    session_id: Seq<char>,
    offset: nat,
    limit: Option<nat>,
)
    requires
        sessions.lookup(session_id) is Some,
    ensures
        ({
            let reply = page_for(service, sessions, session_id, offset, limit);
            let sources = sessions.lookup(session_id)->0;
            &&& reply is Ok
            &&& reply->Ok_0.total_sources == sources.len()
            &&& reply->Ok_0.sources.len() <= 1 || total_weight(reply->Ok_0.sources)
                <= service.config.response_max_chars
            &&& total_weight(sources) <= service.config.response_max_chars && offset == 0
                && limit is None ==> reply->Ok_0.sources == sources
        }),
{
    let sources = sessions.lookup(session_id)->0;
    let budget = service.config.response_max_chars as nat;
    law_result_fits_or_one_source_is_left(
        0,
        page_sources(sources, offset, limit),
        budget,
        session_id,
        page_start(sources.len(), offset),
    );
    if offset == 0 && limit is None {
        assert(page_sources(sources, 0, None) =~= sources);
    }
}

/// A page tells its session, its own place and size, and the size of the session;
/// its sources are those from the offset on, as many as asked for and as there are,
/// and exactly those, text included, where they fit.
pub proof fn law_page_holds_what_was_asked_for(
    session_id: Seq<char>,
    sources: Seq<SourceView>,
    offset: nat,
    limit: Option<nat>,
    budget: nat,
)
    ensures
        ({
            let output = page(session_id, sources, offset, limit, budget);
            let left = if offset < sources.len() {
                sources.len() - offset
            } else {
                0
            };
            let count = match limit {
                Some(limit) => if limit < left {
                    limit as int
                } else {
                    left
                },
                None => left,
            };
            let slice = Seq::new(count as nat, |i: int| sources[offset + i]);
            &&& output.session_id == session_id
            &&& output.total_sources == sources.len()
            &&& output.offset == offset
            &&& output.sources_count == output.sources.len()
            &&& output.sources.len() <= count
            &&& total_weight(slice) <= budget ==> output.sources == slice && !output.truncated
            &&& output.truncated <==> output.sources != slice
            &&& output.next_offset is Some <==> offset + output.sources.len() < sources.len()
            &&& output.next_offset is Some ==> output.next_offset->0 == offset
                + output.sources.len()
        }),
{
    let uncut = page_sources(sources, offset, limit);
    let start = page_start(sources.len(), offset);
    let left = if offset < sources.len() {
        sources.len() - offset
    } else {
        0
    };
    let count = match limit {
        Some(limit) => if limit < left {
            limit as int
        } else {
            left
        },
        None => left,
    };
    assert(uncut =~= Seq::new(count as nat, |i: int| sources[offset + i]));
    crate::budget::lemma_no_more_sources(0, uncut, budget, session_id, start);
}

proof fn lemma_without_absent(entries: Seq<(Seq<char>, Seq<SourceView>)>, session_id: Seq<char>)
    requires
        forall|i: int| 0 <= i < entries.len() ==> (#[trigger] entries[i]).0 != session_id,
    ensures
        without(entries, session_id) == entries,
    decreases entries.len(),
{
    if entries.len() > 0 {
        assert forall|i: int| 0 <= i < entries.drop_last().len() implies (
        #[trigger] entries.drop_last()[i]).0 != session_id by {
            assert(entries[i].0 != session_id);
        }
        lemma_without_absent(entries.drop_last(), session_id);
        assert(without(entries, session_id) =~= entries);
    }
}

proof fn lemma_kept_where_it_stands(
    entries: Seq<(Seq<char>, Seq<SourceView>)>,
    session_id: Seq<char>,
    at: int,
)
    requires
        0 <= at < entries.len(),
        entries[at].0 == session_id,
        forall|i: int| at < i < entries.len() ==> (#[trigger] entries[i]).0 != session_id,
    ensures
        kept_under(entries, session_id) == Some(entries[at].1),
    decreases entries.len(),
{
    let last = entries.len() - 1;
    if at < last {
        assert(entries[last].0 != session_id);
        assert forall|i: int| at < i < entries.drop_last().len() implies (
        #[trigger] entries.drop_last()[i]).0 != session_id by {
            assert(entries[i].0 != session_id);
        }
        lemma_kept_where_it_stands(entries.drop_last(), session_id, at);
    }
}

proof fn lemma_not_kept(entries: Seq<(Seq<char>, Seq<SourceView>)>, session_id: Seq<char>)
    requires
        forall|i: int| 0 <= i < entries.len() ==> (#[trigger] entries[i]).0 != session_id,
    ensures
        kept_under(entries, session_id) is None,
    decreases entries.len(),
{
    if entries.len() > 0 {
        assert(entries[entries.len() - 1].0 != session_id);
        assert forall|i: int| 0 <= i < entries.drop_last().len() implies (
        #[trigger] entries.drop_last()[i]).0 != session_id by {
            assert(entries[i].0 != session_id);
        }
        lemma_not_kept(entries.drop_last(), session_id);
    }
}

/// A session is found exactly where one of the kept sessions has its name, with the
/// sources that are kept under that name.
pub proof fn law_lookup_finds_what_is_kept(sessions: CacheView, session_id: Seq<char>)
    requires
        sessions.wf(),
    ensures
        sessions.lookup(session_id) is None <==> forall|i: int|
            0 <= i < sessions.entries.len() ==> (#[trigger] sessions.entries[i]).0 != session_id,
        forall|i: int|
            0 <= i < sessions.entries.len() && (#[trigger] sessions.entries[i]).0 == session_id
                ==> sessions.lookup(session_id) == Some(sessions.entries[i].1),
{
    let entries = sessions.entries;
    if forall|i: int| 0 <= i < entries.len() ==> (#[trigger] entries[i]).0 != session_id {
        lemma_not_kept(entries, session_id);
    }
    assert forall|i: int|
        0 <= i < entries.len() && (#[trigger] entries[i]).0 == session_id implies sessions.lookup(
        session_id,
    ) == Some(entries[i].1) by {
        lemma_kept_where_it_stands(entries, session_id, i);
    }
}

/// Where there is no room left, a new session takes the place of the oldest one,
/// and of no other.
pub proof fn law_oldest_session_goes(
    sessions: CacheView,
    session_id: Seq<char>,
    sources: Seq<SourceView>,
)
    requires
        sessions.wf(),
        sessions.capacity > 0,
        sessions.entries.len() == sessions.capacity,
        sessions.lookup(session_id) is None,
    ensures
        ({
            let after = sessions.stored(session_id, sources);
            &&& after.capacity == sessions.capacity
            &&& after.lookup(session_id) == Some(sources)
            &&& after.lookup(sessions.entries[0].0) is None
            &&& forall|i: int|
                1 <= i < sessions.entries.len() ==> after.lookup(
                    (#[trigger] sessions.entries[i]).0,
                ) == Some(sessions.entries[i].1)
        }),
{
    let entries = sessions.entries;
    let after = sessions.stored(session_id, sources);
    law_lookup_finds_what_is_kept(sessions, session_id);
    lemma_without_absent(entries, session_id);
    assert(after.entries =~= entries.skip(1).push((session_id, sources)));
    crate::cache::lemma_stored_wf(sessions, session_id, sources);
    law_lookup_finds_what_is_kept(after, session_id);
    law_stored_session_is_found(sessions, session_id, sources);
    let oldest = entries[0].0;
    assert forall|i: int| 0 <= i < after.entries.len() implies (#[trigger] after.entries[i]).0
        != oldest by {
        if i < entries.len() - 1 {
            assert(after.entries[i] == entries[i + 1]);
            assert(entries[0].0 != entries[i + 1].0);
        } else {
            assert(entries[0].0 != session_id);
        }
    }
    law_lookup_finds_what_is_kept(after, oldest);
    assert forall|i: int| 1 <= i < entries.len() implies after.lookup(
        (#[trigger] entries[i]).0,
    ) == Some(entries[i].1) by {
        assert(after.entries[i - 1] == entries[i]);
        law_lookup_finds_what_is_kept(after, entries[i].0);
    }
}

/// A service that has just been set up keeps no session, and never more than it was
/// set up for.
pub proof fn law_new_sessions_are_empty(capacity: nat, session_id: Seq<char>)
    ensures
        CacheView::empty(capacity).lookup(session_id) is None,
        CacheView::empty(capacity).capacity == capacity,
{
}

} // verus!
