//! Pages of the sources that are kept for a session.

use crate::budget::{budgeted, lemma_no_more_sources, trim_sources};
use crate::model::source::{sources_of, Source, SourceView};
use crate::model::tool::{GetSourcesOutput, PageView};
use vstd::prelude::*;

verus! {

/// Where a page starts: at the offset, or at the end where that is further.
pub open spec fn page_start(total: nat, offset: nat) -> nat {
    if offset <= total {
        offset
    } else {
        total
    }
}

/// Where a page ends at the latest: after `limit` sources, or with the last one.
pub open spec fn page_end(total: nat, offset: nat, limit: Option<nat>) -> nat {
    let start = page_start(total, offset);
    match limit {
        Some(limit) => if start + limit <= total {
            start + limit
        } else {
            total
        },
        None => total,
    }
}

/// The sources between the ends of a page, uncut.
pub open spec fn page_sources(sources: Seq<SourceView>, offset: nat, limit: Option<nat>) -> Seq<
    SourceView,
> {
    sources.subrange(
        page_start(sources.len(), offset) as int,
        page_end(sources.len(), offset, limit) as int,
    )
}

/// One page of a session. It is cut to the budget like any response, and the next
/// one starts behind the last source that it returns. A note on it names the place
/// of its source in the session, not on the page.
pub open spec fn page(
    session_id: Seq<char>,
    sources: Seq<SourceView>,
    offset: nat,
    limit: Option<nat>,
    budget: nat,
) -> PageView {
    let uncut = page_sources(sources, offset, limit);
    let start = page_start(sources.len(), offset);
    let kept = budgeted(0, uncut, budget, session_id, start);
    let served = start + kept.len();
    PageView {
        session_id,
        sources_count: kept.len(),
        sources: kept,
        total_sources: sources.len(),
        offset,
        next_offset: if served < sources.len() {
            Some(served)
        } else {
            None
        },
        truncated: kept != uncut,
    }
}

/// A limit as a plain number.
pub open spec fn limit_of(limit: Option<usize>) -> Option<nat> {
    match limit {
        Some(limit) => Some(limit as nat),
        None => None,
    }
}

/// One page of a session. An offset behind the end gives an empty page.
pub fn source_page(
    session_id: &str,
    sources: Vec<Source>,
    offset: usize,
    limit: Option<usize>,
    budget: usize,
) -> (output: GetSourcesOutput)
    ensures
        output@ == page(
            session_id@,
            sources_of(sources@),
            offset as nat,
            limit_of(limit),
            budget as nat,
        ),
{
    let ghost all = sources_of(sources@);
    let total_sources = sources.len();
    let start = if offset <= total_sources {
        offset
    } else {
        total_sources
    };
    let end = match limit {
        Some(limit) => if limit <= total_sources - start {
            start + limit
        } else {
            total_sources
        },
        None => total_sources,
    };
    let mut rest = sources;
    let mut kept = rest.split_off(start);
    kept.truncate(end - start);
    assert(sources_of(kept@) =~= page_sources(all, offset as nat, limit_of(limit)));
    let truncated = trim_sources(0, &mut kept, budget, session_id, start);
    proof {
        lemma_no_more_sources(
            0,
            page_sources(all, offset as nat, limit_of(limit)),
            budget as nat,
            session_id@,
            start as nat,
        );
        assert(sources_of(kept@).len() == kept.len());
    }
    let served_end = start + kept.len();
    GetSourcesOutput {
        session_id: session_id.to_owned(),
        sources_count: kept.len(),
        sources: kept,
        total_sources,
        offset,
        next_offset: if served_end < total_sources {
            Some(served_end)
        } else {
            None
        },
        truncated,
    }
}

} // verus!
