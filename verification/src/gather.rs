//! Supplemental sources: the primary source backend is asked first, and the
//! fallback only where the primary has none.

use crate::answer::RawSourceOrigin;
use crate::error::{ErrorView, GrokSearchError};
use crate::model::search::SearchFilters;
use crate::model::source::{sources_of, sources_reply, Source, SourceView};
use crate::provider::{Backends, SourceProvider};
use vstd::prelude::*;

verus! {

/// The search for supplemental sources, as far as it has come.
#[derive(Debug, PartialEq, Eq)]
pub enum SourceGathering {
    /// The primary backend is to be asked.
    AskPrimary { has_fallback: bool },
    /// The fallback backend is to be asked.
    AskFallback,
    /// The search is over.
    Done { sources: Vec<Source>, origin: RawSourceOrigin },
}

/// The search for supplemental sources, as plain values.
pub enum GatheringView {
    AskPrimary { has_fallback: bool },
    AskFallback,
    Done { sources: Seq<SourceView>, origin: RawSourceOrigin },
}

impl View for SourceGathering {
    type V = GatheringView;

    open spec fn view(&self) -> GatheringView {
        match self {
            SourceGathering::AskPrimary { has_fallback } => GatheringView::AskPrimary {
                has_fallback: *has_fallback,
            },
            SourceGathering::AskFallback => GatheringView::AskFallback,
            SourceGathering::Done { sources, origin } => GatheringView::Done {
                sources: sources_of(sources@),
                origin: *origin,
            },
        }
    }
}

/// A search that found nothing.
pub open spec fn nothing() -> GatheringView {
    GatheringView::Done { sources: Seq::empty(), origin: RawSourceOrigin::Absent }
}

/// Where the search begins. Nobody is asked for no sources.
pub open spec fn gathering_start(count: nat, backends: Backends) -> GatheringView {
    if count == 0 {
        nothing()
    } else if backends.primary {
        GatheringView::AskPrimary { has_fallback: backends.fallback }
    } else if backends.fallback {
        GatheringView::AskFallback
    } else {
        nothing()
    }
}

/// Whether a reply holds sources.
pub open spec fn found(reply: Result<Seq<SourceView>, ErrorView>) -> bool {
    reply is Ok && reply->Ok_0.len() > 0
}

/// How the search goes on once the backend that was asked has replied.
pub open spec fn gathering_step(
    state: GatheringView,
    reply: Result<Seq<SourceView>, ErrorView>,
) -> GatheringView {
    match state {
        GatheringView::AskPrimary { has_fallback } => if found(reply) {
            GatheringView::Done { sources: reply->Ok_0, origin: RawSourceOrigin::Primary }
        } else if has_fallback {
            GatheringView::AskFallback
        } else {
            nothing()
        },
        GatheringView::AskFallback => if found(reply) {
            GatheringView::Done { sources: reply->Ok_0, origin: RawSourceOrigin::Fallback }
        } else {
            nothing()
        },
        GatheringView::Done { .. } => state,
    }
}

/// What the search comes to, given what each configured backend replies.
pub open spec fn gathered(
    count: nat,
    primary: Option<Result<Seq<SourceView>, ErrorView>>,
    fallback: Option<Result<Seq<SourceView>, ErrorView>>,
) -> (Seq<SourceView>, RawSourceOrigin) {
    if count > 0 && primary is Some && found(primary->0) {
        (primary->0->Ok_0, RawSourceOrigin::Primary)
    } else if count > 0 && fallback is Some && found(fallback->0) {
        (fallback->0->Ok_0, RawSourceOrigin::Fallback)
    } else {
        (Seq::empty(), RawSourceOrigin::Absent)
    }
}

/// A search that found nothing.
fn no_sources() -> (state: SourceGathering)
    ensures
        state@ == nothing(),
{
    let sources: Vec<Source> = Vec::new();
    assert(sources_of(sources@) =~= Seq::empty());
    SourceGathering::Done { sources, origin: RawSourceOrigin::Absent }
}

impl SourceGathering {
    /// Where the search begins.
    pub fn start(count: usize, backends: Backends) -> (state: SourceGathering)
        ensures
            state@ == gathering_start(count as nat, backends),
    {
        if count == 0 {
            no_sources()
        } else if backends.primary {
            SourceGathering::AskPrimary { has_fallback: backends.fallback }
        } else if backends.fallback {
            SourceGathering::AskFallback
        } else {
            no_sources()
        }
    }

    /// How the search goes on once the backend that was asked has replied. A
    /// failure counts as having found nothing.
    pub fn on_reply(self, reply: Result<Vec<Source>, GrokSearchError>) -> (state: SourceGathering)
        ensures
            state@ == gathering_step(self@, sources_reply(reply)),
    {
        match self {
            SourceGathering::AskPrimary { has_fallback } => {
                if let Ok(sources) = reply {
                    if sources.len() > 0 {
                        return SourceGathering::Done { sources, origin: RawSourceOrigin::Primary };
                    }
                }
                if has_fallback {
                    SourceGathering::AskFallback
                } else {
                    no_sources()
                }
            },
            SourceGathering::AskFallback => {
                if let Ok(sources) = reply {
                    if sources.len() > 0 {
                        return SourceGathering::Done { sources, origin: RawSourceOrigin::Fallback };
                    }
                }
                no_sources()
            },
            SourceGathering::Done { sources, origin } => SourceGathering::Done { sources, origin },
        }
    }
}

/// The reply of a backend as plain values.
pub open spec fn opt_sources_reply(reply: Option<Result<Vec<Source>, GrokSearchError>>) -> Option<
    Result<Seq<SourceView>, ErrorView>,
> {
    match reply {
        Some(reply) => Some(sources_reply(reply)),
        None => None,
    }
}

/// Whether the reply is one that the backend may give to the query; there is one
/// exactly where there is a backend.
pub open spec fn search_reply<P: SourceProvider>(
    provider: Option<P>,
    query: &str,
    count: usize,
    filters: &SearchFilters,
    reply: Option<Result<Vec<Source>, GrokSearchError>>,
) -> bool {
    match (provider, reply) {
        (Some(provider), Some(reply)) => call_ensures(
            P::search_sources,
            (&provider, query, count, filters),
            reply,
        ),
        (None, None) => true,
        _ => false,
    }
}

/// Asks the configured source backends for `count` sources, the primary one
/// first, and says which of them delivered. The fallback is asked only where the
/// primary has none; for no sources nobody is asked.
pub fn fetch_raw_extra_sources<P: SourceProvider, F: SourceProvider>(
    primary: &Option<P>,
    fallback: &Option<F>,
    query: &str,
    count: usize,
    filters: &SearchFilters,
) -> (result: (Vec<Source>, RawSourceOrigin))
    ensures
        exists|
            first: Option<Result<Vec<Source>, GrokSearchError>>,
            second: Option<Result<Vec<Source>, GrokSearchError>>,
        |
            #![trigger opt_sources_reply(first), opt_sources_reply(second)]
            {
                let answered = first is Some && found(sources_reply(first->0));
                &&& count > 0 ==> search_reply(*primary, query, count, filters, first)
                &&& count > 0 && !answered ==> search_reply(
                    *fallback,
                    query,
                    count,
                    filters,
                    second,
                )
                &&& (sources_of(result.0@), result.1) == gathered(
                    count as nat,
                    opt_sources_reply(first),
                    opt_sources_reply(second),
                )
            },
{
    let backends = Backends { primary: primary.is_some(), fallback: fallback.is_some() };
    let ghost mut first: Option<Result<Vec<Source>, GrokSearchError>> = None;
    let ghost mut second: Option<Result<Vec<Source>, GrokSearchError>> = None;
    let mut state = SourceGathering::start(count, backends);
    if let SourceGathering::AskPrimary { .. } = state {
        if let Some(provider) = primary {
            let reply = provider.search_sources(query, count, filters);
            proof {
                first = Some(reply);
            }
            state = state.on_reply(reply);
        }
    }
    if let SourceGathering::AskFallback = state {
        if let Some(provider) = fallback {
            let reply = provider.search_sources(query, count, filters);
            proof {
                second = Some(reply);
            }
            state = state.on_reply(reply);
        }
    }
    assert(opt_sources_reply(first) is Some == first is Some);
    assert(opt_sources_reply(second) is Some == second is Some);
    match state {
        SourceGathering::Done { sources, origin } => (sources, origin),
        _ => {
            assert(false);
            (Vec::new(), RawSourceOrigin::Absent)
        },
    }
}

} // verus!
