//! The pages of a site, as the source backends list them.

use crate::error::{ErrorView, GrokSearchError};
use crate::gather::{found, opt_sources_reply};
use crate::model::source::{sources_reply, Source, SourceView};
use crate::provider::{no_backend, no_backend_error, Backends, SourceProvider};
use vstd::prelude::*;

verus! {

/// The listing of a site, as far as it has come.
#[derive(Debug, PartialEq, Eq)]
pub enum SiteMapStage {
    /// The primary backend is to list the site.
    AskPrimary { has_fallback: bool },
    /// The fallback backend is to list the site.
    AskFallback,
    /// The listing is over.
    Done(Result<Vec<Source>, GrokSearchError>),
}

/// The listing of a site, as plain values.
pub enum SiteMapView {
    AskPrimary { has_fallback: bool },
    AskFallback,
    Done(Result<Seq<SourceView>, ErrorView>),
}

impl View for SiteMapStage {
    type V = SiteMapView;

    open spec fn view(&self) -> SiteMapView {
        match self {
            SiteMapStage::AskPrimary { has_fallback } => SiteMapView::AskPrimary {
                has_fallback: *has_fallback,
            },
            SiteMapStage::AskFallback => SiteMapView::AskFallback,
            SiteMapStage::Done(reply) => SiteMapView::Done(sources_reply(*reply)),
        }
    }
}

/// Where a listing begins.
pub open spec fn map_start(backends: Backends) -> SiteMapView {
    if backends.primary {
        SiteMapView::AskPrimary { has_fallback: backends.fallback }
    } else if backends.fallback {
        SiteMapView::AskFallback
    } else {
        SiteMapView::Done(Err(no_backend()))
    }
}

/// What is reported where the primary backend listed nothing and no other is
/// configured.
pub open spec fn primary_map_failure(reply: Result<Seq<SourceView>, ErrorView>) -> ErrorView {
    match reply {
        Ok(_) => ErrorView::Provider("primary map provider returned no sources"@),
        Err(error) => error,
    }
}

/// How a listing goes on once the backend that was asked has replied.
pub open spec fn map_step(
    state: SiteMapView,
    reply: Result<Seq<SourceView>, ErrorView>,
) -> SiteMapView {
    match state {
        SiteMapView::AskPrimary { has_fallback } => if found(reply) {
            SiteMapView::Done(reply)
        } else if has_fallback {
            SiteMapView::AskFallback
        } else {
            SiteMapView::Done(Err(primary_map_failure(reply)))
        },
        SiteMapView::AskFallback => SiteMapView::Done(reply),
        SiteMapView::Done(_) => state,
    }
}

/// What a listing comes to, given what each configured backend replies: the pages
/// of the primary one where it lists any, else whatever the fallback replies,
/// else the failure of the primary one.
pub open spec fn map_result(
    primary: Option<Result<Seq<SourceView>, ErrorView>>,
    fallback: Option<Result<Seq<SourceView>, ErrorView>>,
) -> Result<Seq<SourceView>, ErrorView> {
    match (primary, fallback) {
        (Some(reply), None) => if found(reply) {
            reply
        } else {
            Err(primary_map_failure(reply))
        },
        (Some(reply), Some(other)) => if found(reply) {
            reply
        } else {
            other
        },
        (None, Some(other)) => other,
        (None, None) => Err(no_backend()),
    }
}

impl SiteMapStage {
    /// Where a listing begins.
    pub fn start(backends: Backends) -> (state: SiteMapStage)
        ensures
            state@ == map_start(backends),
    {
        if backends.primary {
            SiteMapStage::AskPrimary { has_fallback: backends.fallback }
        } else if backends.fallback {
            SiteMapStage::AskFallback
        } else {
            SiteMapStage::Done(Err(no_backend_error()))
        }
    }

    /// How the listing goes on once the backend that was asked has replied.
    pub fn on_reply(self, reply: Result<Vec<Source>, GrokSearchError>) -> (state: SiteMapStage)
        ensures
            state@ == map_step(self@, sources_reply(reply)),
    {
        match self {
            SiteMapStage::AskPrimary { has_fallback } => {
                let listed = match &reply {
                    Ok(sources) => sources.len() > 0,
                    Err(_) => false,
                };
                if listed {
                    return SiteMapStage::Done(reply);
                }
                if has_fallback {
                    return SiteMapStage::AskFallback;
                }
                match reply {
                    Ok(_) => SiteMapStage::Done(
                        Err(
                            GrokSearchError::Provider(
                                "primary map provider returned no sources".to_owned(),
                            ),
                        ),
                    ),
                    Err(error) => SiteMapStage::Done(Err(error)),
                }
            },
            SiteMapStage::AskFallback => SiteMapStage::Done(reply),
            SiteMapStage::Done(result) => SiteMapStage::Done(result),
        }
    }
}

/// The listing of one site: which, and how many of its pages.
#[derive(Debug, PartialEq, Eq)]
pub struct WebMapRun {
    pub url: String,
    pub max_results: usize,
    pub stage: SiteMapStage,
}

/// The listing of one site, as plain values.
pub struct MapRunView {
    pub url: Seq<char>,
    pub max_results: nat,
    pub stage: SiteMapView,
}

impl View for WebMapRun {
    type V = MapRunView;

    open spec fn view(&self) -> MapRunView {
        MapRunView {
            url: self.url@,
            max_results: self.max_results as nat,
            stage: self.stage@,
        }
    }
}

impl WebMapRun {
    /// Where the listing of a site begins.
    pub fn start(url: &str, max_results: usize, backends: Backends) -> (run: WebMapRun)
        ensures
            run@ == (MapRunView {
                url: url@,
                max_results: max_results as nat,
                stage: map_start(backends),
            }),
    {
        WebMapRun { url: url.to_owned(), max_results, stage: SiteMapStage::start(backends) }
    }

    /// How the listing goes on once the backend that was asked has replied.
    pub fn on_reply(self, reply: Result<Vec<Source>, GrokSearchError>) -> (run: WebMapRun)
        ensures
            run@ == (MapRunView { stage: map_step(self@.stage, sources_reply(reply)), ..self@ }),
    {
        WebMapRun {
            url: self.url,
            max_results: self.max_results,
            stage: self.stage.on_reply(reply),
        }
    }
}

/// Whether the reply is one that the backend may give for the site; there is one
/// exactly where there is a backend.
pub open spec fn map_reply<P: SourceProvider>(
    provider: Option<P>,
    url: &str,
    max_results: usize,
    reply: Option<Result<Vec<Source>, GrokSearchError>>,
) -> bool {
    match (provider, reply) {
        (Some(provider), Some(reply)) => call_ensures(P::map, (&provider, url, max_results), reply),
        (None, None) => true,
        _ => false,
    }
}

/// Lists a site through the configured source backends, the primary one first.
/// The fallback is asked only where the primary lists nothing.
pub fn map_site<P: SourceProvider, F: SourceProvider>(
    primary: &Option<P>,
    fallback: &Option<F>,
    url: &str,
    max_results: usize,
) -> (result: Result<Vec<Source>, GrokSearchError>)
    ensures
        exists|
            first: Option<Result<Vec<Source>, GrokSearchError>>,
            second: Option<Result<Vec<Source>, GrokSearchError>>,
        |
            #![trigger opt_sources_reply(first), opt_sources_reply(second)]
            {
                let answered = first is Some && found(sources_reply(first->0));
                &&& map_reply(*primary, url, max_results, first)
                &&& !answered ==> map_reply(*fallback, url, max_results, second)
                &&& sources_reply(result) == map_result(
                    opt_sources_reply(first),
                    opt_sources_reply(second),
                )
            },
{
    let backends = Backends { primary: primary.is_some(), fallback: fallback.is_some() };
    let ghost mut first: Option<Result<Vec<Source>, GrokSearchError>> = None;
    let ghost mut second: Option<Result<Vec<Source>, GrokSearchError>> = None;
    let mut state = SiteMapStage::start(backends);
    if let Some(provider) = primary {
        let reply = provider.map(url, max_results);
        proof {
            first = Some(reply);
        }
        state = state.on_reply(reply);
    }
    if let SiteMapStage::AskFallback = state {
        if let Some(provider) = fallback {
            let reply = provider.map(url, max_results);
            proof {
                second = Some(reply);
            }
            state = state.on_reply(reply);
        }
    }
    assert(opt_sources_reply(first) is Some == first is Some);
    assert(opt_sources_reply(second) is Some == second is Some);
    match state {
        SiteMapStage::Done(result) => result,
        _ => {
            assert(false);
            Err(no_backend_error())
        },
    }
}

} // verus!
