//! Page text for the sources of a search. Each page is fetched on its own: a
//! specialist that knows the site goes first, the source backends follow, and a
//! page that cannot be had, or turns out to be empty, gets a note in place of its
//! text.

use crate::error::{text_reply, ErrorView, GrokSearchError};
use crate::fetch::{generic_start, generic_step, GenericFetch, GenericFetchView};
use crate::provider::Backends;
use crate::text::{copy_text, prefix, same_opt_text, same_text, take_chars, text_of};
use crate::urls::{parse_url, parsed_url};
use vstd::prelude::*;
use vstd::string::{StrSliceExecFns, StringExecFns};

verus! {

/// What the note says of a page for which a specialist delivered the empty text.
pub const EMPTY_CONTENT: &'static str = "empty_content";

/// What the specialists report of a page before the deadline.
#[derive(Debug, PartialEq, Eq)]
pub enum Resolution {
    /// The text of the page.
    Text(String),
    /// No text, and why.
    Failed(String),
    /// No report in time.
    TimedOut,
}

/// What the specialists report, as plain values.
pub enum ResolutionView {
    Text(Seq<char>),
    Failed(Seq<char>),
    TimedOut,
}

impl View for Resolution {
    type V = ResolutionView;

    open spec fn view(&self) -> ResolutionView {
        match self {
            Resolution::Text(text) => ResolutionView::Text(text@),
            Resolution::Failed(reason) => ResolutionView::Failed(reason@),
            Resolution::TimedOut => ResolutionView::TimedOut,
        }
    }
}

/// What stands in place of the text of a page that could not be had.
pub open spec fn failure_note(reason: Seq<char>, url: Seq<char>) -> Seq<char> {
    "_Failed to retrieve: "@ + reason + "_\n\nSource: "@ + url
}

/// The text that a source carries for a page that was delivered: its start, or a
/// note with the given reason where the page is empty.
pub open spec fn page_text(
    text: Seq<char>,
    max_chars: nat,
    reason: Seq<char>,
    url: Seq<char>,
) -> Seq<char> {
    if text.len() == 0 {
        failure_note(reason, url)
    } else {
        prefix(text, max_chars)
    }
}

/// What stands in place of the text of a page that could not be had.
pub(crate) fn note(reason: &str, url: &str) -> (text: String)
    ensures
        text@ == failure_note(reason@, url@),
{
    "_Failed to retrieve: ".to_owned().concat(reason).concat("_\n\nSource: ").concat(url)
}

/// The text that a source carries for a page that was delivered.
fn carry(text: &str, max_chars: usize, reason: &str, url: &str) -> (carried: String)
    ensures
        carried@ == page_text(text@, max_chars as nat, reason@, url@),
{
    if text.unicode_len() == 0 {
        note(reason, url)
    } else {
        take_chars(text, max_chars)
    }
}

/// Where the fetch of one page stands.
#[derive(Debug, PartialEq, Eq)]
pub enum EnrichStage {
    /// The specialists are to be asked for the page at this address.
    Resolve { parsed: String },
    /// The source backends are to be asked; the specialists had none for this reason.
    Generic { fetch: GenericFetch, reason: String },
    /// This is the text that the source is to carry.
    Done(String),
}

/// Where the fetch of one page stands, as plain values.
pub enum EnrichStageView {
    Resolve { parsed: Seq<char> },
    Generic { fetch: GenericFetchView, reason: Seq<char> },
    Done(Seq<char>),
}

impl View for EnrichStage {
    type V = EnrichStageView;

    open spec fn view(&self) -> EnrichStageView {
        match self {
            EnrichStage::Resolve { parsed } => EnrichStageView::Resolve { parsed: parsed@ },
            EnrichStage::Generic { fetch, reason } => EnrichStageView::Generic {
                fetch: fetch@,
                reason: reason@,
            },
            EnrichStage::Done(text) => EnrichStageView::Done(text@),
        }
    }
}

/// The fetch of the page of one source.
#[derive(Debug, PartialEq, Eq)]
pub struct EnrichJob {
    /// The place of the source in its list.
    index: usize,
    url: String,
    /// The address in normal form, where it is one.
    parsed: Option<String>,
    max_chars: usize,
    backends: Backends,
    stage: EnrichStage,
}

/// The fetch of the page of one source, as plain values.
pub struct JobView {
    pub index: nat,
    pub url: Seq<char>,
    pub parsed: Option<Seq<char>>,
    pub max_chars: nat,
    pub backends: Backends,
    pub stage: EnrichStageView,
}

impl View for EnrichJob {
    type V = JobView;

    closed spec fn view(&self) -> JobView {
        JobView {
            index: self.index as nat,
            url: self.url@,
            parsed: text_of(self.parsed),
            max_chars: self.max_chars as nat,
            backends: self.backends,
            stage: self.stage@,
        }
    }
}

/// The stage that a fetch through the source backends amounts to. Where they have
/// no text either, or an empty one, the note gives the reason of the specialists.
pub open spec fn generic_stage(
    url: Seq<char>,
    max_chars: nat,
    fetch: GenericFetchView,
    reason: Seq<char>,
) -> EnrichStageView {
    match fetch {
        GenericFetchView::Done(Ok(text)) => EnrichStageView::Done(
            page_text(text, max_chars, reason, url),
        ),
        GenericFetchView::Done(Err(_)) => EnrichStageView::Done(failure_note(reason, url)),
        _ => EnrichStageView::Generic { fetch, reason },
    }
}

/// Where the fetch of one page begins, given its address in normal form.
pub open spec fn job_start(
    index: nat,
    url: Seq<char>,
    parsed: Option<Seq<char>>,
    max_chars: nat,
    backends: Backends,
) -> JobView {
    JobView {
        index,
        url,
        parsed,
        max_chars,
        backends,
        stage: match parsed {
            Some(parsed) => EnrichStageView::Resolve { parsed },
            None => EnrichStageView::Done(failure_note("invalid_url"@, url)),
        },
    }
}

/// How the fetch goes on once the specialists have reported, or failed to in time.
pub open spec fn after_resolution(job: JobView, outcome: ResolutionView) -> JobView {
    match job.stage {
        EnrichStageView::Resolve { .. } => JobView {
            stage: match outcome {
                ResolutionView::Text(text) => EnrichStageView::Done(
                    page_text(text, job.max_chars, EMPTY_CONTENT@, job.url),
                ),
                ResolutionView::Failed(reason) => generic_stage(
                    job.url,
                    job.max_chars,
                    generic_start(job.backends),
                    reason,
                ),
                ResolutionView::TimedOut => EnrichStageView::Done(
                    failure_note("timeout"@, job.url),
                ),
            },
            ..job
        },
        _ => job,
    }
}

/// How the fetch goes on once the backend that was asked has replied.
pub open spec fn after_reply(job: JobView, reply: Result<Seq<char>, ErrorView>) -> JobView {
    match job.stage {
        EnrichStageView::Generic { fetch, reason } => JobView {
            stage: generic_stage(job.url, job.max_chars, generic_step(fetch, reply), reason),
            ..job
        },
        _ => job,
    }
}

/// How the fetch ends where the backends do not reply in time.
pub open spec fn after_deadline(job: JobView) -> JobView {
    match job.stage {
        EnrichStageView::Generic { .. } => JobView {
            stage: EnrichStageView::Done(failure_note("timeout"@, job.url)),
            ..job
        },
        _ => job,
    }
}

/// The text that a source carries, given the address of its page in normal form,
/// what the specialists report, and what the source backends come to (nothing
/// where they do not in time).
pub open spec fn enriched_text(
    url: Seq<char>,
    parsed: Option<Seq<char>>,
    max_chars: nat,
    outcome: ResolutionView,
    generic: Option<Result<Seq<char>, ErrorView>>,
) -> Seq<char> {
    if parsed is None {
        failure_note("invalid_url"@, url)
    } else {
        match (outcome, generic) {
            (ResolutionView::Text(text), _) => page_text(text, max_chars, EMPTY_CONTENT@, url),
            (ResolutionView::TimedOut, _) => failure_note("timeout"@, url),
            (ResolutionView::Failed(_), None) => failure_note("timeout"@, url),
            (ResolutionView::Failed(reason), Some(Ok(text))) => page_text(
                text,
                max_chars,
                reason,
                url,
            ),
            (ResolutionView::Failed(reason), Some(Err(_))) => failure_note(reason, url),
        }
    }
}

/// Whether a text is one that the fetch of a page can come to.
pub open spec fn can_deliver(
    url: Seq<char>,
    parsed: Option<Seq<char>>,
    max_chars: nat,
    text: Seq<char>,
) -> bool {
    exists|outcome: ResolutionView, generic: Option<Result<Seq<char>, ErrorView>>|
        text == #[trigger] enriched_text(url, parsed, max_chars, outcome, generic)
}

impl JobView {
    /// What holds of every fetch: it asks only for pages that have an address, and
    /// the text that it ends with is one that the replies to it amount to.
    pub open spec fn wf(self) -> bool {
        match self.stage {
            EnrichStageView::Resolve { parsed } => self.parsed == Some(parsed),
            EnrichStageView::Generic { .. } => self.parsed is Some,
            EnrichStageView::Done(text) => can_deliver(
                self.url,
                self.parsed,
                self.max_chars,
                text,
            ),
        }
    }

    /// The text that the fetch has come to, where it is over and was for the page
    /// with the given address and limit.
    pub open spec fn text_for(
        self,
        url: Seq<char>,
        parsed: Option<Seq<char>>,
        max_chars: nat,
    ) -> Option<Seq<char>> {
        match self.stage {
            EnrichStageView::Done(text) => if self.url == url && self.parsed == parsed
                && self.max_chars == max_chars {
                Some(text)
            } else {
                None
            },
            _ => None,
        }
    }
}

/// The stage that a fetch through the source backends amounts to.
fn settle(url: &str, max_chars: usize, fetch: GenericFetch, reason: String) -> (stage: EnrichStage)
    ensures
        stage@ == generic_stage(url@, max_chars as nat, fetch@, reason@),
{
    match fetch {
        GenericFetch::Done(Ok(text)) => EnrichStage::Done(
            carry(text.as_str(), max_chars, reason.as_str(), url),
        ),
        GenericFetch::Done(Err(_)) => EnrichStage::Done(note(reason.as_str(), url)),
        fetch => EnrichStage::Generic { fetch, reason },
    }
}

/// Whatever the replies, the fetch of a page keeps to what holds of every fetch.
proof fn lemma_wf(job: JobView)
    requires
        job.wf(),
    ensures
        forall|outcome: ResolutionView| #[trigger] after_resolution(job, outcome).wf(),
        forall|reply: Result<Seq<char>, ErrorView>| #[trigger] after_reply(job, reply).wf(),
        after_deadline(job).wf(),
{
    assert forall|outcome: ResolutionView| #[trigger] after_resolution(job, outcome).wf() by {
        let next = after_resolution(job, outcome);
        if job.stage is Resolve && next.stage is Done {
            let generic = generic_start(job.backends);
            let result = match generic {
                GenericFetchView::Done(result) => Some(result),
                _ => None,
            };
            assert(next.stage->Done_0 == enriched_text(
                job.url,
                job.parsed,
                job.max_chars,
                outcome,
                result,
            ));
        }
    }
    if let EnrichStageView::Generic { fetch, reason } = job.stage {
        let outcome = ResolutionView::Failed(reason);
        assert forall|reply: Result<Seq<char>, ErrorView>| #[trigger]
            after_reply(job, reply).wf() by {
            let next = after_reply(job, reply);
            if next.stage is Done {
                assert(next.stage->Done_0 == enriched_text(
                    job.url,
                    job.parsed,
                    job.max_chars,
                    outcome,
                    Some(generic_step(fetch, reply)->Done_0),
                ));
            }
        }
        assert(after_deadline(job).stage->Done_0 == enriched_text(
            job.url,
            job.parsed,
            job.max_chars,
            outcome,
            None,
        ));
    }
}

impl EnrichJob {
    #[verifier::type_invariant]
    spec fn inv(self) -> bool {
        self@.wf()
    }

    /// Where the fetch of one page begins, given its address in normal form.
    pub fn begin(
        index: usize,
        url: String,
        parsed: Option<String>,
        max_chars: usize,
        backends: Backends,
    ) -> (job: EnrichJob)
        ensures
            job@ == job_start(index as nat, url@, text_of(parsed), max_chars as nat, backends),
    {
        let stage = match copy_text(&parsed) {
            Some(parsed) => EnrichStage::Resolve { parsed },
            None => EnrichStage::Done(note("invalid_url", url.as_str())),
        };
        proof {
            let text = enriched_text(
                url@,
                text_of(parsed),
                max_chars as nat,
                ResolutionView::TimedOut,
                None,
            );
            assert(stage@ is Done ==> stage@->Done_0 == text);
        }
        EnrichJob { index, url, parsed, max_chars, backends, stage }
    }

    /// Where the fetch of one page begins.
    pub fn start(index: usize, url: String, max_chars: usize, backends: Backends) -> (job:
        EnrichJob)
        ensures
            job@ == job_start(index as nat, url@, parsed_url(url@), max_chars as nat, backends),
    {
        let parsed = parse_url(url.as_str());
        EnrichJob::begin(index, url, parsed, max_chars, backends)
    }

    /// The same fetch at another stage.
    fn at(self, stage: EnrichStage) -> (job: EnrichJob)
        requires
            (JobView { stage: stage@, ..self@ }).wf(),
        ensures
            job@ == (JobView { stage: stage@, ..self@ }),
    {
        EnrichJob {
            index: self.index,
            url: self.url,
            parsed: self.parsed,
            max_chars: self.max_chars,
            backends: self.backends,
            stage,
        }
    }

    /// The place of the source in its list.
    pub fn index(&self) -> (index: usize)
        ensures
            index == self@.index,
    {
        self.index
    }

    /// The address of the page.
    pub fn url(&self) -> (url: &str)
        ensures
            url@ == self@.url,
    {
        self.url.as_str()
    }

    /// Where the fetch stands.
    pub fn stage(&self) -> (stage: &EnrichStage)
        ensures
            stage@ == self@.stage,
    {
        &self.stage
    }

    /// The text that the fetch has come to, where it is over and was for the page
    /// with the given address and limit.
    pub fn text_for(&self, url: &str, parsed: &Option<String>, max_chars: usize) -> (text: Option<
        String,
    >)
        ensures
            text_of(text) == self@.text_for(url@, text_of(*parsed), max_chars as nat),
            text is Some ==> can_deliver(url@, text_of(*parsed), max_chars as nat, text->0@),
    {
        proof {
            use_type_invariant(self);
        }
        match &self.stage {
            EnrichStage::Done(text) => if same_text(self.url.as_str(), url) && same_opt_text(
                &self.parsed,
                parsed,
            ) && self.max_chars == max_chars {
                Some(text.clone())
            } else {
                None
            },
            _ => None,
        }
    }

    /// How the fetch goes on once the specialists have reported, or failed to in
    /// time.
    pub fn on_resolved(self, outcome: Resolution) -> (job: EnrichJob)
        ensures
            job@ == after_resolution(self@, outcome@),
    {
        proof {
            use_type_invariant(&self);
            lemma_wf(self@);
        }
        let stage = match &self.stage {
            EnrichStage::Resolve { .. } => match outcome {
                Resolution::Text(text) => EnrichStage::Done(
                    carry(text.as_str(), self.max_chars, EMPTY_CONTENT, self.url.as_str()),
                ),
                Resolution::Failed(reason) => settle(
                    self.url.as_str(),
                    self.max_chars,
                    GenericFetch::start(self.backends),
                    reason,
                ),
                Resolution::TimedOut => EnrichStage::Done(note("timeout", self.url.as_str())),
            },
            _ => return self,
        };
        assert((JobView { stage: stage@, ..self@ }) == after_resolution(self@, outcome@));
        self.at(stage)
    }

    /// How the fetch goes on once the backend that was asked has replied.
    pub fn on_reply(self, reply: Result<String, GrokSearchError>) -> (job: EnrichJob)
        ensures
            job@ == after_reply(self@, text_reply(reply)),
    {
        proof {
            use_type_invariant(&self);
            lemma_wf(self@);
        }
        let ghost given = self@;
        match self.stage {
            EnrichStage::Generic { fetch, reason } => {
                let stage = settle(
                    self.url.as_str(),
                    self.max_chars,
                    fetch.on_reply(reply),
                    reason,
                );
                assert((JobView { stage: stage@, ..given }) == after_reply(
                    given,
                    text_reply(reply),
                ));
                EnrichJob {
                    index: self.index,
                    url: self.url,
                    parsed: self.parsed,
                    max_chars: self.max_chars,
                    backends: self.backends,
                    stage,
                }
            },
            _ => self,
        }
    }

    /// How the fetch ends where the backends do not reply in time.
    pub fn on_deadline(self) -> (job: EnrichJob)
        ensures
            job@ == after_deadline(self@),
    {
        proof {
            use_type_invariant(&self);
            lemma_wf(self@);
        }
        let stage = match &self.stage {
            EnrichStage::Generic { .. } => EnrichStage::Done(note("timeout", self.url.as_str())),
            _ => return self,
        };
        assert((JobView { stage: stage@, ..self@ }) == after_deadline(self@));
        self.at(stage)
    }
}

} // verus!
