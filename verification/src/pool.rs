//! The page fetches of one search: only so many at a time, each source once.

use crate::enrich::{can_deliver, failure_note, job_start, note, EnrichJob, JobView};
use crate::model::source::{sources_of, Source, SourceView};
use crate::provider::Backends;
use crate::text::{copy_text, text_of, texts_of};
use crate::urls::{parse_url, parsed_url};
use vstd::prelude::*;

verus! {

/// What the note says of a page whose fetch broke off.
pub const INTERRUPTED: &'static str = "interrupted";

/// The page fetches of one search.
#[derive(Debug, PartialEq, Eq)]
pub struct EnrichPool {
    /// The addresses of the sources that are to carry page text.
    urls: Vec<String>,
    /// These addresses in normal form, where they are addresses.
    parsed: Vec<Option<String>>,
    max_chars: usize,
    backends: Backends,
    /// How many fetches may run at the same time.
    concurrency: usize,
    /// The first source whose fetch has not been started.
    next: usize,
    /// The sources whose fetch is running.
    running: Vec<usize>,
    /// The texts that have come in, in the order in which they came.
    results: Vec<(usize, String)>,
}

/// The page fetches of one search, as plain values.
#[verifier::ext_equal]
pub struct PoolView {
    pub urls: Seq<Seq<char>>,
    pub parsed: Seq<Option<Seq<char>>>,
    pub max_chars: nat,
    pub backends: Backends,
    pub concurrency: nat,
    pub next: nat,
    pub running: Seq<usize>,
    pub results: Seq<(usize, Seq<char>)>,
}

/// The texts that have come in, as plain values.
pub open spec fn results_of(results: Seq<(usize, String)>) -> Seq<(usize, Seq<char>)> {
    Seq::new(results.len(), |i: int| (results[i].0, results[i].1@))
}

/// Addresses in normal form, as plain values.
pub open spec fn parsed_of(parsed: Seq<Option<String>>) -> Seq<Option<Seq<char>>> {
    Seq::new(parsed.len(), |i: int| text_of(parsed[i]))
}

impl View for EnrichPool {
    type V = PoolView;

    closed spec fn view(&self) -> PoolView {
        PoolView {
            urls: texts_of(self.urls@),
            parsed: parsed_of(self.parsed@),
            max_chars: self.max_chars as nat,
            backends: self.backends,
            concurrency: self.concurrency as nat,
            next: self.next as nat,
            running: self.running@,
            results: results_of(self.results@),
        }
    }
}

/// The text that came in for a source; the last, where there are several.
pub open spec fn text_for(results: Seq<(usize, Seq<char>)>, index: int) -> Option<Seq<char>>
    decreases results.len(),
{
    if results.len() == 0 {
        None
    } else if results.last().0 == index {
        Some(results.last().1)
    } else {
        text_for(results.drop_last(), index)
    }
}

/// The sources with the texts that came in for them.
pub open spec fn enriched(
    sources: Seq<SourceView>,
    results: Seq<(usize, Seq<char>)>,
) -> Seq<SourceView> {
    Seq::new(
        sources.len(),
        |i: int|
            match text_for(results, i) {
                Some(text) => sources[i].with_content(Some(text)),
                None => sources[i],
            },
    )
}

impl PoolView {
    /// Where the fetches for a list of sources begin.
    pub open spec fn start(
        sources: Seq<SourceView>,
        max_sources: nat,
        max_chars: nat,
        concurrency: nat,
        backends: Backends,
    ) -> PoolView {
        let count = if sources.len() < max_sources {
            sources.len()
        } else {
            max_sources
        };
        PoolView {
            urls: Seq::new(count, |i: int| sources[i].url),
            parsed: Seq::new(count, |i: int| parsed_url(sources[i].url)),
            max_chars,
            backends,
            concurrency,
            next: 0,
            running: Seq::empty(),
            results: Seq::empty(),
        }
    }

    /// Whether another fetch can be started now.
    pub open spec fn can_start(self) -> bool {
        self.next < self.urls.len() && self.running.len() < self.concurrency
    }

    /// The fetches once another has been started.
    pub open spec fn started(self) -> PoolView {
        PoolView {
            next: self.next + 1,
            running: self.running.push(self.next as usize),
            ..self
        }
    }

    /// The fetch that is started next.
    pub open spec fn next_job(self) -> JobView {
        job_start(
            self.next,
            self.urls[self.next as int],
            self.parsed[self.next as int],
            self.max_chars,
            self.backends,
        )
    }

    /// The fetches once there is a text for one of them.
    pub open spec fn settled(self, index: usize, text: Seq<char>) -> PoolView {
        PoolView {
            running: self.running.remove_value(index),
            results: self.results.push((index, text)),
            ..self
        }
    }

    /// The fetches once one of them is over. Only the fetch of a page that is
    /// being waited for counts.
    pub open spec fn finished(self, job: JobView) -> PoolView {
        let index = job.index as usize;
        if self.running.contains(index) {
            match job.text_for(
                self.urls[index as int],
                self.parsed[index as int],
                self.max_chars,
            ) {
                Some(text) => self.settled(index, text),
                None => self,
            }
        } else {
            self
        }
    }

    /// The fetches once one of them has broken off: its source gets a note.
    pub open spec fn broken(self, index: usize) -> PoolView {
        if self.running.contains(index) {
            self.settled(index, failure_note(INTERRUPTED@, self.urls[index as int]))
        } else {
            self
        }
    }

    /// Whether there is nothing left to wait for.
    pub open spec fn done(self) -> bool {
        self.next == self.urls.len() && self.running.len() == 0
    }

    /// Whether the fetch for a source has delivered.
    pub open spec fn has_result(self, index: int) -> bool {
        text_for(self.results, index) is Some
    }

    /// Whether a text is one that the given source can carry: what the fetch of its
    /// own page came to, or the note that this fetch broke off.
    pub open spec fn can_carry(self, index: int, text: Seq<char>) -> bool {
        ||| can_deliver(self.urls[index], self.parsed[index], self.max_chars, text)
        ||| text == failure_note(INTERRUPTED@, self.urls[index])
    }

    /// What holds at every moment: no more fetches run than may, every source is
    /// fetched once, each one that was started is running or has a text, and that
    /// text belongs to it.
    pub open spec fn wf(self) -> bool {
        &&& self.next <= self.urls.len() <= usize::MAX
        &&& self.parsed.len() == self.urls.len()
        &&& self.running.len() <= self.concurrency
        &&& self.running.no_duplicates()
        &&& forall|k: int|
            0 <= k < self.running.len() ==> {
                &&& (#[trigger] self.running[k]) < self.next
                &&& !self.has_result(self.running[k] as int)
            }
        &&& forall|k: int|
            0 <= k < self.results.len() ==> {
                &&& (#[trigger] self.results[k]).0 < self.next
                &&& self.can_carry(self.results[k].0 as int, self.results[k].1)
            }
        &&& forall|j: int, k: int|
            0 <= j < k < self.results.len() ==> (#[trigger] self.results[j]).0 != (
            #[trigger] self.results[k]).0
        &&& forall|i: usize|
            i < self.next ==> {
                ||| self.has_result(i as int)
                ||| #[trigger] self.running.contains(i)
            }
    }
}

/// A text that comes in is the one for its source, and changes that of no other.
pub proof fn lemma_text_for_push(results: Seq<(usize, Seq<char>)>, index: usize, text: Seq<char>)
    ensures
        forall|i: int|
            #![trigger text_for(results.push((index, text)), i)]
            text_for(results.push((index, text)), i) == if i == index {
                Some(text)
            } else {
                text_for(results, i)
            },
{
    assert(results.push((index, text)).drop_last() =~= results);
}

/// A text came in for a source exactly where one of the results is for it.
pub proof fn lemma_text_for(results: Seq<(usize, Seq<char>)>, index: int)
    ensures
        text_for(results, index) is Some <==> exists|k: int|
            0 <= k < results.len() && (#[trigger] results[k]).0 == index,
        text_for(results, index) is Some ==> exists|k: int|
            0 <= k < results.len() && #[trigger] results[k] == (
                index as usize,
                text_for(results, index)->0,
            ),
    decreases results.len(),
{
    if results.len() > 0 {
        let last = results.len() - 1;
        let earlier = results.drop_last();
        lemma_text_for(earlier, index);
        if results.last().0 == index {
            assert(results[last].0 == index);
            assert(results[last] == (index as usize, results.last().1));
        } else {
            if text_for(earlier, index) is Some {
                let k = choose|k: int|
                    0 <= k < earlier.len() && #[trigger] earlier[k] == (
                        index as usize,
                        text_for(earlier, index)->0,
                    );
                assert(results[k] == earlier[k]);
                let j = choose|k: int|
                    0 <= k < earlier.len() && (#[trigger] earlier[k]).0 == index;
                assert(results[j] == earlier[j]);
            }
            if exists|k: int| 0 <= k < results.len() && (#[trigger] results[k]).0 == index {
                let k = choose|k: int|
                    0 <= k < results.len() && (#[trigger] results[k]).0 == index;
                assert(earlier[k] == results[k]);
            }
        }
    }
}

/// Puts the texts that came in on the sources they were fetched for. The order in
/// which they came does not matter, and the sources keep theirs.
pub fn apply_enrichment(sources: Vec<Source>, results: &Vec<(usize, String)>) -> (result: Vec<
    Source,
>)
    requires
        forall|k: int| 0 <= k < results@.len() ==> (#[trigger] results@[k]).0 < sources@.len(),
    ensures
        sources_of(result@) == enriched(sources_of(sources@), results_of(results@)),
{
    let ghost given = sources_of(sources@);
    let ghost all = results_of(results@);
    let mut result = sources;
    assert(given =~= enriched(given, all.take(0)));
    for k in 0..results.len()
        invariant
            all == results_of(results@),
            result@.len() == given.len(),
            forall|k: int| 0 <= k < results@.len() ==> (#[trigger] results@[k]).0 < given.len(),
            sources_of(result@) == enriched(given, all.take(k as int)),
    {
        let index = results[k].0;
        let ghost before = sources_of(result@);
        let source = result[index].clone();
        result.set(index, Source { content: Some(results[k].1.clone()), ..source });
        proof {
            let text = all[k as int].1;
            assert(all.take(k + 1) =~= all.take(k as int).push((index, text)));
            lemma_text_for_push(all.take(k as int), index, text);
            let after = enriched(given, all.take(k + 1));
            assert forall|i: int| 0 <= i < given.len() implies #[trigger] sources_of(result@)[i]
                == after[i] by {
                assert(before[i] == enriched(given, all.take(k as int))[i]);
                if i == index {
                    assert(result@[i]@ == before[i].with_content(Some(text)));
                } else {
                    assert(sources_of(result@)[i] == before[i]);
                }
            }
            assert(sources_of(result@) =~= after);
        }
    }
    assert(all.take(results.len() as int) =~= all);
    result
}

/// The place of a number in a list.
fn position(list: &Vec<usize>, value: usize) -> (place: Option<usize>)
    ensures
        match place {
            Some(at) => at < list.len() && list@[at as int] == value && list@.index_of_first(value)
                == Some(at as int),
            None => !list@.contains(value),
        },
{
    for i in 0..list.len()
        invariant
            forall|j: int| 0 <= j < i ==> list@[j] != value,
    {
        if list[i] == value {
            proof {
                list@.index_of_first_ensures(value);
            }
            return Some(i);
        }
    }
    None
}

impl EnrichPool {
    /// Where the fetches for a list of sources begin: its first `max_sources`
    /// sources are to carry text, the others stay as they are.
    pub fn start(
        sources: &Vec<Source>,
        max_sources: usize,
        max_chars: usize,
        concurrency: usize,
        backends: Backends,
    ) -> (pool: EnrichPool)
        ensures
            pool@ == PoolView::start(
                sources_of(sources@),
                max_sources as nat,
                max_chars as nat,
                concurrency as nat,
                backends,
            ),
            pool@.wf(),
    {
        let count = if sources.len() < max_sources {
            sources.len()
        } else {
            max_sources
        };
        let mut urls: Vec<String> = Vec::new();
        let mut parsed: Vec<Option<String>> = Vec::new();
        for i in 0..count
            invariant
                count <= sources.len(),
                urls.len() == i,
                parsed.len() == i,
                forall|j: int| 0 <= j < i ==> (#[trigger] urls@[j])@ == sources@[j]@.url,
                forall|j: int|
                    0 <= j < i ==> text_of(#[trigger] parsed@[j]) == parsed_url(sources@[j]@.url),
        {
            urls.push(sources[i].url.clone());
            parsed.push(parse_url(sources[i].url.as_str()));
        }
        let pool = EnrichPool {
            urls,
            parsed,
            max_chars,
            backends,
            concurrency,
            next: 0,
            running: Vec::new(),
            results: Vec::new(),
        };
        assert(pool@ =~= PoolView::start(
            sources_of(sources@),
            max_sources as nat,
            max_chars as nat,
            concurrency as nat,
            backends,
        ));
        pool
    }

    /// Starts another fetch, where one is left and not too many are running.
    pub fn next_job(&mut self) -> (job: Option<EnrichJob>)
        requires
            old(self)@.wf(),
        ensures
            final(self)@.wf(),
            job is Some == old(self)@.can_start(),
            job is Some ==> {
                &&& job->0@ == old(self)@.next_job()
                &&& final(self)@ == old(self)@.started()
            },
            job is None ==> final(self)@ == old(self)@,
    {
        if self.next >= self.urls.len() || self.running.len() >= self.concurrency {
            return None;
        }
        let index = self.next;
        let job = EnrichJob::begin(
            index,
            self.urls[index].clone(),
            copy_text(&self.parsed[index]),
            self.max_chars,
            self.backends,
        );
        self.running.push(index);
        self.next = index + 1;
        proof {
            assert(self@ =~= old(self)@.started());
            lemma_started(old(self)@);
        }
        Some(job)
    }

    /// Takes the text that a fetch came to. A fetch that is not over, or is not for
    /// a page that is being waited for, is passed over.
    pub fn finish(&mut self, job: EnrichJob)
        requires
            old(self)@.wf(),
        ensures
            final(self)@.wf(),
            final(self)@ == old(self)@.finished(job@),
    {
        let index = job.index();
        if let Some(at) = position(&self.running, index) {
            assert(self@.running[at as int] == index);
            let text = job.text_for(
                self.urls[index].as_str(),
                &self.parsed[index],
                self.max_chars,
            );
            if let Some(text) = text {
                self.running.remove(at);
                self.results.push((index, text));
                proof {
                    assert(self@ =~= old(self)@.settled(index, text@));
                    lemma_settled(old(self)@, index, text@);
                }
            }
        }
    }

    /// Gives up on a fetch that broke off; its source gets a note.
    pub fn lose(&mut self, index: usize)
        requires
            old(self)@.wf(),
        ensures
            final(self)@.wf(),
            final(self)@ == old(self)@.broken(index),
    {
        if let Some(at) = position(&self.running, index) {
            assert(self@.running[at as int] == index);
            let text = note(INTERRUPTED, self.urls[index].as_str());
            self.running.remove(at);
            self.results.push((index, text));
            proof {
                assert(self@ =~= old(self)@.settled(index, text@));
                lemma_settled(old(self)@, index, text@);
            }
        }
    }

    /// The sources with the texts that have come in for them.
    pub fn apply(&self, sources: Vec<Source>) -> (result: Vec<Source>)
        requires
            self@.wf(),
            self@.urls.len() <= sources@.len(),
        ensures
            sources_of(result@) == enriched(sources_of(sources@), self@.results),
    {
        assert forall|k: int| 0 <= k < self.results@.len() implies (#[trigger] self.results@[k]).0
            < sources@.len() by {
            assert(self@.results[k].0 == self.results@[k].0);
        }
        apply_enrichment(sources, &self.results)
    }

    /// Whether there is nothing left to wait for.
    pub fn is_done(&self) -> (done: bool)
        ensures
            done == self@.done(),
    {
        self.next == self.urls.len() && self.running.len() == 0
    }
}

/// What a list holds once one of its values, which are all different, is gone.
pub proof fn lemma_remove_value(list: Seq<usize>, value: usize)
    requires
        list.no_duplicates(),
        list.contains(value),
    ensures
        ({
            let rest = list.remove_value(value);
            &&& rest.len() == list.len() - 1
            &&& rest.no_duplicates()
            &&& forall|k: int| 0 <= k < rest.len() ==> list.contains(#[trigger] rest[k])
                && rest[k] != value
            &&& forall|i: usize| #[trigger]
                rest.contains(i) <==> list.contains(i) && i != value
        }),
{
    list.index_of_first_ensures(value);
    let at = list.index_of_first(value)->0;
    let rest = list.remove_value(value);
    assert(rest == list.remove(at));
    assert forall|k: int| 0 <= k < rest.len() implies list.contains(#[trigger] rest[k]) && rest[k]
        != value by {
        let from = if k < at {
            k
        } else {
            k + 1
        };
        assert(rest[k] == list[from]);
    }
    assert forall|i: usize| list.contains(i) && i != value implies #[trigger] rest.contains(i) by {
        let k = choose|k: int| 0 <= k < list.len() && list[k] == i;
        if k < at {
            assert(rest[k] == i);
        } else {
            assert(rest[k - 1] == i);
        }
    }
}

proof fn lemma_started(pool: PoolView)
    requires
        pool.wf(),
        pool.can_start(),
    ensures
        pool.started().wf(),
{
    let after = pool.started();
    let index = pool.next as usize;
    assert(!pool.running.contains(index));
    assert(!pool.has_result(index as int)) by {
        lemma_text_for(pool.results, index as int);
    }
    assert forall|i: usize| i < after.next implies {
        ||| after.has_result(i as int)
        ||| #[trigger] after.running.contains(i)
    } by {
        if i == index {
            assert(after.running[pool.running.len() as int] == index);
        } else {
            if pool.running.contains(i) {
                let k = choose|k: int| 0 <= k < pool.running.len() && pool.running[k] == i;
                assert(after.running[k] == i);
            }
        }
    }
}

proof fn lemma_settled(pool: PoolView, index: usize, text: Seq<char>)
    requires
        pool.wf(),
        pool.running.contains(index),
        pool.can_carry(index as int, text),
    ensures
        pool.settled(index, text).wf(),
{
    let after = pool.settled(index, text);
    lemma_remove_value(pool.running, index);
    lemma_text_for_push(pool.results, index, text);
    lemma_text_for(pool.results, index as int);
    let k = choose|k: int| 0 <= k < pool.running.len() && pool.running[k] == index;
    assert(!pool.has_result(pool.running[k] as int));
    assert forall|k: int| 0 <= k < after.running.len() implies {
        &&& (#[trigger] after.running[k]) < after.next
        &&& !after.has_result(after.running[k] as int)
    } by {
        assert(pool.running.contains(after.running[k]));
        let j = choose|j: int| 0 <= j < pool.running.len() && pool.running[j] == after.running[k];
        assert(pool.running[j] < pool.next);
    }
    assert forall|i: usize| i < after.next implies {
        ||| after.has_result(i as int)
        ||| #[trigger] after.running.contains(i)
    } by {
        assert(pool.running.contains(i) || !pool.running.contains(i));
    }
}

} // verus!
