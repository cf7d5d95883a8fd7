//! The sources of recent sessions, kept for paging.

use crate::model::source::{copy_sources, sources_of, Source, SourceView};
use crate::text::same_text;
use vstd::prelude::*;

verus! {

/// The sources of the most recent sessions.
#[derive(Debug, PartialEq, Eq)]
pub struct SourceCache {
    /// How many sessions are kept.
    capacity: usize,
    /// The sessions with their sources, the oldest first.
    entries: Vec<(String, Vec<Source>)>,
}

/// The sessions that are kept, the oldest first.
pub struct CacheView {
    pub capacity: nat,
    pub entries: Seq<(Seq<char>, Seq<SourceView>)>,
}

/// The sessions of a list as plain values.
spec fn entries_of(entries: Seq<(String, Vec<Source>)>) -> Seq<(Seq<char>, Seq<SourceView>)> {
    Seq::new(entries.len(), |i: int| (entries[i].0@, sources_of(entries[i].1@)))
}

impl View for SourceCache {
    type V = CacheView;

    closed spec fn view(&self) -> CacheView {
        CacheView { capacity: self.capacity as nat, entries: entries_of(self.entries@) }
    }
}

/// The sources that the entries hold under a name; the latest, where the name
/// occurs more than once.
pub open spec fn kept_under(
    entries: Seq<(Seq<char>, Seq<SourceView>)>,
    session_id: Seq<char>,
) -> Option<Seq<SourceView>>
    decreases entries.len(),
{
    if entries.len() == 0 {
        None
    } else if entries.last().0 == session_id {
        Some(entries.last().1)
    } else {
        kept_under(entries.drop_last(), session_id)
    }
}

/// The entries that are not under the name, in their order.
pub open spec fn without(
    entries: Seq<(Seq<char>, Seq<SourceView>)>,
    session_id: Seq<char>,
) -> Seq<(Seq<char>, Seq<SourceView>)>
    decreases entries.len(),
{
    if entries.len() == 0 {
        entries
    } else if entries.last().0 == session_id {
        without(entries.drop_last(), session_id)
    } else {
        without(entries.drop_last(), session_id).push(entries.last())
    }
}

/// The latest entries of a list, as many as are kept.
pub open spec fn latest<T>(entries: Seq<T>, capacity: nat) -> Seq<T> {
    if entries.len() <= capacity {
        entries
    } else {
        entries.skip(entries.len() - capacity)
    }
}

impl CacheView {
    /// A cache without sessions.
    pub open spec fn empty(capacity: nat) -> CacheView {
        CacheView { capacity, entries: Seq::empty() }
    }

    /// The sources of a session, where it is kept.
    pub open spec fn lookup(self, session_id: Seq<char>) -> Option<Seq<SourceView>> {
        kept_under(self.entries, session_id)
    }

    /// The cache once a session has been stored: it is now the latest, and the
    /// oldest have gone as far as room was needed.
    pub open spec fn stored(self, session_id: Seq<char>, sources: Seq<SourceView>) -> CacheView {
        CacheView {
            entries: latest(
                without(self.entries, session_id).push((session_id, sources)),
                self.capacity,
            ),
            ..self
        }
    }

    /// No more sessions than there is room for, and no session twice.
    pub open spec fn wf(self) -> bool {
        &&& self.entries.len() <= self.capacity
        &&& forall|i: int, j: int|
            0 <= i < j < self.entries.len() ==> (#[trigger] self.entries[i]).0 != (
            #[trigger] self.entries[j]).0
    }
}

/// What is left without a name, and what is found in it.
proof fn lemma_without(entries: Seq<(Seq<char>, Seq<SourceView>)>, session_id: Seq<char>)
    ensures
        ({
            let rest = without(entries, session_id);
            &&& rest.len() <= entries.len()
            &&& forall|k: int| 0 <= k < rest.len() ==> {
                &&& (#[trigger] rest[k]).0 != session_id
                &&& entries.contains(rest[k])
            }
            &&& (forall|i: int, j: int|
                0 <= i < j < entries.len() ==> (#[trigger] entries[i]).0 != (
                #[trigger] entries[j]).0) ==> (forall|i: int, j: int|
                0 <= i < j < rest.len() ==> (#[trigger] rest[i]).0 != (#[trigger] rest[j]).0)
        }),
    decreases entries.len(),
{
    if entries.len() > 0 {
        let earlier = entries.drop_last();
        let last = entries.len() - 1;
        lemma_without(earlier, session_id);
        let rest = without(entries, session_id);
        let shorter = without(earlier, session_id);
        assert forall|k: int| 0 <= k < rest.len() implies {
            &&& (#[trigger] rest[k]).0 != session_id
            &&& entries.contains(rest[k])
        } by {
            if k < shorter.len() {
                assert(rest[k] == shorter[k]);
                let i = choose|i: int| 0 <= i < earlier.len() && earlier[i] == shorter[k];
                assert(entries[i] == rest[k]);
            } else {
                assert(entries[last] == rest[k]);
            }
        }
        if forall|i: int, j: int|
            0 <= i < j < entries.len() ==> (#[trigger] entries[i]).0 != (#[trigger] entries[j]).0 {
            assert forall|i: int, j: int| 0 <= i < j < earlier.len() implies (
            #[trigger] earlier[i]).0 != (#[trigger] earlier[j]).0 by {
                assert(earlier[i] == entries[i] && earlier[j] == entries[j]);
            }
            assert forall|i: int, j: int| 0 <= i < j < rest.len() implies (#[trigger] rest[i]).0
                != (#[trigger] rest[j]).0 by {
                if j < shorter.len() {
                    assert(rest[i] == shorter[i] && rest[j] == shorter[j]);
                } else {
                    assert(rest[i] == shorter[i]);
                    let k = choose|k: int| 0 <= k < earlier.len() && earlier[k] == shorter[i];
                    assert(entries[k] == rest[i] && entries[last] == rest[j]);
                }
            }
        }
    }
}

/// Storing keeps a cache within its room, with no session twice.
pub proof fn lemma_stored_wf(cache: CacheView, session_id: Seq<char>, sources: Seq<SourceView>)
    requires
        cache.wf(),
    ensures
        cache.stored(session_id, sources).wf(),
{
    lemma_without(cache.entries, session_id);
    let rest = without(cache.entries, session_id);
    let all = rest.push((session_id, sources));
    let kept = cache.stored(session_id, sources).entries;
    assert forall|i: int, j: int| 0 <= i < j < all.len() implies (#[trigger] all[i]).0 != (
    #[trigger] all[j]).0 by {
        assert(rest[i].0 != session_id);
        if j < rest.len() {
            assert(rest[j].0 != session_id);
        }
    }
    let gone = all.len() - kept.len();
    assert forall|i: int, j: int| 0 <= i < j < kept.len() implies (#[trigger] kept[i]).0 != (
    #[trigger] kept[j]).0 by {
        assert(kept[i] == all[i + gone] && kept[j] == all[j + gone]);
    }
}

impl SourceCache {
    /// A cache that keeps so many sessions.
    pub fn new(capacity: usize) -> (cache: SourceCache)
        ensures
            cache@ == CacheView::empty(capacity as nat),
            cache@.wf(),
    {
        let cache = SourceCache { capacity, entries: Vec::new() };
        assert(cache@.entries =~= Seq::empty());
        cache
    }

    /// Stores the sources of a session.
    pub fn set(&mut self, session_id: String, sources: Vec<Source>)
        requires
            old(self)@.wf(),
        ensures
            final(self)@ == old(self)@.stored(session_id@, sources_of(sources@)),
            final(self)@.wf(),
    {
        let ghost given = self@;
        let ghost mut seen: int = 0;
        let mut i: usize = 0;
        assert(self@.entries =~= without(given.entries.take(0), session_id@) + given.entries.skip(
            0,
        ));
        while i < self.entries.len()
            invariant
                0 <= seen <= given.entries.len(),
                self.capacity == given.capacity,
                i == without(given.entries.take(seen), session_id@).len(),
                entries_of(self.entries@) == without(given.entries.take(seen), session_id@)
                    + given.entries.skip(seen),
            decreases self.entries.len() - i,
        {
            let ghost before = entries_of(self.entries@);
            let ghost done = without(given.entries.take(seen), session_id@);
            let ghost next = given.entries.take(seen + 1);
            proof {
                assert(before[i as int] == given.entries[seen]);
                assert(next.drop_last() =~= given.entries.take(seen));
                assert(next.last() == given.entries[seen]);
            }
            if same_text(self.entries[i].0.as_str(), session_id.as_str()) {
                self.entries.remove(i);
                proof {
                    let after = done + given.entries.skip(seen + 1);
                    assert(entries_of(self.entries@) =~= before.remove(i as int));
                    assert(before.remove(i as int) =~= after) by {
                        assert forall|k: int| 0 <= k < after.len() implies before.remove(
                            i as int,
                        )[k] == after[k] by {
                            if k >= i {
                                assert(before[k + 1] == given.entries.skip(seen)[k + 1 - i]);
                            }
                        }
                    }
                }
            } else {
                i = i + 1;
                assert(before =~= done.push(given.entries[seen]) + given.entries.skip(seen + 1));
            }
            proof {
                seen = seen + 1;
            }
        }
        assert(given.entries.take(seen) =~= given.entries);
        let ghost rest = entries_of(self.entries@);
        let ghost entry = (session_id@, sources_of(sources@));
        assert(rest =~= without(given.entries, session_id@));
        self.entries.push((session_id, sources));
        assert(entries_of(self.entries@) =~= rest.push(entry));
        if self.entries.len() > self.capacity {
            let ghost all = entries_of(self.entries@);
            let extra = self.entries.len() - self.capacity;
            self.entries = self.entries.split_off(extra);
            assert(entries_of(self.entries@) =~= all.skip(extra as int));
        }
        proof {
            lemma_stored_wf(given, entry.0, entry.1);
        }
    }

    /// The sources of a session, where it is kept.
    pub fn get(&self, session_id: &str) -> (sources: Option<Vec<Source>>)
        ensures
            match sources {
                Some(found) => Some(sources_of(found@)),
                None => None,
            } == self@.lookup(session_id@),
    {
        let ghost entries = self@.entries;
        let mut n = self.entries.len();
        assert(entries.take(n as int) =~= entries);
        while n > 0
            invariant
                n <= self.entries.len(),
                entries == entries_of(self.entries@),
                kept_under(entries, session_id@) == kept_under(
                    entries.take(n as int),
                    session_id@,
                ),
            decreases n,
        {
            n = n - 1;
            assert(entries.take(n + 1).drop_last() =~= entries.take(n as int));
            assert(entries.take(n + 1).last() == entries[n as int]);
            if same_text(self.entries[n].0.as_str(), session_id) {
                return Some(copy_sources(&self.entries[n].1));
            }
        }
        None
    }
}

} // verus!
