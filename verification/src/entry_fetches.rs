//! One fetch per Entry Path at a time, for a process that serves more than one
//! reader.
//!
//! The process keeps, for each Entry Path somebody is fetching or waiting to
//! fetch, how many callers are interested in it. The first caller for a path
//! is the one a turn is made for; the last one to let go takes the path out
//! again, so what is kept is an index of what is in flight rather than a
//! record of everything that ever was. The waiting itself is the shell's.
use vstd::prelude::*;

use crate::findings::EntryFetch;

verus! {

/// The Entry Paths this process is fetching right now, and how many callers
/// are in each one's queue.
#[derive(Debug)]
pub struct InFlight {
    entries: Vec<(String, u64)>,
}

/// Whether `entries` holds each path once, with at least one caller.
pub open spec fn well_kept(entries: Seq<(String, u64)>) -> bool {
    &&& forall|i: int, j: int| 0 <= i < j < entries.len() ==> (#[trigger] entries[i]).0@ != (#[trigger] entries[j]).0@
    &&& forall|i: int| 0 <= i < entries.len() ==> (#[trigger] entries[i]).1 > 0
}

/// Whether `path` is among `entries`.
pub open spec fn holds(entries: Seq<(String, u64)>, path: Seq<char>) -> bool {
    exists|i: int| 0 <= i < entries.len() && (#[trigger] entries[i]).0@ == path
}

/// Where `path` stands among `entries`.
pub open spec fn position(entries: Seq<(String, u64)>, path: Seq<char>) -> int {
    choose|i: int| 0 <= i < entries.len() && (#[trigger] entries[i]).0@ == path
}

/// How many callers each path in flight has.
pub open spec fn callers(entries: Seq<(String, u64)>) -> Map<Seq<char>, nat> {
    Map::new(|path: Seq<char>| holds(entries, path), |path: Seq<char>| entries[position(entries, path)].1 as nat)
}

proof fn lemma_callers_at(entries: Seq<(String, u64)>, i: int)
    requires
        well_kept(entries),
        0 <= i < entries.len(),
    ensures
        callers(entries).dom().contains(entries[i].0@),
        position(entries, entries[i].0@) == i,
        callers(entries)[entries[i].0@] == entries[i].1 as nat,
{
    let path = entries[i].0@;
    assert(holds(entries, path));
    let p = position(entries, path);
    if p != i {
        if p < i {
            assert(entries[p].0@ != entries[i].0@);
        } else {
            assert(entries[i].0@ != entries[p].0@);
        }
    }
}

/// The callers of each path once a caller for `path` has arrived.
pub open spec fn arrived(callers: Map<Seq<char>, nat>, path: Seq<char>) -> Map<Seq<char>, nat> {
    if callers.dom().contains(path) {
        callers.insert(path, callers[path] + 1)
    } else {
        callers.insert(path, 1)
    }
}

/// The callers of each path once a caller for `path` has let go: the path is
/// forgotten where that was its last caller.
pub open spec fn departed(callers: Map<Seq<char>, nat>, path: Seq<char>) -> Map<Seq<char>, nat> {
    if callers[path] <= 1 {
        callers.remove(path)
    } else {
        callers.insert(path, (callers[path] - 1) as nat)
    }
}

impl View for InFlight {
    type V = Map<Seq<char>, nat>;

    closed spec fn view(&self) -> Map<Seq<char>, nat> {
        callers(self.entries@)
    }
}

impl InFlight {
    /// Each path is kept once, with at least one caller.
    #[verifier::type_invariant]
    spec fn wf(self) -> bool {
        well_kept(self.entries@)
    }

    /// Nothing in flight.
    pub fn new() -> (in_flight: InFlight)
        ensures
            in_flight@ == Map::<Seq<char>, nat>::empty(),
    {
        let in_flight = InFlight { entries: Vec::new() };
        assert(in_flight@ =~= Map::<Seq<char>, nat>::empty());
        in_flight
    }

    fn find(&self, path: &str) -> (at: Option<usize>)
        ensures
            match at {
                Some(i) => i < self.entries@.len() && self.entries@[i as int].0@ == path@,
                None => !holds(self.entries@, path@),
            },
    {
        let mut i: usize = 0;
        while i < self.entries.len()
            invariant
                i <= self.entries@.len(),
                forall|j: int| 0 <= j < i ==> (#[trigger] self.entries@[j]).0@ != path@,
            decreases self.entries@.len() - i,
        {
            if self.entries[i].0 == crate::text::owned(path) {
                return Some(i);
            }
            i = i + 1;
        }
        None
    }

    /// How many callers are fetching or waiting to fetch `path`.
    pub fn callers_of(&self, path: &str) -> (n: u64)
        ensures
            n == (if self@.dom().contains(path@) { self@[path@] } else { 0 }),
            self@.dom().contains(path@) ==> n > 0,
    {
        proof {
            use_type_invariant(self);
        }
        match self.find(path) {
            Some(i) => {
                proof { lemma_callers_at(self.entries@, i as int); }
                self.entries[i].1
            },
            None => 0,
        }
    }

    /// A caller for `path` arrives. It is the first one, and a turn has to be
    /// made for it, exactly where nobody else is fetching or waiting for that
    /// path.
    pub fn enter(&mut self, path: &str) -> (first: bool)
        requires
            old(self)@.dom().contains(path@) ==> old(self)@[path@] < u64::MAX,
        ensures
            first == !old(self)@.dom().contains(path@),
            final(self)@ == arrived(old(self)@, path@),
    {
        proof {
            use_type_invariant(&*self);
        }
        let ghost before = self.entries@;
        let found = self.find(path);
        let mut entries: Vec<(String, u64)> = Vec::new();
        std::mem::swap(&mut entries, &mut self.entries);
        let first = match found {
            Some(i) => {
                proof { lemma_callers_at(before, i as int); }
                let count = entries[i].1;
                let key = entries[i].0.clone();
                entries.set(i, (key, count + 1));
                let ghost after = entries@;
                assert(after == before.update(i as int, after[i as int]));
                assert(well_kept(after)) by {
                    assert forall|a: int, b: int| 0 <= a < b < after.len() implies (#[trigger] after[a]).0@ != (#[trigger] after[b]).0@ by {
                        assert(before[a].0@ != before[b].0@);
                    }
                }
                assert(callers(after) =~= callers(before).insert(path@, callers(before)[path@] + 1)) by {
                    assert forall|k: Seq<char>| #[trigger] callers(after).dom().contains(k) <==> callers(before).insert(path@, callers(before)[path@] + 1).dom().contains(k) by {
                        if holds(after, k) {
                            let j = position(after, k);
                            if j != i as int {
                                assert(before[j].0@ == k);
                            }
                        }
                        if holds(before, k) {
                            let j = position(before, k);
                            assert(after[j].0@ == k);
                        }
                    }
                    assert forall|k: Seq<char>| #[trigger] callers(after).dom().contains(k) implies callers(after)[k] == callers(before).insert(path@, callers(before)[path@] + 1)[k] by {
                        let j = position(after, k);
                        lemma_callers_at(after, j);
                        if k == path@ {
                            lemma_callers_at(after, i as int);
                        } else {
                            assert(j != i as int);
                            assert(before[j].0@ == k);
                            lemma_callers_at(before, j);
                        }
                    }
                }
                false
            },
            None => {
                entries.push((crate::text::owned(path), 1));
                let ghost after = entries@;
                let ghost n = before.len() as int;
                assert(after == before.push(after[n]));
                assert(well_kept(after)) by {
                    assert forall|a: int, b: int| 0 <= a < b < after.len() implies (#[trigger] after[a]).0@ != (#[trigger] after[b]).0@ by {
                        if b == n {
                            assert(!holds(before, path@));
                            assert(before[a].0@ != path@);
                        } else {
                            assert(before[a].0@ != before[b].0@);
                        }
                    }
                }
                assert(callers(after) =~= callers(before).insert(path@, 1)) by {
                    assert forall|k: Seq<char>| #[trigger] callers(after).dom().contains(k) <==> callers(before).insert(path@, 1).dom().contains(k) by {
                        if holds(after, k) {
                            let j = position(after, k);
                            if j != n {
                                assert(before[j].0@ == k);
                            }
                        }
                        if holds(before, k) {
                            let j = position(before, k);
                            assert(after[j].0@ == k);
                        }
                        if k == path@ {
                            assert(after[n].0@ == k);
                        }
                    }
                    assert forall|k: Seq<char>| #[trigger] callers(after).dom().contains(k) implies callers(after)[k] == callers(before).insert(path@, 1)[k] by {
                        let j = position(after, k);
                        lemma_callers_at(after, j);
                        if k != path@ {
                            assert(j != n);
                            assert(before[j].0@ == k);
                            lemma_callers_at(before, j);
                        } else {
                            lemma_callers_at(after, n);
                        }
                    }
                }
                true
            },
        };
        self.entries = entries;
        first
    }

    /// A caller for `path` lets go. Where it was the last one, the path is
    /// forgotten.
    pub fn leave(&mut self, path: &str)
        requires
            old(self)@.dom().contains(path@),
        ensures
            final(self)@ == departed(old(self)@, path@),
    {
        proof {
            use_type_invariant(&*self);
        }
        let ghost before = self.entries@;
        let found = self.find(path);
        let mut entries: Vec<(String, u64)> = Vec::new();
        std::mem::swap(&mut entries, &mut self.entries);
        match found {
            None => {},
            Some(i) => {
                proof { lemma_callers_at(before, i as int); }
                let count = entries[i].1;
                if count == 1 {
                    let _ = entries.remove(i);
                    let ghost after = entries@;
                    assert(after == before.remove(i as int));
                    assert(well_kept(after)) by {
                        assert forall|a: int, b: int| 0 <= a < b < after.len() implies (#[trigger] after[a]).0@ != (#[trigger] after[b]).0@ by {
                            let a0 = if a < i as int { a } else { a + 1 };
                            let b0 = if b < i as int { b } else { b + 1 };
                            assert(after[a] == before[a0] && after[b] == before[b0]);
                            assert(before[a0].0@ != before[b0].0@);
                        }
                        assert forall|a: int| 0 <= a < after.len() implies (#[trigger] after[a]).1 > 0 by {
                            let a0 = if a < i as int { a } else { a + 1 };
                            assert(after[a] == before[a0]);
                        }
                    }
                    assert(callers(after) =~= callers(before).remove(path@)) by {
                        assert forall|k: Seq<char>| #[trigger] callers(after).dom().contains(k) <==> callers(before).remove(path@).dom().contains(k) by {
                            if holds(after, k) {
                                let j = position(after, k);
                                let j0 = if j < i as int { j } else { j + 1 };
                                assert(after[j] == before[j0]);
                                assert(j0 != i as int);
                                lemma_callers_at(before, j0);
                            }
                            if holds(before, k) && k != path@ {
                                let j = position(before, k);
                                assert(j != i as int);
                                let j1 = if j < i as int { j } else { j - 1 };
                                assert(after[j1] == before[j]);
                            }
                        }
                        assert forall|k: Seq<char>| #[trigger] callers(after).dom().contains(k) implies callers(after)[k] == callers(before).remove(path@)[k] by {
                            let j = position(after, k);
                            lemma_callers_at(after, j);
                            let j0 = if j < i as int { j } else { j + 1 };
                            assert(after[j] == before[j0]);
                            lemma_callers_at(before, j0);
                        }
                    }
                } else {
                    let key = entries[i].0.clone();
                    entries.set(i, (key, count - 1));
                    let ghost after = entries@;
                    assert(after == before.update(i as int, after[i as int]));
                    assert(well_kept(after)) by {
                        assert forall|a: int, b: int| 0 <= a < b < after.len() implies (#[trigger] after[a]).0@ != (#[trigger] after[b]).0@ by {
                            assert(before[a].0@ != before[b].0@);
                        }
                    }
                    assert(callers(after) =~= callers(before).insert(path@, (callers(before)[path@] - 1) as nat)) by {
                        assert forall|k: Seq<char>| #[trigger] callers(after).dom().contains(k) <==> callers(before).insert(path@, (callers(before)[path@] - 1) as nat).dom().contains(k) by {
                            if holds(after, k) {
                                let j = position(after, k);
                                if j != i as int {
                                    assert(before[j].0@ == k);
                                }
                            }
                            if holds(before, k) {
                                let j = position(before, k);
                                assert(after[j].0@ == k);
                            }
                        }
                        assert forall|k: Seq<char>| #[trigger] callers(after).dom().contains(k) implies callers(after)[k] == callers(before).insert(path@, (callers(before)[path@] - 1) as nat)[k] by {
                            let j = position(after, k);
                            lemma_callers_at(after, j);
                            if k == path@ {
                                lemma_callers_at(after, i as int);
                            } else {
                                assert(j != i as int);
                                assert(before[j].0@ == k);
                                lemma_callers_at(before, j);
                            }
                        }
                    }
                }
            },
        }
        self.entries = entries;
    }

    /// Whether nothing is in flight.
    pub fn is_idle(&self) -> (idle: bool)
        ensures
            idle == (self@ == Map::<Seq<char>, nat>::empty()),
    {
        proof {
            use_type_invariant(self);
        }
        if self.entries.len() == 0 {
            assert(self@ =~= Map::<Seq<char>, nat>::empty());
            true
        } else {
            proof { lemma_callers_at(self.entries@, 0); }
            assert(self@.dom().contains(self.entries@[0].0@));
            false
        }
    }
}

/// What opening the file this device placed for an Entry came to.
#[derive(Debug, Clone, Copy, PartialEq, Eq)]
pub enum PlacedFile {
    /// A file stands at the path the catalog names, and it opened.
    Stands,
    /// Nothing stands there any more.
    Gone,
    /// The open was refused; the fetch is what says why.
    Unopened,
}

/// What a caller that has waited its turn answers without fetching: already
/// present, where the catalog says this device has the Entry and a file
/// stands at the path it names. Anything else, a refused open among it, runs
/// the fetch, which states its own finding; a catalog row alone outlives a
/// file somebody deleted.
pub fn shortcut(row_present: bool, placed: PlacedFile) -> (answer: Option<EntryFetch>)
    ensures
        answer == (if row_present && placed == PlacedFile::Stands { Some(EntryFetch::AlreadyPresent) } else { None }),
{
    if row_present && matches!(placed, PlacedFile::Stands) {
        Some(EntryFetch::AlreadyPresent)
    } else {
        None
    }
}

/// What a caller that arrives and then lets go leaves behind: nothing more
/// than was there. A path nobody was fetching or waiting for is forgotten
/// again, and every other path keeps the callers it had.
pub proof fn lemma_a_path_nobody_holds_is_forgotten(before: Map<Seq<char>, nat>, path: Seq<char>)
    requires
        before.dom().contains(path) ==> before[path] > 0,
    ensures
        departed(arrived(before, path), path) == before,
{
    if before.dom().contains(path) {
        assert(departed(arrived(before, path), path) =~= before);
    } else {
        assert(departed(arrived(before, path), path) =~= before);
    }
}

} // verus!
