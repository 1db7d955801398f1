//! The in-memory monitor cache: the client's copy of the latest list
//! snapshot the server pushed, keyed by the locally computed uid. Entries
//! with an already-present uid replace the old entry; a fresh snapshot
//! starts from a cleared cache.

use vstd::prelude::*;

use crate::monitor::Monitor;
use crate::monitor::MonitorSpec;
use crate::monitor::uid_spec;

verus! {

/// Whether some entry of `s` carries the uid `u`.
pub open spec fn contains_uid_spec(s: Seq<MonitorSpec>, u: Seq<char>) -> bool {
    exists|i: int| 0 <= i < s.len() && uid_spec(s[i]) == u
}

/// The index of the entry of `s` that carries the uid `u`; meaningful only
/// when [`contains_uid_spec`] holds and uids are distinct.
pub open spec fn uid_index(s: Seq<MonitorSpec>, u: Seq<char>) -> int {
    choose|i: int| 0 <= i < s.len() && uid_spec(s[i]) == u
}

/// No two entries of `s` share a uid.
pub open spec fn distinct_uids(s: Seq<MonitorSpec>) -> bool {
    forall|i: int, j: int| 0 <= i < j < s.len() ==> uid_spec(s[i]) != uid_spec(s[j])
}

/// What inserting one monitor does to the cached entries: replace the
/// entry with the same uid in place, or append when the uid is new.
pub open spec fn insert_spec(s: Seq<MonitorSpec>, m: MonitorSpec) -> Seq<MonitorSpec> {
    if contains_uid_spec(s, uid_spec(m)) {
        s.update(uid_index(s, uid_spec(m)), m)
    } else {
        s.push(m)
    }
}

/// Whether a monitor satisfies a search: an exact name match when a name
/// is asked for, and an exact parent-group match when a parent id is asked
/// for. A monitor without a parent counts as standing in group zero, as
/// the uid does.
pub open spec fn search_matches(
    m: MonitorSpec,
    by_name: Option<Seq<char>>,
    by_parent_id: Option<u64>,
) -> bool {
    (match by_name {
        Some(n) => m.name == n,
        None => true,
    }) && (match by_parent_id {
        Some(p) => (match m.parent {
            Some(q) => q,
            None => 0u64,
        }) == p,
        None => true,
    })
}

/// The cached snapshot of the server's monitor list.
pub struct MonitorCache {
    entries: Vec<Monitor>,
}

impl View for MonitorCache {
    type V = Seq<MonitorSpec>;

    closed spec fn view(&self) -> Seq<MonitorSpec> {
        self.entries.deep_view()
    }
}

/// Pushing an element filters to the old filtering, plus the element when
/// it satisfies the predicate.
proof fn lemma_filter_push(s: Seq<MonitorSpec>, x: MonitorSpec, pred: spec_fn(MonitorSpec) -> bool)
    ensures
        (s.push(x)).filter(pred) == (if pred(x) {
            s.filter(pred).push(x)
        } else {
            s.filter(pred)
        }),
{
    reveal(Seq::filter);
    assert((s.push(x)).drop_last() =~= s);
    assert((s.push(x)).last() == x);
}

impl MonitorCache {
    /// No two cached entries share a uid.
    pub open spec fn well_formed(&self) -> bool {
        distinct_uids(self@)
    }

    /// An empty cache.
    pub fn new() -> (c: MonitorCache)
        ensures
            c@ == Seq::<MonitorSpec>::empty(),
            c.well_formed(),
    {
        let c = MonitorCache { entries: Vec::new() };
        proof {
            assert(c@ =~= Seq::<MonitorSpec>::empty());
        }
        c
    }

    /// How many monitors are cached.
    pub fn len(&self) -> (n: usize)
        ensures
            n == self@.len(),
    {
        self.entries.len()
    }

    /// Whether nothing is cached yet.
    pub fn is_empty(&self) -> (b: bool)
        ensures
            b == (self@.len() == 0),
    {
        self.entries.len() == 0
    }

    /// Drop every cached entry.
    pub fn clear(&mut self)
        ensures
            final(self)@ == Seq::<MonitorSpec>::empty(),
            final(self).well_formed(),
    {
        self.entries.clear();
        proof {
            assert(self@ =~= Seq::<MonitorSpec>::empty());
        }
    }

    /// The cached monitor at a position.
    pub fn monitor_at(&self, i: usize) -> (m: &Monitor)
        requires
            i < self@.len(),
        ensures
            m@ == self@[i as int],
    {
        &self.entries[i]
    }

    /// Whether some cached entry carries the uid `u`.
    pub fn contains_uid(&self, u: &String) -> (b: bool)
        ensures
            b == contains_uid_spec(self@, u@),
    {
        let n = self.entries.len();
        let mut i: usize = 0;
        while i < n
            invariant
                i <= n,
                n == self@.len(),
                forall|j: int| 0 <= j < i ==> uid_spec(self@[j]) != u@,
            decreases n - i,
        {
            let cur = self.entries[i].uid();
            if cur == *u {
                proof {
                    assert(0 <= i < self@.len() && uid_spec(self@[i as int]) == u@);
                }
                return true;
            }
            i = i + 1;
        }
        false
    }

    /// Merge one monitor into the cache: replace the entry with the same
    /// uid, or append when the uid is new.
    pub fn insert(&mut self, m: Monitor)
        requires
            old(self).well_formed(),
        ensures
            final(self)@ == insert_spec(old(self)@, m@),
            final(self).well_formed(),
    {
        let u = m.uid();
        let n = self.entries.len();
        let mut i: usize = 0;
        while i < n
            invariant
                i <= n,
                n == self@.len(),
                *self == *old(self),
                old(self).well_formed(),
                u@ == uid_spec(m@),
                forall|j: int| 0 <= j < i ==> uid_spec(self@[j]) != u@,
            decreases n - i,
        {
            let cur = self.entries[i].uid();
            if cur == u {
                proof {
                    assert(distinct_uids(old(self)@));
                    assert(0 <= i < old(self)@.len() && uid_spec(old(self)@[i as int]) == u@);
                    assert(contains_uid_spec(old(self)@, u@));
                    let k = uid_index(old(self)@, u@);
                    assert(0 <= k < old(self)@.len() && uid_spec(old(self)@[k]) == u@) by {
                        assert(contains_uid_spec(old(self)@, u@));
                    }
                    assert(k == i) by {
                        if k < i {
                            assert(uid_spec(old(self)@[k]) != uid_spec(old(self)@[i as int]));
                            assert(false);
                        }
                        if k > i {
                            assert(uid_spec(old(self)@[i as int]) != uid_spec(old(self)@[k]));
                            assert(false);
                        }
                    }
                }
                self.entries.set(i, m);
                proof {
                    assert(self@ =~= old(self)@.update(i as int, m@));
                    assert forall|p: int, q: int|
                        0 <= p < q < self@.len() implies uid_spec(self@[p]) != uid_spec(
                        self@[q],
                    ) by {
                        assert(uid_spec(self@[p]) == uid_spec(old(self)@[p])) by {
                            if p != i {
                                assert(self@[p] == old(self)@[p]);
                            }
                        }
                        assert(uid_spec(self@[q]) == uid_spec(old(self)@[q])) by {
                            if q != i {
                                assert(self@[q] == old(self)@[q]);
                            }
                        }
                        assert(uid_spec(old(self)@[p]) != uid_spec(old(self)@[q]));
                    }
                }
                return;
            }
            i = i + 1;
        }
        self.entries.push(m);
        proof {
            assert(!contains_uid_spec(old(self)@, u@));
            assert(self@ =~= old(self)@.push(m@));
            assert forall|p: int, q: int|
                0 <= p < q < self@.len() implies uid_spec(self@[p]) != uid_spec(self@[q]) by {
                if q == self@.len() - 1 {
                    assert(uid_spec(old(self)@[p]) != u@);
                }
            }
        }
    }

    /// The cached monitors that satisfy the search, in cache order.
    pub fn filtered(&self, by_name: &Option<String>, by_parent_id: Option<u64>) -> (r: Vec<
        Monitor,
    >)
        ensures
            r.deep_view() == self@.filter(
                |ms: MonitorSpec| search_matches(ms, by_name.deep_view(), by_parent_id),
            ),
    {
        let ghost pred = |ms: MonitorSpec| search_matches(ms, by_name.deep_view(), by_parent_id);
        let mut r: Vec<Monitor> = Vec::new();
        let n = self.entries.len();
        let mut i: usize = 0;
        proof {
            reveal(Seq::filter);
            assert(self@.subrange(0, 0) =~= Seq::<MonitorSpec>::empty());
            assert(r.deep_view() =~= self@.subrange(0, 0).filter(pred));
        }
        while i < n
            invariant
                i <= n,
                n == self@.len(),
                r.deep_view() == self@.subrange(0, i as int).filter(pred),
                pred == (|ms: MonitorSpec| search_matches(ms, by_name.deep_view(), by_parent_id)),
            decreases n - i,
        {
            let entry = &self.entries[i];
            let name_ok = match by_name {
                Some(nm) => entry.name == *nm,
                None => true,
            };
            let parent_ok = match by_parent_id {
                Some(p) => {
                    let q = match entry.parent {
                        Some(q) => q,
                        None => 0,
                    };
                    q == p
                },
                None => true,
            };
            proof {
                assert((name_ok && parent_ok) == pred(self@[i as int]));
            }
            let ghost prev = r.deep_view();
            if name_ok && parent_ok {
                r.push(entry.duplicate());
                proof {
                    assert(r.deep_view() =~= prev.push(self@[i as int]));
                }
            }
            proof {
                lemma_filter_push(self@.subrange(0, i as int), self@[i as int], pred);
                assert(self@.subrange(0, i + 1 as int) =~= self@.subrange(0, i as int).push(
                    self@[i as int],
                ));
            }
            i = i + 1;
        }
        proof {
            assert(self@.subrange(0, n as int) =~= self@);
        }
        r
    }
}

} // verus!
