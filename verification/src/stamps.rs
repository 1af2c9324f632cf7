//! Times remembered per key (a monotonic clock in nanoseconds), and the rate
//! limits and cooldowns built on them.
use vstd::prelude::*;

use crate::text::chars_of;
use crate::translations::eq_lit;

verus! {

/// The time from `then` to `now`, zero when `now` is not later
/// (`Instant::duration_since`).
pub open spec fn elapsed(now: u64, then: u64) -> nat {
    if now >= then {
        (now - then) as nat
    } else {
        0
    }
}

/// The time from `then` to `now`, saturating at zero.
pub fn elapsed_since(now: u64, then: u64) -> (r: u64)
    ensures
        r == elapsed(now, then),
{
    if now >= then {
        now - then
    } else {
        0
    }
}

/// The keys of a list of entries are pairwise different.
pub open spec fn unique_keys(e: Seq<(String, u64)>) -> bool {
    forall|i: int, j: int| 0 <= i < j < e.len() ==> (#[trigger] e[i]).0@ != (#[trigger] e[j]).0@
}

/// The map a list of entries stands for: each key to its time.
pub open spec fn stamp_map(e: Seq<(String, u64)>) -> Map<Seq<char>, u64>
    decreases e.len(),
{
    if e.len() == 0 {
        Map::empty()
    } else {
        stamp_map(e.drop_last()).insert(e.last().0@, e.last().1)
    }
}

/// The keys of the map are those of the entries, and with unique keys each
/// key maps to the time of its entry.
proof fn lemma_stamp_map(e: Seq<(String, u64)>)
    ensures
        forall|k: Seq<char>|
            #[trigger] stamp_map(e).contains_key(k) <==> exists|i: int|
                0 <= i < e.len() && (#[trigger] e[i]).0@ == k,
        unique_keys(e) ==> forall|i: int|
            0 <= i < e.len() ==> #[trigger] stamp_map(e)[e[i].0@] == e[i].1,
    decreases e.len(),
{
    if e.len() > 0 {
        let d = e.drop_last();
        lemma_stamp_map(d);
        assert forall|k: Seq<char>| #[trigger] stamp_map(e).contains_key(k) <==> exists|i: int|
            0 <= i < e.len() && (#[trigger] e[i]).0@ == k by {
            if stamp_map(e).contains_key(k) && k != e.last().0@ {
                assert(stamp_map(d).contains_key(k));
                let i = choose|i: int| 0 <= i < d.len() && (#[trigger] d[i]).0@ == k;
                assert(e[i] == d[i]);
            }
            if exists|i: int| 0 <= i < e.len() && (#[trigger] e[i]).0@ == k {
                let i = choose|i: int| 0 <= i < e.len() && (#[trigger] e[i]).0@ == k;
                if i < e.len() - 1 {
                    assert(d[i] == e[i]);
                    assert(stamp_map(d).contains_key(k));
                }
            }
            if stamp_map(e).contains_key(k) && k == e.last().0@ {
                assert(e[e.len() - 1].0@ == k);
            }
        }
        if unique_keys(e) {
            assert(unique_keys(d)) by {
                assert forall|i: int, j: int| 0 <= i < j < d.len() implies (#[trigger] d[i]).0@
                    != (#[trigger] d[j]).0@ by {
                    assert(d[i] == e[i] && d[j] == e[j]);
                }
            }
            assert forall|i: int| 0 <= i < e.len() implies #[trigger] stamp_map(e)[e[i].0@]
                == e[i].1 by {
                if i < e.len() - 1 {
                    assert(d[i] == e[i]);
                    assert(e[i].0@ != e[e.len() - 1].0@);
                    assert(stamp_map(d)[d[i].0@] == d[i].1);
                } else {
                    assert(e[i] == e.last());
                }
            }
        }
    }
}

/// Times remembered per key; each key at most once.
#[derive(Debug)]
pub struct StampMap {
    pub entries: Vec<(String, u64)>,
}

impl View for StampMap {
    type V = Map<Seq<char>, u64>;

    open spec fn view(&self) -> Map<Seq<char>, u64> {
        stamp_map(self.entries@)
    }
}

impl StampMap {
    /// Each key is remembered once.
    pub open spec fn wf(&self) -> bool {
        unique_keys(self.entries@)
    }

    /// No key remembered.
    pub fn new() -> (r: StampMap)
        ensures
            r.wf(),
            r@ == Map::<Seq<char>, u64>::empty(),
    {
        StampMap { entries: Vec::new() }
    }

    fn index_of(&self, key: &str) -> (r: Option<usize>)
        ensures
            match r {
                Some(i) => i < self.entries@.len() && self.entries@[i as int].0@ == key@,
                None => forall|i: int|
                    0 <= i < self.entries@.len() ==> (#[trigger] self.entries@[i]).0@ != key@,
            },
    {
        let k = chars_of(key);
        let mut i: usize = 0;
        while i < self.entries.len()
            invariant
                k@ == key@,
                i <= self.entries@.len(),
                forall|j: int| 0 <= j < i ==> (#[trigger] self.entries@[j]).0@ != key@,
            decreases self.entries@.len() - i,
        {
            if eq_lit(k.as_slice(), self.entries[i].0.as_str()) {
                return Some(i);
            }
            i = i + 1;
        }
        None
    }

    /// The time remembered for `key`.
    pub fn get(&self, key: &str) -> (r: Option<u64>)
        requires
            self.wf(),
        ensures
            r == (if self@.contains_key(key@) {
                Some(self@[key@])
            } else {
                None
            }),
    {
        proof {
            lemma_stamp_map(self.entries@);
        }
        match self.index_of(key) {
            Some(i) => Some(self.entries[i].1),
            None => None,
        }
    }

    /// Remembers `time` for `key`, replacing what was remembered for it.
    pub fn set(&mut self, key: &str, time: u64)
        requires
            old(self).wf(),
        ensures
            final(self).wf(),
            final(self)@ == old(self)@.insert(key@, time),
    {
        let ghost before = self.entries@;
        proof {
            lemma_stamp_map(before);
        }
        match self.index_of(key) {
            Some(i) => {
                self.entries.set(i, (key.to_owned(), time));
                let ghost after = self.entries@;
                assert(unique_keys(after)) by {
                    assert forall|a: int, b: int| 0 <= a < b < after.len() implies (
                    #[trigger] after[a]).0@ != (#[trigger] after[b]).0@ by {
                        if a != i && b != i {
                            assert(after[a] == before[a] && after[b] == before[b]);
                        } else if a == i {
                            assert(after[b] == before[b]);
                            assert(before[i as int].0@ != before[b].0@);
                        } else {
                            assert(after[a] == before[a]);
                            assert(before[a].0@ != before[i as int].0@);
                        }
                    }
                }
                proof {
                    lemma_stamp_map(after);
                }
                assert(stamp_map(after) =~= stamp_map(before).insert(key@, time)) by {
                    assert forall|k: Seq<char>| #[trigger] stamp_map(after).contains_key(k)
                        <==> stamp_map(before).insert(key@, time).contains_key(k) by {
                        if stamp_map(before).contains_key(k) {
                            let j = choose|j: int| 0 <= j < before.len() && (#[trigger] before[j]).0@ == k;
                            if j != i {
                                assert(after[j] == before[j]);
                            }
                        }
                        if stamp_map(after).contains_key(k) {
                            let j = choose|j: int| 0 <= j < after.len() && (#[trigger] after[j]).0@ == k;
                            if j != i {
                                assert(after[j] == before[j]);
                            }
                        }
                        assert(after[i as int].0@ == key@);
                    }
                    assert forall|k: Seq<char>| #[trigger] stamp_map(after).contains_key(k) implies
                        stamp_map(after)[k] == stamp_map(before).insert(key@, time)[k] by {
                        let j = choose|j: int| 0 <= j < after.len() && (#[trigger] after[j]).0@ == k;
                        if j != i {
                            assert(after[j] == before[j]);
                        }
                    }
                }
            },
            None => {
                self.entries.push((key.to_owned(), time));
                let ghost after = self.entries@;
                assert(after.drop_last() == before);
                assert(unique_keys(after)) by {
                    assert forall|a: int, b: int| 0 <= a < b < after.len() implies (
                    #[trigger] after[a]).0@ != (#[trigger] after[b]).0@ by {
                        assert(after[a] == before[a]);
                        if b < before.len() {
                            assert(after[b] == before[b]);
                        }
                    }
                }
            },
        }
    }

    /// Forgets `key`.
    pub fn remove(&mut self, key: &str)
        requires
            old(self).wf(),
        ensures
            final(self).wf(),
            final(self)@ == old(self)@.remove(key@),
    {
        let ghost before = self.entries@;
        proof {
            lemma_stamp_map(before);
        }
        match self.index_of(key) {
            Some(i) => {
                self.entries.remove(i);
                let ghost after = self.entries@;
                assert(forall|j: int| 0 <= j < i ==> after[j] == before[j]);
                assert(forall|j: int| i <= j < after.len() ==> after[j] == before[j + 1]);
                assert(unique_keys(after)) by {
                    assert forall|a: int, b: int| 0 <= a < b < after.len() implies (
                    #[trigger] after[a]).0@ != (#[trigger] after[b]).0@ by {
                        let a2 = if a < i { a } else { a + 1 };
                        let b2 = if b < i { b } else { b + 1 };
                        assert(after[a] == before[a2] && after[b] == before[b2]);
                    }
                }
                proof {
                    lemma_stamp_map(after);
                }
                assert(stamp_map(after) =~= stamp_map(before).remove(key@)) by {
                    assert forall|k: Seq<char>| #[trigger] stamp_map(after).contains_key(k)
                        <==> stamp_map(before).remove(key@).contains_key(k) by {
                        if stamp_map(after).contains_key(k) {
                            let j = choose|j: int| 0 <= j < after.len() && (#[trigger] after[j]).0@ == k;
                            let j2 = if j < i { j } else { j + 1 };
                            assert(after[j] == before[j2]);
                            assert(before[j2].0@ != before[i as int].0@);
                        }
                        if stamp_map(before).remove(key@).contains_key(k) {
                            let j = choose|j: int| 0 <= j < before.len() && (#[trigger] before[j]).0@ == k;
                            assert(j != i);
                            let j2 = if j < i { j } else { j - 1 };
                            assert(after[j2] == before[j]);
                        }
                    }
                    assert forall|k: Seq<char>| #[trigger] stamp_map(after).contains_key(k) implies
                        stamp_map(after)[k] == stamp_map(before).remove(key@)[k] by {
                        let j = choose|j: int| 0 <= j < after.len() && (#[trigger] after[j]).0@ == k;
                        let j2 = if j < i { j } else { j + 1 };
                        assert(after[j] == before[j2]);
                        assert(before[j2].0@ != before[i as int].0@);
                    }
                }
            },
            None => {
                assert(stamp_map(before) =~= stamp_map(before).remove(key@));
            },
        }
    }
}

} // verus!
