//! A table from names to instants that can be pruned by age.

use vstd::prelude::*;
use crate::text::{owned, str_eq};

verus! {

/// Whether no two entries share a key.
pub open spec fn keys_unique(s: Seq<(String, i64)>) -> bool {
    forall|i: int, j: int| 0 <= i < s.len() && 0 <= j < s.len() && i != j ==> (#[trigger] s[i]).0@ != (#[trigger] s[j]).0@
}

/// Whether some entry has the key.
pub open spec fn has_key(s: Seq<(String, i64)>, k: Seq<char>) -> bool {
    exists|i: int| 0 <= i < s.len() && (#[trigger] s[i]).0@ == k
}

/// The map the entries denote.
pub open spec fn entries_map(s: Seq<(String, i64)>) -> Map<Seq<char>, i64> {
    Map::new(
        |k: Seq<char>| has_key(s, k),
        |k: Seq<char>| s[choose|i: int| 0 <= i < s.len() && (#[trigger] s[i]).0@ == k].1,
    )
}

/// In a table with unique keys, entry `i` is what its key maps to.
pub proof fn lemma_entry_at(s: Seq<(String, i64)>, i: int)
    requires
        keys_unique(s),
        0 <= i < s.len(),
    ensures
        entries_map(s).contains_key(s[i].0@),
        entries_map(s)[s[i].0@] == s[i].1,
{
    let k = s[i].0@;
    assert(has_key(s, k));
    let c = choose|c: int| 0 <= c < s.len() && (#[trigger] s[c]).0@ == k;
    if c != i {
        assert(s[i].0@ != s[c].0@);
    }
}

/// Names with the instant each was last recorded at.
pub struct StampTable {
    entries: Vec<(String, i64)>,
}

impl View for StampTable {
    type V = Map<Seq<char>, i64>;

    closed spec fn view(&self) -> Map<Seq<char>, i64> {
        entries_map(self.entries@)
    }
}

impl StampTable {
    #[verifier::type_invariant]
    spec fn well_formed(self) -> bool {
        keys_unique(self.entries@)
    }

    /// An empty table.
    pub fn new() -> (r: StampTable)
        ensures
            r@ == Map::<Seq<char>, i64>::empty(),
    {
        let r = StampTable { entries: Vec::new() };
        assert(r@ =~= Map::<Seq<char>, i64>::empty());
        r
    }

    /// The instant recorded for `key`.
    pub fn get(&self, key: &str) -> (r: Option<i64>)
        ensures
            match r {
                Some(t) => self@.contains_key(key@) && self@[key@] == t,
                None => !self@.contains_key(key@),
            },
    {
        proof {
            use_type_invariant(self);
        }
        let mut i: usize = 0;
        while i < self.entries.len()
            invariant
                i <= self.entries.len(),
                keys_unique(self.entries@),
                forall|j: int| 0 <= j < i ==> (#[trigger] self.entries@[j]).0@ != key@,
            decreases self.entries.len() - i,
        {
            if str_eq(self.entries[i].0.as_str(), key) {
                proof {
                    lemma_entry_at(self.entries@, i as int);
                }
                return Some(self.entries[i].1);
            }
            i = i + 1;
        }
        None
    }

    /// Records `t` for `key`, replacing what was recorded before.
    pub fn insert(&mut self, key: &str, t: i64)
        ensures
            final(self)@ == old(self)@.insert(key@, t),
    {
        proof {
            use_type_invariant(&*self);
        }
        let ghost old_list = self.entries@;
        let mut list: Vec<(String, i64)> = Vec::new();
        std::mem::swap(&mut list, &mut self.entries);
        let mut i: usize = 0;
        let mut found = false;
        while !found && i < list.len()
            invariant
                i <= list.len(),
                list@ == old_list,
                keys_unique(old_list),
                found ==> i < list.len() && old_list[i as int].0@ == key@,
                !found ==> forall|j: int| 0 <= j < i ==> (#[trigger] old_list[j]).0@ != key@,
            decreases list.len() - i + (if found { 0int } else { 1int }),
        {
            if str_eq(list[i].0.as_str(), key) {
                found = true;
            } else {
                i = i + 1;
            }
        }
        if found {
            list.set(i, (owned(key), t));
        } else {
            list.push((owned(key), t));
        }
        proof {
            let nl = list@;
            let at: int = if found { i as int } else { old_list.len() as int };
            assert(nl.len() == if found { old_list.len() } else { old_list.len() + 1 });
            assert(forall|j: int| 0 <= j < nl.len() && j != at ==> nl[j] == old_list[j]);
            assert(nl[at].0@ == key@ && nl[at].1 == t);
            assert forall|a: int, b: int| 0 <= a < nl.len() && 0 <= b < nl.len() && a != b implies
                (#[trigger] nl[a]).0@ != (#[trigger] nl[b]).0@ by {
                if a != at && b != at {
                    assert(old_list[a].0@ != old_list[b].0@);
                } else if a == at {
                    assert(nl[b] == old_list[b]);
                    if found {
                        assert(old_list[a].0@ != old_list[b].0@);
                    }
                } else {
                    assert(nl[a] == old_list[a]);
                    if found {
                        assert(old_list[a].0@ != old_list[b].0@);
                    }
                }
            }
            lemma_entry_at(nl, at);
            let m = old(self)@.insert(key@, t);
            assert forall|k: Seq<char>| #[trigger] entries_map(nl).contains_key(k) == m.contains_key(k) by {
                if k != key@ {
                    if has_key(nl, k) {
                        let c = choose|c: int| 0 <= c < nl.len() && (#[trigger] nl[c]).0@ == k;
                        assert(old_list[c] == nl[c]);
                        assert(has_key(old_list, k));
                    }
                    if has_key(old_list, k) {
                        let c = choose|c: int| 0 <= c < old_list.len() && (#[trigger] old_list[c]).0@ == k;
                        assert(c != at);
                        assert(nl[c] == old_list[c]);
                        assert(has_key(nl, k));
                    }
                }
            }
            assert forall|k: Seq<char>| #[trigger] m.contains_key(k) && k != key@ implies entries_map(nl)[k] == m[k] by {
                let c = choose|c: int| 0 <= c < old_list.len() && (#[trigger] old_list[c]).0@ == k;
                assert(c != at);
                assert(nl[c] == old_list[c]);
                lemma_entry_at(old_list, c);
                lemma_entry_at(nl, c);
            }
            assert(entries_map(nl) =~= m);
        }
        self.entries = list;
    }

    /// Removes every entry.
    pub fn clear(&mut self)
        ensures
            final(self)@ == Map::<Seq<char>, i64>::empty(),
    {
        self.entries = Vec::new();
        assert(entries_map(self.entries@) =~= Map::<Seq<char>, i64>::empty());
    }

    /// Keeps the entries whose instant `t` satisfies `min <= t`.
    pub fn retain_since(&mut self, min: i64)
        ensures
            final(self)@ == old(self)@.restrict(old(self)@.dom().filter(|k: Seq<char>| min <= old(self)@[k])),
    {
        proof {
            use_type_invariant(&*self);
        }
        let ghost old_list = self.entries@;
        let mut list: Vec<(String, i64)> = Vec::new();
        std::mem::swap(&mut list, &mut self.entries);
        let mut kept: Vec<(String, i64)> = Vec::new();
        let mut idx: Ghost<Seq<int>> = Ghost(Seq::empty());
        let mut i: usize = 0;
        while i < list.len()
            invariant
                i <= list.len(),
                list@ == old_list,
                keys_unique(old_list),
                idx@.len() == kept@.len(),
                forall|a: int| 0 <= a < kept@.len() ==> 0 <= #[trigger] idx@[a] < i && kept@[a] == old_list[idx@[a]],
                forall|a: int, b: int| 0 <= a < b < kept@.len() ==> #[trigger] idx@[a] < #[trigger] idx@[b],
                forall|j: int| 0 <= j < i && min <= (#[trigger] old_list[j]).1 ==> exists|a: int| 0 <= a < kept@.len() && idx@[a] == j,
                forall|a: int| 0 <= a < kept@.len() ==> min <= (#[trigger] kept@[a]).1,
            decreases list.len() - i,
        {
            let ghost old_idx = idx@;
            let ghost old_kept = kept@;
            if min <= list[i].1 {
                let (k, t) = &list[i];
                kept.push((k.clone(), *t));
                proof {
                    idx@ = idx@.push(i as int);
                }
            }
            proof {
                assert forall|j: int| 0 <= j < i + 1 && min <= (#[trigger] old_list[j]).1 implies
                    exists|a: int| 0 <= a < kept@.len() && idx@[a] == j by {
                    if j == i {
                        assert(idx@[kept@.len() - 1] == j);
                    } else {
                        let a = choose|a: int| 0 <= a < old_kept.len() && old_idx[a] == j;
                        assert(idx@[a] == j);
                    }
                }
            }
            i = i + 1;
        }
        proof {
            let kl = kept@;
            assert forall|a: int, b: int| 0 <= a < kl.len() && 0 <= b < kl.len() && a != b implies
                (#[trigger] kl[a]).0@ != (#[trigger] kl[b]).0@ by {
                let ia = idx@[a];
                let ib = idx@[b];
                if a < b {
                    assert(ia < ib);
                } else {
                    assert(ib < ia);
                }
                assert(old_list[ia].0@ != old_list[ib].0@);
            }
            let om = old(self)@;
            let m = om.restrict(om.dom().filter(|k: Seq<char>| min <= om[k]));
            assert forall|k: Seq<char>| #[trigger] entries_map(kl).contains_key(k) == m.contains_key(k) by {
                if has_key(kl, k) {
                    let a = choose|a: int| 0 <= a < kl.len() && (#[trigger] kl[a]).0@ == k;
                    let j = idx@[a];
                    lemma_entry_at(old_list, j);
                    assert(om.contains_key(k) && om[k] == old_list[j].1);
                }
                if m.contains_key(k) {
                    let j = choose|j: int| 0 <= j < old_list.len() && (#[trigger] old_list[j]).0@ == k;
                    lemma_entry_at(old_list, j);
                    let a = choose|a: int| 0 <= a < kl.len() && idx@[a] == j;
                    assert(kl[a].0@ == k);
                }
            }
            assert forall|k: Seq<char>| #[trigger] m.contains_key(k) implies entries_map(kl)[k] == m[k] by {
                let j = choose|j: int| 0 <= j < old_list.len() && (#[trigger] old_list[j]).0@ == k;
                lemma_entry_at(old_list, j);
                let a = choose|a: int| 0 <= a < kl.len() && idx@[a] == j;
                lemma_entry_at(kl, a);
            }
            assert(entries_map(kl) =~= m);
        }
        self.entries = kept;
    }
}

} // verus!
