//! String-to-string property maps: the mutable map a scope owner holds, the
//! free-form `tag:*` table, and a template's declared defaults. Keys and
//! values are byte strings; the mathematical view is a `Map` over byte
//! sequences.

use vstd::prelude::*;
use crate::util::slice_eq_bytes;

verus! {

/// A property map with unique keys, stored as an association list in
/// insertion order.
pub struct TemplateProperties {
    pub entries: Vec<(Vec<u8>, Vec<u8>)>,
}

/// Whether some entry of the list carries the key.
pub open spec fn spec_has_key(s: Seq<(Vec<u8>, Vec<u8>)>, k: Seq<u8>) -> bool {
    exists|i: int| 0 <= i < s.len() && s[i].0@ == k
}

/// The index of an entry carrying the key.
pub open spec fn spec_key_index(s: Seq<(Vec<u8>, Vec<u8>)>, k: Seq<u8>) -> int {
    choose|i: int| 0 <= i < s.len() && s[i].0@ == k
}

/// The map an association list stands for.
pub open spec fn spec_entries_map(s: Seq<(Vec<u8>, Vec<u8>)>) -> Map<Seq<u8>, Seq<u8>> {
    Map::new(|k: Seq<u8>| spec_has_key(s, k), |k: Seq<u8>| s[spec_key_index(s, k)].1@)
}

impl TemplateProperties {
    /// Well-formed: no two entries share a key.
    pub open spec fn wf(self) -> bool {
        forall|i: int, j: int|
            0 <= i < j < self.entries@.len() ==> self.entries@[i].0@ != self.entries@[j].0@
    }

    /// The mathematical value of the map.
    pub open spec fn as_map(self) -> Map<Seq<u8>, Seq<u8>> {
        spec_entries_map(self.entries@)
    }

    pub fn new() -> (r: TemplateProperties)
        ensures
            r.wf(),
            r.as_map() == Map::<Seq<u8>, Seq<u8>>::empty(),
            r.entries@.len() == 0,
    {
        let r = TemplateProperties { entries: Vec::new() };
        proof {
            assert(r.as_map() =~= Map::<Seq<u8>, Seq<u8>>::empty());
        }
        r
    }

    /// The value behind a key, if the key is bound.
    pub fn get(&self, key: &[u8]) -> (r: Option<&Vec<u8>>)
        requires
            self.wf(),
        ensures
            match r {
                Some(v) => self.as_map().contains_key(key@) && v@ == self.as_map()[key@],
                None => !self.as_map().contains_key(key@),
            },
    {
        let mut i: usize = 0;
        while i < self.entries.len()
            invariant
                self.wf(),
                i <= self.entries@.len(),
                forall|k: int| 0 <= k < i ==> self.entries@[k].0@ != key@,
            decreases self.entries@.len() - i,
        {
            if slice_eq_bytes(self.entries[i].0.as_slice(), key) {
                proof {
                    let wit = spec_key_index(self.entries@, key@);
                    assert(spec_has_key(self.entries@, key@));
                    assert(self.entries@[wit].0@ == key@);
                    assert(wit == i);
                }
                return Some(&self.entries[i].1);
            }
            i = i + 1;
        }
        proof {
            assert(!spec_has_key(self.entries@, key@));
        }
        None
    }

    /// Whether a key is bound.
    pub fn contains_key(&self, key: &[u8]) -> (r: bool)
        requires
            self.wf(),
        ensures
            r == self.as_map().contains_key(key@),
    {
        self.get(key).is_some()
    }

    /// Binds the key to the value, replacing any earlier binding.
    pub fn set(&mut self, key: Vec<u8>, value: Vec<u8>)
        requires
            old(self).wf(),
        ensures
            final(self).wf(),
            final(self).as_map() == old(self).as_map().insert(key@, value@),
    {
        let ghost old_entries = old(self).entries@;
        let mut i: usize = 0;
        while i < self.entries.len()
            invariant
                self.wf(),
                self.entries@ == old_entries,
                old(self).entries@ == old_entries,
                i <= self.entries@.len(),
                forall|k: int| 0 <= k < i ==> self.entries@[k].0@ != key@,
            decreases self.entries@.len() - i,
        {
            if slice_eq_bytes(self.entries[i].0.as_slice(), key.as_slice()) {
                let ghost ki = i as int;
                self.entries.set(i, (key, value));
                proof {
                    lemma_set_entry(old_entries, self.entries@, ki);
                }
                return ;
            }
            i = i + 1;
        }
        let ghost k_view = key@;
        let ghost v_view = value@;
        self.entries.push((key, value));
        proof {
            lemma_push_entry(old_entries, self.entries@, k_view, v_view);
        }
    }

    /// Binds the key only when it is not yet bound; an existing binding
    /// wins.
    pub fn try_insert(&mut self, key: Vec<u8>, value: Vec<u8>)
        requires
            old(self).wf(),
        ensures
            final(self).wf(),
            old(self).as_map().contains_key(key@) ==> final(self).as_map() == old(self).as_map(),
            !old(self).as_map().contains_key(key@) ==> final(self).as_map() == old(
                self,
            ).as_map().insert(key@, value@),
    {
        if !self.contains_key(key.as_slice()) {
            self.set(key, value);
        }
    }

    /// The number of bindings.
    pub fn len(&self) -> (r: usize)
        requires
            self.wf(),
        ensures
            r == self.entries@.len(),
    {
        self.entries.len()
    }
}

/// Replacing the value at an existing key updates the map at that key alone.
proof fn lemma_set_entry(
    old_s: Seq<(Vec<u8>, Vec<u8>)>,
    new_s: Seq<(Vec<u8>, Vec<u8>)>,
    i: int,
)
    requires
        0 <= i < old_s.len(),
        new_s.len() == old_s.len(),
        new_s[i].0@ == old_s[i].0@,
        forall|k: int| 0 <= k < old_s.len() && k != i ==> new_s[k] == old_s[k],
        forall|a: int, b: int| 0 <= a < b < old_s.len() ==> old_s[a].0@ != old_s[b].0@,
    ensures
        spec_entries_map(new_s) == spec_entries_map(old_s).insert(new_s[i].0@, new_s[i].1@),
{
    let key = new_s[i].0@;
    let m1 = spec_entries_map(new_s);
    let m2 = spec_entries_map(old_s).insert(key, new_s[i].1@);
    assert forall|k: Seq<u8>| m1.contains_key(k) implies m2.contains_key(k) by {
        let w = spec_key_index(new_s, k);
        if w != i {
            assert(old_s[w].0@ == k);
        }
    }
    assert forall|k: Seq<u8>| m2.contains_key(k) implies m1.contains_key(k) by {
        if k != key {
            let w = spec_key_index(old_s, k);
            assert(new_s[w].0@ == k);
        }
    }
    assert forall|k: Seq<u8>| m1.contains_key(k) && m2.contains_key(k) implies m1[k] == m2[k] by {
        let w1 = spec_key_index(new_s, k);
        if k == key {
            assert(new_s[w1].0@ == key);
            if w1 != i {
                assert(old_s[w1].0@ == old_s[i].0@);
                assert(false);
            }
        } else {
            let w2 = spec_key_index(old_s, k);
            if w1 != w2 {
                assert(new_s[w1].0@ == k);
                assert(old_s[w2].0@ == k);
                if w1 != i && w2 != i {
                    assert(old_s[w1].0@ == old_s[w2].0@);
                    assert(false);
                } else {
                    assert(false);
                }
            }
        }
    }
    assert(m1 =~= m2);
}

/// Appending a fresh key extends the map by one binding.
proof fn lemma_push_entry(
    old_s: Seq<(Vec<u8>, Vec<u8>)>,
    new_s: Seq<(Vec<u8>, Vec<u8>)>,
    key: Seq<u8>,
    value: Seq<u8>,
)
    requires
        new_s.len() == old_s.len() + 1,
        forall|k: int| 0 <= k < old_s.len() ==> new_s[k] == old_s[k],
        new_s[old_s.len() as int].0@ == key,
        new_s[old_s.len() as int].1@ == value,
        !spec_has_key(old_s, key),
        forall|a: int, b: int| 0 <= a < b < old_s.len() ==> old_s[a].0@ != old_s[b].0@,
    ensures
        spec_entries_map(new_s) == spec_entries_map(old_s).insert(key, value),
        forall|a: int, b: int| 0 <= a < b < new_s.len() ==> new_s[a].0@ != new_s[b].0@,
{
    let n = old_s.len() as int;
    let m1 = spec_entries_map(new_s);
    let m2 = spec_entries_map(old_s).insert(key, value);
    assert forall|a: int, b: int| 0 <= a < b < new_s.len() implies new_s[a].0@ != new_s[b].0@ by {
        if b == n {
            assert(old_s[a].0@ == new_s[a].0@);
            if new_s[a].0@ == key {
                assert(spec_has_key(old_s, key));
            }
        }
    }
    assert forall|k: Seq<u8>| m1.contains_key(k) implies m2.contains_key(k) by {
        let w = spec_key_index(new_s, k);
        if w != n {
            assert(old_s[w].0@ == k);
        }
    }
    assert forall|k: Seq<u8>| m2.contains_key(k) implies m1.contains_key(k) by {
        if k != key {
            let w = spec_key_index(old_s, k);
            assert(new_s[w].0@ == k);
        } else {
            assert(new_s[n].0@ == key);
        }
    }
    assert forall|k: Seq<u8>| m1.contains_key(k) && m2.contains_key(k) implies m1[k] == m2[k] by {
        let w1 = spec_key_index(new_s, k);
        assert(new_s[w1].0@ == k);
        if k == key {
            if w1 != n {
                assert(old_s[w1].0@ == key);
                assert(spec_has_key(old_s, key));
                assert(false);
            }
        } else {
            assert(w1 != n);
            let w2 = spec_key_index(old_s, k);
            assert(old_s[w2].0@ == k);
            if w1 != w2 {
                assert(new_s[w2].0@ == k);
                assert(false);
            }
        }
    }
    assert(m1 =~= m2);
}


/// An exact copy of a property map.
pub fn clone_props(p: &TemplateProperties) -> (r: TemplateProperties)
    ensures
        r.entries@.len() == p.entries@.len(),
        forall|i: int|
            0 <= i < p.entries@.len() ==> (#[trigger] r.entries@[i]).0@ == p.entries@[i].0@
                && r.entries@[i].1@ == p.entries@[i].1@,
        p.wf() ==> r.wf(),
        p.wf() ==> r.as_map() == p.as_map(),
{
    let mut entries: Vec<(Vec<u8>, Vec<u8>)> = Vec::new();
    let mut i: usize = 0;
    while i < p.entries.len()
        invariant
            i <= p.entries@.len(),
            entries@.len() == i,
            forall|k: int|
                0 <= k < i ==> (#[trigger] entries@[k]).0@ == p.entries@[k].0@ && entries@[k].1@
                    == p.entries@[k].1@,
        decreases p.entries@.len() - i,
    {
        let key = crate::util::clone_vec_copy(&p.entries[i].0);
        let val = crate::util::clone_vec_copy(&p.entries[i].1);
        entries.push((key, val));
        i = i + 1;
    }
    let r = TemplateProperties { entries };
    proof {
        if p.wf() {
            assert forall|k: Seq<u8>| #[trigger]
                spec_has_key(r.entries@, k) == spec_has_key(p.entries@, k) by {
                if spec_has_key(r.entries@, k) {
                    let w = spec_key_index(r.entries@, k);
                    assert(p.entries@[w].0@ == k);
                }
                if spec_has_key(p.entries@, k) {
                    let w = spec_key_index(p.entries@, k);
                    assert(r.entries@[w].0@ == k);
                }
            }
            assert forall|k: Seq<u8>|
                r.as_map().contains_key(k) && p.as_map().contains_key(k) implies r.as_map()[k]
                == p.as_map()[k] by {
                let w1 = spec_key_index(r.entries@, k);
                let w2 = spec_key_index(p.entries@, k);
                if w1 != w2 {
                    assert(r.entries@[w1].0@ == k);
                    assert(p.entries@[w2].0@ == k);
                    assert(r.entries@[w2].0@ == k);
                    assert(false);
                }
            }
            assert(r.as_map() =~= p.as_map());
        }
    }
    r
}

} // verus!
