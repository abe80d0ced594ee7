//! A name-keyed table of serialized snapshots.
//!
//! The host keeps one such table per loaded module for shared-resource
//! snapshots and one for the module's mutation requests, and one globally in
//! the registry. Keys are raw name bytes exactly as the guest supplies them.
//! The table is a sequence of pairs with unique keys; its mathematical view is
//! the map from key bytes to value bytes.

use vstd::prelude::*;

verus! {

/// A table from name bytes to serialized value bytes, with unique keys.
pub struct AssocTable {
    entries: Vec<(Vec<u8>, Vec<u8>)>,
}

/// The map denoted by a sequence of key/value pairs; later pairs win.
pub closed spec fn entries_map(s: Seq<(Vec<u8>, Vec<u8>)>) -> Map<Seq<u8>, Seq<u8>>
    decreases s.len(),
{
    if s.len() == 0 {
        Map::empty()
    } else {
        entries_map(s.drop_last()).insert(s.last().0@, s.last().1@)
    }
}

/// No key occurs twice.
spec fn unique_keys(s: Seq<(Vec<u8>, Vec<u8>)>) -> bool {
    forall|i: int, j: int| 0 <= i < j < s.len() ==> s[i].0@ != s[j].0@
}

impl View for AssocTable {
    type V = Map<Seq<u8>, Seq<u8>>;

    closed spec fn view(&self) -> Map<Seq<u8>, Seq<u8>> {
        entries_map(self.entries@)
    }
}

proof fn lemma_map_of_found(s: Seq<(Vec<u8>, Vec<u8>)>, j: int)
    requires
        0 <= j < s.len(),
        forall|l: int| j < l < s.len() ==> s[l].0@ != s[j].0@,
    ensures
        entries_map(s).contains_key(s[j].0@),
        entries_map(s)[s[j].0@] == s[j].1@,
    decreases s.len(),
{
    if j < s.len() - 1 {
        lemma_map_of_found(s.drop_last(), j);
    }
}

proof fn lemma_map_of_absent(s: Seq<(Vec<u8>, Vec<u8>)>, k: Seq<u8>)
    requires
        forall|l: int| 0 <= l < s.len() ==> s[l].0@ != k,
    ensures
        !entries_map(s).contains_key(k),
    decreases s.len(),
{
    if s.len() > 0 {
        lemma_map_of_absent(s.drop_last(), k);
    }
}

proof fn lemma_map_of_update(s: Seq<(Vec<u8>, Vec<u8>)>, j: int, k: Vec<u8>, v: Vec<u8>)
    requires
        0 <= j < s.len(),
        unique_keys(s),
        k@ == s[j].0@,
    ensures
        entries_map(s.update(j, (k, v))) == entries_map(s).insert(k@, v@),
    decreases s.len(),
{
    let t = s.update(j, (k, v));
    if j == s.len() - 1 {
        assert(t.drop_last() =~= s.drop_last());
        assert(entries_map(t) =~= entries_map(s).insert(k@, v@));
    } else {
        lemma_map_of_update(s.drop_last(), j, k, v);
        assert(t.drop_last() =~= s.drop_last().update(j, (k, v)));
        assert(s.last().0@ != s[j].0@);
        assert(entries_map(t) =~= entries_map(s).insert(k@, v@));
    }
}

proof fn lemma_map_of_remove(s: Seq<(Vec<u8>, Vec<u8>)>, j: int)
    requires
        0 <= j < s.len(),
        unique_keys(s),
    ensures
        entries_map(s.remove(j)) == entries_map(s).remove(s[j].0@),
    decreases s.len(),
{
    if j == s.len() - 1 {
        assert(s.remove(j) =~= s.drop_last());
        lemma_map_of_absent(s.drop_last(), s[j].0@);
        assert(entries_map(s.remove(j)) =~= entries_map(s).remove(s[j].0@));
    } else {
        lemma_map_of_remove(s.drop_last(), j);
        assert(s.remove(j).drop_last() =~= s.drop_last().remove(j));
        assert(s.remove(j).last() == s.last());
        assert(s.last().0@ != s[j].0@);
        assert(entries_map(s.remove(j)) =~= entries_map(s).remove(s[j].0@));
    }
}

/// Byte-for-byte equality of two byte vectors.
fn bytes_eq(a: &Vec<u8>, b: &Vec<u8>) -> (r: bool)
    ensures
        r <==> a@ == b@,
{
    if a.len() != b.len() {
        return false;
    }
    let mut i: usize = 0;
    while i < a.len()
        invariant
            a@.len() == b@.len(),
            0 <= i <= a@.len(),
            forall|j: int| 0 <= j < i ==> a@[j] == b@[j],
        decreases a@.len() - i,
    {
        if a[i] != b[i] {
            return false;
        }
        i = i + 1;
    }
    proof {
        assert(a@ =~= b@);
    }
    true
}

impl AssocTable {
    /// Internal well-formedness: no key occurs twice. Established by `new`
    /// and preserved by every operation.
    pub closed spec fn wf(self) -> bool {
        unique_keys(self.entries@)
    }

    /// The empty table.
    pub fn new() -> (r: Self)
        ensures
            r@ == Map::<Seq<u8>, Seq<u8>>::empty(),
            r.wf(),
    {
        AssocTable { entries: Vec::new() }
    }

    /// Position of `name` among the entries, if present.
    fn find(&self, name: &Vec<u8>) -> (r: Option<usize>)
        requires
            self.wf(),
        ensures
            match r {
                Some(j) => j < self.entries@.len() && self.entries@[j as int].0@ == name@,
                None => forall|l: int|
                    0 <= l < self.entries@.len() ==> self.entries@[l].0@ != name@,
            },
    {
        let mut i: usize = 0;
        while i < self.entries.len()
            invariant
                0 <= i <= self.entries@.len(),
                forall|l: int| 0 <= l < i ==> self.entries@[l].0@ != name@,
            decreases self.entries@.len() - i,
        {
            if bytes_eq(&self.entries[i].0, name) {
                return Some(i);
            }
            i = i + 1;
        }
        None
    }

    /// Look the snapshot for `name` up without consuming it.
    pub fn get(&self, name: &Vec<u8>) -> (r: Option<&Vec<u8>>)
        requires
            self.wf(),
        ensures
            match r {
                Some(v) => self@.contains_key(name@) && v@ == self@[name@],
                None => !self@.contains_key(name@),
            },
    {
        match self.find(name) {
            Some(j) => {
                proof {
                    lemma_map_of_found(self.entries@, j as int);
                }
                Some(&self.entries[j].1)
            },
            None => {
                proof {
                    lemma_map_of_absent(self.entries@, name@);
                }
                None
            },
        }
    }

    /// Store `value` under `name`, replacing any earlier snapshot wholesale.
    pub fn insert(&mut self, name: Vec<u8>, value: Vec<u8>)
        requires
            old(self).wf(),
        ensures
            final(self)@ == old(self)@.insert(name@, value@),
            final(self).wf(),
    {
        match self.find(&name) {
            Some(j) => {
                proof {
                    lemma_map_of_update(self.entries@, j as int, name, value);
                }
                self.entries[j] = (name, value);
            },
            None => {
                proof {
                    let s = self.entries@.push((name, value));
                    assert(s.drop_last() =~= self.entries@);
                    lemma_map_of_absent(self.entries@, name@);
                }
                self.entries.push((name, value));
            },
        }
    }

    /// Take the snapshot for `name` out of the table, if present.
    pub fn remove(&mut self, name: &Vec<u8>) -> (r: Option<Vec<u8>>)
        requires
            old(self).wf(),
        ensures
            final(self)@ == old(self)@.remove(name@),
            final(self).wf(),
            match r {
                Some(v) => old(self)@.contains_key(name@) && v@ == old(self)@[name@],
                None => !old(self)@.contains_key(name@),
            },
    {
        match self.find(name) {
            Some(j) => {
                proof {
                    lemma_map_of_found(self.entries@, j as int);
                    lemma_map_of_remove(self.entries@, j as int);
                }
                let pair = self.entries.remove(j);
                Some(pair.1)
            },
            None => {
                proof {
                    lemma_map_of_absent(self.entries@, name@);
                    assert(old(self)@.remove(name@) =~= old(self)@);
                }
                None
            },
        }
    }

    /// Number of entries.
    pub fn len(&self) -> (r: usize)
        requires
            self.wf(),
        ensures
            r == self@.dom().len(),
            self@.dom().finite(),
    {
        proof {
            lemma_map_len(self.entries@);
        }
        self.entries.len()
    }

    /// Copy every entry of this table into `dst`, overwriting clashes:
    /// broadcast semantics for shared-resource snapshots.
    pub fn merge_into(&self, dst: &mut AssocTable)
        requires
            self.wf(),
            old(dst).wf(),
        ensures
            final(dst)@ == old(dst)@.union_prefer_right(self@),
            final(dst).wf(),
    {
        let ghost dst0 = old(dst)@;
        let mut i: usize = 0;
        while i < self.entries.len()
            invariant
                self.wf(),
                dst.wf(),
                0 <= i <= self.entries@.len(),
                dst@ == dst0.union_prefer_right(entries_map(self.entries@.take(i as int))),
            decreases self.entries@.len() - i,
        {
            let name = self.entries[i].0.clone();
            let value = self.entries[i].1.clone();
            proof {
                let pre = self.entries@.take(i as int);
                let post = self.entries@.take(i + 1);
                assert(post.drop_last() =~= pre);
                assert(dst0.union_prefer_right(entries_map(post)) =~= dst0.union_prefer_right(
                    entries_map(pre),
                ).insert(name@, value@));
            }
            dst.insert(name, value);
            i = i + 1;
        }
        proof {
            assert(self.entries@.take(self.entries@.len() as int) =~= self.entries@);
        }
    }
}

proof fn lemma_map_len(s: Seq<(Vec<u8>, Vec<u8>)>)
    requires
        unique_keys(s),
    ensures
        entries_map(s).dom().finite(),
        entries_map(s).dom().len() == s.len(),
    decreases s.len(),
{
    if s.len() > 0 {
        lemma_map_len(s.drop_last());
        lemma_map_of_absent(s.drop_last(), s.last().0@);
    }
}

} // verus!
