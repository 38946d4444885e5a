use vstd::prelude::*;

use crate::zfs::Snapshot;

verus! {

/// Copies a list of snapshots item by item.
pub fn copy_snapshots(v: &Vec<Snapshot>) -> (r: Vec<Snapshot>)
    ensures
        r@ == v@,
{
    let mut out: Vec<Snapshot> = Vec::new();
    let mut i: usize = 0;
    while i < v.len()
        invariant
            i <= v@.len(),
            out@ == v@.take(i as int),
        decreases v@.len() - i,
    {
        out.push(v[i].duplicate());
        i = i + 1;
        assert(out@ =~= v@.take(i as int));
    }
    assert(v@.take(v@.len() as int) =~= v@);
    out
}

/// The store of snapshot lists, keyed by dataset name. Entries stay until
/// they are overwritten; the last write for a name wins.
pub struct SnapshotCache {
    entries: Vec<(String, Vec<Snapshot>)>,
    contents: Ghost<Map<Seq<char>, Seq<Snapshot>>>,
}

impl SnapshotCache {
    /// Each name has one entry, and the entries are what the view says.
    pub closed spec fn wf(&self) -> bool {
        &&& forall|i: int, j: int|
            0 <= i < j < self.entries@.len() ==> (#[trigger] self.entries@[i]).0@
                != (#[trigger] self.entries@[j]).0@
        &&& forall|i: int|
            0 <= i < self.entries@.len() ==> self.contents@.contains_key(
                (#[trigger] self.entries@[i]).0@,
            ) && self.contents@[self.entries@[i].0@] == self.entries@[i].1@
        &&& forall|k: Seq<char>|
            #[trigger] self.contents@.contains_key(k) ==> exists|i: int|
                0 <= i < self.entries@.len() && (#[trigger] self.entries@[i]).0@ == k
    }

    /// An empty cache.
    pub fn new() -> (r: Self)
        ensures
            r.wf(),
            r@ == Map::<Seq<char>, Seq<Snapshot>>::empty(),
    {
        SnapshotCache { entries: Vec::new(), contents: Ghost(Map::empty()) }
    }

    fn find(&self, key: &String) -> (r: Option<usize>)
        requires
            self.wf(),
        ensures
            match r {
                Some(i) => i < self.entries@.len() && self.entries@[i as int].0@ == key@,
                None => !self@.contains_key(key@),
            },
    {
        let mut i: usize = 0;
        while i < self.entries.len()
            invariant
                i <= self.entries@.len(),
                forall|k: int| 0 <= k < i ==> (#[trigger] self.entries@[k]).0@ != key@,
            decreases self.entries@.len() - i,
        {
            if self.entries[i].0 == *key {
                return Some(i);
            }
            i = i + 1;
        }
        None
    }

    /// The list cached for `key`, if any.
    pub fn get(&self, key: &str) -> (r: Option<Vec<Snapshot>>)
        requires
            self.wf(),
        ensures
            match r {
                Some(v) => self@.contains_key(key@) && v@ == self@[key@],
                None => !self@.contains_key(key@),
            },
    {
        let k = key.to_owned();
        match self.find(&k) {
            Some(i) => Some(copy_snapshots(&self.entries[i].1)),
            None => None,
        }
    }

    /// Drops the entry for `key`, if there is one.
    pub fn invalidate(&mut self, key: &str)
        requires
            old(self).wf(),
        ensures
            final(self).wf(),
            final(self)@ == old(self)@.remove(key@),
    {
        let k = key.to_owned();
        let ghost new_contents = self.contents@.remove(key@);
        match self.find(&k) {
            Some(i) => {
                let ghost old_entries = self.entries@;
                self.entries.remove(i);
                self.contents = Ghost(new_contents);
                assert forall|j: int| 0 <= j < self.entries@.len() implies #[trigger] self.entries@[j] == (
                if j < i {
                    old_entries[j]
                } else {
                    old_entries[j + 1]
                }) by {}
                assert forall|q: Seq<char>| #[trigger] self.contents@.contains_key(q) implies exists|j: int|
                    0 <= j < self.entries@.len() && (#[trigger] self.entries@[j]).0@ == q by {
                    let j = choose|j: int| 0 <= j < old_entries.len() && (#[trigger] old_entries[j]).0@ == q;
                    assert(j != i);
                    if j < i {
                        assert(self.entries@[j] == old_entries[j]);
                    } else {
                        assert(self.entries@[j - 1] == old_entries[j]);
                    }
                }
                assert forall|a: int, b: int|
                    0 <= a < b < self.entries@.len() implies (#[trigger] self.entries@[a]).0@
                    != (#[trigger] self.entries@[b]).0@ by {
                    let oa = if a < i { a } else { a + 1 };
                    let ob = if b < i { b } else { b + 1 };
                    assert(self.entries@[a] == old_entries[oa]);
                    assert(self.entries@[b] == old_entries[ob]);
                }
                assert forall|j: int| 0 <= j < self.entries@.len() implies self.contents@.contains_key(
                    (#[trigger] self.entries@[j]).0@,
                ) && self.contents@[self.entries@[j].0@] == self.entries@[j].1@ by {
                    let oj = if j < i { j } else { j + 1 };
                    assert(self.entries@[j] == old_entries[oj]);
                    assert(oj != i);
                }
            },
            None => {
                assert(self.contents@ =~= new_contents);
            },
        }
    }

    /// Stores `value` for `key`, replacing what was there.
    pub fn put(&mut self, key: &str, value: Vec<Snapshot>)
        requires
            old(self).wf(),
        ensures
            final(self).wf(),
            final(self)@ == old(self)@.insert(key@, value@),
    {
        let k = key.to_owned();
        let ghost new_contents = self.contents@.insert(key@, value@);
        match self.find(&k) {
            Some(i) => {
                let ghost old_entries = self.entries@;
                self.entries.set(i, (k, value));
                self.contents = Ghost(new_contents);
                assert forall|j: int| 0 <= j < self.entries@.len() && j != i implies #[trigger] self.entries@[j] == old_entries[j] by {}
                assert(self.entries@[i as int].0@ == key@);
                assert forall|q: Seq<char>| #[trigger] self.contents@.contains_key(q) implies exists|j: int|
                    0 <= j < self.entries@.len() && (#[trigger] self.entries@[j]).0@ == q by {
                    if q != key@ {
                        let j = choose|j: int| 0 <= j < old_entries.len() && (#[trigger] old_entries[j]).0@ == q;
                        assert(self.entries@[j] == old_entries[j]);
                    }
                }
            },
            None => {
                self.entries.push((k, value));
                self.contents = Ghost(new_contents);
                assert forall|q: Seq<char>| #[trigger] self.contents@.contains_key(q) implies exists|i: int|
                    0 <= i < self.entries@.len() && (#[trigger] self.entries@[i]).0@ == q by {
                    if q == key@ {
                        assert(self.entries@[self.entries@.len() - 1].0@ == q);
                    } else {
                        let i = choose|i: int| 0 <= i < old(self).entries@.len() && (#[trigger] old(self).entries@[i]).0@ == q;
                        assert(self.entries@[i] == old(self).entries@[i]);
                    }
                }
            },
        }
    }
}

impl View for SnapshotCache {
    type V = Map<Seq<char>, Seq<Snapshot>>;

    closed spec fn view(&self) -> Map<Seq<char>, Seq<Snapshot>> {
        self.contents@
    }
}

} // verus!
