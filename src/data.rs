use vstd::prelude::*;

use crate::cache::{copy_snapshots, SnapshotCache};
use crate::zfs::{Dataset, Pool, Snapshot};

verus! {

/// A failed query of the inventory tool, with the tool's diagnostic text.
#[derive(Debug)]
pub struct FetchError {
    pub message: String,
}

/// How a request for a dataset's snapshots was served.
#[derive(Debug, Clone, Copy, PartialEq, Eq, Structural)]
pub enum SnapshotLoad {
    /// A non-empty cached list was used; no live fetch is needed.
    FromCache,
    /// Nothing usable was cached: a live fetch must follow.
    NeedsFetch,
}

/// Whether a load of `name` against cache contents `c` is served from the
/// cache. A cached empty list counts as a miss.
pub open spec fn served_from_cache(c: Map<Seq<char>, Seq<Snapshot>>, name: Seq<char>) -> bool {
    c.contains_key(name) && c[name].len() > 0
}

/// The names of a list of datasets, in order.
pub open spec fn dataset_names(ds: Seq<Dataset>) -> Seq<Seq<char>> {
    Seq::new(ds.len(), |i: int| ds[i].name@)
}

/// The character sequences of a list of strings, in order.
pub open spec fn string_views(v: Seq<String>) -> Seq<Seq<char>> {
    Seq::new(v.len(), |i: int| v[i]@)
}

/// The names of the datasets of every pool whose listing succeeded, pool by
/// pool and in listing order; failed pools contribute nothing.
pub open spec fn prefetch_worklist(lists: Seq<Result<Vec<Dataset>, FetchError>>) -> Seq<Seq<char>>
    decreases lists.len(),
{
    if lists.len() == 0 {
        Seq::empty()
    } else {
        prefetch_worklist(lists.drop_last()) + match lists.last() {
            Ok(ds) => dataset_names(ds@),
            Err(_) => Seq::empty(),
        }
    }
}

/// The completed count after one more prefetch task resolves.
pub open spec fn prefetch_step(completed: nat, total: nat) -> nat {
    if completed < total {
        completed + 1
    } else {
        total
    }
}

/// The completed count after `k` tasks have resolved since the start.
pub open spec fn completed_after(total: nat, k: nat) -> nat
    decreases k,
{
    if k == 0 {
        0
    } else {
        prefetch_step(completed_after(total, (k - 1) as nat), total)
    }
}

/// The prefetch's completed count never passes its total, and reaches it
/// exactly once as many tasks as were dispatched have resolved, whatever
/// their outcome.
pub proof fn lemma_prefetch_progress(total: nat, k: nat)
    ensures
        completed_after(total, k) <= total,
        completed_after(total, k) == if k < total {
            k
        } else {
            total
        },
        k >= total ==> completed_after(total, k) == total,
    decreases k,
{
    if k > 0 {
        lemma_prefetch_progress(total, (k - 1) as nat);
    }
}

/// A dataset whose snapshots are not usefully cached is loaded by a live
/// fetch; once a non-empty fetch has been stored for it, the next load of
/// that dataset is served from the cache with no live fetch.
pub proof fn lemma_second_load_served_from_cache(
    c: Map<Seq<char>, Seq<Snapshot>>,
    name: Seq<char>,
    fetched: Seq<Snapshot>,
)
    requires
        fetched.len() > 0,
    ensures
        served_from_cache(c.insert(name, fetched), name),
        c.insert(name, fetched)[name] == fetched,
{
}

/// Loaded collections, the snapshot cache, and prefetch progress.
pub struct DataManager {
    pub pools: Vec<Pool>,
    pub datasets: Vec<Dataset>,
    pub snapshots: Vec<Snapshot>,
    pub snapshot_cache: SnapshotCache,
    pub prefetch_complete: bool,
    pub prefetch_total: usize,
    pub prefetch_completed: usize,
    pub thread_count: usize,
}

impl DataManager {
    pub open spec fn wf(&self) -> bool {
        &&& self.snapshot_cache.wf()
        &&& self.prefetch_completed <= self.prefetch_total
        &&& self.prefetch_complete ==> self.prefetch_completed == self.prefetch_total
    }

    /// An empty manager whose prefetch will run `thread_count` fetches at once.
    pub fn new(thread_count: usize) -> (r: Self)
        ensures
            r.wf(),
            r.pools@.len() == 0,
            r.datasets@.len() == 0,
            r.snapshots@.len() == 0,
            r.snapshot_cache@ == Map::<Seq<char>, Seq<Snapshot>>::empty(),
            !r.prefetch_complete,
            r.prefetch_total == 0,
            r.prefetch_completed == 0,
            r.thread_count == thread_count,
    {
        DataManager {
            pools: Vec::new(),
            datasets: Vec::new(),
            snapshots: Vec::new(),
            snapshot_cache: SnapshotCache::new(),
            prefetch_complete: false,
            prefetch_total: 0,
            prefetch_completed: 0,
            thread_count,
        }
    }

    /// Takes the result of the pool query: on success the pool list is
    /// replaced and the prefetch is reset until `begin_prefetch` is called;
    /// on failure nothing changes and the error is handed back.
    pub fn load_pools(&mut self, fetched: Result<Vec<Pool>, FetchError>) -> (r: Result<(), FetchError>)
        requires
            old(self).wf(),
        ensures
            final(self).wf(),
            final(self).datasets == old(self).datasets,
            final(self).snapshots == old(self).snapshots,
            final(self).snapshot_cache == old(self).snapshot_cache,
            final(self).thread_count == old(self).thread_count,
            match fetched {
                Ok(v) => {
                    &&& r is Ok
                    &&& final(self).pools@ == v@
                    &&& final(self).prefetch_total == 0
                    &&& final(self).prefetch_completed == 0
                    &&& !final(self).prefetch_complete
                },
                Err(e) => {
                    &&& r == Err::<(), FetchError>(e)
                    &&& final(self).pools == old(self).pools
                    &&& final(self).prefetch_total == old(self).prefetch_total
                    &&& final(self).prefetch_completed == old(self).prefetch_completed
                    &&& final(self).prefetch_complete == old(self).prefetch_complete
                },
            },
    {
        match fetched {
            Ok(v) => {
                self.pools = v;
                self.prefetch_total = 0;
                self.prefetch_completed = 0;
                self.prefetch_complete = false;
                Ok(())
            },
            Err(e) => Err(e),
        }
    }

    /// Starts the prefetch from the dataset listings of the pools: returns the
    /// names to fetch snapshots for, sets the total to their number and the
    /// completed count to zero. With nothing to fetch the prefetch is complete.
    pub fn begin_prefetch(&mut self, lists: Vec<Result<Vec<Dataset>, FetchError>>) -> (r: Vec<String>)
        requires
            old(self).wf(),
        ensures
            final(self).wf(),
            string_views(r@) == prefetch_worklist(lists@),
            final(self).prefetch_total == r@.len(),
            final(self).prefetch_completed == 0,
            final(self).prefetch_complete == (r@.len() == 0),
            final(self).pools == old(self).pools,
            final(self).datasets == old(self).datasets,
            final(self).snapshots == old(self).snapshots,
            final(self).snapshot_cache == old(self).snapshot_cache,
            final(self).thread_count == old(self).thread_count,
    {
        let mut names: Vec<String> = Vec::new();
        let mut i: usize = 0;
        while i < lists.len()
            invariant
                i <= lists@.len(),
                string_views(names@) == prefetch_worklist(lists@.take(i as int)),
            decreases lists@.len() - i,
        {
            proof {
                assert(lists@.take(i + 1).drop_last() =~= lists@.take(i as int));
                assert(lists@.take(i + 1).last() == lists@[i as int]);
            }
            match &lists[i] {
                Ok(ds) => {
                    let ghost before = names@;
                    let mut j: usize = 0;
                    while j < ds.len()
                        invariant
                            j <= ds@.len(),
                            string_views(names@) == string_views(before)
                                + dataset_names(ds@.take(j as int)),
                        decreases ds@.len() - j,
                    {
                        let ghost prev = names@;
                        names.push(ds[j].name.clone());
                        proof {
                            assert(string_views(names@) =~= string_views(prev).push(ds@[j as int].name@));
                            assert(dataset_names(ds@.take(j + 1)) =~= dataset_names(ds@.take(j as int)).push(
                                ds@[j as int].name@,
                            ));
                            assert(string_views(names@) =~= string_views(before) + dataset_names(
                                ds@.take(j + 1),
                            ));
                        }
                        j = j + 1;
                    }
                    assert(ds@.take(ds@.len() as int) =~= ds@);
                },
                Err(_) => {
                    assert(string_views(names@) =~= prefetch_worklist(lists@.take(i as int)) + Seq::empty());
                },
            }
            i = i + 1;
        }
        assert(lists@.take(lists@.len() as int) =~= lists@);
        self.prefetch_total = names.len();
        self.prefetch_completed = 0;
        self.prefetch_complete = names.len() == 0;
        names
    }

    /// Takes the outcome of one prefetch task: a successful fetch is written
    /// to the cache, a failed one is dropped; either way the task counts as
    /// completed, and once all have completed the prefetch is complete.
    pub fn record_prefetch_result(&mut self, dataset_name: &str, fetched: Result<Vec<Snapshot>, FetchError>)
        requires
            old(self).wf(),
        ensures
            final(self).wf(),
            final(self).snapshot_cache@ == match fetched {
                Ok(v) => old(self).snapshot_cache@.insert(dataset_name@, v@),
                Err(_) => old(self).snapshot_cache@,
            },
            final(self).prefetch_completed == prefetch_step(
                old(self).prefetch_completed as nat,
                old(self).prefetch_total as nat,
            ),
            final(self).prefetch_total == old(self).prefetch_total,
            final(self).prefetch_complete == (old(self).prefetch_complete || final(self).prefetch_completed
                == final(self).prefetch_total),
            final(self).pools == old(self).pools,
            final(self).datasets == old(self).datasets,
            final(self).snapshots == old(self).snapshots,
            final(self).thread_count == old(self).thread_count,
    {
        match fetched {
            Ok(v) => self.snapshot_cache.put(dataset_name, v),
            Err(_) => {},
        }
        if self.prefetch_completed < self.prefetch_total {
            self.prefetch_completed = self.prefetch_completed + 1;
        }
        if self.prefetch_completed == self.prefetch_total {
            self.prefetch_complete = true;
        }
    }

    /// Takes the result of the dataset query for a pool: on success the
    /// dataset list is replaced wholesale; on failure nothing changes.
    pub fn load_datasets(&mut self, fetched: Result<Vec<Dataset>, FetchError>) -> (r: Result<(), FetchError>)
        requires
            old(self).wf(),
        ensures
            final(self).wf(),
            final(self).pools == old(self).pools,
            final(self).snapshots == old(self).snapshots,
            final(self).snapshot_cache == old(self).snapshot_cache,
            final(self).prefetch_total == old(self).prefetch_total,
            final(self).prefetch_completed == old(self).prefetch_completed,
            final(self).prefetch_complete == old(self).prefetch_complete,
            final(self).thread_count == old(self).thread_count,
            match fetched {
                Ok(v) => r is Ok && final(self).datasets@ == v@,
                Err(e) => r == Err::<(), FetchError>(e) && final(self).datasets == old(self).datasets,
            },
    {
        match fetched {
            Ok(v) => {
                self.datasets = v;
                Ok(())
            },
            Err(e) => Err(e),
        }
    }

    /// Looks a dataset's snapshots up in the cache. A non-empty cached list
    /// becomes the current list; otherwise the current list is emptied and
    /// a live fetch must follow, handed back through `reload_snapshots`.
    pub fn load_snapshots(&mut self, dataset_name: &str) -> (r: SnapshotLoad)
        requires
            old(self).wf(),
        ensures
            final(self).wf(),
            (r == SnapshotLoad::FromCache) == served_from_cache(old(self).snapshot_cache@, dataset_name@),
            r == SnapshotLoad::FromCache ==> final(self).snapshots@ == old(self).snapshot_cache@[dataset_name@],
            r == SnapshotLoad::NeedsFetch ==> final(self).snapshots@.len() == 0,
            final(self).snapshot_cache == old(self).snapshot_cache,
            final(self).pools == old(self).pools,
            final(self).datasets == old(self).datasets,
            final(self).prefetch_total == old(self).prefetch_total,
            final(self).prefetch_completed == old(self).prefetch_completed,
            final(self).prefetch_complete == old(self).prefetch_complete,
            final(self).thread_count == old(self).thread_count,
    {
        match self.get_cached_snapshots(dataset_name) {
            Some(v) => {
                if v.len() > 0 {
                    self.snapshots = v;
                    SnapshotLoad::FromCache
                } else {
                    self.snapshots = Vec::new();
                    SnapshotLoad::NeedsFetch
                }
            },
            None => {
                self.snapshots = Vec::new();
                SnapshotLoad::NeedsFetch
            },
        }
    }

    /// Takes a live fetch of a dataset's snapshots, whatever the cache holds:
    /// on success it becomes the current list and overwrites the cache entry;
    /// on failure nothing changes and the error is handed back.
    pub fn reload_snapshots(&mut self, dataset_name: &str, fetched: Result<Vec<Snapshot>, FetchError>) -> (r: Result<(), FetchError>)
        requires
            old(self).wf(),
        ensures
            final(self).wf(),
            match fetched {
                Ok(v) => {
                    &&& r is Ok
                    &&& final(self).snapshots@ == v@
                    &&& final(self).snapshot_cache@ == old(self).snapshot_cache@.insert(dataset_name@, v@)
                },
                Err(e) => {
                    &&& r == Err::<(), FetchError>(e)
                    &&& final(self).snapshots == old(self).snapshots
                    &&& final(self).snapshot_cache == old(self).snapshot_cache
                },
            },
            final(self).pools == old(self).pools,
            final(self).datasets == old(self).datasets,
            final(self).prefetch_total == old(self).prefetch_total,
            final(self).prefetch_completed == old(self).prefetch_completed,
            final(self).prefetch_complete == old(self).prefetch_complete,
            final(self).thread_count == old(self).thread_count,
    {
        match fetched {
            Ok(v) => {
                self.snapshots = v;
                self.cache_snapshots(dataset_name);
                Ok(())
            },
            Err(e) => Err(e),
        }
    }

    /// The list cached for a dataset, if any.
    pub fn get_cached_snapshots(&self, dataset_name: &str) -> (r: Option<Vec<Snapshot>>)
        requires
            self.wf(),
        ensures
            match r {
                Some(v) => self.snapshot_cache@.contains_key(dataset_name@) && v@
                    == self.snapshot_cache@[dataset_name@],
                None => !self.snapshot_cache@.contains_key(dataset_name@),
            },
    {
        self.snapshot_cache.get(dataset_name)
    }

    /// Writes the current snapshot list to the cache under a dataset's name.
    pub fn cache_snapshots(&mut self, dataset_name: &str)
        requires
            old(self).wf(),
        ensures
            final(self).wf(),
            final(self).snapshot_cache@ == old(self).snapshot_cache@.insert(dataset_name@, old(self).snapshots@),
            final(self).snapshots == old(self).snapshots,
            final(self).pools == old(self).pools,
            final(self).datasets == old(self).datasets,
            final(self).prefetch_total == old(self).prefetch_total,
            final(self).prefetch_completed == old(self).prefetch_completed,
            final(self).prefetch_complete == old(self).prefetch_complete,
            final(self).thread_count == old(self).thread_count,
    {
        let copy = copy_snapshots(&self.snapshots);
        self.snapshot_cache.put(dataset_name, copy);
    }

    pub fn is_prefetch_complete(&self) -> (r: bool)
        ensures
            r == self.prefetch_complete,
    {
        self.prefetch_complete
    }

    /// Prefetch progress as (completed, total).
    pub fn get_prefetch_progress(&self) -> (r: (usize, usize))
        ensures
            r == (self.prefetch_completed, self.prefetch_total),
    {
        (self.prefetch_completed, self.prefetch_total)
    }
}

} // verus!
