use vstd::prelude::*;

use crate::order::{
    bytes_le, lemma_bytes_le_total, lemma_bytes_le_trans, lemma_swap_multiset, name_le,
    name_le_exec, swap_items,
};
use crate::zfs::{dataset_total, total_size, Dataset, Snapshot};

verus! {

/// The keys by which the dataset view can be ordered, in toggle order.
#[derive(Debug, Clone, Copy, PartialEq, Eq, Structural)]
pub enum DatasetSortOrder {
    TotalSizeDesc,
    TotalSizeAsc,
    DatasetSizeDesc,
    DatasetSizeAsc,
    SnapshotSizeDesc,
    SnapshotSizeAsc,
    NameDesc,
    NameAsc,
}

/// Number of dataset sort keys in the toggle cycle.
pub const DATASET_SORT_KEYS: u64 = 8;

/// Position of a dataset sort key in the toggle cycle.
pub open spec fn dataset_order_index(o: DatasetSortOrder) -> int {
    match o {
        DatasetSortOrder::TotalSizeDesc => 0,
        DatasetSortOrder::TotalSizeAsc => 1,
        DatasetSortOrder::DatasetSizeDesc => 2,
        DatasetSortOrder::DatasetSizeAsc => 3,
        DatasetSortOrder::SnapshotSizeDesc => 4,
        DatasetSortOrder::SnapshotSizeAsc => 5,
        DatasetSortOrder::NameDesc => 6,
        DatasetSortOrder::NameAsc => 7,
    }
}

/// The key that follows `o` in the toggle cycle, wrapping after the last.
pub open spec fn following_dataset_order(o: DatasetSortOrder) -> DatasetSortOrder {
    match o {
        DatasetSortOrder::TotalSizeDesc => DatasetSortOrder::TotalSizeAsc,
        DatasetSortOrder::TotalSizeAsc => DatasetSortOrder::DatasetSizeDesc,
        DatasetSortOrder::DatasetSizeDesc => DatasetSortOrder::DatasetSizeAsc,
        DatasetSortOrder::DatasetSizeAsc => DatasetSortOrder::SnapshotSizeDesc,
        DatasetSortOrder::SnapshotSizeDesc => DatasetSortOrder::SnapshotSizeAsc,
        DatasetSortOrder::SnapshotSizeAsc => DatasetSortOrder::NameDesc,
        DatasetSortOrder::NameDesc => DatasetSortOrder::NameAsc,
        DatasetSortOrder::NameAsc => DatasetSortOrder::TotalSizeDesc,
    }
}

/// The key reached from `o` after `k` toggles.
pub open spec fn advance_dataset_order(o: DatasetSortOrder, k: nat) -> DatasetSortOrder
    decreases k,
{
    if k == 0 {
        o
    } else {
        following_dataset_order(advance_dataset_order(o, (k - 1) as nat))
    }
}

impl DatasetSortOrder {
    /// The next key in the toggle cycle.
    pub fn next(self) -> (r: Self)
        ensures
            r == following_dataset_order(self),
            dataset_order_index(r) == (dataset_order_index(self) + 1) % (DATASET_SORT_KEYS as int),
    {
        match self {
            DatasetSortOrder::TotalSizeDesc => DatasetSortOrder::TotalSizeAsc,
            DatasetSortOrder::TotalSizeAsc => DatasetSortOrder::DatasetSizeDesc,
            DatasetSortOrder::DatasetSizeDesc => DatasetSortOrder::DatasetSizeAsc,
            DatasetSortOrder::DatasetSizeAsc => DatasetSortOrder::SnapshotSizeDesc,
            DatasetSortOrder::SnapshotSizeDesc => DatasetSortOrder::SnapshotSizeAsc,
            DatasetSortOrder::SnapshotSizeAsc => DatasetSortOrder::NameDesc,
            DatasetSortOrder::NameDesc => DatasetSortOrder::NameAsc,
            DatasetSortOrder::NameAsc => DatasetSortOrder::TotalSizeDesc,
        }
    }
}

impl Default for DatasetSortOrder {
    fn default() -> (r: Self)
        ensures
            r == DatasetSortOrder::TotalSizeDesc,
    {
        DatasetSortOrder::TotalSizeDesc
    }
}

/// The keys by which the snapshot view can be ordered, in toggle order.
#[derive(Debug, Clone, Copy, PartialEq, Eq, Structural)]
pub enum SnapshotSortOrder {
    UsedDesc,
    UsedAsc,
    ReferencedDesc,
    ReferencedAsc,
    NameDesc,
    NameAsc,
}

/// Number of snapshot sort keys in the toggle cycle.
pub const SNAPSHOT_SORT_KEYS: u64 = 6;

/// Position of a snapshot sort key in the toggle cycle.
pub open spec fn snapshot_order_index(o: SnapshotSortOrder) -> int {
    match o {
        SnapshotSortOrder::UsedDesc => 0,
        SnapshotSortOrder::UsedAsc => 1,
        SnapshotSortOrder::ReferencedDesc => 2,
        SnapshotSortOrder::ReferencedAsc => 3,
        SnapshotSortOrder::NameDesc => 4,
        SnapshotSortOrder::NameAsc => 5,
    }
}

/// The key that follows `o` in the toggle cycle, wrapping after the last.
pub open spec fn following_snapshot_order(o: SnapshotSortOrder) -> SnapshotSortOrder {
    match o {
        SnapshotSortOrder::UsedDesc => SnapshotSortOrder::UsedAsc,
        SnapshotSortOrder::UsedAsc => SnapshotSortOrder::ReferencedDesc,
        SnapshotSortOrder::ReferencedDesc => SnapshotSortOrder::ReferencedAsc,
        SnapshotSortOrder::ReferencedAsc => SnapshotSortOrder::NameDesc,
        SnapshotSortOrder::NameDesc => SnapshotSortOrder::NameAsc,
        SnapshotSortOrder::NameAsc => SnapshotSortOrder::UsedDesc,
    }
}

/// The key reached from `o` after `k` toggles.
pub open spec fn advance_snapshot_order(o: SnapshotSortOrder, k: nat) -> SnapshotSortOrder
    decreases k,
{
    if k == 0 {
        o
    } else {
        following_snapshot_order(advance_snapshot_order(o, (k - 1) as nat))
    }
}

impl SnapshotSortOrder {
    /// The next key in the toggle cycle.
    pub fn next(self) -> (r: Self)
        ensures
            r == following_snapshot_order(self),
            snapshot_order_index(r) == (snapshot_order_index(self) + 1) % (SNAPSHOT_SORT_KEYS as int),
    {
        match self {
            SnapshotSortOrder::UsedDesc => SnapshotSortOrder::UsedAsc,
            SnapshotSortOrder::UsedAsc => SnapshotSortOrder::ReferencedDesc,
            SnapshotSortOrder::ReferencedDesc => SnapshotSortOrder::ReferencedAsc,
            SnapshotSortOrder::ReferencedAsc => SnapshotSortOrder::NameDesc,
            SnapshotSortOrder::NameDesc => SnapshotSortOrder::NameAsc,
            SnapshotSortOrder::NameAsc => SnapshotSortOrder::UsedDesc,
        }
    }
}

impl Default for SnapshotSortOrder {
    fn default() -> (r: Self)
        ensures
            r == SnapshotSortOrder::UsedDesc,
    {
        SnapshotSortOrder::UsedDesc
    }
}


/// Whether dataset `a` may stand before dataset `b` under `order`.
pub open spec fn dataset_le(order: DatasetSortOrder, a: Dataset, b: Dataset) -> bool {
    match order {
        DatasetSortOrder::TotalSizeDesc => dataset_total(b) <= dataset_total(a),
        DatasetSortOrder::TotalSizeAsc => dataset_total(a) <= dataset_total(b),
        DatasetSortOrder::DatasetSizeDesc => b.referenced <= a.referenced,
        DatasetSortOrder::DatasetSizeAsc => a.referenced <= b.referenced,
        DatasetSortOrder::SnapshotSizeDesc => b.snapshot_used <= a.snapshot_used,
        DatasetSortOrder::SnapshotSizeAsc => a.snapshot_used <= b.snapshot_used,
        DatasetSortOrder::NameDesc => name_le(b.name@, a.name@),
        DatasetSortOrder::NameAsc => name_le(a.name@, b.name@),
    }
}

/// Every dataset stands before or together with each one after it.
pub open spec fn datasets_sorted(order: DatasetSortOrder, s: Seq<Dataset>) -> bool {
    forall|i: int, j: int| 0 <= i < j < s.len() ==> dataset_le(order, #[trigger] s[i], #[trigger] s[j])
}

/// Whether snapshot `a` may stand before snapshot `b` under `order`.
pub open spec fn snapshot_le(order: SnapshotSortOrder, a: Snapshot, b: Snapshot) -> bool {
    match order {
        SnapshotSortOrder::UsedDesc => b.used <= a.used,
        SnapshotSortOrder::UsedAsc => a.used <= b.used,
        SnapshotSortOrder::ReferencedDesc => b.referenced <= a.referenced,
        SnapshotSortOrder::ReferencedAsc => a.referenced <= b.referenced,
        SnapshotSortOrder::NameDesc => name_le(b.name@, a.name@),
        SnapshotSortOrder::NameAsc => name_le(a.name@, b.name@),
    }
}

/// Every snapshot stands before or together with each one after it.
pub open spec fn snapshots_sorted(order: SnapshotSortOrder, s: Seq<Snapshot>) -> bool {
    forall|i: int, j: int|
        0 <= i < j < s.len() ==> snapshot_le(order, #[trigger] s[i], #[trigger] s[j])
}

/// Datasets `a` and `b` have the same key under `order`.
pub open spec fn same_dataset_key(order: DatasetSortOrder, a: Dataset, b: Dataset) -> bool {
    dataset_le(order, a, b) && dataset_le(order, b, a)
}

/// The datasets of `s` whose key equals that of `x`, in their order in `s`.
pub open spec fn dataset_key_class(order: DatasetSortOrder, s: Seq<Dataset>, x: Dataset) -> Seq<Dataset>
    decreases s.len(),
{
    if s.len() == 0 {
        Seq::empty()
    } else {
        let rest = dataset_key_class(order, s.drop_last(), x);
        if same_dataset_key(order, s.last(), x) {
            rest.push(s.last())
        } else {
            rest
        }
    }
}

/// `after` is `before` sorted stably under `order`: the same items, in key
/// order, with the items of each key in the order they had in `before`;
/// so a list that was already sorted is left as it was.
pub open spec fn datasets_stably_sorted(order: DatasetSortOrder, before: Seq<Dataset>, after: Seq<Dataset>) -> bool {
    &&& after.to_multiset() == before.to_multiset()
    &&& after.len() == before.len()
    &&& datasets_sorted(order, after)
    &&& forall|x: Dataset| #[trigger] dataset_key_class(order, after, x) == dataset_key_class(order, before, x)
    &&& datasets_sorted(order, before) ==> after == before
}

proof fn lemma_dataset_class_add(order: DatasetSortOrder, a: Seq<Dataset>, b: Seq<Dataset>, x: Dataset)
    ensures
        dataset_key_class(order, a + b, x) == dataset_key_class(order, a, x) + dataset_key_class(order, b, x),
    decreases b.len(),
{
    if b.len() == 0 {
        assert(a + b =~= a);
        assert(dataset_key_class(order, a, x) + dataset_key_class(order, b, x) =~= dataset_key_class(order, a, x));
    } else {
        lemma_dataset_class_add(order, a, b.drop_last(), x);
        assert((a + b).drop_last() =~= a + b.drop_last());
        assert((a + b).last() == b.last());
        assert(dataset_key_class(order, a + b, x) =~= dataset_key_class(order, a, x) + dataset_key_class(order, b, x));
    }
}

proof fn lemma_dataset_class_swap(order: DatasetSortOrder, s: Seq<Dataset>, j: int, x: Dataset)
    requires
        0 < j < s.len(),
        !dataset_le(order, s[j - 1], s[j]),
    ensures
        dataset_key_class(order, s.update(j - 1, s[j]).update(j, s[j - 1]), x) == dataset_key_class(order, s, x),
{
    let a = s[j - 1];
    let b = s[j];
    let pre = s.take(j - 1);
    let post = s.skip(j + 1);
    assert(s =~= pre + seq![a, b] + post);
    assert(s.update(j - 1, b).update(j, a) =~= pre + seq![b, a] + post);
    lemma_dataset_class_add(order, pre + seq![a, b], post, x);
    lemma_dataset_class_add(order, pre, seq![a, b], x);
    lemma_dataset_class_add(order, pre + seq![b, a], post, x);
    lemma_dataset_class_add(order, pre, seq![b, a], x);
    lemma_dataset_le_preorder(order, a, x, b);
    assert(seq![a, b].drop_last() =~= seq![a]);
    assert(seq![b, a].drop_last() =~= seq![b]);
    assert(seq![a].drop_last() =~= Seq::<Dataset>::empty());
    assert(seq![b].drop_last() =~= Seq::<Dataset>::empty());
    reveal_with_fuel(dataset_key_class, 3);
    assert(!(same_dataset_key(order, a, x) && same_dataset_key(order, b, x)));
    let ca = dataset_key_class(order, seq![a], x);
    let cb = dataset_key_class(order, seq![b], x);
    assert(dataset_key_class(order, seq![a, b], x) == if same_dataset_key(order, b, x) {
        ca.push(b)
    } else {
        ca
    });
    assert(dataset_key_class(order, seq![b, a], x) == if same_dataset_key(order, a, x) {
        cb.push(a)
    } else {
        cb
    });
    assert(dataset_key_class(order, seq![a, b], x) =~= dataset_key_class(order, seq![b, a], x));
}

/// Snapshots `a` and `b` have the same key under `order`.
pub open spec fn same_snapshot_key(order: SnapshotSortOrder, a: Snapshot, b: Snapshot) -> bool {
    snapshot_le(order, a, b) && snapshot_le(order, b, a)
}

/// The snapshots of `s` whose key equals that of `x`, in their order in `s`.
pub open spec fn snapshot_key_class(order: SnapshotSortOrder, s: Seq<Snapshot>, x: Snapshot) -> Seq<Snapshot>
    decreases s.len(),
{
    if s.len() == 0 {
        Seq::empty()
    } else {
        let rest = snapshot_key_class(order, s.drop_last(), x);
        if same_snapshot_key(order, s.last(), x) {
            rest.push(s.last())
        } else {
            rest
        }
    }
}

/// `after` is `before` sorted stably under `order`: the same items, in key
/// order, with the items of each key in the order they had in `before`;
/// so a list that was already sorted is left as it was.
pub open spec fn snapshots_stably_sorted(order: SnapshotSortOrder, before: Seq<Snapshot>, after: Seq<Snapshot>) -> bool {
    &&& after.to_multiset() == before.to_multiset()
    &&& after.len() == before.len()
    &&& snapshots_sorted(order, after)
    &&& forall|x: Snapshot| #[trigger] snapshot_key_class(order, after, x) == snapshot_key_class(order, before, x)
    &&& snapshots_sorted(order, before) ==> after == before
}

proof fn lemma_snapshot_class_add(order: SnapshotSortOrder, a: Seq<Snapshot>, b: Seq<Snapshot>, x: Snapshot)
    ensures
        snapshot_key_class(order, a + b, x) == snapshot_key_class(order, a, x) + snapshot_key_class(order, b, x),
    decreases b.len(),
{
    if b.len() == 0 {
        assert(a + b =~= a);
        assert(snapshot_key_class(order, a, x) + snapshot_key_class(order, b, x) =~= snapshot_key_class(order, a, x));
    } else {
        lemma_snapshot_class_add(order, a, b.drop_last(), x);
        assert((a + b).drop_last() =~= a + b.drop_last());
        assert((a + b).last() == b.last());
        assert(snapshot_key_class(order, a + b, x) =~= snapshot_key_class(order, a, x) + snapshot_key_class(order, b, x));
    }
}

proof fn lemma_snapshot_class_swap(order: SnapshotSortOrder, s: Seq<Snapshot>, j: int, x: Snapshot)
    requires
        0 < j < s.len(),
        !snapshot_le(order, s[j - 1], s[j]),
    ensures
        snapshot_key_class(order, s.update(j - 1, s[j]).update(j, s[j - 1]), x) == snapshot_key_class(order, s, x),
{
    let a = s[j - 1];
    let b = s[j];
    let pre = s.take(j - 1);
    let post = s.skip(j + 1);
    assert(s =~= pre + seq![a, b] + post);
    assert(s.update(j - 1, b).update(j, a) =~= pre + seq![b, a] + post);
    lemma_snapshot_class_add(order, pre + seq![a, b], post, x);
    lemma_snapshot_class_add(order, pre, seq![a, b], x);
    lemma_snapshot_class_add(order, pre + seq![b, a], post, x);
    lemma_snapshot_class_add(order, pre, seq![b, a], x);
    lemma_snapshot_le_preorder(order, a, x, b);
    assert(seq![a, b].drop_last() =~= seq![a]);
    assert(seq![b, a].drop_last() =~= seq![b]);
    assert(seq![a].drop_last() =~= Seq::<Snapshot>::empty());
    assert(seq![b].drop_last() =~= Seq::<Snapshot>::empty());
    reveal_with_fuel(snapshot_key_class, 3);
    assert(!(same_snapshot_key(order, a, x) && same_snapshot_key(order, b, x)));
    let ca = snapshot_key_class(order, seq![a], x);
    let cb = snapshot_key_class(order, seq![b], x);
    assert(snapshot_key_class(order, seq![a, b], x) == if same_snapshot_key(order, b, x) {
        ca.push(b)
    } else {
        ca
    });
    assert(snapshot_key_class(order, seq![b, a], x) == if same_snapshot_key(order, a, x) {
        cb.push(a)
    } else {
        cb
    });
    assert(snapshot_key_class(order, seq![a, b], x) =~= snapshot_key_class(order, seq![b, a], x));
}

proof fn lemma_dataset_le_preorder(order: DatasetSortOrder, a: Dataset, b: Dataset, c: Dataset)
    ensures
        dataset_le(order, a, b) || dataset_le(order, b, a),
        dataset_le(order, a, b) && dataset_le(order, b, c) ==> dataset_le(order, a, c),
{
    let (ea, eb, ec) = (
        vstd::utf8::encode_utf8(a.name@),
        vstd::utf8::encode_utf8(b.name@),
        vstd::utf8::encode_utf8(c.name@),
    );
    lemma_bytes_le_total(ea, eb);
    if bytes_le(ea, eb) && bytes_le(eb, ec) {
        lemma_bytes_le_trans(ea, eb, ec);
    }
    if bytes_le(ec, eb) && bytes_le(eb, ea) {
        lemma_bytes_le_trans(ec, eb, ea);
    }
}

proof fn lemma_snapshot_le_preorder(
    order: SnapshotSortOrder,
    a: Snapshot,
    b: Snapshot,
    c: Snapshot,
)
    ensures
        snapshot_le(order, a, b) || snapshot_le(order, b, a),
        snapshot_le(order, a, b) && snapshot_le(order, b, c) ==> snapshot_le(order, a, c),
{
    let (ea, eb, ec) = (
        vstd::utf8::encode_utf8(a.name@),
        vstd::utf8::encode_utf8(b.name@),
        vstd::utf8::encode_utf8(c.name@),
    );
    lemma_bytes_le_total(ea, eb);
    if bytes_le(ea, eb) && bytes_le(eb, ec) {
        lemma_bytes_le_trans(ea, eb, ec);
    }
    if bytes_le(ec, eb) && bytes_le(eb, ea) {
        lemma_bytes_le_trans(ec, eb, ea);
    }
}

fn dataset_le_exec(order: DatasetSortOrder, a: &Dataset, b: &Dataset) -> (r: bool)
    ensures
        r == dataset_le(order, *a, *b),
{
    match order {
        DatasetSortOrder::TotalSizeDesc => total_size(b) <= total_size(a),
        DatasetSortOrder::TotalSizeAsc => total_size(a) <= total_size(b),
        DatasetSortOrder::DatasetSizeDesc => b.referenced <= a.referenced,
        DatasetSortOrder::DatasetSizeAsc => a.referenced <= b.referenced,
        DatasetSortOrder::SnapshotSizeDesc => b.snapshot_used <= a.snapshot_used,
        DatasetSortOrder::SnapshotSizeAsc => a.snapshot_used <= b.snapshot_used,
        DatasetSortOrder::NameDesc => name_le_exec(&b.name, &a.name),
        DatasetSortOrder::NameAsc => name_le_exec(&a.name, &b.name),
    }
}

fn snapshot_le_exec(order: SnapshotSortOrder, a: &Snapshot, b: &Snapshot) -> (r: bool)
    ensures
        r == snapshot_le(order, *a, *b),
{
    match order {
        SnapshotSortOrder::UsedDesc => b.used <= a.used,
        SnapshotSortOrder::UsedAsc => a.used <= b.used,
        SnapshotSortOrder::ReferencedDesc => b.referenced <= a.referenced,
        SnapshotSortOrder::ReferencedAsc => a.referenced <= b.referenced,
        SnapshotSortOrder::NameDesc => name_le_exec(&b.name, &a.name),
        SnapshotSortOrder::NameAsc => name_le_exec(&a.name, &b.name),
    }
}

/// The current sort key of each view.
pub struct SortManager {
    pub dataset_sort_order: DatasetSortOrder,
    pub snapshot_sort_order: SnapshotSortOrder,
}

impl Default for SortManager {
    fn default() -> (r: Self)
        ensures
            r.dataset_sort_order == DatasetSortOrder::TotalSizeDesc,
            r.snapshot_sort_order == SnapshotSortOrder::UsedDesc,
    {
        SortManager {
            dataset_sort_order: DatasetSortOrder::TotalSizeDesc,
            snapshot_sort_order: SnapshotSortOrder::UsedDesc,
        }
    }
}

impl SortManager {
    pub fn new() -> (r: Self)
        ensures
            r.dataset_sort_order == DatasetSortOrder::TotalSizeDesc,
            r.snapshot_sort_order == SnapshotSortOrder::UsedDesc,
    {
        Self::default()
    }

    /// Reorders `datasets` by the current dataset key; items with equal keys
    /// keep their relative order.
    pub fn sort_datasets(&self, datasets: &mut [Dataset])
        ensures
            datasets_stably_sorted(self.dataset_sort_order, old(datasets)@, final(datasets)@),
    {
        let order = self.dataset_sort_order;
        let n = datasets.len();
        let mut i: usize = 0;
        while i < n
            invariant
                n == datasets@.len(),
                i <= n,
                datasets@.to_multiset() == old(datasets)@.to_multiset(),
                forall|a: int, b: int|
                    0 <= a < b < i ==> dataset_le(order, #[trigger] datasets@[a], #[trigger] datasets@[b]),
                forall|x: Dataset|
                    #[trigger] dataset_key_class(order, datasets@, x) == dataset_key_class(order, old(datasets)@, x),
                datasets_sorted(order, old(datasets)@) ==> datasets@ == old(datasets)@,
            decreases n - i,
        {
            let mut j: usize = i;
            while j > 0 && !dataset_le_exec(order, &datasets[j - 1], &datasets[j])
                invariant
                    n == datasets@.len(),
                    i < n,
                    j <= i,
                    datasets@.to_multiset() == old(datasets)@.to_multiset(),
                    forall|a: int, b: int|
                        0 <= a < b <= i && a != j && b != j ==> dataset_le(
                            order,
                            #[trigger] datasets@[a],
                            #[trigger] datasets@[b],
                        ),
                    forall|b: int| j < b <= i ==> dataset_le(order, datasets@[j as int], #[trigger] datasets@[b]),
                    forall|x: Dataset|
                        #[trigger] dataset_key_class(order, datasets@, x) == dataset_key_class(order, old(datasets)@, x),
                    datasets_sorted(order, old(datasets)@) ==> datasets@ == old(datasets)@ && j == i,
                decreases j,
            {
                proof {
                    lemma_dataset_le_preorder(order, datasets@[j as int], datasets@[j - 1], datasets@[j - 1]);
                    lemma_swap_multiset(datasets@, j - 1, j as int);
                    let s = datasets@;
                    assert forall|x: Dataset| #[trigger] dataset_key_class(
                        order,
                        s.update(j - 1, s[j as int]).update(j as int, s[j - 1]),
                        x,
                    ) == dataset_key_class(order, s, x) by {
                        lemma_dataset_class_swap(order, s, j as int, x);
                    }
                }
                swap_items(datasets, j - 1, j);
                j = j - 1;
            }
            proof {
                let s = datasets@;
                assert forall|a: int, b: int| 0 <= a < b <= i implies dataset_le(
                    order,
                    #[trigger] s[a],
                    #[trigger] s[b],
                ) by {
                    if b == j && a < j - 1 {
                        lemma_dataset_le_preorder(order, s[a], s[j - 1], s[b]);
                    }
                }
            }
            i = i + 1;
        }
    }

    /// Reorders `snapshots` by the current snapshot key; items with equal keys
    /// keep their relative order.
    pub fn sort_snapshots(&self, snapshots: &mut [Snapshot])
        ensures
            snapshots_stably_sorted(self.snapshot_sort_order, old(snapshots)@, final(snapshots)@),
    {
        let order = self.snapshot_sort_order;
        let n = snapshots.len();
        let mut i: usize = 0;
        while i < n
            invariant
                n == snapshots@.len(),
                i <= n,
                snapshots@.to_multiset() == old(snapshots)@.to_multiset(),
                forall|a: int, b: int|
                    0 <= a < b < i ==> snapshot_le(order, #[trigger] snapshots@[a], #[trigger] snapshots@[b]),
                forall|x: Snapshot|
                    #[trigger] snapshot_key_class(order, snapshots@, x) == snapshot_key_class(order, old(snapshots)@, x),
                snapshots_sorted(order, old(snapshots)@) ==> snapshots@ == old(snapshots)@,
            decreases n - i,
        {
            let mut j: usize = i;
            while j > 0 && !snapshot_le_exec(order, &snapshots[j - 1], &snapshots[j])
                invariant
                    n == snapshots@.len(),
                    i < n,
                    j <= i,
                    snapshots@.to_multiset() == old(snapshots)@.to_multiset(),
                    forall|a: int, b: int|
                        0 <= a < b <= i && a != j && b != j ==> snapshot_le(
                            order,
                            #[trigger] snapshots@[a],
                            #[trigger] snapshots@[b],
                        ),
                    forall|b: int| j < b <= i ==> snapshot_le(order, snapshots@[j as int], #[trigger] snapshots@[b]),
                    forall|x: Snapshot|
                        #[trigger] snapshot_key_class(order, snapshots@, x) == snapshot_key_class(order, old(snapshots)@, x),
                    snapshots_sorted(order, old(snapshots)@) ==> snapshots@ == old(snapshots)@ && j == i,
                decreases j,
            {
                proof {
                    lemma_snapshot_le_preorder(order, snapshots@[j as int], snapshots@[j - 1], snapshots@[j - 1]);
                    lemma_swap_multiset(snapshots@, j - 1, j as int);
                    let s = snapshots@;
                    assert forall|x: Snapshot| #[trigger] snapshot_key_class(
                        order,
                        s.update(j - 1, s[j as int]).update(j as int, s[j - 1]),
                        x,
                    ) == snapshot_key_class(order, s, x) by {
                        lemma_snapshot_class_swap(order, s, j as int, x);
                    }
                }
                swap_items(snapshots, j - 1, j);
                j = j - 1;
            }
            proof {
                let s = snapshots@;
                assert forall|a: int, b: int| 0 <= a < b <= i implies snapshot_le(
                    order,
                    #[trigger] s[a],
                    #[trigger] s[b],
                ) by {
                    if b == j && a < j - 1 {
                        lemma_snapshot_le_preorder(order, s[a], s[j - 1], s[b]);
                    }
                }
            }
            i = i + 1;
        }
    }

    /// The caption of the current dataset key.
    pub fn get_dataset_sort_indicator(&self) -> (r: &'static str)
        ensures
            r@ == dataset_sort_caption(self.dataset_sort_order),
    {
        match self.dataset_sort_order {
            DatasetSortOrder::TotalSizeDesc => "Total Size ↓",
            DatasetSortOrder::TotalSizeAsc => "Total Size ↑",
            DatasetSortOrder::DatasetSizeDesc => "Dataset Size ↓",
            DatasetSortOrder::DatasetSizeAsc => "Dataset Size ↑",
            DatasetSortOrder::SnapshotSizeDesc => "Snapshots Size ↓",
            DatasetSortOrder::SnapshotSizeAsc => "Snapshots Size ↑",
            DatasetSortOrder::NameDesc => "Name ↓",
            DatasetSortOrder::NameAsc => "Name ↑",
        }
    }

    /// The caption of the current snapshot key.
    pub fn get_snapshot_sort_indicator(&self) -> (r: &'static str)
        ensures
            r@ == snapshot_sort_caption(self.snapshot_sort_order),
    {
        match self.snapshot_sort_order {
            SnapshotSortOrder::UsedDesc => "Used Size ↓",
            SnapshotSortOrder::UsedAsc => "Used Size ↑",
            SnapshotSortOrder::ReferencedDesc => "Referenced Size ↓",
            SnapshotSortOrder::ReferencedAsc => "Referenced Size ↑",
            SnapshotSortOrder::NameDesc => "Name ↓",
            SnapshotSortOrder::NameAsc => "Name ↑",
        }
    }

    /// Advances the dataset key to the next one in the cycle.
    pub fn toggle_dataset_sort(&mut self)
        ensures
            final(self).dataset_sort_order == following_dataset_order(old(self).dataset_sort_order),
            final(self).snapshot_sort_order == old(self).snapshot_sort_order,
    {
        self.dataset_sort_order = self.dataset_sort_order.next();
    }

    /// Advances the snapshot key to the next one in the cycle.
    pub fn toggle_snapshot_sort(&mut self)
        ensures
            final(self).snapshot_sort_order == following_snapshot_order(old(self).snapshot_sort_order),
            final(self).dataset_sort_order == old(self).dataset_sort_order,
    {
        self.snapshot_sort_order = self.snapshot_sort_order.next();
    }
}


/// The caption of a dataset sort key.
pub open spec fn dataset_sort_caption(o: DatasetSortOrder) -> Seq<char> {
    match o {
        DatasetSortOrder::TotalSizeDesc => "Total Size ↓"@,
        DatasetSortOrder::TotalSizeAsc => "Total Size ↑"@,
        DatasetSortOrder::DatasetSizeDesc => "Dataset Size ↓"@,
        DatasetSortOrder::DatasetSizeAsc => "Dataset Size ↑"@,
        DatasetSortOrder::SnapshotSizeDesc => "Snapshots Size ↓"@,
        DatasetSortOrder::SnapshotSizeAsc => "Snapshots Size ↑"@,
        DatasetSortOrder::NameDesc => "Name ↓"@,
        DatasetSortOrder::NameAsc => "Name ↑"@,
    }
}

/// The caption of a snapshot sort key.
pub open spec fn snapshot_sort_caption(o: SnapshotSortOrder) -> Seq<char> {
    match o {
        SnapshotSortOrder::UsedDesc => "Used Size ↓"@,
        SnapshotSortOrder::UsedAsc => "Used Size ↑"@,
        SnapshotSortOrder::ReferencedDesc => "Referenced Size ↓"@,
        SnapshotSortOrder::ReferencedAsc => "Referenced Size ↑"@,
        SnapshotSortOrder::NameDesc => "Name ↓"@,
        SnapshotSortOrder::NameAsc => "Name ↑"@,
    }
}

/// After sorting by name ascending, the names never decrease from one
/// dataset to the next.
pub proof fn lemma_name_ascending_is_nondecreasing(s: Seq<Dataset>)
    requires
        datasets_sorted(DatasetSortOrder::NameAsc, s),
    ensures
        forall|i: int| 0 <= i < s.len() - 1 ==> name_le(#[trigger] s[i].name@, s[i + 1].name@),
{
    assert forall|i: int| 0 <= i < s.len() - 1 implies name_le(#[trigger] s[i].name@, s[i + 1].name@) by {
        assert(dataset_le(DatasetSortOrder::NameAsc, s[i], s[i + 1]));
    }
}

proof fn lemma_dataset_advance_index(o: DatasetSortOrder, k: nat)
    ensures
        dataset_order_index(advance_dataset_order(o, k)) == (dataset_order_index(o) + k) % (
        DATASET_SORT_KEYS as int),
    decreases k,
{
    if k > 0 {
        lemma_dataset_advance_index(o, (k - 1) as nat);
    }
}

proof fn lemma_snapshot_advance_index(o: SnapshotSortOrder, k: nat)
    ensures
        snapshot_order_index(advance_snapshot_order(o, k)) == (snapshot_order_index(o) + k) % (
        SNAPSHOT_SORT_KEYS as int),
    decreases k,
{
    if k > 0 {
        lemma_snapshot_advance_index(o, (k - 1) as nat);
    }
}

/// Toggling through the whole cycle of dataset keys comes back to the
/// starting key, and no shorter run of toggles does.
pub proof fn lemma_dataset_order_cycle(o: DatasetSortOrder)
    ensures
        advance_dataset_order(o, DATASET_SORT_KEYS as nat) == o,
        forall|k: nat| 0 < k < DATASET_SORT_KEYS ==> #[trigger] advance_dataset_order(o, k) != o,
{
    lemma_dataset_advance_index(o, DATASET_SORT_KEYS as nat);
    assert forall|k: nat| 0 < k < DATASET_SORT_KEYS implies #[trigger] advance_dataset_order(o, k)
        != o by {
        lemma_dataset_advance_index(o, k);
    }
}

/// Toggling through the whole cycle of snapshot keys comes back to the
/// starting key, and no shorter run of toggles does.
pub proof fn lemma_snapshot_order_cycle(o: SnapshotSortOrder)
    ensures
        advance_snapshot_order(o, SNAPSHOT_SORT_KEYS as nat) == o,
        forall|k: nat| 0 < k < SNAPSHOT_SORT_KEYS ==> #[trigger] advance_snapshot_order(o, k) != o,
{
    lemma_snapshot_advance_index(o, SNAPSHOT_SORT_KEYS as nat);
    assert forall|k: nat| 0 < k < SNAPSHOT_SORT_KEYS implies #[trigger] advance_snapshot_order(o, k)
        != o by {
        lemma_snapshot_advance_index(o, k);
    }
}

} // verus!
