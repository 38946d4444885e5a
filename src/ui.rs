use vstd::prelude::*;

use crate::data::DataManager;
use crate::state::{short_name, short_snapshot_name, AppState, AppView};
use crate::text::{chars_of, decimal_chars, push_decimal, push_str, string_from_chars};
use crate::zfs::{dataset_total, format_bytes_spec, push_bytes, round_half_even, total_size, Dataset, Pool, Snapshot};

verus! {

/// Narrowest name column.
pub const MIN_NAME_WIDTH: usize = 20;

/// Cells in a usage bar.
pub const BAR_WIDTH: usize = 20;

/// Columns of a dataset row besides its name.
pub const DATASET_VIEW_FIXED_WIDTH: usize = 79;

/// Columns of a snapshot row besides its name.
pub const SNAPSHOT_VIEW_FIXED_WIDTH: usize = 54;

/// The length of a name in bytes, as `str::len` gives it.
pub open spec fn byte_len(s: Seq<char>) -> usize {
    vstd::utf8::encode_utf8(s).len() as usize
}

/// The name column of the pool list: the longest pool name in bytes, and
/// never narrower than `MIN_NAME_WIDTH`.
pub fn calculate_max_pool_name_width(pools: &[Pool]) -> (r: usize)
    ensures
        r >= MIN_NAME_WIDTH,
        forall|i: int| 0 <= i < pools@.len() ==> byte_len((#[trigger] pools@[i]).name@) <= r,
        r == MIN_NAME_WIDTH || exists|i: int|
            0 <= i < pools@.len() && byte_len((#[trigger] pools@[i]).name@) == r,
{
    let mut width: usize = MIN_NAME_WIDTH;
    let mut i: usize = 0;
    while i < pools.len()
        invariant
            i <= pools@.len(),
            width >= MIN_NAME_WIDTH,
            forall|k: int| 0 <= k < i ==> byte_len((#[trigger] pools@[k]).name@) <= width,
            width == MIN_NAME_WIDTH || exists|k: int|
                0 <= k < i && byte_len((#[trigger] pools@[k]).name@) == width,
        decreases pools@.len() - i,
    {
        let len = pools[i].name.as_str().len();
        if len > width {
            width = len;
        }
        i = i + 1;
    }
    width
}

/// The name column of the dataset view for a terminal `area_width` columns wide.
pub fn calculate_dataset_name_width(area_width: usize) -> (r: usize)
    ensures
        r == if area_width > DATASET_VIEW_FIXED_WIDTH {
            (area_width - DATASET_VIEW_FIXED_WIDTH) as usize
        } else {
            MIN_NAME_WIDTH
        },
{
    if area_width > DATASET_VIEW_FIXED_WIDTH {
        area_width - DATASET_VIEW_FIXED_WIDTH
    } else {
        MIN_NAME_WIDTH
    }
}

/// The name column of the snapshot view for a terminal `area_width` columns
/// wide, never narrower than `MIN_NAME_WIDTH`.
pub fn calculate_snapshot_name_width(area_width: usize) -> (r: usize)
    ensures
        r == if area_width > SNAPSHOT_VIEW_FIXED_WIDTH && area_width - SNAPSHOT_VIEW_FIXED_WIDTH
            > MIN_NAME_WIDTH {
            (area_width - SNAPSHOT_VIEW_FIXED_WIDTH) as usize
        } else {
            MIN_NAME_WIDTH
        },
{
    if area_width > SNAPSHOT_VIEW_FIXED_WIDTH && area_width - SNAPSHOT_VIEW_FIXED_WIDTH > MIN_NAME_WIDTH {
        area_width - SNAPSHOT_VIEW_FIXED_WIDTH
    } else {
        MIN_NAME_WIDTH
    }
}

/// The largest value of each bar in the dataset view; each is 1 for an
/// empty list.
#[derive(Debug, Clone, Copy, PartialEq, Eq, Structural)]
pub struct DatasetScalingValues {
    pub max_dataset_size: u64,
    pub max_snapshot_size: u64,
    pub max_total_size: u128,
}

/// The largest value of each bar in the snapshot view; each is 1 for an
/// empty list.
#[derive(Debug, Clone, Copy, PartialEq, Eq, Structural)]
pub struct SnapshotScalingValues {
    pub max_used_size: u64,
    pub max_referenced_size: u64,
}

/// `m` is the largest of the values `f(0), ..., f(n - 1)`, or 1 when `n` is 0.
pub open spec fn is_scale(m: int, n: int, f: spec_fn(int) -> int) -> bool {
    if n == 0 {
        m == 1
    } else {
        (forall|i: int| 0 <= i < n ==> #[trigger] f(i) <= m) && exists|i: int| 0 <= i < n && #[trigger] f(i) == m
    }
}

pub fn calculate_dataset_scaling(datasets: &[Dataset]) -> (r: DatasetScalingValues)
    ensures
        is_scale(r.max_dataset_size as int, datasets@.len() as int, |i: int| datasets@[i].referenced as int),
        is_scale(r.max_snapshot_size as int, datasets@.len() as int, |i: int| datasets@[i].snapshot_used as int),
        is_scale(r.max_total_size as int, datasets@.len() as int, |i: int| dataset_total(datasets@[i])),
{
    if datasets.len() == 0 {
        return DatasetScalingValues { max_dataset_size: 1, max_snapshot_size: 1, max_total_size: 1 };
    }
    let mut md: u64 = datasets[0].referenced;
    let mut ms: u64 = datasets[0].snapshot_used;
    let mut mt: u128 = total_size(&datasets[0]);
    let mut i: usize = 1;
    while i < datasets.len()
        invariant
            1 <= i <= datasets@.len(),
            forall|k: int| 0 <= k < i ==> (#[trigger] datasets@[k]).referenced <= md,
            exists|k: int| 0 <= k < i && (#[trigger] datasets@[k]).referenced == md,
            forall|k: int| 0 <= k < i ==> (#[trigger] datasets@[k]).snapshot_used <= ms,
            exists|k: int| 0 <= k < i && (#[trigger] datasets@[k]).snapshot_used == ms,
            forall|k: int| 0 <= k < i ==> dataset_total(#[trigger] datasets@[k]) <= mt,
            exists|k: int| 0 <= k < i && dataset_total(#[trigger] datasets@[k]) == mt,
        decreases datasets@.len() - i,
    {
        if datasets[i].referenced > md {
            md = datasets[i].referenced;
        }
        if datasets[i].snapshot_used > ms {
            ms = datasets[i].snapshot_used;
        }
        let t = total_size(&datasets[i]);
        if t > mt {
            mt = t;
        }
        i = i + 1;
    }
    let r = DatasetScalingValues { max_dataset_size: md, max_snapshot_size: ms, max_total_size: mt };
    proof {
        let n = datasets@.len() as int;
        let f = |i: int| datasets@[i].referenced as int;
        assert forall|i: int| 0 <= i < n implies #[trigger] f(i) <= md by {
            assert(datasets@[i].referenced <= md);
        }
        let k = choose|k: int| 0 <= k < n && (#[trigger] datasets@[k]).referenced == md;
        assert(f(k) == md);
        let g = |i: int| datasets@[i].snapshot_used as int;
        assert forall|i: int| 0 <= i < n implies #[trigger] g(i) <= ms by {
            assert(datasets@[i].snapshot_used <= ms);
        }
        let k = choose|k: int| 0 <= k < n && (#[trigger] datasets@[k]).snapshot_used == ms;
        assert(g(k) == ms);
        let h = |i: int| dataset_total(datasets@[i]);
        assert forall|i: int| 0 <= i < n implies #[trigger] h(i) <= mt by {
            assert(dataset_total(datasets@[i]) <= mt);
        }
        let k = choose|k: int| 0 <= k < n && dataset_total(#[trigger] datasets@[k]) == mt;
        assert(h(k) == mt);
    }
    r
}

pub fn calculate_snapshot_scaling(snapshots: &[Snapshot]) -> (r: SnapshotScalingValues)
    ensures
        is_scale(r.max_used_size as int, snapshots@.len() as int, |i: int| snapshots@[i].used as int),
        is_scale(r.max_referenced_size as int, snapshots@.len() as int, |i: int| snapshots@[i].referenced as int),
{
    if snapshots.len() == 0 {
        return SnapshotScalingValues { max_used_size: 1, max_referenced_size: 1 };
    }
    let mut mu: u64 = snapshots[0].used;
    let mut mr: u64 = snapshots[0].referenced;
    let mut i: usize = 1;
    while i < snapshots.len()
        invariant
            1 <= i <= snapshots@.len(),
            forall|k: int| 0 <= k < i ==> (#[trigger] snapshots@[k]).used <= mu,
            exists|k: int| 0 <= k < i && (#[trigger] snapshots@[k]).used == mu,
            forall|k: int| 0 <= k < i ==> (#[trigger] snapshots@[k]).referenced <= mr,
            exists|k: int| 0 <= k < i && (#[trigger] snapshots@[k]).referenced == mr,
        decreases snapshots@.len() - i,
    {
        if snapshots[i].used > mu {
            mu = snapshots[i].used;
        }
        if snapshots[i].referenced > mr {
            mr = snapshots[i].referenced;
        }
        i = i + 1;
    }
    proof {
        let n = snapshots@.len() as int;
        let f = |i: int| snapshots@[i].used as int;
        assert forall|i: int| 0 <= i < n implies #[trigger] f(i) <= mu by {
            assert(snapshots@[i].used <= mu);
        }
        let k = choose|k: int| 0 <= k < n && (#[trigger] snapshots@[k]).used == mu;
        assert(f(k) == mu);
        let g = |i: int| snapshots@[i].referenced as int;
        assert forall|i: int| 0 <= i < n implies #[trigger] g(i) <= mr by {
            assert(snapshots@[i].referenced <= mr);
        }
        let k = choose|k: int| 0 <= k < n && (#[trigger] snapshots@[k]).referenced == mr;
        assert(g(k) == mr);
    }
    SnapshotScalingValues { max_used_size: mu, max_referenced_size: mr }
}


/// Cells of a `BAR_WIDTH`-cell bar that `value` fills on a scale whose full
/// bar is `max`: the share rounded down, at most the whole bar, none when
/// the scale is zero.
pub open spec fn bar_cells(value: nat, max: nat) -> nat {
    if max == 0 {
        0
    } else if value * (BAR_WIDTH as nat) / max > BAR_WIDTH {
        BAR_WIDTH as nat
    } else {
        value * (BAR_WIDTH as nat) / max
    }
}

/// The filled cells of a usage bar (see `bar_cells`).
pub fn bar_fill(value: u128, max: u128) -> (r: usize)
    ensures
        r == bar_cells(value as nat, max as nat),
        r <= BAR_WIDTH,
{
    if max == 0 {
        return 0;
    }
    if value >= max {
        proof {
            assert(value * 20 >= max * 20) by (nonlinear_arith)
                requires
                    value >= max,
            ;
            vstd::arithmetic::div_mod::lemma_div_is_ordered((max * 20) as int, (value * 20) as int, max as int);
            vstd::arithmetic::div_mod::lemma_div_multiples_vanish(20, max as int);
            assert((max * 20) as int / max as int == 20) by (nonlinear_arith)
                requires
                    max > 0,
            ;
        }
        return BAR_WIDTH;
    }
    let mut k: usize = 0;
    let mut c: usize = 0;
    let mut rem: u128 = 0;
    while k < BAR_WIDTH
        invariant
            0 < max,
            value < max,
            k <= BAR_WIDTH,
            c <= k,
            rem < max,
            c * max + rem == k * value,
        decreases BAR_WIDTH - k,
    {
        if rem >= max - value {
            rem = rem - (max - value);
            c = c + 1;
            assert(c * max == (c - 1) * max + max) by (nonlinear_arith);
        } else {
            rem = rem + value;
        }
        k = k + 1;
        assert(k * value == (k - 1) * value + value) by (nonlinear_arith);
    }
    proof {
        assert(value * 20 == c * max + rem) by (nonlinear_arith)
            requires
                c * max + rem == k * value,
                k == 20,
        ;
        vstd::arithmetic::div_mod::lemma_fundamental_div_mod_converse(
            (value * 20) as int,
            max as int,
            c as int,
            rem as int,
        );
    }
    c
}

/// The share of a pool in use, in whole percent, halves rounded to even;
/// zero for a pool of size zero.
pub open spec fn usage_percent_spec(allocated: nat, size: nat) -> nat {
    if size == 0 {
        0
    } else {
        round_half_even(allocated * 100, size)
    }
}

/// The share of a pool in use, in whole percent (see `usage_percent_spec`).
pub fn usage_percent(allocated: u64, size: u64) -> (r: u128)
    ensures
        r == usage_percent_spec(allocated as nat, size as nat),
{
    if size == 0 {
        return 0;
    }
    let n: u128 = allocated as u128 * 100;
    let d: u128 = size as u128;
    let q = n / d;
    let rem = n % d;
    if 2 * rem > d {
        q + 1
    } else if 2 * rem < d {
        q
    } else {
        q + q % 2
    }
}

/// The label of a pool's usage bar: allocated and total size, then the
/// share in use, as in `3.0T / 10.0T (30%)`.
pub open spec fn pool_usage_text(p: Pool) -> Seq<char> {
    format_bytes_spec(p.allocated as nat) + " / "@ + format_bytes_spec(p.size as nat) + " ("@
        + decimal_chars(usage_percent_spec(p.allocated as nat, p.size as nat)) + "%)"@
}

/// The label of a pool's usage bar (see `pool_usage_text`).
pub fn pool_usage_label(pool: &Pool) -> (r: String)
    ensures
        r@ == pool_usage_text(*pool),
{
    let mut out: Vec<char> = Vec::new();
    push_bytes(&mut out, pool.allocated);
    push_str(&mut out, " / ");
    push_bytes(&mut out, pool.size);
    push_str(&mut out, " (");
    push_decimal(&mut out, usage_percent(pool.allocated, pool.size));
    push_str(&mut out, "%)");
    assert(out@ =~= pool_usage_text(*pool));
    string_from_chars(&out)
}

/// The filled cells of a pool's usage bar: its allocated share of its size.
pub fn pool_bar_fill(pool: &Pool) -> (r: usize)
    ensures
        r == bar_cells(pool.allocated as nat, pool.size as nat),
{
    bar_fill(pool.allocated as u128, pool.size as u128)
}

/// Three dots standing for what was cut from a long name.
pub open spec fn ellipsis() -> Seq<char> {
    seq!['.', '.', '.']
}

/// `text` fitted into `max_width` characters: unchanged if it fits, else
/// its start and end around three dots (just dots when fewer than four
/// characters are allowed).
pub open spec fn truncated(text: Seq<char>, max_width: nat) -> Seq<char> {
    if text.len() <= max_width {
        text
    } else if max_width <= 3 {
        ellipsis().take(max_width as int)
    } else {
        let half = (max_width - 3) / 2;
        let tail = (max_width - 3 - half) as int;
        text.take(half as int) + ellipsis() + text.skip(text.len() - tail)
    }
}

fn push_range(out: &mut Vec<char>, src: &Vec<char>, from: usize, to: usize)
    requires
        from <= to <= src@.len(),
    ensures
        final(out)@ == old(out)@ + src@.subrange(from as int, to as int),
{
    let mut i: usize = from;
    while i < to
        invariant
            from <= i <= to,
            to <= src@.len(),
            out@ == old(out)@ + src@.subrange(from as int, i as int),
        decreases to - i,
    {
        out.push(src[i]);
        i = i + 1;
        assert(out@ =~= old(out)@ + src@.subrange(from as int, i as int));
    }
}

fn truncate_chars(t: &Vec<char>, max_width: usize) -> (r: Vec<char>)
    ensures
        r@ == truncated(t@, max_width as nat),
{
    let n = t.len();
    let mut out: Vec<char> = Vec::new();
    if n <= max_width {
        push_range(&mut out, t, 0, n);
        assert(out@ =~= t@);
    } else if max_width <= 3 {
        let mut k: usize = 0;
        while k < max_width
            invariant
                k <= max_width <= 3,
                out@ == ellipsis().take(k as int),
            decreases max_width - k,
        {
            out.push('.');
            k = k + 1;
            assert(out@ =~= ellipsis().take(k as int));
        }
    } else {
        let half = (max_width - 3) / 2;
        let tail = max_width - 3 - half;
        push_range(&mut out, t, 0, half);
        out.push('.');
        out.push('.');
        out.push('.');
        push_range(&mut out, t, n - tail, n);
        assert(out@ =~= truncated(t@, max_width as nat));
    }
    out
}

/// `text` fitted into `max_width` characters (see `truncated`).
pub fn truncate_with_ellipsis(text: &str, max_width: usize) -> (r: String)
    ensures
        r@ == truncated(text@, max_width as nat),
{
    let t = chars_of(text);
    string_from_chars(&truncate_chars(&t, max_width))
}

/// `name` without the leading `prefix`, where it has one.
pub open spec fn without_prefix(name: Seq<char>, prefix: Seq<char>) -> Seq<char> {
    if prefix.len() <= name.len() && name.take(prefix.len() as int) == prefix {
        name.skip(prefix.len() as int)
    } else {
        name
    }
}

/// `s` without its leading slashes.
pub open spec fn trim_leading_slashes(s: Seq<char>) -> Seq<char>
    decreases s.len(),
{
    if s.len() > 0 && s[0] == '/' {
        trim_leading_slashes(s.drop_first())
    } else {
        s
    }
}

/// How a dataset is named in its pool's view: its path below the pool,
/// `(root dataset)` for the pool's own dataset, fitted into `width`.
pub open spec fn dataset_label(name: Seq<char>, pool: Seq<char>, width: nat) -> Seq<char> {
    let rel = trim_leading_slashes(without_prefix(name, pool));
    if rel.len() == 0 || rel == pool {
        "(root dataset)"@
    } else {
        truncated(rel, width)
    }
}

/// How a dataset is named in its pool's view (see `dataset_label`).
pub fn dataset_display_name(name: &str, pool: &str, width: usize) -> (r: String)
    ensures
        r@ == dataset_label(name@, pool@, width as nat),
{
    let n = chars_of(name);
    let p = chars_of(pool);
    let mut start: usize = 0;
    if p.len() <= n.len() {
        let mut k: usize = 0;
        let mut same = true;
        while k < p.len()
            invariant
                p@.len() <= n@.len(),
                k <= p@.len(),
                same <==> forall|m: int| 0 <= m < k ==> n@[m] == p@[m],
            decreases p@.len() - k,
        {
            if n[k] != p[k] {
                same = false;
            }
            k = k + 1;
        }
        if same {
            assert(n@.take(p@.len() as int) =~= p@);
            start = p.len();
        } else {
            assert(n@.take(p@.len() as int) != p@ ) by {
                let m = choose|m: int| 0 <= m < p@.len() && n@[m] != p@[m];
                assert(n@.take(p@.len() as int)[m] != p@[m]);
            }
        }
    }
    let ghost stripped = without_prefix(name@, pool@);
    assert(stripped =~= n@.skip(start as int));
    while start < n.len() && n[start] == '/'
        invariant
            start <= n@.len(),
            trim_leading_slashes(stripped) == trim_leading_slashes(n@.skip(start as int)),
        decreases n@.len() - start,
    {
        assert(n@.skip(start as int).drop_first() =~= n@.skip(start + 1));
        start = start + 1;
    }
    let mut rel: Vec<char> = Vec::new();
    push_range(&mut rel, &n, start, n.len());
    assert(rel@ =~= n@.skip(start as int));
    assert(rel@ == trim_leading_slashes(stripped));
    let mut is_pool = rel.len() == p.len();
    if is_pool {
        let mut k: usize = 0;
        while k < p.len()
            invariant
                rel@.len() == p@.len(),
                k <= p@.len(),
                is_pool <==> forall|m: int| 0 <= m < k ==> rel@[m] == p@[m],
            decreases p@.len() - k,
        {
            if rel[k] != p[k] {
                is_pool = false;
            }
            k = k + 1;
        }
        if is_pool {
            assert(rel@ =~= p@);
        }
    }
    if rel.len() == 0 || is_pool {
        "(root dataset)".to_owned()
    } else {
        string_from_chars(&truncate_chars(&rel, width))
    }
}

/// How a snapshot is named in its dataset's view: its label after the last
/// `@`, fitted into `width`.
pub fn snapshot_display_name(name: &String, width: usize) -> (r: String)
    ensures
        r@ == truncated(short_snapshot_name(name@), width as nat),
{
    string_from_chars(&truncate_chars(&short_name(name), width))
}

/// How one cell of a usage bar is drawn.
#[derive(Debug, Clone, Copy, PartialEq, Eq, Structural)]
pub enum CellStyle {
    /// A character of the label over the filled part.
    TextOnFill,
    /// A character of the label over the empty part.
    TextOnEmpty,
    /// The fill character.
    Fill,
    /// A blank.
    Empty,
}

/// One cell of a usage bar.
#[derive(Debug, Clone, Copy, PartialEq, Eq, Structural)]
pub struct BarCell {
    pub ch: char,
    pub style: CellStyle,
}

/// Cell `i` of a bar with `filled` filled cells and the label `text`
/// right-aligned over it (cut to the bar's width).
pub open spec fn bar_cell(i: int, filled: nat, fill_char: char, text: Seq<char>) -> BarCell {
    let t = if text.len() > BAR_WIDTH {
        text.take(BAR_WIDTH as int)
    } else {
        text
    };
    let start = BAR_WIDTH - t.len();
    if start <= i {
        BarCell {
            ch: t[i - start],
            style: if i < filled {
                CellStyle::TextOnFill
            } else {
                CellStyle::TextOnEmpty
            },
        }
    } else if i < filled {
        BarCell { ch: fill_char, style: CellStyle::Fill }
    } else {
        BarCell { ch: ' ', style: CellStyle::Empty }
    }
}

/// The `BAR_WIDTH` cells of a usage bar (see `bar_cell`).
pub fn progress_bar_cells(filled: usize, fill_char: char, text: &str) -> (r: Vec<BarCell>)
    ensures
        r@.len() == BAR_WIDTH,
        forall|i: int| 0 <= i < BAR_WIDTH ==> #[trigger] r@[i] == bar_cell(i, filled as nat, fill_char, text@),
{
    let all = chars_of(text);
    let tl = if all.len() > BAR_WIDTH {
        BAR_WIDTH
    } else {
        all.len()
    };
    let ghost t = if text@.len() > BAR_WIDTH {
        text@.take(BAR_WIDTH as int)
    } else {
        text@
    };
    let start = BAR_WIDTH - tl;
    let mut cells: Vec<BarCell> = Vec::new();
    let mut i: usize = 0;
    while i < BAR_WIDTH
        invariant
            all@ == text@,
            tl <= all@.len(),
            t.len() == tl,
            t == (if text@.len() > BAR_WIDTH { text@.take(BAR_WIDTH as int) } else { text@ }),
            start == BAR_WIDTH - tl,
            i <= BAR_WIDTH,
            cells@.len() == i,
            forall|k: int| 0 <= k < i ==> #[trigger] cells@[k] == bar_cell(k, filled as nat, fill_char, text@),
        decreases BAR_WIDTH - i,
    {
        let cell = if start <= i {
            BarCell {
                ch: all[i - start],
                style: if i < filled {
                    CellStyle::TextOnFill
                } else {
                    CellStyle::TextOnEmpty
                },
            }
        } else if i < filled {
            BarCell { ch: fill_char, style: CellStyle::Fill }
        } else {
            BarCell { ch: ' ', style: CellStyle::Empty }
        };
        assert(cell == bar_cell(i as int, filled as nat, fill_char, text@));
        cells.push(cell);
        i = i + 1;
    }
    cells
}

/// The prefetch note of the status bar: nothing once complete, else the
/// progress where the total is known.
pub open spec fn prefetch_note(complete: bool, completed: nat, total: nat) -> Seq<char> {
    if complete {
        Seq::empty()
    } else if total > 0 {
        " [Loading snapshots for dataset "@ + decimal_chars(completed) + " of "@ + decimal_chars(total)
            + "...]"@
    } else {
        " [Loading snapshots...]"@
    }
}

fn push_prefetch_note(out: &mut Vec<char>, dm: &DataManager)
    ensures
        final(out)@ == old(out)@ + prefetch_note(
            dm.prefetch_complete,
            dm.prefetch_completed as nat,
            dm.prefetch_total as nat,
        ),
{
    let ghost start = out@;
    if dm.is_prefetch_complete() {
        assert(out@ =~= start + Seq::<char>::empty());
    } else {
        let (completed, total) = dm.get_prefetch_progress();
        if total > 0 {
            push_str(out, " [Loading snapshots for dataset ");
            push_decimal(out, completed as u128);
            push_str(out, " of ");
            push_decimal(out, total as u128);
            push_str(out, "...]");
            assert(out@ =~= start + prefetch_note(false, completed as nat, total as nat));
        } else {
            push_str(out, " [Loading snapshots...]");
        }
    }
}

/// The prefetch note of the status bar (see `prefetch_note`).
pub fn prefetch_status_text(dm: &DataManager) -> (r: String)
    ensures
        r@ == prefetch_note(dm.prefetch_complete, dm.prefetch_completed as nat, dm.prefetch_total as nat),
{
    let mut out: Vec<char> = Vec::new();
    push_prefetch_note(&mut out, dm);
    assert(out@ =~= prefetch_note(dm.prefetch_complete, dm.prefetch_completed as nat, dm.prefetch_total as nat));
    string_from_chars(&out)
}

/// `(current/total)`, where current counts from one and is zero for an empty list.
pub open spec fn position_text(sel: usize, total: nat) -> Seq<char> {
    let current: nat = if total > 0 { (sel + 1) as nat } else { 0 };
    "("@ + decimal_chars(current) + "/"@ + decimal_chars(total) + ")"@
}

fn push_position(out: &mut Vec<char>, sel: usize, total: usize)
    ensures
        final(out)@ == old(out)@ + position_text(sel, total as nat),
{
    let ghost start = out@;
    let current: u128 = if total > 0 {
        sel as u128 + 1
    } else {
        0
    };
    push_str(out, "(");
    push_decimal(out, current);
    push_str(out, "/");
    push_decimal(out, total as u128);
    push_str(out, ")");
    assert(out@ =~= start + position_text(sel, total as nat));
}

/// The first line of the status bar for each view: what is shown, the
/// position of the selection, and the prefetch note.
pub open spec fn status_title_text(s: AppState) -> Seq<char> {
    let dm = s.data_manager;
    let note = prefetch_note(dm.prefetch_complete, dm.prefetch_completed as nat, dm.prefetch_total as nat);
    match s.current_view {
        AppView::PoolList => "Pool List "@ + position_text(s.selected_pool_index, dm.pools@.len()) + note,
        AppView::DatasetView(pool) => "Datasets in "@ + pool@ + " "@ + position_text(
            s.selected_dataset_index,
            dm.datasets@.len(),
        ) + note,
        AppView::SnapshotDetail(_, dataset) => "Snapshots in "@ + dataset@ + " "@ + position_text(
            s.selected_snapshot_index,
            dm.snapshots@.len(),
        ) + note,
        AppView::Help => "Help & Settings"@ + note,
    }
}

/// The first line of the status bar (see `status_title_text`).
pub fn status_title(state: &AppState) -> (r: String)
    ensures
        r@ == status_title_text(*state),
{
    let dm = &state.data_manager;
    let mut out: Vec<char> = Vec::new();
    match &state.current_view {
        AppView::PoolList => {
            push_str(&mut out, "Pool List ");
            push_position(&mut out, state.selected_pool_index, dm.pools.len());
        },
        AppView::DatasetView(pool) => {
            push_str(&mut out, "Datasets in ");
            push_str(&mut out, pool.as_str());
            push_str(&mut out, " ");
            push_position(&mut out, state.selected_dataset_index, dm.datasets.len());
        },
        AppView::SnapshotDetail(_, dataset) => {
            push_str(&mut out, "Snapshots in ");
            push_str(&mut out, dataset.as_str());
            push_str(&mut out, " ");
            push_position(&mut out, state.selected_snapshot_index, dm.snapshots.len());
        },
        AppView::Help => {
            push_str(&mut out, "Help & Settings");
        },
    }
    push_prefetch_note(&mut out, dm);
    assert(out@ =~= status_title_text(*state));
    string_from_chars(&out)
}

} // verus!
