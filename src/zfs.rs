use vstd::prelude::*;

use crate::text::{
    chars_of, decimal_chars, digit_char, digit_char_exec, field_number, push_decimal, is_blank, is_blank_exec, lines, lines_of, parse_number, split_chars,
    split_on, string_from_chars,
};

verus! {

/// A storage pool as reported by the inventory tool.
#[derive(Debug, Clone)]
pub struct Pool {
    pub name: String,
    pub size: u64,
    pub allocated: u64,
    pub free: u64,
    pub health: String,
    /// Usable space (used + available) of the pool's root dataset.
    pub usable_size: u64,
}

/// A dataset inside a pool.
#[derive(Debug, Clone)]
pub struct Dataset {
    pub name: String,
    pub used: u64,
    pub available: u64,
    pub referenced: u64,
    pub snapshot_used: u64,
}

/// A snapshot of a dataset.
#[derive(Debug, Clone)]
pub struct Snapshot {
    pub name: String,
    pub used: u64,
    pub referenced: u64,
    pub creation: String,
}

impl Pool {
    /// A field-by-field copy that is provably equal to `self`.
    pub fn duplicate(&self) -> (r: Pool)
        ensures
            r == *self,
    {
        Pool {
            name: self.name.clone(),
            size: self.size,
            allocated: self.allocated,
            free: self.free,
            health: self.health.clone(),
            usable_size: self.usable_size,
        }
    }
}

impl Dataset {
    /// A field-by-field copy that is provably equal to `self`.
    pub fn duplicate(&self) -> (r: Dataset)
        ensures
            r == *self,
    {
        Dataset {
            name: self.name.clone(),
            used: self.used,
            available: self.available,
            referenced: self.referenced,
            snapshot_used: self.snapshot_used,
        }
    }
}

impl Snapshot {
    /// A field-by-field copy that is provably equal to `self`.
    pub fn duplicate(&self) -> (r: Snapshot)
        ensures
            r == *self,
    {
        Snapshot {
            name: self.name.clone(),
            used: self.used,
            referenced: self.referenced,
            creation: self.creation.clone(),
        }
    }
}

/// Data held by a dataset itself plus the data held only by its snapshots.
pub open spec fn dataset_total(d: Dataset) -> int {
    d.referenced as int + d.snapshot_used as int
}

/// Computes `dataset_total` without overflow.
pub fn total_size(d: &Dataset) -> (r: u128)
    ensures
        r as int == dataset_total(*d),
{
    d.referenced as u128 + d.snapshot_used as u128
}


/// The tab-separated fields of each line of a listing that is not blank and
/// has at least `min_fields` fields, in order.
pub open spec fn kept_rows(ls: Seq<Seq<char>>, min_fields: nat) -> Seq<Seq<Seq<char>>>
    decreases ls.len(),
{
    if ls.len() == 0 {
        Seq::empty()
    } else {
        let rest = kept_rows(ls.drop_last(), min_fields);
        let f = split_on(ls.last(), '\t');
        if !is_blank(ls.last()) && f.len() >= min_fields {
            rest.push(f)
        } else {
            rest
        }
    }
}

pub proof fn lemma_kept_rows_long(ls: Seq<Seq<char>>, min_fields: nat)
    ensures
        forall|i: int|
            0 <= i < kept_rows(ls, min_fields).len() ==> (#[trigger] kept_rows(ls, min_fields)[i]).len()
                >= min_fields,
    decreases ls.len(),
{
    if ls.len() > 0 {
        lemma_kept_rows_long(ls.drop_last(), min_fields);
        let rest = kept_rows(ls.drop_last(), min_fields);
        let f = split_on(ls.last(), '\t');
        if !is_blank(ls.last()) && f.len() >= min_fields {
            assert forall|i: int| 0 <= i < rest.push(f).len() implies (#[trigger] rest.push(f)[i]).len()
                >= min_fields by {
                if i < rest.len() {
                    assert(rest.push(f)[i] == rest[i]);
                }
            }
        }
    }
}

/// `v` holds the character sequences of `fs`, one for one.
pub open spec fn holds_fields(v: Seq<Vec<char>>, fs: Seq<Seq<char>>) -> bool {
    v.len() == fs.len() && forall|k: int| 0 <= k < v.len() ==> (#[trigger] v[k])@ == fs[k]
}

/// The records of a listing: its kept rows, each as a `Vec` of fields.
fn listing_rows(output: &str, min_fields: usize) -> (r: Vec<Vec<Vec<char>>>)
    ensures
        r@.len() == kept_rows(lines_of(output@), min_fields as nat).len(),
        forall|i: int|
            0 <= i < r@.len() ==> holds_fields(
                (#[trigger] r@[i])@,
                kept_rows(lines_of(output@), min_fields as nat)[i],
            ),
{
    let text = chars_of(output);
    let ls = lines(&text);
    let ghost lv = lines_of(output@);
    let mut out: Vec<Vec<Vec<char>>> = Vec::new();
    let mut i: usize = 0;
    assert(lv.take(0) =~= Seq::<Seq<char>>::empty());
    while i < ls.len()
        invariant
            lv == lines_of(output@),
            ls@.len() == lv.len(),
            forall|k: int| 0 <= k < ls@.len() ==> (#[trigger] ls@[k])@ == lv[k],
            i <= ls@.len(),
            out@.len() == kept_rows(lv.take(i as int), min_fields as nat).len(),
            forall|k: int|
                0 <= k < out@.len() ==> holds_fields(
                    (#[trigger] out@[k])@,
                    kept_rows(lv.take(i as int), min_fields as nat)[k],
                ),
        decreases ls@.len() - i,
    {
        proof {
            assert(lv.take(i + 1).drop_last() =~= lv.take(i as int));
            assert(lv.take(i + 1).last() == lv[i as int]);
        }
        if !is_blank_exec(&ls[i]) {
            let fields = split_chars(&ls[i], '\t');
            if fields.len() >= min_fields {
                out.push(fields);
            }
        }
        i = i + 1;
    }
    assert(lv.take(lv.len() as int) =~= lv);
    out
}

/// `p` is the pool that the fields of a pool listing line describe, with
/// its usable size not yet measured.
pub open spec fn pool_from_fields(p: Pool, f: Seq<Seq<char>>) -> bool {
    &&& p.name@ == f[0]
    &&& p.size == field_number(f[1])
    &&& p.allocated == field_number(f[2])
    &&& p.free == field_number(f[3])
    &&& p.health@ == f[9]
    &&& p.usable_size == p.size
}

/// `d` is the dataset that the fields of a dataset listing line describe.
pub open spec fn dataset_from_fields(d: Dataset, f: Seq<Seq<char>>) -> bool {
    &&& d.name@ == f[0]
    &&& d.used == field_number(f[1])
    &&& d.available == field_number(f[2])
    &&& d.referenced == field_number(f[3])
    &&& d.snapshot_used == field_number(f[4])
}

/// `s` is the snapshot that the fields of a snapshot listing line describe.
pub open spec fn snapshot_from_fields(s: Snapshot, f: Seq<Seq<char>>) -> bool {
    &&& s.name@ == f[0]
    &&& s.used == field_number(f[1])
    &&& s.referenced == field_number(f[2])
    &&& s.creation@ == f[3]
}

/// Fields a pool listing line needs: name, size, allocated, free, and health
/// in the tenth column.
pub const POOL_FIELDS: usize = 10;

/// Fields a dataset listing line needs: name, used, available, referenced,
/// used by snapshots.
pub const DATASET_FIELDS: usize = 5;

/// Fields a snapshot listing line needs: name, used, referenced, creation.
pub const SNAPSHOT_FIELDS: usize = 4;

fn pool_of(f: &Vec<Vec<char>>) -> (p: Pool)
    requires
        f@.len() >= POOL_FIELDS,
    ensures
        forall|fs: Seq<Seq<char>>| holds_fields(f@, fs) ==> pool_from_fields(p, fs),
{
    let size = parse_number(&f[1]);
    Pool {
        name: string_from_chars(&f[0]),
        size,
        allocated: parse_number(&f[2]),
        free: parse_number(&f[3]),
        health: string_from_chars(&f[9]),
        usable_size: size,
    }
}

fn dataset_of(f: &Vec<Vec<char>>) -> (d: Dataset)
    requires
        f@.len() >= DATASET_FIELDS,
    ensures
        forall|fs: Seq<Seq<char>>| holds_fields(f@, fs) ==> dataset_from_fields(d, fs),
{
    Dataset {
        name: string_from_chars(&f[0]),
        used: parse_number(&f[1]),
        available: parse_number(&f[2]),
        referenced: parse_number(&f[3]),
        snapshot_used: parse_number(&f[4]),
    }
}

fn snapshot_of(f: &Vec<Vec<char>>) -> (s: Snapshot)
    requires
        f@.len() >= SNAPSHOT_FIELDS,
    ensures
        forall|fs: Seq<Seq<char>>| holds_fields(f@, fs) ==> snapshot_from_fields(s, fs),
{
    Snapshot {
        name: string_from_chars(&f[0]),
        used: parse_number(&f[1]),
        referenced: parse_number(&f[2]),
        creation: string_from_chars(&f[3]),
    }
}

/// Reads a numeric field; text that is not a 64-bit unsigned number reads as zero.
pub fn parse_u64(s: &str) -> (r: u64)
    ensures
        r == field_number(s@),
{
    parse_number(&chars_of(s))
}

/// Reads one line of the pool listing; a line with too few fields gives `None`.
/// The usable size starts out equal to the size (see `Pool::set_usable_size`).
pub fn parse_pool_line(line: &str) -> (r: Option<Pool>)
    ensures
        r is Some <==> split_on(line@, '\t').len() >= POOL_FIELDS,
        r matches Some(p) ==> pool_from_fields(p, split_on(line@, '\t')),
{
    let fields = split_chars(&chars_of(line), '\t');
    if fields.len() >= POOL_FIELDS {
        Some(pool_of(&fields))
    } else {
        None
    }
}

/// Reads one line of the dataset listing; a line with too few fields gives `None`.
pub fn parse_dataset_line(line: &str) -> (r: Option<Dataset>)
    ensures
        r is Some <==> split_on(line@, '\t').len() >= DATASET_FIELDS,
        r matches Some(d) ==> dataset_from_fields(d, split_on(line@, '\t')),
{
    let fields = split_chars(&chars_of(line), '\t');
    if fields.len() >= DATASET_FIELDS {
        Some(dataset_of(&fields))
    } else {
        None
    }
}

/// Reads one line of the snapshot listing; a line with too few fields gives `None`.
pub fn parse_snapshot_line(line: &str) -> (r: Option<Snapshot>)
    ensures
        r is Some <==> split_on(line@, '\t').len() >= SNAPSHOT_FIELDS,
        r matches Some(s) ==> snapshot_from_fields(s, split_on(line@, '\t')),
{
    let fields = split_chars(&chars_of(line), '\t');
    if fields.len() >= SNAPSHOT_FIELDS {
        Some(snapshot_of(&fields))
    } else {
        None
    }
}

/// The pools of a whole pool listing: one for each line that is not blank and
/// has enough fields, in order; other lines are dropped.
pub fn parse_pool_listing(output: &str) -> (r: Vec<Pool>)
    ensures
        r@.len() == kept_rows(lines_of(output@), POOL_FIELDS as nat).len(),
        forall|i: int|
            0 <= i < r@.len() ==> pool_from_fields(
                #[trigger] r@[i],
                kept_rows(lines_of(output@), POOL_FIELDS as nat)[i],
            ),
{
    let rows = listing_rows(output, POOL_FIELDS);
    let ghost kr = kept_rows(lines_of(output@), POOL_FIELDS as nat);
    proof {
        lemma_kept_rows_long(lines_of(output@), POOL_FIELDS as nat);
    }
    let mut out: Vec<Pool> = Vec::new();
    let mut i: usize = 0;
    while i < rows.len()
        invariant
            kr == kept_rows(lines_of(output@), POOL_FIELDS as nat),
            forall|k: int| 0 <= k < kr.len() ==> (#[trigger] kr[k]).len() >= POOL_FIELDS,
            rows@.len() == kr.len(),
            forall|k: int| 0 <= k < rows@.len() ==> holds_fields((#[trigger] rows@[k])@, kr[k]),
            i <= rows@.len(),
            out@.len() == i,
            forall|k: int| 0 <= k < i ==> pool_from_fields(#[trigger] out@[k], kr[k]),
        decreases rows@.len() - i,
    {
        assert(holds_fields(rows@[i as int]@, kr[i as int]));
        out.push(pool_of(&rows[i]));
        i = i + 1;
    }
    out
}

/// The datasets of a whole dataset listing: one for each line that is not
/// blank and has enough fields, in order; other lines are dropped.
pub fn parse_dataset_listing(output: &str) -> (r: Vec<Dataset>)
    ensures
        r@.len() == kept_rows(lines_of(output@), DATASET_FIELDS as nat).len(),
        forall|i: int|
            0 <= i < r@.len() ==> dataset_from_fields(
                #[trigger] r@[i],
                kept_rows(lines_of(output@), DATASET_FIELDS as nat)[i],
            ),
{
    let rows = listing_rows(output, DATASET_FIELDS);
    let ghost kr = kept_rows(lines_of(output@), DATASET_FIELDS as nat);
    proof {
        lemma_kept_rows_long(lines_of(output@), DATASET_FIELDS as nat);
    }
    let mut out: Vec<Dataset> = Vec::new();
    let mut i: usize = 0;
    while i < rows.len()
        invariant
            kr == kept_rows(lines_of(output@), DATASET_FIELDS as nat),
            forall|k: int| 0 <= k < kr.len() ==> (#[trigger] kr[k]).len() >= DATASET_FIELDS,
            rows@.len() == kr.len(),
            forall|k: int| 0 <= k < rows@.len() ==> holds_fields((#[trigger] rows@[k])@, kr[k]),
            i <= rows@.len(),
            out@.len() == i,
            forall|k: int| 0 <= k < i ==> dataset_from_fields(#[trigger] out@[k], kr[k]),
        decreases rows@.len() - i,
    {
        assert(holds_fields(rows@[i as int]@, kr[i as int]));
        out.push(dataset_of(&rows[i]));
        i = i + 1;
    }
    out
}

/// The snapshots of a whole snapshot listing: one for each line that is not
/// blank and has enough fields, in order; other lines are dropped.
pub fn parse_snapshot_listing(output: &str) -> (r: Vec<Snapshot>)
    ensures
        r@.len() == kept_rows(lines_of(output@), SNAPSHOT_FIELDS as nat).len(),
        forall|i: int|
            0 <= i < r@.len() ==> snapshot_from_fields(
                #[trigger] r@[i],
                kept_rows(lines_of(output@), SNAPSHOT_FIELDS as nat)[i],
            ),
{
    let rows = listing_rows(output, SNAPSHOT_FIELDS);
    let ghost kr = kept_rows(lines_of(output@), SNAPSHOT_FIELDS as nat);
    proof {
        lemma_kept_rows_long(lines_of(output@), SNAPSHOT_FIELDS as nat);
    }
    let mut out: Vec<Snapshot> = Vec::new();
    let mut i: usize = 0;
    while i < rows.len()
        invariant
            kr == kept_rows(lines_of(output@), SNAPSHOT_FIELDS as nat),
            forall|k: int| 0 <= k < kr.len() ==> (#[trigger] kr[k]).len() >= SNAPSHOT_FIELDS,
            rows@.len() == kr.len(),
            forall|k: int| 0 <= k < rows@.len() ==> holds_fields((#[trigger] rows@[k])@, kr[k]),
            i <= rows@.len(),
            out@.len() == i,
            forall|k: int| 0 <= k < i ==> snapshot_from_fields(#[trigger] out@[k], kr[k]),
        decreases rows@.len() - i,
    {
        assert(holds_fields(rows@[i as int]@, kr[i as int]));
        out.push(snapshot_of(&rows[i]));
        i = i + 1;
    }
    out
}


impl Pool {
    /// Records the usable size measured by a secondary query; where that query
    /// failed, the usable size is the pool's size.
    pub fn set_usable_size(&mut self, measured: Option<u64>)
        ensures
            final(self).usable_size == (match measured {
                Some(u) => u,
                None => old(self).size,
            }),
            final(self).name == old(self).name,
            final(self).size == old(self).size,
            final(self).allocated == old(self).allocated,
            final(self).free == old(self).free,
            final(self).health == old(self).health,
    {
        self.usable_size = match measured {
            Some(u) => u,
            None => self.size,
        };
    }
}

/// What the usable-size query reports: used plus available space from the
/// first line, or nothing where that line is missing, has fewer than two
/// fields, or the sum does not fit in 64 bits.
pub open spec fn usable_size_of(output: Seq<char>) -> Option<u64> {
    let ls = lines_of(output);
    if ls.len() == 0 {
        None
    } else {
        let f = split_on(ls[0], '\t');
        if f.len() < 2 || field_number(f[0]) as int + field_number(f[1]) as int > u64::MAX {
            None
        } else {
            Some((field_number(f[0]) + field_number(f[1])) as u64)
        }
    }
}

/// Reads the output of the usable-size query (see `usable_size_of`).
pub fn parse_usable_size(output: &str) -> (r: Option<u64>)
    ensures
        r == usable_size_of(output@),
{
    let ls = lines(&chars_of(output));
    if ls.len() == 0 {
        return None;
    }
    let f = split_chars(&ls[0], '\t');
    if f.len() < 2 {
        return None;
    }
    let used = parse_number(&f[0]);
    let avail = parse_number(&f[1]);
    used.checked_add(avail)
}

/// 1024 to the power `k`.
pub open spec fn pow1024(k: nat) -> nat
    decreases k,
{
    if k == 0 {
        1
    } else {
        1024 * pow1024((k - 1) as nat)
    }
}

/// Index of the largest unit, from `k` up to the largest (petabytes), that
/// `bytes` reaches.
pub open spec fn unit_from(bytes: nat, k: nat) -> nat
    decreases 5 - k,
{
    if k < 5 && bytes >= pow1024(k + 1) {
        unit_from(bytes, k + 1)
    } else {
        k
    }
}

/// The letter of unit `k`: bytes, then kilo- up to petabytes in steps of 1024.
pub open spec fn unit_letter(k: nat) -> char {
    if k == 0 {
        'B'
    } else if k == 1 {
        'K'
    } else if k == 2 {
        'M'
    } else if k == 3 {
        'G'
    } else if k == 4 {
        'T'
    } else {
        'P'
    }
}

/// `n / d` rounded to the nearest integer, halves to the even neighbour.
pub open spec fn round_half_even(n: nat, d: nat) -> nat {
    let q = n / d;
    let r = n % d;
    if 2 * r > d {
        q + 1
    } else if 2 * r < d {
        q
    } else {
        q + q % 2
    }
}

/// A size as the dashboard shows it: whole bytes below 1024 (`512B`), else
/// the largest unit reached with one decimal (`1.5K`, `3.0T`).
pub open spec fn format_bytes_spec(bytes: nat) -> Seq<char> {
    let k = unit_from(bytes, 0);
    if k == 0 {
        decimal_chars(bytes).push('B')
    } else {
        let t = round_half_even(bytes * 10, pow1024(k));
        decimal_chars(t / 10).push('.').push(digit_char(t % 10)).push(unit_letter(k))
    }
}

proof fn lemma_pow1024_bound(k: nat)
    requires
        k <= 5,
    ensures
        1 <= pow1024(k) <= 1125899906842624,
{
    reveal_with_fuel(pow1024, 6);
}

fn unit_letter_exec(k: usize) -> (r: char)
    ensures
        r == unit_letter(k as nat),
{
    if k == 0 {
        'B'
    } else if k == 1 {
        'K'
    } else if k == 2 {
        'M'
    } else if k == 3 {
        'G'
    } else if k == 4 {
        'T'
    } else {
        'P'
    }
}

/// Appends a size as `format_bytes_spec` writes it.
pub fn push_bytes(out: &mut Vec<char>, bytes: u64)
    ensures
        final(out)@ == old(out)@ + format_bytes_spec(bytes as nat),
{
    let mut k: usize = 0;
    let mut p: u128 = 1;
    proof {
        lemma_pow1024_bound(1);
    }
    while k < 5 && bytes as u128 >= p * 1024
        invariant
            k <= 5,
            p == pow1024(k as nat),
            p <= 1125899906842624,
            unit_from(bytes as nat, 0) == unit_from(bytes as nat, k as nat),
        decreases 5 - k,
    {
        proof {
            lemma_pow1024_bound((k + 1) as nat);
        }
        p = p * 1024;
        k = k + 1;
    }
    if k == 0 {
        push_decimal(out, bytes as u128);
        out.push('B');
    } else {
        proof {
            lemma_pow1024_bound(k as nat);
        }
        let n: u128 = bytes as u128 * 10;
        let q = n / p;
        let r = n % p;
        let t: u128 = if 2 * r > p {
            q + 1
        } else if 2 * r < p {
            q
        } else {
            q + q % 2
        };
        push_decimal(out, t / 10);
        out.push('.');
        out.push(digit_char_exec(t % 10));
        out.push(unit_letter_exec(k));
    }
}

/// A size with its unit, as `format_bytes_spec` describes it.
pub fn format_bytes(bytes: u64) -> (r: String)
    ensures
        r@ == format_bytes_spec(bytes as nat),
{
    let mut out: Vec<char> = Vec::new();
    push_bytes(&mut out, bytes);
    assert(out@ =~= format_bytes_spec(bytes as nat));
    string_from_chars(&out)
}

} // verus!
