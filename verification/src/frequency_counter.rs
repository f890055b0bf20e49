//! A dense, auto-growing histogram over non-negative integer outcomes, with
//! an associative combine operation.

use vstd::prelude::*;
use vstd::pervasive::VecAdditionalExecFns;

verus! {

/// The entry of `s` at `i`, reading absent entries as zero.
pub open spec fn entry(s: Seq<int>, i: int) -> int {
    if 0 <= i < s.len() {
        s[i]
    } else {
        0
    }
}

/// The element-wise sum of two histograms, the shorter zero-extended to the
/// length of the longer.
pub open spec fn combined(a: Seq<int>, b: Seq<int>) -> Seq<int> {
    Seq::new(if a.len() >= b.len() { a.len() } else { b.len() }, |i: int| entry(a, i) + entry(b, i))
}

/// The histogram recording a single occurrence of `v`.
pub open spec fn unit_count(v: int) -> Seq<int> {
    Seq::new((v + 1) as nat, |i: int| if i == v { 1int } else { 0int })
}

/// The sum of the first `n` entries of `s` (absent entries count zero).
pub open spec fn total_upto(s: Seq<int>, n: int) -> int
    decreases n,
{
    if n <= 0 {
        0
    } else {
        total_upto(s, n - 1) + entry(s, n - 1)
    }
}

/// The number of occurrences a histogram records in all.
pub open spec fn total(s: Seq<int>) -> int {
    total_upto(s, s.len() as int)
}

/// Entries past a histogram's length add nothing to its total.
proof fn lemma_total_upto_stable(s: Seq<int>, n: int)
    requires
        n >= s.len(),
    ensures
        total_upto(s, n) == total(s),
    decreases n,
{
    if n > s.len() {
        lemma_total_upto_stable(s, n - 1);
    }
}

/// Summing is pointwise linear: the prefix total of an element-wise sum is
/// the sum of the prefix totals.
proof fn lemma_total_upto_add(a: Seq<int>, b: Seq<int>, n: int)
    ensures
        total_upto(combined(a, b), n) == total_upto(a, n) + total_upto(b, n),
    decreases n,
{
    if n > 0 {
        lemma_total_upto_add(a, b, n - 1);
    }
}

/// Combining two histograms adds their totals.
pub proof fn lemma_total_combined(a: Seq<int>, b: Seq<int>)
    ensures
        total(combined(a, b)) == total(a) + total(b),
{
    let c = combined(a, b);
    lemma_total_upto_add(a, b, c.len() as int);
    lemma_total_upto_stable(a, c.len() as int);
    lemma_total_upto_stable(b, c.len() as int);
}

/// A histogram of a single occurrence has total one.
pub proof fn lemma_total_unit(v: int)
    requires
        v >= 0,
    ensures
        total(unit_count(v)) == 1,
{
    lemma_total_upto_unit(v, v + 1);
}

proof fn lemma_total_upto_unit(v: int, n: int)
    requires
        v >= 0,
    ensures
        total_upto(unit_count(v), n) == if n > v { 1int } else { 0int },
    decreases n,
{
    if n > 0 {
        lemma_total_upto_unit(v, n - 1);
    }
}

/// Combining histograms is commutative.
pub proof fn lemma_combine_commutative(a: Seq<int>, b: Seq<int>)
    ensures
        combined(a, b) == combined(b, a),
{
    assert(combined(a, b) =~= combined(b, a));
}

/// Combining histograms is associative.
pub proof fn lemma_combine_associative(a: Seq<int>, b: Seq<int>, c: Seq<int>)
    ensures
        combined(combined(a, b), c) == combined(a, combined(b, c)),
{
    assert(combined(combined(a, b), c) =~= combined(a, combined(b, c)));
}

/// The empty histogram is an identity for combining.
pub proof fn lemma_combine_empty(a: Seq<int>)
    ensures
        combined(a, Seq::<int>::empty()) == a,
{
    assert(combined(a, Seq::<int>::empty()) =~= a);
}

proof fn lemma_total_upto_nonneg(s: Seq<int>, n: int)
    requires
        forall|j: int| 0 <= j < s.len() ==> s[j] >= 0,
    ensures
        total_upto(s, n) >= 0,
    decreases n,
{
    if n > 0 {
        lemma_total_upto_nonneg(s, n - 1);
    }
}

proof fn lemma_total_upto_entry(s: Seq<int>, i: int, n: int)
    requires
        forall|j: int| 0 <= j < s.len() ==> s[j] >= 0,
        0 <= i < n,
    ensures
        entry(s, i) <= total_upto(s, n),
    decreases n,
{
    if i == n - 1 {
        lemma_total_upto_nonneg(s, n - 1);
    } else {
        lemma_total_upto_entry(s, i, n - 1);
    }
}

/// Associative array of outcome to occurrence count, backed by a growable
/// dense array indexed directly by the outcome value; absent entries read as
/// zero and the backing store never shrinks.
#[derive(Clone, Debug, Default)]
pub struct FrequencyCounter {
    data: Vec<u32>,
}

impl View for FrequencyCounter {
    type V = Seq<int>;

    closed spec fn view(&self) -> Seq<int> {
        self.data@.map_values(|x: u32| x as int)
    }
}

/// Every entry of a counter is a non-negative count that fits the backing
/// store's `u32`, wherever the counter came from.
pub proof fn lemma_counter_entries_bounded(c: FrequencyCounter)
    ensures
        forall|i: int| 0 <= #[trigger] entry(c@, i) <= u32::MAX,
{
    assert forall|i: int| 0 <= #[trigger] entry(c@, i) <= u32::MAX by {
        if 0 <= i < c@.len() {
            assert(c@[i] == c.data@[i] as int);
        }
    }
}

/// No entry of a counter exceeds the counter's total.
pub proof fn lemma_counter_entry_le_total(c: FrequencyCounter, i: int)
    ensures
        entry(c@, i) <= total(c@),
        total(c@) >= 0,
{
    lemma_counter_entries_bounded(c);
    if 0 <= i < c@.len() {
        lemma_total_upto_entry(c@, i, c@.len() as int);
    }
    lemma_total_upto_nonneg(c@, c@.len() as int);
}

impl FrequencyCounter {
    pub fn new() -> (r: FrequencyCounter)
        ensures
            r@ =~= Seq::<int>::empty(),
    {
        FrequencyCounter { data: Vec::new() }
    }

    /// One more than the largest outcome recorded so far (zero when nothing
    /// has been recorded).
    pub fn len(&self) -> (r: usize)
        ensures
            r == self@.len(),
    {
        self.data.len()
    }

    /// The count recorded for `index`. Infallible: an index past the backing
    /// store reads as zero, without growing it.
    pub fn get(&self, index: u32) -> (r: u32)
        ensures
            r as int == entry(self@, index as int),
    {
        if (index as usize) < self.data.len() {
            self.data[index as usize]
        } else {
            0
        }
    }

    /// Record one more occurrence of `value`, growing the backing store with
    /// zero-fill if `value` lies past its end.
    pub fn increment(&mut self, value: u32)
        requires
            entry(old(self)@, value as int) < u32::MAX,
        ensures
            final(self)@ =~= combined(old(self)@, unit_count(value as int)),
    {
        let idx = value as usize;
        let ghost a = old(self)@;
        if idx >= self.data.len() {
            while self.data.len() <= idx
                invariant
                    a.len() <= self.data@.len() <= idx + 1,
                    forall|j: int| 0 <= j < self.data@.len() ==> self.data@[j] as int == entry(a, j),
                decreases idx + 1 - self.data@.len(),
            {
                self.data.push(0);
            }
        }
        let cur = self.data[idx];
        assert(cur as int == entry(a, idx as int));
        self.data.set(idx, cur + 1);
        assert(self@ =~= combined(a, unit_count(value as int)));
    }

    /// Fold another histogram into this one by element-wise addition, the
    /// shorter of the two zero-extended. To grow the backing store at most
    /// once, the longer storage is kept and the shorter added into it.
    pub fn combine(&mut self, other: FrequencyCounter)
        requires
            forall|i: int|
                0 <= i ==> entry(old(self)@, i) + entry(other@, i) <= u32::MAX,
        ensures
            final(self)@ =~= combined(old(self)@, other@),
    {
        let ghost a = old(self)@;
        let ghost b = other@;
        let mut other = other;
        if self.data.len() < other.data.len() {
            core::mem::swap(&mut self.data, &mut other.data);
        }
        proof {
            assert forall|j: int| 0 <= j < other.data@.len() implies self.data@[j]
                + other.data@[j] <= u32::MAX by {
                assert(entry(a, j) + entry(b, j) <= u32::MAX);
            }
        }
        add_into(&mut self.data, &other.data);
        assert(final(self)@ =~= combined(a, b));
    }
}

/// Add `src` element-wise into the first `src.len()` entries of `dst`.
fn add_into(dst: &mut Vec<u32>, src: &Vec<u32>)
    requires
        src@.len() <= old(dst)@.len(),
        forall|j: int| 0 <= j < src@.len() ==> old(dst)@[j] + src@[j] <= u32::MAX,
    ensures
        final(dst)@.len() == old(dst)@.len(),
        forall|j: int| 0 <= j < src@.len() ==> final(dst)@[j] == old(dst)@[j] + src@[j],
        forall|j: int| src@.len() <= j < old(dst)@.len() ==> final(dst)@[j] == old(dst)@[j],
{
    let mut i: usize = 0;
    while i < src.len()
        invariant
            i <= src@.len() <= dst@.len(),
            dst@.len() == old(dst)@.len(),
            forall|j: int| i <= j < src@.len() ==> old(dst)@[j] + src@[j] <= u32::MAX,
            forall|j: int| 0 <= j < i ==> dst@[j] == old(dst)@[j] + src@[j],
            forall|j: int| i <= j < dst@.len() ==> dst@[j] == old(dst)@[j],
        decreases src@.len() - i,
    {
        let sum = dst[i] + src[i];
        dst.set(i, sum);
        i = i + 1;
    }
}

} // verus!
