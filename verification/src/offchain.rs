//! Off-chain worker computations: sums, products and sorts done either
//! sequentially or in parallel with rayon, the tasks that wrap them and
//! encode their results as little-endian bytes, and data aggregation.

use vstd::prelude::*;
use vstd::seq_lib::to_multiset_build;
use vstd::seq_lib::to_multiset_contains;
use vstd::seq_lib::to_multiset_insert;
use vstd::seq_lib::to_multiset_len;
use vstd::seq_lib::to_multiset_remove;
use rayon::iter::IntoParallelIterator;
use rayon::iter::IntoParallelRefIterator;
use rayon::iter::ParallelIterator;
use rayon::slice::ParallelSliceMut;

verus! {

/// The sum of the bytes of `s`.
pub open spec fn byte_sum(s: Seq<u8>) -> nat
    decreases s.len(),
{
    if s.len() == 0 {
        0
    } else {
        byte_sum(s.drop_last()) + s.last() as nat
    }
}

/// The product of the bytes of `s` (1 for the empty sequence).
pub open spec fn byte_product(s: Seq<u8>) -> nat
    decreases s.len(),
{
    if s.len() == 0 {
        1
    } else {
        byte_product(s.drop_last()) * (s.last() as nat)
    }
}

/// The product of the non-zero bytes of `s`: a bound on every partial
/// product, whichever way the factors are grouped.
pub open spec fn nonzero_product(s: Seq<u8>) -> nat
    decreases s.len(),
{
    if s.len() == 0 {
        1
    } else if s.last() == 0 {
        nonzero_product(s.drop_last())
    } else {
        nonzero_product(s.drop_last()) * (s.last() as nat)
    }
}

/// Multiplying the bytes of `s` from left to right never leaves `u64`.
pub open spec fn prefix_products_fit(s: Seq<u8>) -> bool {
    forall|i: int| 0 <= i <= s.len() ==> #[trigger] byte_product(s.take(i)) <= u64::MAX
}

/// The sum of the words of `s`.
pub open spec fn word_sum(s: Seq<u32>) -> nat
    decreases s.len(),
{
    if s.len() == 0 {
        0
    } else {
        word_sum(s.drop_last()) + s.last() as nat
    }
}

/// `s` is in non-decreasing order.
pub open spec fn sorted(s: Seq<u32>) -> bool {
    forall|i: int, j: int| 0 <= i <= j < s.len() ==> s[i] <= s[j]
}

/// `out` holds the items of `inp`, each as often, in non-decreasing order.
pub open spec fn sorted_permutation_of(out: Seq<u32>, inp: Seq<u32>) -> bool {
    sorted(out) && out.to_multiset() == inp.to_multiset()
}

/// The views of the inner vectors.
pub open spec fn nested_view(data: Seq<Vec<u32>>) -> Seq<Seq<u32>> {
    data.map_values(|v: Vec<u32>| v@)
}

proof fn lemma_byte_sum_prefix(s: Seq<u8>, i: int)
    requires
        0 <= i <= s.len(),
    ensures
        byte_sum(s.take(i)) <= byte_sum(s),
    decreases s.len(),
{
    if i < s.len() {
        lemma_byte_sum_prefix(s.drop_last(), i);
        assert(s.drop_last().take(i) =~= s.take(i));
    } else {
        assert(s.take(i) =~= s);
    }
}

proof fn lemma_nonzero_product_prefix(s: Seq<u8>, i: int)
    requires
        0 <= i <= s.len(),
    ensures
        1 <= nonzero_product(s.take(i)) <= nonzero_product(s),
        byte_product(s.take(i)) <= nonzero_product(s.take(i)),
    decreases s.len(),
{
    if i < s.len() {
        lemma_nonzero_product_prefix(s.drop_last(), i);
        assert(s.drop_last().take(i) =~= s.take(i));
        lemma_nonzero_product_prefix(s.drop_last(), s.len() - 1);
        assert(s.drop_last().take(s.len() - 1) =~= s.drop_last());
        let p = nonzero_product(s.drop_last());
        let l = s.last() as nat;
        if l != 0 {
            assert(p <= p * l) by (nonlinear_arith)
                requires
                    l >= 1,
            ;
        }
    } else {
        assert(s.take(i) =~= s);
        if s.len() > 0 {
            lemma_nonzero_product_prefix(s.drop_last(), s.len() - 1);
            assert(s.drop_last().take(s.len() - 1) =~= s.drop_last());
            let p = nonzero_product(s.drop_last());
            let b = byte_product(s.drop_last());
            let l = s.last() as nat;
            if l != 0 {
                assert(b * l <= p * l && 1 <= p * l) by (nonlinear_arith)
                    requires
                        b <= p,
                        1 <= p,
                        l >= 1,
                ;
            } else {
                assert(b * l == 0) by (nonlinear_arith)
                    requires
                        l == 0,
                ;
            }
        }
    }
}

/// Whenever the non-zero bytes of `s` multiply to a `u64`, every left-to-right
/// partial product fits too: the parallel product's precondition implies the
/// sequential one's.
pub proof fn lemma_nonzero_product_bounds_prefixes(s: Seq<u8>)
    requires
        nonzero_product(s) <= u64::MAX,
    ensures
        prefix_products_fit(s),
{
    assert forall|i: int| 0 <= i <= s.len() implies #[trigger] byte_product(s.take(i)) <= u64::MAX by {
        lemma_nonzero_product_prefix(s, i);
    }
}

/// A byte widened to a `u64`.
fn widen_byte(x: &u8) -> (r: u64)
    ensures
        r == *x,
{
    *x as u64
}

/// Sums the bytes with rayon: `par_iter().map(..).sum()`. Rayon groups the
/// additions in an order it does not specify; integer addition is
/// associative, so where no partial sum overflows (all are bounded by the
/// total) the result is the plain sum of the bytes.
#[verifier::external_body]
fn rayon_byte_sum(data: &Vec<u8>) -> (r: u64)
    requires
        byte_sum(data@) <= u64::MAX,
    ensures
        r == byte_sum(data@),
{
    data.par_iter().map(widen_byte).sum()
}

/// Multiplies the bytes with rayon: `par_iter().map(..).product()`. Rayon
/// groups the factors in an order it does not specify; every partial product
/// is bounded by the product of the non-zero bytes, so where that fits the
/// result is the plain product.
#[verifier::external_body]
fn rayon_byte_product(data: &Vec<u8>) -> (r: u64)
    requires
        nonzero_product(data@) <= u64::MAX,
    ensures
        r == byte_product(data@),
{
    data.par_iter().map(widen_byte).product()
}

/// Sorts the words in place with rayon's `par_sort`, a stable merge sort:
/// afterwards they are in non-decreasing order and are the same items.
#[verifier::external_body]
fn rayon_sort(data: &mut Vec<u32>)
    ensures
        sorted_permutation_of(final(data)@, old(data)@),
{
    data.par_sort();
}

/// Flattens the inner vectors with rayon, `into_par_iter().flatten().collect()`,
/// which keeps the items in their order.
#[verifier::external_body]
fn rayon_flatten(data: Vec<Vec<u32>>) -> (r: Vec<u32>)
    ensures
        r@ == nested_view(data@).flatten(),
{
    data.into_par_iter().flatten().collect()
}

/// Sums the words with rayon, `par_iter().sum()`; every partial sum is bounded
/// by the total, so where that fits the result is the plain sum.
#[verifier::external_body]
fn rayon_word_sum(data: &Vec<u32>) -> (r: u32)
    requires
        word_sum(data@) <= u32::MAX,
    ensures
        r == word_sum(data@),
{
    data.par_iter().sum()
}

/// The sum of the bytes, computed in parallel. The sum must fit in a `u64`.
pub fn parallel_sum(data: Vec<u8>) -> (r: u64)
    requires
        byte_sum(data@) <= u64::MAX,
    ensures
        r == byte_sum(data@),
{
    rayon_byte_sum(&data)
}

/// The sum of the bytes, computed sequentially. The sum must fit in a `u64`.
pub fn sequential_sum(data: Vec<u8>) -> (r: u64)
    requires
        byte_sum(data@) <= u64::MAX,
    ensures
        r == byte_sum(data@),
{
    let mut total: u64 = 0;
    let mut i: usize = 0;
    while i < data.len()
        invariant
            i <= data.len(),
            total == byte_sum(data@.take(i as int)),
            byte_sum(data@) <= u64::MAX,
        decreases data.len() - i,
    {
        proof {
            lemma_byte_sum_prefix(data@, i + 1);
            assert(data@.take(i + 1).drop_last() =~= data@.take(i as int));
        }
        total = total + data[i] as u64;
        i = i + 1;
    }
    assert(data@.take(data.len() as int) =~= data@);
    total
}

/// The product of the bytes (1 when empty), computed in parallel. The
/// product of the non-zero bytes must fit in a `u64`.
pub fn parallel_product(data: Vec<u8>) -> (r: u64)
    requires
        nonzero_product(data@) <= u64::MAX,
    ensures
        r == byte_product(data@),
{
    rayon_byte_product(&data)
}

/// The product of the bytes (1 when empty), computed from left to right.
/// No partial product may leave `u64`.
pub fn sequential_product(data: Vec<u8>) -> (r: u64)
    requires
        prefix_products_fit(data@),
    ensures
        r == byte_product(data@),
{
    let mut total: u64 = 1;
    let mut i: usize = 0;
    assert(data@.take(0) =~= Seq::<u8>::empty());
    while i < data.len()
        invariant
            i <= data.len(),
            total == byte_product(data@.take(i as int)),
            prefix_products_fit(data@),
        decreases data.len() - i,
    {
        proof {
            assert(data@.take(i + 1).drop_last() =~= data@.take(i as int));
            assert(byte_product(data@.take(i + 1)) <= u64::MAX);
        }
        total = total * (data[i] as u64);
        i = i + 1;
    }
    assert(data@.take(data.len() as int) =~= data@);
    total
}

/// Two sorted arrangements of the same items are the same sequence: whatever
/// sort produced them, the parallel and the sequential sort agree.
pub proof fn lemma_sorted_permutation_unique(a: Seq<u32>, b: Seq<u32>)
    requires
        sorted(a),
        sorted(b),
        a.to_multiset() == b.to_multiset(),
    ensures
        a == b,
    decreases a.len(),
{
    to_multiset_len(a);
    to_multiset_len(b);
    if a.len() == 0 {
        assert(a =~= b);
    } else {
        to_multiset_contains(a, a[0]);
        to_multiset_contains(b, a[0]);
        to_multiset_contains(a, b[0]);
        to_multiset_contains(b, b[0]);
        assert(a.contains(a[0]));
        assert(b.contains(b[0]));
        let k = choose|k: int| 0 <= k < b.len() && b[k] == a[0];
        let m = choose|m: int| 0 <= m < a.len() && a[m] == b[0];
        assert(b[0] <= b[k]);
        assert(a[0] <= a[m]);
        assert(a[0] == b[0]);
        to_multiset_remove(a, 0);
        to_multiset_remove(b, 0);
        assert(a.remove(0) =~= a.drop_first());
        assert(b.remove(0) =~= b.drop_first());
        lemma_sorted_permutation_unique(a.drop_first(), b.drop_first());
        assert(a =~= seq![a[0]] + a.drop_first());
        assert(b =~= seq![b[0]] + b.drop_first());
    }
}

/// The words in non-decreasing order, sorted in parallel.
pub fn parallel_sort(data: Vec<u32>) -> (r: Vec<u32>)
    ensures
        sorted_permutation_of(r@, data@),
{
    let mut d = data;
    rayon_sort(&mut d);
    d
}

/// The words in non-decreasing order, sorted sequentially (by insertion).
pub fn sequential_sort(data: Vec<u32>) -> (r: Vec<u32>)
    ensures
        sorted_permutation_of(r@, data@),
{
    let mut out: Vec<u32> = Vec::new();
    let mut i: usize = 0;
    assert(data@.take(0) =~= Seq::<u32>::empty());
    while i < data.len()
        invariant
            i <= data.len(),
            sorted(out@),
            out@.to_multiset() == data@.take(i as int).to_multiset(),
        decreases data.len() - i,
    {
        let x = data[i];
        let mut j: usize = 0;
        while j < out.len() && out[j] <= x
            invariant
                j <= out.len(),
                forall|k: int| 0 <= k < j ==> out@[k] <= x,
            decreases out.len() - j,
        {
            j = j + 1;
        }
        let ghost before = out@;
        out.insert(j, x);
        proof {
            assert(out@ =~= before.insert(j as int, x));
            assert forall|p: int, q: int| 0 <= p <= q < out@.len() implies out@[p] <= out@[q] by {
                if q < j {
                } else if q == j {
                    assert(out@[p] <= x);
                } else if p == j {
                    assert(before[j as int] > x);
                    assert(before[j as int] <= before[q - 1]);
                } else if p < j {
                    assert(before[j as int] > x);
                    assert(before[j as int] <= before[q - 1]);
                }
            }
            to_multiset_insert(before, j as int, x);
            to_multiset_build(data@.take(i as int), x);
            assert(data@.take(i + 1) =~= data@.take(i as int).push(x));
        }
        i = i + 1;
    }
    assert(data@.take(data.len() as int) =~= data@);
    out
}

/// `n` written as `width` bytes, least significant first (`n` reduced
/// modulo 256 to the power `width`).
pub open spec fn le_bytes(n: nat, width: nat) -> Seq<u8>
    decreases width,
{
    if width == 0 {
        Seq::empty()
    } else {
        seq![(n % 256) as u8] + le_bytes(n / 256, (width - 1) as nat)
    }
}

/// The number that the bytes of `s` stand for, least significant first.
pub open spec fn le_value(s: Seq<u8>) -> nat
    decreases s.len(),
{
    if s.len() == 0 {
        0
    } else {
        s[0] as nat + 256 * le_value(s.drop_first())
    }
}

/// 256 to the power `width`: the numbers that `width` bytes can hold.
pub open spec fn byte_range(width: nat) -> nat
    decreases width,
{
    if width == 0 {
        1
    } else {
        256 * byte_range((width - 1) as nat)
    }
}

/// Each word of `s` as four little-endian bytes, one after another.
pub open spec fn le_concat(s: Seq<u32>) -> Seq<u8>
    decreases s.len(),
{
    if s.len() == 0 {
        Seq::empty()
    } else {
        le_concat(s.drop_last()) + le_bytes(s.last() as nat, 4)
    }
}

/// Encoding `n` in `width` little-endian bytes and decoding them gives `n`
/// back, whenever `n` fits in that many bytes.
pub proof fn lemma_le_roundtrip(n: nat, width: nat)
    requires
        n < byte_range(width),
    ensures
        le_bytes(n, width).len() == width,
        le_value(le_bytes(n, width)) == n,
    decreases width,
{
    if width > 0 {
        let w1 = (width - 1) as nat;
        assert(n / 256 < byte_range(w1)) by (nonlinear_arith)
            requires
                n < 256 * byte_range(w1),
        ;
        lemma_le_roundtrip(n / 256, w1);
        let s = le_bytes(n, width);
        assert(s.drop_first() =~= le_bytes(n / 256, w1));
        assert(s[0] as nat == n % 256);
    }
}

proof fn lemma_byte_range_values()
    ensures
        byte_range(4) == 0x1_0000_0000nat,
        byte_range(8) == 0x1_0000_0000_0000_0000nat,
{
    reveal_with_fuel(byte_range, 9);
}

/// The eight bytes that a sum task returns decode to the sum of its bytes.
pub proof fn lemma_sum_task_decodes(data: Seq<u8>)
    requires
        byte_sum(data) <= u64::MAX,
    ensures
        le_value(le_bytes(byte_sum(data), 8)) == byte_sum(data),
{
    lemma_byte_range_values();
    lemma_le_roundtrip(byte_sum(data), 8);
}

/// The encoding of a word list is four bytes per word, and the four bytes at
/// `4 * i` decode to the `i`-th word.
pub proof fn lemma_le_concat_decodes(s: Seq<u32>)
    ensures
        le_concat(s).len() == 4 * s.len(),
        forall|i: int| 0 <= i < s.len() ==> #[trigger] le_value(le_concat(s).subrange(4 * i, 4 * i + 4)) == s[i],
    decreases s.len(),
{
    if s.len() > 0 {
        let t = s.drop_last();
        lemma_le_concat_decodes(t);
        lemma_byte_range_values();
        lemma_le_roundtrip(s.last() as nat, 4);
        assert forall|i: int| 0 <= i < s.len() implies #[trigger] le_value(le_concat(s).subrange(4 * i, 4 * i + 4)) == s[i] by {
            if i < t.len() {
                assert(le_concat(s).subrange(4 * i, 4 * i + 4) =~= le_concat(t).subrange(4 * i, 4 * i + 4));
                assert(t[i] == s[i]);
            } else {
                assert(le_concat(s).subrange(4 * i, 4 * i + 4) =~= le_bytes(s.last() as nat, 4));
            }
        }
    }
}

/// Appends the low `width` bytes of `n`, least significant first.
fn push_le_bytes(out: &mut Vec<u8>, n: u64, width: usize)
    ensures
        final(out)@ == old(out)@ + le_bytes(n as nat, width as nat),
{
    let ghost start = out@;
    let mut x: u64 = n;
    let mut k: usize = 0;
    assert(start + le_bytes(n as nat, width as nat) =~= out@ + le_bytes(x as nat, (width - k) as nat));
    while k < width
        invariant
            k <= width,
            start + le_bytes(n as nat, width as nat) == out@ + le_bytes(x as nat, (width - k) as nat),
        decreases width - k,
    {
        let ghost before = out@;
        let ghost rest = le_bytes(x as nat, (width - k) as nat);
        assert(rest == seq![(x as nat % 256) as u8] + le_bytes(x as nat / 256, (width - k - 1) as nat));
        out.push((x % 256) as u8);
        x = x / 256;
        k = k + 1;
        assert(before + rest =~= out@ + le_bytes(x as nat, (width - k) as nat));
    }
    assert(out@ + le_bytes(x as nat, 0) =~= out@);
}

/// A unit of off-chain work whose result is a byte string.
pub trait OffchainTask {
    /// The inputs on which the task runs without overflowing.
    spec fn can_execute(&self) -> bool;

    /// Runs the task and returns its result as bytes.
    fn execute(&self) -> (r: Result<Vec<u8>, &'static str>)
        requires
            self.can_execute(),
    ;
}

/// Sums a byte vector; the result is the sum as eight little-endian bytes.
pub struct SumTask {
    pub data: Vec<u8>,
    /// Whether to sum in parallel.
    pub use_parallel: bool,
}

/// Sorts a word vector; the result is the sorted words, four little-endian
/// bytes each.
pub struct SortTask {
    pub data: Vec<u32>,
    /// Whether to sort in parallel.
    pub use_parallel: bool,
}

impl OffchainTask for SumTask {
    open spec fn can_execute(&self) -> bool {
        byte_sum(self.data@) <= u64::MAX
    }

    fn execute(&self) -> (r: Result<Vec<u8>, &'static str>)
        ensures
            r matches Ok(bytes) && bytes@ == le_bytes(byte_sum(self.data@), 8),
    {
        let data = self.data.clone();
        assert(data@ =~= self.data@);
        let sum = if self.use_parallel {
            parallel_sum(data)
        } else {
            sequential_sum(data)
        };
        let mut out: Vec<u8> = Vec::new();
        push_le_bytes(&mut out, sum, 8);
        assert(out@ =~= le_bytes(byte_sum(self.data@), 8));
        Ok(out)
    }
}

impl OffchainTask for SortTask {
    open spec fn can_execute(&self) -> bool {
        true
    }

    fn execute(&self) -> (r: Result<Vec<u8>, &'static str>)
        ensures
            r matches Ok(bytes) && exists|s: Seq<u32>| #[trigger] sorted_permutation_of(s, self.data@)
                && bytes@ == le_concat(s),
    {
        let data = self.data.clone();
        assert(data@ =~= self.data@);
        let sorted_words = if self.use_parallel {
            parallel_sort(data)
        } else {
            sequential_sort(data)
        };
        let mut out: Vec<u8> = Vec::new();
        let mut i: usize = 0;
        assert(sorted_words@.take(0) =~= Seq::<u32>::empty());
        while i < sorted_words.len()
            invariant
                i <= sorted_words.len(),
                out@ == le_concat(sorted_words@.take(i as int)),
            decreases sorted_words.len() - i,
        {
            push_le_bytes(&mut out, sorted_words[i] as u64, 4);
            assert(sorted_words@.take(i + 1).drop_last() =~= sorted_words@.take(i as int));
            i = i + 1;
        }
        assert(sorted_words@.take(sorted_words.len() as int) =~= sorted_words@);
        Ok(out)
    }
}

/// The sum of all the words of the inner vectors and how many there are,
/// flattened and summed in parallel (the average is the one divided by the
/// other). The sum must fit in a `u32`.
pub fn aggregate_totals(data: Vec<Vec<u32>>) -> (r: (u32, usize))
    requires
        word_sum(nested_view(data@).flatten()) <= u32::MAX,
    ensures
        r.0 == word_sum(nested_view(data@).flatten()),
        r.1 == nested_view(data@).flatten().len(),
{
    let flat = rayon_flatten(data);
    let sum = rayon_word_sum(&flat);
    (sum, flat.len())
}

} // verus!
