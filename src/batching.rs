use vstd::prelude::*;
use vstd::arithmetic::div_mod::{lemma_fundamental_div_mod, lemma_fundamental_div_mod_converse};
use vstd::arithmetic::mul::lemma_mul_inequality;

verus! {

/// How many batches of at most `b` items it takes to hold `n` items: `ceil(n / b)`.
pub open spec fn batch_count(n: int, b: int) -> int {
    (n + b - 1) / b
}

/// The `i`-th batch when `items` is cut, in order, into groups of `b`
/// (the last group holds what remains).
pub open spec fn batch_at<T>(items: Seq<T>, b: int, i: int) -> Seq<T> {
    let end = if (i + 1) * b < items.len() { (i + 1) * b } else { items.len() as int };
    items.subrange(i * b, end)
}

/// `batches` is `items` cut, in order, into groups of `b`.
pub open spec fn is_batching_of<T>(batches: Seq<Seq<T>>, items: Seq<T>, b: int) -> bool {
    &&& batches.len() == batch_count(items.len() as int, b)
    &&& forall|i: int| 0 <= i < batches.len() ==> #[trigger] batches[i] == batch_at(items, b, i)
}

/// The items of `batches`, one batch after the other.
pub open spec fn concat_batches<T>(batches: Seq<Seq<T>>) -> Seq<T>
    decreases batches.len(),
{
    if batches.len() == 0 {
        Seq::empty()
    } else {
        concat_batches(batches.drop_last()) + batches.last()
    }
}

/// The contents of each batch.
pub open spec fn batch_views<T>(batches: Seq<Vec<T>>) -> Seq<Seq<T>> {
    batches.map_values(|v: Vec<T>| v@)
}

proof fn lemma_batch_count_last(k: int, r: int, b: int)
    requires
        b > 0,
        k >= 0,
        0 < r <= b,
    ensures
        batch_count(k * b + r, b) == k + 1,
{
    assert((k + 1) * b == k * b + b) by (nonlinear_arith);
    lemma_fundamental_div_mod_converse(k * b + r + b - 1, b, k + 1, r - 1);
}

proof fn lemma_batch_count_empty(b: int)
    requires
        b > 0,
    ensures
        batch_count(0, b) == 0,
{
    lemma_fundamental_div_mod_converse(b - 1, b, 0, b - 1);
}

proof fn lemma_batch_count_bounds(n: int, b: int, i: int)
    requires
        b > 0,
        n >= 0,
    ensures
        0 <= i < batch_count(n, b) ==> i * b < n,
        batch_count(n, b) * b >= n,
{
    let q = batch_count(n, b);
    lemma_fundamental_div_mod(n + b - 1, b);
    assert(q * b + (n + b - 1) % b == n + b - 1);
    assert((q - 1) * b == q * b - b) by (nonlinear_arith);
    if 0 <= i < q {
        lemma_mul_inequality(i, q - 1, b);
    }
}

proof fn lemma_concat_prefix<T>(batches: Seq<Seq<T>>, items: Seq<T>, b: int, j: int)
    requires
        b > 0,
        is_batching_of(batches, items, b),
        0 <= j <= batches.len(),
    ensures
        concat_batches(batches.take(j)) == items.subrange(
            0,
            if j * b < items.len() { j * b } else { items.len() as int },
        ),
    decreases j,
{
    let n = items.len() as int;
    if j == 0 {
        assert(0 * b == 0);
        assert(batches.take(0) =~= Seq::<Seq<T>>::empty());
        assert(concat_batches(batches.take(0)) =~= items.subrange(0, 0));
    } else {
        let k = j - 1;
        lemma_concat_prefix(batches, items, b, k);
        lemma_batch_count_bounds(n, b, k);
        assert((k + 1) * b == k * b + b) by (nonlinear_arith);
        assert(batches.take(j).drop_last() =~= batches.take(k));
        assert(batches.take(j).last() == batches[k]);
        let end = if (k + 1) * b < n { (k + 1) * b } else { n };
        assert(items.subrange(0, k * b) + items.subrange(k * b, end) =~= items.subrange(0, end));
    }
}

/// Cutting a sequence into batches of at most `b` gives `ceil(n / b)` batches,
/// none of them empty or larger than `b`, whose concatenation is the sequence itself.
pub proof fn lemma_batching_partitions<T>(batches: Seq<Seq<T>>, items: Seq<T>, b: int)
    requires
        b > 0,
        is_batching_of(batches, items, b),
    ensures
        batches.len() == batch_count(items.len() as int, b),
        forall|i: int| 0 <= i < batches.len() ==> 0 < #[trigger] batches[i].len() <= b,
        concat_batches(batches) == items,
{
    let n = items.len() as int;
    assert forall|i: int| 0 <= i < batches.len() implies 0 < #[trigger] batches[i].len() <= b by {
        lemma_batch_count_bounds(n, b, i);
        assert((i + 1) * b == i * b + b) by (nonlinear_arith);
    }
    lemma_concat_prefix(batches, items, b, batches.len() as int);
    lemma_batch_count_bounds(n, b, 0);
    assert(batches.take(batches.len() as int) =~= batches);
    assert(items.subrange(0, n) =~= items);
}

/// Cuts `items`, in order, into batches of at most `max_batch_size` items.
pub fn make_batches<T>(items: Vec<T>, max_batch_size: usize) -> (batches: Vec<Vec<T>>)
    requires
        max_batch_size > 0,
    ensures
        is_batching_of(batch_views(batches@), items@, max_batch_size as int),
{
    let ghost orig = items@;
    let ghost n = orig.len() as int;
    let ghost b = max_batch_size as int;
    let mut batches: Vec<Vec<T>> = Vec::new();
    let mut rest = items;
    proof {
        lemma_batch_count_empty(b);
        assert(0 * b == 0);
    }
    while rest.len() > 0
        invariant
            b == max_batch_size as int,
            b > 0,
            n == orig.len(),
            rest@ == orig.subrange(n - rest.len(), n),
            rest.len() > 0 ==> n - rest.len() == batches.len() * b,
            rest.len() == 0 ==> batches.len() == batch_count(n, b),
            forall|i: int|
                0 <= i < batches.len() ==> #[trigger] batches@[i]@ == batch_at(orig, b, i),
        decreases rest.len(),
    {
        let ghost k = batches.len() as int;
        let ghost start = n - rest.len();
        proof {
            assert((k + 1) * b == k * b + b) by (nonlinear_arith);
        }
        if rest.len() > max_batch_size {
            let tail = rest.split_off(max_batch_size);
            assert(rest@ =~= batch_at(orig, b, k));
            batches.push(rest);
            rest = tail;
            assert(rest@ =~= orig.subrange(n - rest.len(), n));
        } else {
            proof {
                lemma_batch_count_last(k, n - start, b);
            }
            assert(rest@ =~= batch_at(orig, b, k));
            batches.push(rest);
            rest = Vec::new();
        }
    }
    proof {
        assert forall|i: int| 0 <= i < batches@.len() implies #[trigger] batch_views(batches@)[i]
            == batch_at(orig, b, i) by {}
    }
    batches
}

} // verus!
