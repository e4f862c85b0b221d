//! How one epoch is cut into consecutive row batches.
use vstd::prelude::*;
use vstd::arithmetic::div_mod::lemma_fundamental_div_mod;
use vstd::arithmetic::div_mod::lemma_fundamental_div_mod_converse;
use vstd::arithmetic::div_mod::lemma_div_is_ordered;
use vstd::arithmetic::mul::lemma_mul_inequality;
use crate::kinds::MiniBatchSize;
use crate::kinds::UpdatationMethod;

verus! {

/// Rows per batch for `method` on a dataset of `n` rows: one for `SGD`,
/// all of them (at least one) for `BGD`, and the chosen size, `Medium` by
/// default, for `MiniBatchGD`.
pub open spec fn batch_width(method: UpdatationMethod, size: Option<MiniBatchSize>, n: nat) -> nat {
    match method {
        UpdatationMethod::SGD => 1,
        UpdatationMethod::BGD => if n == 0 { 1 } else { n },
        UpdatationMethod::MiniBatchGD => match size {
            Some(s) => s.rows(),
            None => MiniBatchSize::Medium.rows(),
        },
    }
}

/// Number of non-empty chunks of width `w` that `n` rows fall into.
pub open spec fn chunk_count(n: nat, w: nat) -> nat
    recommends
        w > 0,
{
    if n == 0 {
        0
    } else {
        ((n - 1) as nat / w + 1) as nat
    }
}

/// Row range `[start, end)` of chunk `k` of width `w` over `n` rows: the
/// last chunk is cut short at row `n`.
pub open spec fn chunk(n: nat, w: nat, k: nat) -> (nat, nat) {
    let start = k * w;
    let end = if start + w <= n { start + w } else { n };
    (start, end)
}

/// Number of the batch of width `w` that row `r` falls in.
pub open spec fn row_batch(r: nat, w: nat) -> nat
    recommends
        w > 0,
{
    r / w
}

/// Whether row `r` lies in the half-open range `c`.
pub open spec fn holds_row(c: (nat, nat), r: nat) -> bool {
    c.0 <= r && r < c.1
}

/// `chunks` is, in order, the list of non-empty chunks of width `w` over `n`
/// rows.
pub open spec fn is_chunking(chunks: Seq<(usize, usize)>, n: nat, w: nat) -> bool {
    &&& chunks.len() == chunk_count(n, w)
    &&& forall|k: int|
        0 <= k < chunks.len() ==> (chunks[k].0 as nat, chunks[k].1 as nat) == #[trigger] chunk(
            n,
            w,
            k as nat,
        )
}

proof fn lemma_chunk_count_exact(n: nat, w: nat, len: nat)
    requires
        w > 0,
        len * w >= n,
        len == 0 || (len - 1) * w < n,
    ensures
        len == chunk_count(n, w),
{
    if n > 0 {
        let q = ((n - 1) as int) / (w as int);
        lemma_fundamental_div_mod((n - 1) as int, w as int);
        let r = ((n - 1) as int) % (w as int);
        assert(0 <= r < w);
        assert((n - 1) as int == w * q + r);
        assert(len >= 1) by (nonlinear_arith)
            requires
                len * w >= n,
                n > 0,
        ;
        assert(len == q + 1) by (nonlinear_arith)
            requires
                len * w >= n,
                (len - 1) * w < n,
                (n - 1) as int == w * q + r,
                0 <= r < w,
                w > 0,
                len >= 1,
        ;
    }
}

/// Splits `n` rows into consecutive chunks of `w` rows, the last one possibly
/// shorter, and leaves out empty chunks.
pub fn chunk_rows(n: usize, w: usize) -> (r: Vec<(usize, usize)>)
    requires
        w > 0,
    ensures
        is_chunking(r@, n as nat, w as nat),
{
    let mut out: Vec<(usize, usize)> = Vec::new();
    let mut start: usize = 0;
    assert(out@.len() == 0);
    assert(out.len() * w == 0) by (nonlinear_arith)
        requires
            out.len() == 0,
    ;
    while start < n
        invariant
            w > 0,
            start <= n,
            start as int == (if out.len() * w <= n { out.len() * w } else { n as int }),
            out.len() == 0 || (out.len() - 1) * w < n,
            forall|k: int|
                0 <= k < out.len() ==> (out@[k].0 as nat, out@[k].1 as nat) == #[trigger] chunk(
                    n as nat,
                    w as nat,
                    k as nat,
                ),
        decreases n - start,
    {
        let end: usize = if n - start >= w {
            start + w
        } else {
            n
        };
        proof {
            let len = out.len() as int;
            assert((len + 1) * w == len * w + w) by (nonlinear_arith);
            assert(chunk(n as nat, w as nat, len as nat) == (start as nat, end as nat));
        }
        out.push((start, end));
        start = end;
    }
    proof {
        lemma_chunk_count_exact(n as nat, w as nat, out.len() as nat);
    }
    out
}

/// Rows per batch for `method` on a dataset of `n` rows.
pub fn width_of(method: UpdatationMethod, size: Option<MiniBatchSize>, n: usize) -> (r: usize)
    ensures
        r == batch_width(method, size, n as nat),
        r > 0,
{
    match method {
        UpdatationMethod::SGD => 1,
        UpdatationMethod::BGD => if n == 0 {
            1
        } else {
            n
        },
        UpdatationMethod::MiniBatchGD => match size {
            Some(s) => s.size(),
            None => MiniBatchSize::Medium.size(),
        },
    }
}

/// The row ranges that one epoch updates the weight on, in the order the
/// updates happen: every row alone for `SGD`, all rows at once for `BGD`,
/// consecutive chunks of the batch size for `MiniBatchGD`. A chunk that would
/// hold no row is not listed, so no update ever sees an empty batch.
pub fn epoch_batches(method: UpdatationMethod, size: Option<MiniBatchSize>, n: usize) -> (r: Vec<
    (usize, usize),
>)
    ensures
        is_chunking(r@, n as nat, batch_width(method, size, n as nat)),
{
    let w = width_of(method, size, n);
    chunk_rows(n, w)
}

/// The batches of an epoch partition its rows: each batch is a non-empty
/// range that ends at or before the last row, every row lies in the batch
/// numbered `row_batch`, and in no other.
pub proof fn lemma_batches_partition_rows(n: nat, w: nat)
    requires
        w > 0,
    ensures
        forall|k: nat|
            k < chunk_count(n, w) ==> #[trigger] chunk(n, w, k).0 < chunk(n, w, k).1 <= n,
        forall|r: nat|
            r < n ==> #[trigger] row_batch(r, w) < chunk_count(n, w) && holds_row(
                chunk(n, w, row_batch(r, w)),
                r,
            ),
        forall|r: nat, k: nat|
            r < n && k < chunk_count(n, w) && #[trigger] holds_row(chunk(n, w, k), r) ==> k
                == row_batch(r, w),
{
    assert forall|k: nat| k < chunk_count(n, w) implies #[trigger] chunk(n, w, k).0 < chunk(
        n,
        w,
        k,
    ).1 <= n by {
        let m = (n - 1) as int;
        lemma_fundamental_div_mod(m, w as int);
        lemma_mul_inequality(k as int, m / (w as int), w as int);
        assert((m / (w as int)) * w <= m) by (nonlinear_arith)
            requires
                m == w * (m / (w as int)) + m % (w as int),
                m % (w as int) >= 0,
        ;
    }
    assert forall|r: nat| r < n implies #[trigger] row_batch(r, w) < chunk_count(n, w) && holds_row(
        chunk(n, w, row_batch(r, w)),
        r,
    ) by {
        lemma_fundamental_div_mod(r as int, w as int);
        lemma_div_is_ordered(r as int, (n - 1) as int, w as int);
        let q = r / w;
        assert(q < chunk_count(n, w));
        assert(q * w <= r && r < q * w + w) by (nonlinear_arith)
            requires
                r == w * q + r % w,
                0 <= r % w < w,
        ;
    }
    assert forall|r: nat, k: nat|
        r < n && k < chunk_count(n, w) && #[trigger] holds_row(chunk(n, w, k), r) implies k
        == row_batch(r, w) by {
        let c = chunk(n, w, k);
        assert(c.1 <= k * w + w);
        lemma_fundamental_div_mod_converse(r as int, w as int, k as int, r - k * w);
    }
}

} // verus!
