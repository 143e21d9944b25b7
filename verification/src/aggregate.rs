//! The segment aggregator: a pure function over ordered per-batch segment
//! lists. The segments of batch `i` are moved `i * batch_size` pages later
//! (an absent batch size means a single batch, so no movement), then the
//! batches are concatenated in order.

use vstd::prelude::*;

use crate::segment::{offset_batch, Segment};

verus! {

/// The page stride between consecutive batches: the configured batch size,
/// or one when none was configured (the single-batch case, where the one
/// batch gets offset zero either way).
pub open spec fn effective_batch_size(batch_size: Option<u32>) -> u32 {
    match batch_size {
        Some(b) => b,
        None => 1,
    }
}

/// The views of a vector of batches.
pub open spec fn batch_views(batches: Seq<Vec<Segment>>) -> Seq<Seq<Segment>> {
    batches.map_values(|v: Vec<Segment>| v@)
}

/// The aggregation of the first `n` batches: batch `i` moved `i * eff` pages
/// later, batches concatenated in order.
pub open spec fn agg_upto(batches: Seq<Seq<Segment>>, n: int, eff: int) -> Seq<Segment>
    decreases n,
{
    if n <= 0 {
        Seq::empty()
    } else {
        agg_upto(batches, n - 1, eff) + offset_batch(batches[n - 1], (n - 1) * eff)
    }
}

/// The aggregation of all batches.
pub open spec fn aggregate_spec(batches: Seq<Seq<Segment>>, eff: int) -> Seq<Segment> {
    agg_upto(batches, batches.len() as int, eff)
}

/// The number of segments in the first `n` batches.
pub open spec fn flat_len(batches: Seq<Seq<Segment>>, n: int) -> int
    decreases n,
{
    if n <= 0 {
        0
    } else {
        flat_len(batches, n - 1) + batches[n - 1].len()
    }
}

/// `flat_len` grows with its prefix bound.
pub proof fn lemma_flat_len_mono(batches: Seq<Seq<Segment>>, a: int, b: int)
    requires
        a <= b,
    ensures
        flat_len(batches, a) <= flat_len(batches, b),
    decreases b,
{
    if a < b && b > 0 {
        lemma_flat_len_mono(batches, a, b - 1);
    }
}

/// The aggregation of `n` batches holds exactly their segments.
pub proof fn lemma_agg_len(batches: Seq<Seq<Segment>>, n: int, eff: int)
    ensures
        agg_upto(batches, n, eff).len() == if n <= 0 {
            0
        } else {
            flat_len(batches, n)
        },
    decreases n,
{
    if n > 0 {
        lemma_agg_len(batches, n - 1, eff);
    }
}

/// Where each segment of each batch lands in the aggregation: segment `j` of
/// batch `i` stands at the flat position `flat_len(batches, i) + j`, moved
/// `i * eff` pages later. Batch order and in-batch order are both preserved.
pub proof fn lemma_agg_index(batches: Seq<Seq<Segment>>, n: int, eff: int, i: int, j: int)
    requires
        0 <= i < n <= batches.len(),
        0 <= j < batches[i].len(),
    ensures
        flat_len(batches, i) + j < agg_upto(batches, n, eff).len(),
        agg_upto(batches, n, eff)[flat_len(batches, i) + j] == batches[i][j].spec_offset(i * eff),
    decreases n,
{
    lemma_agg_len(batches, n, eff);
    lemma_flat_len_mono(batches, 0, i);
    if i == n - 1 {
        lemma_agg_len(batches, n - 1, eff);
        assert(offset_batch(batches[i], i * eff)[j] == batches[i][j].spec_offset(i * eff));
    } else {
        lemma_agg_index(batches, n - 1, eff, i, j);
        lemma_agg_len(batches, n - 1, eff);
        lemma_flat_len_mono(batches, i + 1, n - 1);
    }
}

/// Offset correctness, the law of the aggregator: for every batch count and
/// batch size, segment `j` of batch `i` appears in the aggregated sequence at
/// the position that batch order dictates, with its page number moved exactly
/// `i * effective_batch_size` pages later and its body unchanged.
pub proof fn lemma_offset_correctness(
    batches: Seq<Seq<Segment>>,
    batch_size: Option<u32>,
    i: int,
    j: int,
)
    requires
        0 <= i < batches.len(),
        0 <= j < batches[i].len(),
        i * effective_batch_size(batch_size) + batches[i][j].page_number <= u32::MAX,
    ensures
        aggregate_spec(batches, effective_batch_size(batch_size) as int).len() == flat_len(
            batches,
            batches.len() as int,
        ),
        flat_len(batches, i) + j < flat_len(batches, batches.len() as int),
        aggregate_spec(batches, effective_batch_size(batch_size) as int)[flat_len(batches, i)
            + j].page_number == i * effective_batch_size(batch_size)
            + batches[i][j].page_number,
        aggregate_spec(batches, effective_batch_size(batch_size) as int)[flat_len(batches, i)
            + j].body == batches[i][j].body,
{
    let eff = effective_batch_size(batch_size) as int;
    lemma_agg_len(batches, batches.len() as int, eff);
    lemma_agg_index(batches, batches.len() as int, eff, i, j);
}

/// Single-batch fallback, the law of the absent batch size: with no batch
/// size configured there is one batch, and aggregation hands its segments
/// back unchanged, whatever the document's page count.
pub proof fn lemma_single_batch_identity(batch: Seq<Segment>, batch_size: Option<u32>)
    requires
        batch_size is None,
    ensures
        aggregate_spec(seq![batch], effective_batch_size(batch_size) as int) == batch,
{
    let eff = effective_batch_size(batch_size) as int;
    assert(aggregate_spec(seq![batch], eff) =~= offset_batch(batch, 0)) by {
        assert(agg_upto(seq![batch], 0, eff) == Seq::<Segment>::empty());
    }
    assert(offset_batch(batch, 0) =~= batch) by {
        assert forall|j: int| 0 <= j < batch.len() implies offset_batch(batch, 0)[j] == batch[j] by {
            assert(batch[j].spec_offset(0) == batch[j]);
        }
    }
}

/// Appends a whole batch, each segment moved `offset` pages later.
pub fn extend_with_offset(out: &mut Vec<Segment>, batch: &Vec<Segment>, offset: u32)
    requires
        forall|j: int| 0 <= j < batch@.len() ==> batch@[j].page_number + offset <= u32::MAX,
    ensures
        final(out)@ == old(out)@ + offset_batch(batch@, offset as int),
{
    let ghost base = out@;
    let mut j: usize = 0;
    while j < batch.len()
        invariant
            j <= batch@.len(),
            forall|k: int| 0 <= k < batch@.len() ==> batch@[k].page_number + offset <= u32::MAX,
            out@ == base + offset_batch(batch@.subrange(0, j as int), offset as int),
        decreases batch@.len() - j,
    {
        let s = batch[j].with_offset(offset);
        out.push(s);
        proof {
            assert(out@ =~= base + offset_batch(batch@.subrange(0, j + 1 as int), offset as int))
                by {
                assert(batch@.subrange(0, j + 1 as int) =~= batch@.subrange(0, j as int).push(
                    batch@[j as int],
                ));
            }
        }
        j += 1;
    }
    proof {
        assert(batch@.subrange(0, batch@.len() as int) =~= batch@);
    }
}

/// Aggregates ordered per-batch segment lists into one globally
/// page-numbered, order-preserving list: batch `i` is moved
/// `i * effective_batch_size(batch_size)` pages later, then the batches are
/// concatenated in order. Pure: no storage or network is touched.
pub fn aggregate(batches: &Vec<Vec<Segment>>, batch_size: Option<u32>) -> (r: Vec<Segment>)
    requires
        batches@.len() * effective_batch_size(batch_size) <= u32::MAX,
        forall|i: int, j: int|
            0 <= i < batches@.len() && 0 <= j < batches@[i]@.len() ==> i * effective_batch_size(
                batch_size,
            ) + batches@[i]@[j].page_number <= u32::MAX,
    ensures
        r@ == aggregate_spec(batch_views(batches@), effective_batch_size(batch_size) as int),
{
    let eff: u32 = match batch_size {
        Some(b) => b,
        None => 1,
    };
    let mut out: Vec<Segment> = Vec::new();
    let mut offset: u32 = 0;
    let mut k: usize = 0;
    while k < batches.len()
        invariant
            k <= batches@.len(),
            eff == effective_batch_size(batch_size),
            batches@.len() * eff <= u32::MAX,
            forall|i: int, j: int|
                0 <= i < batches@.len() && 0 <= j < batches@[i]@.len() ==> i * eff
                    + batches@[i]@[j].page_number <= u32::MAX,
            offset == k * eff,
            out@ == agg_upto(batch_views(batches@), k as int, eff as int),
        decreases batches@.len() - k,
    {
        proof {
            assert forall|j: int| 0 <= j < batches@[k as int]@.len() implies batches@[k
                as int]@[j].page_number + offset <= u32::MAX by {
                assert(k as int * eff + batches@[k as int]@[j].page_number <= u32::MAX);
            }
        }
        extend_with_offset(&mut out, &batches[k], offset);
        proof {
            assert(batch_views(batches@)[k as int] == batches@[k as int]@);
            assert(out@ == agg_upto(batch_views(batches@), k + 1 as int, eff as int));
            assert((k + 1) * (eff as int) <= batches@.len() * eff) by (nonlinear_arith)
                requires
                    k + 1 <= batches@.len(),
                    eff >= 0,
            ;
            assert(k * eff + eff == (k + 1) * (eff as int)) by (nonlinear_arith);
        }
        offset = offset + eff;
        k += 1;
    }
    out
}

} // verus!
