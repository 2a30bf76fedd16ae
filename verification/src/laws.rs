//! General laws of the batching protocol, proved over the same specification
//! functions that [`crate::reader::Grib2Reader::read_batch`]'s contract uses:
//! one batch read takes the next `min(max_count, remaining)` points and
//! leaves exactly the rest, so a whole schedule of reads is the recursion
//! below.

use vstd::math::min;
use vstd::prelude::*;

use crate::data::Grib2DataPoint;
use crate::extract::all_lons_normalized;

verus! {

/// The sum of a schedule of batch sizes.
pub open spec fn sum_counts(counts: Seq<usize>) -> int
    decreases counts.len(),
{
    if counts.len() == 0 {
        0
    } else {
        counts[0] + sum_counts(counts.skip(1))
    }
}

/// A schedule of batch sizes never sums to less than nothing.
pub proof fn lemma_sum_counts_nonneg(counts: Seq<usize>)
    ensures
        sum_counts(counts) >= 0,
    decreases counts.len(),
{
    if counts.len() > 0 {
        lemma_sum_counts_nonneg(counts.skip(1));
    }
}

/// The concatenation of the batches that a schedule of batch sizes pulls
/// from a point stream, batch by batch.
pub open spec fn batches_concat(points: Seq<Grib2DataPoint>, counts: Seq<usize>) -> Seq<
    Grib2DataPoint,
>
    decreases counts.len(),
{
    if counts.len() == 0 {
        Seq::empty()
    } else {
        let k = min(counts[0] as int, points.len() as int);
        points.take(k) + batches_concat(points.skip(k), counts.skip(1))
    }
}

/// The total number of points those batches carry.
pub open spec fn batches_total(points: Seq<Grib2DataPoint>, counts: Seq<usize>) -> int
    decreases counts.len(),
{
    if counts.len() == 0 {
        0
    } else {
        let k = min(counts[0] as int, points.len() as int);
        k + batches_total(points.skip(k), counts.skip(1))
    }
}

/// Law: a schedule of batch sizes summing to at least the stream's length
/// drains the stream completely, yielding exactly the stream itself — in
/// content and in order.
pub proof fn lemma_batching_drains(points: Seq<Grib2DataPoint>, counts: Seq<usize>)
    requires
        sum_counts(counts) >= points.len(),
    ensures
        batches_concat(points, counts) == points,
    decreases counts.len(),
{
    if counts.len() == 0 {
        assert(batches_concat(points, counts) =~= points);
    } else {
        let k = min(counts[0] as int, points.len() as int);
        lemma_sum_counts_nonneg(counts.skip(1));
        assert(sum_counts(counts.skip(1)) >= points.skip(k).len());
        lemma_batching_drains(points.skip(k), counts.skip(1));
        assert(points.take(k) + points.skip(k) =~= points);
    }
}

/// Law (size invariance): any two schedules of batch sizes, each summing to
/// at least the stream's length, yield the same concatenated point sequence.
pub proof fn lemma_size_invariance(
    points: Seq<Grib2DataPoint>,
    first: Seq<usize>,
    second: Seq<usize>,
)
    requires
        sum_counts(first) >= points.len(),
        sum_counts(second) >= points.len(),
    ensures
        batches_concat(points, first) == batches_concat(points, second),
{
    lemma_batching_drains(points, first);
    lemma_batching_drains(points, second);
}

/// Law (total accounting): reading to exhaustion, the batch counts sum to
/// exactly the stream's length — the total point count before any read.
pub proof fn lemma_total_accounting(points: Seq<Grib2DataPoint>, counts: Seq<usize>)
    requires
        sum_counts(counts) >= points.len(),
    ensures
        batches_total(points, counts) == points.len(),
    decreases counts.len(),
{
    if counts.len() == 0 {
    } else {
        let k = min(counts[0] as int, points.len() as int);
        lemma_sum_counts_nonneg(counts.skip(1));
        assert(sum_counts(counts.skip(1)) >= points.skip(k).len());
        lemma_total_accounting(points.skip(k), counts.skip(1));
    }
}

/// Law (longitude range preservation): batching preserves the decoder's
/// longitude normalization — if every point still to be delivered carries a
/// normalized longitude, so does every point of the next batch and every
/// point left after it.
pub proof fn lemma_lons_normalized_batch(points: Seq<Grib2DataPoint>, k: int)
    requires
        all_lons_normalized(points),
        0 <= k <= points.len(),
    ensures
        all_lons_normalized(points.take(k)),
        all_lons_normalized(points.skip(k)),
{
    assert forall|i: int| 0 <= i < points.take(k).len() implies crate::source::lon_normalized(
        #[trigger] points.take(k)[i].longitude,
    ) by {
        assert(points.take(k)[i] == points[i]);
    }
    assert forall|i: int| 0 <= i < points.skip(k).len() implies crate::source::lon_normalized(
        #[trigger] points.skip(k)[i].longitude,
    ) by {
        assert(points.skip(k)[i] == points[k + i]);
    }
}

} // verus!
