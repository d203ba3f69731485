//! The size-bounded batches in which usage records are sent.

use vstd::prelude::*;
use crate::metrics::KubernetesMetrics;

verus! {

/// The encoded size, in bytes, above which a batch is sent at once. A batch
/// goes over it only by the record that was added last.
pub const BATCH_SIZE_THRESHOLD: u32 = 400_000;

/// Whether a batch of this encoded size is to be sent at once.
pub open spec fn over_threshold(size: u32) -> bool {
    size > BATCH_SIZE_THRESHOLD
}

/// Whether a record is carried over into the batch that follows a batch of
/// `batch` records that went over the threshold: only a batch of more than
/// one record carries over, and only if `records` has a record to give.
pub open spec fn carries_over(batch: int, records: int) -> bool {
    batch > 1 && records > 0
}

/// Decides, after a record was added to `batch` and the batch's encoded size
/// became `size`, whether the batch is sent. A batch over the threshold is
/// handed out whole, and `batch` starts anew: with the last of `records`,
/// which is taken from there, if the batch held more than one record, and
/// empty otherwise. A batch within the threshold stays as it is.
pub fn take_full_batch(
    batch: &mut Vec<KubernetesMetrics>,
    records: &mut Vec<KubernetesMetrics>,
    size: u32,
) -> (full: Option<Vec<KubernetesMetrics>>)
    ensures
        !over_threshold(size) ==> full is None && final(batch)@ == old(batch)@ && final(records)@
            == old(records)@,
        over_threshold(size) ==> full is Some && full.unwrap()@ == old(batch)@,
        over_threshold(size) && carries_over(old(batch)@.len() as int, old(records)@.len() as int)
            ==> final(batch)@ == seq![old(records)@.last()] && final(records)@ == old(
            records,
        )@.drop_last(),
        over_threshold(size) && !carries_over(old(batch)@.len() as int, old(records)@.len() as int)
            ==> final(batch)@ == Seq::<KubernetesMetrics>::empty() && final(records)@ == old(
            records,
        )@,
{
    if size > BATCH_SIZE_THRESHOLD {
        let carried = if batch.len() > 1 {
            records.pop()
        } else {
            None
        };
        let mut full: Vec<KubernetesMetrics> = Vec::new();
        std::mem::swap(batch, &mut full);
        if let Some(record) = carried {
            batch.push(record);
            assert(batch@ =~= seq![old(records)@.last()]);
        }
        Some(full)
    } else {
        None
    }
}

} // verus!
