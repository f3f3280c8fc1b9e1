use vstd::prelude::*;
use crate::prospect::{Prospect, storage_key_of};
use crate::document::{DocumentPlan, plan_of, render};

verus! {

/// The work for one record of a queued batch: the document to draw and the
/// key to store it under.
pub struct UploadJob {
    pub key: String,
    pub document: DocumentPlan,
}

/// `j` is the upload of prospect `p`'s document.
pub open spec fn job_of(j: UploadJob, p: Prospect) -> bool {
    &&& j.key@ == storage_key_of(p.name@, p.model@)
    &&& plan_of(j.document, p.name@, p.model@)
}

/// The upload of one prospect's document.
pub fn upload_job(prospect: &Prospect) -> (r: UploadJob)
    ensures
        job_of(r, *prospect),
{
    UploadJob { key: prospect.storage_key(), document: render(prospect) }
}

/// One upload per record of the batch, in the batch's order.
pub fn plan_uploads(batch: &Vec<Prospect>) -> (r: Vec<UploadJob>)
    ensures
        r@.len() == batch@.len(),
        forall|i: int| 0 <= i < batch@.len() ==> job_of(#[trigger] r@[i], batch@[i]),
{
    let mut r: Vec<UploadJob> = Vec::new();
    let mut i: usize = 0;
    while i < batch.len()
        invariant
            i <= batch@.len(),
            r@.len() == i,
            forall|k: int| 0 <= k < i ==> job_of(#[trigger] r@[k], batch@[k]),
        decreases batch@.len() - i,
    {
        r.push(upload_job(&batch[i]));
        i = i + 1;
    }
    r
}

/// The identifiers of the records whose processing failed, in batch order.
pub open spec fn failed_of(ids: Seq<Seq<char>>, succeeded: Seq<bool>) -> Seq<Seq<char>>
    decreases ids.len(),
{
    if ids.len() == 0 || succeeded.len() == 0 {
        Seq::empty()
    } else {
        let rest = failed_of(ids.drop_last(), succeeded.drop_last());
        if succeeded.last() {
            rest
        } else {
            rest.push(ids.last())
        }
    }
}

/// The batch-item failures to report to the queue: the message identifiers of
/// the records that did not succeed, so that only those are delivered again.
pub fn failed_items(message_ids: &Vec<String>, succeeded: &Vec<bool>) -> (r: Vec<String>)
    requires
        message_ids@.len() == succeeded@.len(),
    ensures
        r@.map_values(|s: String| s@) == failed_of(
            message_ids@.map_values(|s: String| s@),
            succeeded@,
        ),
{
    let ghost ids = message_ids@.map_values(|s: String| s@);
    let mut r: Vec<String> = Vec::new();
    let mut i: usize = 0;
    while i < message_ids.len()
        invariant
            i <= message_ids@.len(),
            message_ids@.len() == succeeded@.len(),
            ids == message_ids@.map_values(|s: String| s@),
            r@.map_values(|s: String| s@) == failed_of(
                ids.subrange(0, i as int),
                succeeded@.subrange(0, i as int),
            ),
        decreases message_ids@.len() - i,
    {
        let ghost before = r@;
        assert(ids.subrange(0, i + 1).drop_last() =~= ids.subrange(0, i as int));
        assert(succeeded@.subrange(0, i + 1).drop_last() =~= succeeded@.subrange(0, i as int));
        if !succeeded[i] {
            r.push(message_ids[i].clone());
            assert(r@.map_values(|s: String| s@) =~= before.map_values(|s: String| s@).push(
                ids[i as int],
            ));
        }
        i = i + 1;
    }
    assert(ids.subrange(0, i as int) =~= ids);
    assert(succeeded@.subrange(0, i as int) =~= succeeded@);
    r
}

} // verus!
