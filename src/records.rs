use vstd::prelude::*;

use rayon::iter::{IndexedParallelIterator, IntoParallelRefIterator, ParallelIterator};

use crate::error::DataError;

verus! {

/// One unit of domain data, immutable once loaded.
#[derive(Clone, Copy, Debug, PartialEq, Eq, Structural)]
pub struct DataRecord {}

/// The records that the decoded rows hold, in row order; rows that failed to decode are
/// left out.
pub open spec fn decoded_rows<E>(rows: Seq<Result<DataRecord, E>>) -> Seq<DataRecord>
    decreases rows.len(),
{
    if rows.len() == 0 {
        Seq::empty()
    } else {
        let kept = decoded_rows(rows.drop_last());
        match rows.last() {
            Ok(r) => kept.push(r),
            Err(_) => kept,
        }
    }
}

/// Keeps the rows of a flat file that decoded into records, in order, and drops the others
/// without failing.
pub fn keep_decoded_rows<E>(rows: &Vec<Result<DataRecord, E>>) -> (r: Vec<DataRecord>)
    ensures
        r@ == decoded_rows(rows@),
{
    let mut kept: Vec<DataRecord> = Vec::new();
    let mut i: usize = 0;
    while i < rows.len()
        invariant
            i <= rows@.len(),
            kept@ == decoded_rows(rows@.subrange(0, i as int)),
        decreases rows@.len() - i,
    {
        proof {
            assert(rows@.subrange(0, i + 1).drop_last() =~= rows@.subrange(0, i as int));
        }
        match &rows[i] {
            Ok(record) => kept.push(*record),
            Err(_) => {},
        }
        i = i + 1;
    }
    assert(rows@.subrange(0, i as int) =~= rows@);
    kept
}

/// A document decoded in one pass: its records, or, where decoding failed, an internal
/// error that carries the decoder's message.
pub fn accept_document(decoded: Result<Vec<DataRecord>, String>) -> (r: Result<
    Vec<DataRecord>,
    DataError,
>)
    ensures
        decoded matches Ok(v) ==> r == Ok::<Vec<DataRecord>, DataError>(v),
        decoded matches Err(m) ==> (r matches Err(DataError::InternalServerError(c)) && c@ == m@),
{
    match decoded {
        Ok(v) => Ok(v),
        Err(m) => Err(DataError::InternalServerError(m)),
    }
}

/// Relies on rayon's `par_iter().map(f).collect_into_vec(..)` over a vector: `f` is applied
/// to every item, and the output holds each item's result at the item's position.
#[verifier::external_body]
fn par_map<T: Sync, U: Send, F: Fn(&T) -> U + Sync + Send>(items: &Vec<T>, f: F) -> (r: Vec<U>)
    requires
        forall|i: int| 0 <= i < items@.len() ==> f.requires((&items@[i],)),
    ensures
        r@.len() == items@.len(),
        forall|i: int| 0 <= i < items@.len() ==> f.ensures((&items@[i],), #[trigger] r@[i]),
{
    let mut out = Vec::new();
    items.par_iter().map(f).collect_into_vec(&mut out);
    out
}

/// Applies `f` to each record independently, on several workers; the i-th output is the
/// result of `f` on the i-th input, whatever order the work ran in.
pub fn transform<T: Sync, U: Send, F: Fn(&T) -> U + Sync + Send>(records: &Vec<T>, f: F) -> (r:
    Vec<U>)
    requires
        forall|i: int| 0 <= i < records@.len() ==> f.requires((&records@[i],)),
    ensures
        r@.len() == records@.len(),
        forall|i: int| 0 <= i < records@.len() ==> f.ensures((&records@[i],), #[trigger] r@[i]),
{
    par_map(records, f)
}

/// The records as they are handed to a renderer: an equal sequence, in the same order.
pub fn prepare_for_visualization(data: &Vec<DataRecord>) -> (r: Vec<DataRecord>)
    ensures
        r@ == data@,
{
    let same = |record: &DataRecord| -> (out: DataRecord)
        ensures
            out == *record,
        {
            *record
        };
    let prepared = transform(data, same);
    assert(prepared@ =~= data@);
    prepared
}

} // verus!
