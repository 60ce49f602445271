use vstd::prelude::*;

use crate::error::DataError;
use crate::text::{decimal, push_decimal};

verus! {

/// The smallest id of the sample data set.
pub const FIRST_ID: u32 = 1;

/// The largest id of the sample data set.
pub const LAST_ID: u32 = 2;

/// An entity served by the request facade.
pub struct DataEntity {
    pub id: u32,
    pub value: String,
}

/// The value that the sample data set holds under `id`.
pub open spec fn sample_value(id: nat) -> Seq<char> {
    "Sample Data "@ + decimal(id)
}

/// Whether `id` names an entity of the sample data set.
pub open spec fn valid_id(id: nat) -> bool {
    FIRST_ID <= id <= LAST_ID
}

/// The context of the error for an id outside the sample data set.
pub open spec fn not_found_context(id: nat) -> Seq<char> {
    "Data with id "@ + decimal(id) + " not found"@
}

/// The context of the error for an empty listing.
pub open spec fn empty_listing_context() -> Seq<char> {
    "Failed to process data"@
}

/// The text served where a subscription is asked for but no stream is wired in.
pub open spec fn updates_placeholder() -> Seq<char> {
    "Placeholder for real-time data updates. Consider SSE or WebSocket implementation."@
}

/// Whether `e` is the entity that the sample data set holds under `id`.
pub open spec fn is_sample(e: DataEntity, id: nat) -> bool {
    e.id == id && e.value@ == sample_value(id)
}

/// The entity that the sample data set holds under `id`.
pub fn sample_entity(id: u32) -> (r: DataEntity)
    ensures
        is_sample(r, id as nat),
{
    let mut value = String::from_str("Sample Data ");
    push_decimal(&mut value, id);
    DataEntity { id, value }
}

/// A listing as the facade renders it: an empty one is a failure.
pub fn list_all_from(points: Vec<DataEntity>) -> (r: Result<Vec<DataEntity>, DataError>)
    ensures
        points.len() == 0 ==> (r matches Err(DataError::InternalServerError(c))
            && c@ == empty_listing_context()),
        points.len() > 0 ==> r == Ok::<Vec<DataEntity>, DataError>(points),
{
    if points.len() == 0 {
        Err(DataError::InternalServerError(String::from_str("Failed to process data")))
    } else {
        Ok(points)
    }
}

/// Every entity of the sample data set, in order of id.
pub fn fetch_all_data_points() -> (r: Result<Vec<DataEntity>, DataError>)
    ensures
        r matches Ok(v) && v.len() == 2 && is_sample(v[0], 1) && is_sample(v[1], 2),
{
    let mut points: Vec<DataEntity> = Vec::new();
    points.push(sample_entity(1));
    points.push(sample_entity(2));
    list_all_from(points)
}

/// The entity of the sample data set under `id`, or `NotFound` for an id outside it.
pub fn fetch_data_by_id(id: u32) -> (r: Result<DataEntity, DataError>)
    ensures
        valid_id(id as nat) ==> (r matches Ok(e) && is_sample(e, id as nat)),
        !valid_id(id as nat) ==> (r matches Err(DataError::NotFound(c))
            && c@ == not_found_context(id as nat)),
{
    if id < FIRST_ID || id > LAST_ID {
        let mut context = String::from_str("Data with id ");
        push_decimal(&mut context, id);
        context.append(" not found");
        Err(DataError::NotFound(context))
    } else {
        Ok(sample_entity(id))
    }
}

/// The body served for a subscription while no stream is wired in.
pub fn subscribe_to_real_time_updates() -> (r: String)
    ensures
        r@ == updates_placeholder(),
{
    String::from_str(
        "Placeholder for real-time data updates. Consider SSE or WebSocket implementation.",
    )
}

} // verus!
