use vstd::prelude::*;

use crate::event::{event_json, QueryEvent};

verus! {

/// One record for the stream: the key that picks its partition, and its payload.
pub struct SinkRecord {
    pub partition_key: String,
    pub payload: String,
}

/// What became of one submission to the stream.
pub enum PublishOutcome {
    Delivered,
    /// The submission failed; the text describes why, for the log only.
    Failed(String),
}

impl PublishOutcome {
    /// Whether the stream accepted the record.
    pub fn succeeded(&self) -> (r: bool)
        ensures
            r == (self is Delivered),
    {
        match self {
            PublishOutcome::Delivered => true,
            PublishOutcome::Failed(_) => false,
        }
    }
}

/// The record for `event`: keyed by its product id, carrying its JSON form.
pub fn build_record(event: &QueryEvent) -> (r: SinkRecord)
    ensures
        r.partition_key@ == event.product_id@,
        r.payload@ == event_json(
            event.product_id@,
            event.product_availability,
            event.product_is_published,
            event.timestamp@,
        ),
{
    SinkRecord { partition_key: event.product_id.clone(), payload: event.to_json() }
}

} // verus!
