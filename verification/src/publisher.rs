//! The event envelope a shim forwards to containerd.

use crate::data::Any;
use crate::data::Timestamp;
use vstd::prelude::*;

verus! {

/// An event with where and when it happened.
#[derive(Clone, Debug, Default)]
pub struct Envelope {
    pub timestamp: Option<Timestamp>,
    pub namespace: String,
    pub topic: String,
    pub event: Option<Any>,
}

/// A request to forward one envelope.
#[derive(Clone, Debug, Default)]
pub struct ForwardRequest {
    pub envelope: Option<Envelope>,
}

/// The request that publishes `event` under `topic` in `namespace`,
/// stamped with `timestamp`.
pub fn forward_request(topic: &str, namespace: &str, timestamp: Timestamp, event: Any) -> (r:
    ForwardRequest)
    ensures
        r.envelope matches Some(e) && e.topic@ == topic@ && e.namespace@ == namespace@
            && e.timestamp == Some(timestamp) && e.event == Some(event),
{
    let envelope = Envelope {
        timestamp: Some(timestamp),
        namespace: namespace.to_string(),
        topic: topic.to_string(),
        event: Some(event),
    };
    ForwardRequest { envelope: Some(envelope) }
}

} // verus!
