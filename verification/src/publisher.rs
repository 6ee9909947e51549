//! The publisher's verified half: routing an envelope to its subject,
//! rendering the wire payload, and the connection/counter bookkeeping.
//!
//! The broker connection itself, and the awaited publish
//! acknowledgement, live in the process around the core; every publish
//! outcome is recorded here, and the per-call result is mapped to the
//! error taxonomy here.

use vstd::prelude::*;

use crate::envelope::{spec_envelope_json, Envelope};
use crate::error::GatewayError;
use crate::routing::{route_subject, spec_route};
use crate::state::spec_sat_inc;

verus! {

/// Connection status and publish counters, shared by all shard runners.
#[derive(Debug, Clone, Copy, PartialEq, Eq)]
pub struct PublisherState {
    /// Whether the broker connection is considered live.
    pub connected: bool,
    /// Publishes whose acknowledgement arrived; never decreases.
    pub messages_published: u64,
    /// Failed publishes (submit or acknowledgement); never decreases.
    pub publish_failures: u64,
}

impl PublisherState {
    /// The bookkeeping of a freshly connected publisher.
    pub fn new() -> (r: PublisherState)
        ensures
            r.connected,
            r.messages_published == 0,
            r.publish_failures == 0,
    {
        PublisherState { connected: true, messages_published: 0, publish_failures: 0 }
    }

    /// Whether the connection is considered live.
    pub fn is_connected(&self) -> (r: bool)
        ensures
            r == self.connected,
    {
        self.connected
    }

    /// Publishes acknowledged so far.
    pub fn messages_published(&self) -> (r: u64)
        ensures
            r == self.messages_published,
    {
        self.messages_published
    }

    /// Publish failures so far.
    pub fn publish_failures(&self) -> (r: u64)
        ensures
            r == self.publish_failures,
    {
        self.publish_failures
    }

    /// Mark the publisher disconnected; the underlying connection drains
    /// when the process drops it.
    pub fn close(&mut self)
        ensures
            !final(self).connected,
            final(self).messages_published == old(self).messages_published,
            final(self).publish_failures == old(self).publish_failures,
    {
        self.connected = false;
    }

    /// Record the outcome of one publish attempt on `subject`: an
    /// acknowledged publish counts as published; any failure (submit or
    /// acknowledgement) counts as a failure and is reported with its
    /// subject and cause. Exactly one counter moves, by exactly one
    /// (saturating), and the connection status is untouched.
    pub fn record_publish_outcome(&mut self, subject: String, ok: bool, cause: String) -> (r:
        Result<(), GatewayError>)
        ensures
            final(self).connected == old(self).connected,
            ok ==> {
                &&& final(self).messages_published == spec_sat_inc(old(self).messages_published)
                &&& final(self).publish_failures == old(self).publish_failures
                &&& r is Ok
            },
            !ok ==> {
                &&& final(self).messages_published == old(self).messages_published
                &&& final(self).publish_failures == spec_sat_inc(old(self).publish_failures)
                &&& r == Result::<(), GatewayError>::Err(
                    GatewayError::NatsPublishFailed { subject, cause },
                )
            },
    {
        if ok {
            if self.messages_published < u64::MAX {
                self.messages_published = self.messages_published + 1;
            }
            Result::Ok(())
        } else {
            if self.publish_failures < u64::MAX {
                self.publish_failures = self.publish_failures + 1;
            }
            Result::Err(GatewayError::NatsPublishFailed { subject, cause })
        }
    }
}

/// Route an envelope and render its wire payload: the subject its
/// event type maps to, and the exact JSON text to publish.
pub fn prepare_publish(e: &Envelope) -> (r: (String, String))
    ensures
        r.0@ == spec_route(e@.event_type),
        r.1@ == spec_envelope_json(e@),
{
    let subject = route_subject(e.event_type.as_str());
    let payload = e.to_json();
    (subject, payload)
}

} // verus!
