//! Decision logic of the two pipeline stages. The aggregation stage and the
//! export stage run as long-lived loops around outside channels, a lock and a
//! timer; every decision those loops take — when to stop the pipeline, and
//! what each event does to the shared state — is a function here.
//!
//! The liveness channel is a one-directional heartbeat from the export stage
//! to the aggregation stage: the exporter sends a unit on every cycle, the
//! aggregator polls non-blockingly. Whichever side finds its end of a channel
//! closed stops the whole pipeline — the two stages fail together, since
//! neither is useful without the other.

use vstd::prelude::*;
use crate::records::Message;
use crate::workers::registry::apm::Registry;
use crate::workers::registry::error::RegistryError;
use crate::workers::registry::reporter::{spec_join_lines, Reporter};

verus! {

/// What a non-blocking poll of the liveness channel reported.
pub enum LivenessSignal {
    /// A heartbeat arrived: the partner stage is alive.
    Received,
    /// No heartbeat yet, but the channel is open.
    Empty,
    /// The channel is closed: the partner stage has terminated.
    Closed,
}

/// What a blocking receive on the ingestion queue returned.
pub enum QueueEvent {
    /// The next decoded record.
    Received(Message),
    /// The queue is closed: no upstream producer is left.
    Closed,
}

/// Whether a liveness poll stops the aggregation stage, and with what error:
/// a closed liveness channel means the export stage has terminated, and
/// continuing to accumulate into state nobody publishes is not useful.
pub open spec fn spec_liveness_directive(signal: LivenessSignal) -> Option<RegistryError> {
    match signal {
        LivenessSignal::Closed => Option::Some(RegistryError::Disconnected),
        _ => Option::None,
    }
}

/// Whether a heartbeat delivery attempt stops the export stage, and with what
/// error: an undeliverable heartbeat means the aggregation stage has
/// terminated, and exporting a table nobody updates is not useful.
pub open spec fn spec_heartbeat_directive(delivered: bool) -> Option<RegistryError> {
    if delivered {
        Option::None
    } else {
        Option::Some(RegistryError::Disconnected)
    }
}

/// The aggregation stage's decision after polling the liveness channel.
pub fn processor_liveness_step(signal: LivenessSignal) -> (r: Result<(), RegistryError>)
    ensures
        r == match spec_liveness_directive(signal) {
            Option::Some(e) => Result::<(), RegistryError>::Err(e),
            Option::None => Result::<(), RegistryError>::Ok(()),
        },
{
    match signal {
        LivenessSignal::Closed => Err(RegistryError::Disconnected),
        _ => Ok(()),
    }
}

/// The aggregation stage's reaction to one ingestion-queue event at time
/// `now`: a record is folded into the registry; a closed queue is fatal and
/// leaves the registry untouched.
pub fn processor_queue_step(registry: &mut Registry, event: QueueEvent, now: u64) -> (r: Result<
    (),
    RegistryError,
>)
    requires
        old(registry).wf(),
    ensures
        final(registry).wf(),
        match event {
            QueueEvent::Received(msg) => {
                &&& r is Ok
                &&& final(registry)@ == old(registry)@.spec_ingest(msg@, now)
            },
            QueueEvent::Closed => {
                &&& r == Result::<(), RegistryError>::Err(RegistryError::Disconnected)
                &&& final(registry)@ == old(registry)@
            },
        },
{
    match event {
        QueueEvent::Received(msg) => {
            registry.ingest(msg, now);
            Ok(())
        },
        QueueEvent::Closed => Err(RegistryError::Disconnected),
    }
}

/// The export stage's step for one cycle: `delivered` reports whether the
/// heartbeat could be handed to the aggregation stage. When it could, the
/// payload of this cycle is built from a snapshot of the registry; when it
/// could not, the stage stops with a fatal error and no payload is built.
pub fn reporter_step(reporter: &Reporter, registry: &Registry, delivered: bool) -> (r: Result<
    String,
    RegistryError,
>)
    requires
        registry.wf(),
    ensures
        match spec_heartbeat_directive(delivered) {
            Option::Some(e) => r == Result::<String, RegistryError>::Err(e),
            Option::None => {
                &&& r is Ok
                &&& r->Ok_0@ == spec_join_lines(registry@.spec_serialize_lines())
            },
        },
{
    if !delivered {
        return Err(RegistryError::Disconnected);
    }
    Ok(reporter.build_report(registry))
}

/// Fail-together liveness: if the export stage terminates, the aggregation
/// stage finds the liveness channel closed on its next poll and stops the
/// pipeline with a fatal error; if the aggregation stage terminates first,
/// the export stage's next heartbeat cannot be delivered and it stops the
/// same way. Neither stage ever keeps running alone.
pub proof fn lemma_fail_together(signal: LivenessSignal, delivered: bool)
    ensures
        signal is Closed ==> spec_liveness_directive(signal) == Option::Some(
            RegistryError::Disconnected,
        ),
        !delivered ==> spec_heartbeat_directive(delivered) == Option::Some(
            RegistryError::Disconnected,
        ),
{
}

} // verus!
