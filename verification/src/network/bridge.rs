//! The bridge between two network interfaces: one forwarding task per
//! direction and one heartbeat injector per link.

use vstd::prelude::*;

use crate::utils::mavlink_utils::MavlinkHeaderGenerator;
use crate::utils::types::{MavFramePacket, NodeType};

verus! {

/// Milliseconds between two heartbeats, unless the caller chooses otherwise.
pub const HEARTBEAT_INTERVAL_MS: u64 = 1000;

/// What the caller reports to a forwarding task.
pub enum ForwardEvent<P> {
    /// The wait on the inbound channel of the source returned: a frame, or
    /// `None` once the channel is closed.
    Inbound(Option<P>),
    /// The enqueue on the outbound channel of the sink returned, with
    /// success or not.
    Forwarded { ok: bool },
}

/// What a forwarding task asks the caller to do next.
pub enum ForwardAction<P> {
    /// Wait for the next frame on the inbound channel of the source.
    WaitForInbound,
    /// Put this frame into the outbound channel of the sink.
    Forward(P),
    /// End the task.
    Stop,
}

/// What a forwarding task reports.
#[derive(Debug, Clone, Copy, PartialEq, Eq, Structural)]
pub enum BridgeLog {
    /// A frame goes to the sink (debug level).
    SendToNetwork,
    /// The sink did not take the frame; it is dropped (error level).
    ForwardFailed,
}

/// One step of a forwarding task: a frame from the source goes to the sink;
/// a frame that the sink does not take is dropped with one error report and
/// the task goes on; a closed source ends the task.
pub open spec fn spec_forward_step<P>(event: ForwardEvent<P>) -> (
    Option<BridgeLog>,
    ForwardAction<P>,
) {
    match event {
        ForwardEvent::Inbound(Some(frame)) => (
            Some(BridgeLog::SendToNetwork),
            ForwardAction::Forward(frame),
        ),
        ForwardEvent::Inbound(None) => (None, ForwardAction::Stop),
        ForwardEvent::Forwarded { ok } => (
            if ok {
                None
            } else {
                Some(BridgeLog::ForwardFailed)
            },
            ForwardAction::WaitForInbound,
        ),
    }
}

/// Takes the outcome of a forwarding task's last action and decides its next
/// one, with what to log.
pub fn forward_packets<P>(event: ForwardEvent<P>) -> (next: (Option<BridgeLog>, ForwardAction<P>))
    ensures
        next == spec_forward_step(event),
{
    match event {
        ForwardEvent::Inbound(Some(frame)) => (
            Some(BridgeLog::SendToNetwork),
            ForwardAction::Forward(frame),
        ),
        ForwardEvent::Inbound(None) => (None, ForwardAction::Stop),
        ForwardEvent::Forwarded { ok } => (
            if ok {
                None
            } else {
                Some(BridgeLog::ForwardFailed)
            },
            ForwardAction::WaitForInbound,
        ),
    }
}

/// The heartbeat injector of one link: it stamps a heartbeat of the node's
/// role at every tick.
pub struct HeartbeatInjector {
    generator: MavlinkHeaderGenerator,
    node_type: NodeType,
    interval_ms: u64,
}

impl HeartbeatInjector {
    /// The header generator of the injector.
    pub closed spec fn generator(&self) -> MavlinkHeaderGenerator {
        self.generator
    }

    /// The role of the node.
    pub closed spec fn node_type(&self) -> NodeType {
        self.node_type
    }

    /// Milliseconds between two heartbeats.
    pub closed spec fn interval_ms(&self) -> u64 {
        self.interval_ms
    }

    /// An injector for a node of the given role, with a fresh sequence
    /// counter.
    pub fn new(node_type: NodeType, interval_ms: u64) -> (injector: Self)
        ensures
            injector.generator().next_sequence() == 0,
            injector.node_type() == node_type,
            injector.interval_ms() == interval_ms,
    {
        HeartbeatInjector { generator: MavlinkHeaderGenerator::new(), node_type, interval_ms }
    }

    /// One tick: the heartbeat frame to put into the link's outbound channel
    /// and the milliseconds to sleep before the next tick.
    pub fn send_heartbeat_to_network(&mut self) -> (tick: (MavFramePacket, u64))
        ensures
            tick.0@ == old(self).generator().spec_next_heartbeat(old(self).node_type()),
            tick.1 == old(self).interval_ms(),
            final(self).generator().next_sequence() == MavlinkHeaderGenerator::spec_following(
                old(self).generator().next_sequence(),
            ),
            final(self).node_type() == old(self).node_type(),
            final(self).interval_ms() == old(self).interval_ms(),
    {
        let frame = self.generator.create_mavlink_heartbeat_frame(self.node_type);
        (frame, self.interval_ms)
    }
}

} // verus!
