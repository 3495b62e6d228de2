//! The full-duplex loops: one task that receives and one that sends. Neither
//! task remembers anything between two events, so each is a function from the
//! event to the next action.

use vstd::prelude::*;

use crate::network::{
    enqueue_log, spec_enqueue_log, EnqueueOutcome, NetworkInterface, NetworkLog,
};

verus! {

/// What the caller reports to the receive task.
pub enum ReceiveTaskEvent<P> {
    /// `receive` on the driver returned, with a frame or without.
    Received(Option<P>),
    /// The enqueue on the inbound channel returned.
    Enqueued(EnqueueOutcome),
}

/// What the receive task asks the caller to do next.
pub enum ReceiveTaskAction<P> {
    /// Call `receive` on the driver.
    Receive,
    /// Try to put this frame into the inbound channel, without blocking.
    Enqueue(P),
}

/// What the caller reports to the send task.
pub enum SendTaskEvent<P> {
    /// The wait on the outbound channel returned: a frame, or `None` once the
    /// channel is closed.
    Outbound(Option<P>),
    /// `send` on the driver returned.
    Sent,
}

/// What the send task asks the caller to do next.
pub enum SendTaskAction<P> {
    /// Wait for the next frame on the outbound channel.
    WaitForOutbound,
    /// Call `send` on the driver with this frame.
    Send(P),
    /// End the task.
    Stop,
}

/// One step of the receive task: a received frame is offered to the inbound
/// channel; after the offer, whatever became of it, and after an empty
/// receive, the task receives again. Reception never waits for the channel.
pub open spec fn spec_receive_task_step<P>(event: ReceiveTaskEvent<P>) -> (
    Option<NetworkLog>,
    ReceiveTaskAction<P>,
) {
    match event {
        ReceiveTaskEvent::Received(Some(frame)) => (None, ReceiveTaskAction::Enqueue(frame)),
        ReceiveTaskEvent::Received(None) => (None, ReceiveTaskAction::Receive),
        ReceiveTaskEvent::Enqueued(outcome) => (
            spec_enqueue_log(outcome),
            ReceiveTaskAction::Receive,
        ),
    }
}

/// One step of the send task: a frame from the outbound channel is sent, a
/// completed send waits for the next frame, and a closed channel ends the
/// task.
pub open spec fn spec_send_task_step<P>(event: SendTaskEvent<P>) -> SendTaskAction<P> {
    match event {
        SendTaskEvent::Outbound(Some(frame)) => SendTaskAction::Send(frame),
        SendTaskEvent::Outbound(None) => SendTaskAction::Stop,
        SendTaskEvent::Sent => SendTaskAction::WaitForOutbound,
    }
}

/// The full-duplex network interface: two independent tasks over one driver.
pub struct FullDuplexNetwork {
    buffer_size: usize,
}

impl NetworkInterface for FullDuplexNetwork {
    closed spec fn spec_buffer_size(&self) -> usize {
        self.buffer_size
    }

    fn new(buffer_size: usize) -> (network: Self) {
        FullDuplexNetwork { buffer_size }
    }

    fn new_barebone() -> (network: Self) {
        FullDuplexNetwork { buffer_size: 0 }
    }

    fn buffer_size(&self) -> (size: usize) {
        self.buffer_size
    }
}

impl FullDuplexNetwork {
    /// Starts both tasks: the receive task begins by receiving, the send task
    /// by waiting for an outbound frame.
    pub fn run<P>(self) -> (first: (ReceiveTaskAction<P>, SendTaskAction<P>))
        ensures
            first.0 == ReceiveTaskAction::<P>::Receive,
            first.1 == SendTaskAction::<P>::WaitForOutbound,
    {
        (ReceiveTaskAction::Receive, SendTaskAction::WaitForOutbound)
    }

    /// Takes the outcome of the receive task's last action and decides its
    /// next one, with what to log.
    pub fn receive_task_step<P>(event: ReceiveTaskEvent<P>) -> (next: (
        Option<NetworkLog>,
        ReceiveTaskAction<P>,
    ))
        ensures
            next == spec_receive_task_step(event),
    {
        match event {
            ReceiveTaskEvent::Received(Some(frame)) => (None, ReceiveTaskAction::Enqueue(frame)),
            ReceiveTaskEvent::Received(None) => (None, ReceiveTaskAction::Receive),
            ReceiveTaskEvent::Enqueued(outcome) => (
                enqueue_log(outcome),
                ReceiveTaskAction::Receive,
            ),
        }
    }

    /// Takes the outcome of the send task's last action and decides its next
    /// one.
    pub fn send_task_step<P>(event: SendTaskEvent<P>) -> (next: SendTaskAction<P>)
        ensures
            next == spec_send_task_step(event),
    {
        match event {
            SendTaskEvent::Outbound(Some(frame)) => SendTaskAction::Send(frame),
            SendTaskEvent::Outbound(None) => SendTaskAction::Stop,
            SendTaskEvent::Sent => SendTaskAction::WaitForOutbound,
        }
    }
}

/// The actions that the send task asks for, in order, when it is fed
/// `events` one by one; nothing follows the action that ends the task.
pub open spec fn spec_send_task_run<P>(events: Seq<SendTaskEvent<P>>) -> Seq<SendTaskAction<P>>
    decreases events.len(),
{
    if events.len() == 0 {
        Seq::empty()
    } else {
        let action = spec_send_task_step(events[0]);
        if action is Stop {
            seq![action]
        } else {
            seq![action] + spec_send_task_run(events.drop_first())
        }
    }
}

/// The frames of the sends among `actions`, in order.
pub open spec fn sent_frames<P>(actions: Seq<SendTaskAction<P>>) -> Seq<P>
    decreases actions.len(),
{
    if actions.len() == 0 {
        Seq::empty()
    } else {
        match actions[0] {
            SendTaskAction::Send(frame) => seq![frame] + sent_frames(actions.drop_first()),
            _ => sent_frames(actions.drop_first()),
        }
    }
}

/// The frames that the outbound channel hands over in `events`, in order, up
/// to the point where it is closed.
pub open spec fn outbound_frames<P>(events: Seq<SendTaskEvent<P>>) -> Seq<P>
    decreases events.len(),
{
    if events.len() == 0 {
        Seq::empty()
    } else {
        match events[0] {
            SendTaskEvent::Outbound(Some(frame)) => seq![frame] + outbound_frames(
                events.drop_first(),
            ),
            SendTaskEvent::Outbound(None) => Seq::empty(),
            SendTaskEvent::Sent => outbound_frames(events.drop_first()),
        }
    }
}

/// FIFO transmission: the driver is asked to send exactly the frames that the
/// outbound channel hands over, each once and in the order of the channel.
pub proof fn lemma_send_task_is_fifo<P>(events: Seq<SendTaskEvent<P>>)
    ensures
        sent_frames(spec_send_task_run(events)) == outbound_frames(events),
    decreases events.len(),
{
    if events.len() > 0 {
        let action = spec_send_task_step(events[0]);
        let rest = spec_send_task_run(events.drop_first());
        lemma_send_task_is_fifo(events.drop_first());
        if action is Stop {
            assert(seq![action].drop_first() =~= Seq::<SendTaskAction<P>>::empty());
            assert(sent_frames(seq![action].drop_first()) =~= Seq::<P>::empty());
        } else {
            assert((seq![action] + rest).drop_first() =~= rest);
        }
    }
}

/// Backpressure: when the inbound channel is full, the received frame is
/// dropped with exactly one error report and the task receives again; the
/// next received frame is offered to the channel like any other.
pub proof fn lemma_receive_task_survives_overflow<P>(later: P)
    ensures
        spec_receive_task_step::<P>(ReceiveTaskEvent::Enqueued(EnqueueOutcome::Full)) == (
            Some(NetworkLog::InboundFull),
            ReceiveTaskAction::<P>::Receive,
        ),
        spec_receive_task_step(ReceiveTaskEvent::Received(Some(later))) == (
            None::<NetworkLog>,
            ReceiveTaskAction::Enqueue(later),
        ),
{
}

} // verus!
