//! The event loops of the network interfaces, as decisions: each loop is a
//! function from what just happened to what to do next. The caller owns the
//! driver and the channels, performs the action and reports the outcome.

pub mod bridge;
pub mod full_duplex_network;
pub mod half_duplex_network;

use vstd::prelude::*;

verus! {

/// What the two kinds of network interface have in common: how they are
/// made. An interface is made either for channels of its own, each with room
/// for `buffer_size` frames, or for channel ends that exist already.
pub trait NetworkInterface: Sized {
    /// Capacity that the interface asks of its two channels; 0 when the
    /// channels are made elsewhere.
    spec fn spec_buffer_size(&self) -> usize;

    /// An interface for channels that hold `buffer_size` frames each.
    fn new(buffer_size: usize) -> (network: Self)
        ensures
            network.spec_buffer_size() == buffer_size,
    ;

    /// An interface for channels that the caller has made already.
    fn new_barebone() -> (network: Self)
        ensures
            network.spec_buffer_size() == 0,
    ;

    /// Capacity that the interface asks of its two channels.
    fn buffer_size(&self) -> (size: usize)
        ensures
            size == self.spec_buffer_size(),
    ;
}

/// Outcome of a non-blocking enqueue on the inbound channel.
#[derive(Debug, Clone, Copy, PartialEq, Eq, Structural)]
pub enum EnqueueOutcome {
    /// The frame is in the channel.
    Accepted,
    /// The channel held as many frames as its capacity allows.
    Full,
    /// The consumer of the channel is gone.
    Closed,
}

/// What a network loop reports when it has handled an event.
#[derive(Debug, Clone, Copy, PartialEq, Eq, Structural)]
pub enum NetworkLog {
    /// A received frame was handed to the inbound channel (debug level).
    SentToMain,
    /// The inbound channel was full and the received frame was dropped
    /// (error level).
    InboundFull,
    /// The driver had no frame to hand over: a short read, a failed checksum
    /// or bytes that hold no frame (debug level).
    NothingReceived,
    /// The driver could not arm reception; the loop ends (error level).
    ReceiveNotPrepared,
    /// The driver could not arm transmission; the loop ends (error level).
    SendNotPrepared,
}

/// The report that follows an enqueue attempt on the inbound channel: a debug
/// trace when the frame went in, exactly one error when the channel was full,
/// nothing when the channel is closed.
pub open spec fn spec_enqueue_log(outcome: EnqueueOutcome) -> Option<NetworkLog> {
    match outcome {
        EnqueueOutcome::Accepted => Some(NetworkLog::SentToMain),
        EnqueueOutcome::Full => Some(NetworkLog::InboundFull),
        EnqueueOutcome::Closed => None,
    }
}

/// The report that follows an enqueue attempt on the inbound channel.
pub fn enqueue_log(outcome: EnqueueOutcome) -> (log: Option<NetworkLog>)
    ensures
        log == spec_enqueue_log(outcome),
{
    match outcome {
        EnqueueOutcome::Accepted => Some(NetworkLog::SentToMain),
        EnqueueOutcome::Full => Some(NetworkLog::InboundFull),
        EnqueueOutcome::Closed => None,
    }
}

/// A non-blocking enqueue on a bounded first-in-first-out channel that holds
/// `queue` and has room for `capacity` frames: the frame goes to the end of
/// the queue if there is room, and the queue stays as it is if there is none.
pub open spec fn spec_try_send<P>(queue: Seq<P>, capacity: nat, frame: P) -> (
    Seq<P>,
    EnqueueOutcome,
) {
    if queue.len() < capacity {
        (queue.push(frame), EnqueueOutcome::Accepted)
    } else {
        (queue, EnqueueOutcome::Full)
    }
}

/// Backpressure never reaches the link: a frame offered to a saturated
/// inbound channel leaves the channel as it was and is reported as exactly
/// one error; once the consumer has taken a frame out, the next frame offered
/// goes in behind the others and is reported as handed on.
pub proof fn lemma_saturated_channel_drops_one_frame<P>(
    queue: Seq<P>,
    capacity: nat,
    extra: P,
    later: P,
)
    requires
        0 < capacity,
        queue.len() == capacity,
    ensures
        spec_try_send(queue, capacity, extra).0 == queue,
        spec_enqueue_log(spec_try_send(queue, capacity, extra).1) == Some(NetworkLog::InboundFull),
        spec_try_send(queue.drop_first(), capacity, later).0 == queue.drop_first().push(later),
        spec_enqueue_log(spec_try_send(queue.drop_first(), capacity, later).1) == Some(
            NetworkLog::SentToMain,
        ),
{
}

} // verus!
