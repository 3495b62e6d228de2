//! The half-duplex loop: one task that shares a radio between listening and
//! bounded transmission bursts.

use vstd::prelude::*;

use crate::network::{
    enqueue_log, spec_enqueue_log, EnqueueOutcome, NetworkInterface, NetworkLog,
};

verus! {

/// Most frames that one contiguous transmission burst sends.
pub const CONTINOUS_TRANSMISSION_PACKET_LIMIT: u8 = 5;

/// Milliseconds that a burst waits for the next outbound frame before it
/// yields back to reception.
pub const CONTINOUS_TRANSMISSION_WAIT_MS: u64 = 2;

/// What the caller reports to the half-duplex loop.
pub enum HalfDuplexEvent<P> {
    /// `prepare_to_receive` returned, with success or not.
    ReceivePrepared { ok: bool },
    /// A frame came out of the outbound channel.
    Outbound(P),
    /// `ready_to_receive` resolved: the radio signals a reception.
    ReceiveReady,
    /// Neither a frame nor a reception can arrive any more: the outbound
    /// channel is closed and the wait for the radio failed.
    NothingToWaitFor,
    /// `prepare_to_send` returned, with success or not.
    SendPrepared { ok: bool },
    /// `send` returned.
    Sent,
    /// No outbound frame came within the burst wait, or the channel is closed.
    OutboundIdle,
    /// `receive` returned, with a frame or without.
    Received(Option<P>),
    /// The enqueue on the inbound channel returned.
    Enqueued(EnqueueOutcome),
}

/// What the half-duplex loop asks the caller to do next.
pub enum HalfDuplexAction<P> {
    /// Call `prepare_to_receive` on the driver.
    PrepareToReceive,
    /// Wait for whichever comes first: a frame on the outbound channel or
    /// `ready_to_receive` on the driver.
    WaitForOutboundOrReady,
    /// Call `prepare_to_send` on the driver.
    PrepareToSend,
    /// Call `send` on the driver with this frame.
    Send(P),
    /// Wait for the next outbound frame, for at most this many milliseconds.
    WaitForOutbound { timeout_ms: u64 },
    /// Call `receive` on the driver.
    Receive,
    /// Try to put this frame into the inbound channel, without blocking.
    Enqueue(P),
    /// End the task.
    Stop,
}

/// Where the half-duplex loop stands: which answer it is waiting for.
pub enum HalfDuplexState<P> {
    /// `prepare_to_receive` was asked for.
    Arming,
    /// The radio listens; the loop waits for an outbound frame or a reception.
    Listening,
    /// `prepare_to_send` was asked for; `first` opens the burst.
    PreparingSend { first: P },
    /// A `send` is under way, the `sent`-th of the current burst.
    Sending { sent: u8 },
    /// The burst has sent `sent` frames and waits for the next one.
    BurstWaiting { sent: u8 },
    /// `receive` was asked for.
    Receiving,
    /// An enqueue on the inbound channel was asked for.
    Enqueueing,
    /// The task has ended.
    Stopped,
}

/// Result of one step of the half-duplex loop.
pub struct HalfDuplexStep<P> {
    /// State after the step.
    pub state: HalfDuplexState<P>,
    /// What to log, if anything.
    pub log: Option<NetworkLog>,
    /// What to do next.
    pub action: HalfDuplexAction<P>,
}

impl<P> HalfDuplexState<P> {
    /// A burst counter is between 1 and the burst limit.
    pub open spec fn well_formed(self) -> bool {
        match self {
            HalfDuplexState::Sending { sent } => 1 <= sent <= CONTINOUS_TRANSMISSION_PACKET_LIMIT,
            HalfDuplexState::BurstWaiting { sent } => 1 <= sent
                <= CONTINOUS_TRANSMISSION_PACKET_LIMIT,
            _ => true,
        }
    }
}

/// The halt that answers an event which the state does not wait for.
pub open spec fn spec_halt<P>() -> HalfDuplexStep<P> {
    HalfDuplexStep { state: HalfDuplexState::Stopped, log: None, action: HalfDuplexAction::Stop }
}

/// The step back to arming reception, with an optional report.
pub open spec fn spec_rearm<P>(log: Option<NetworkLog>) -> HalfDuplexStep<P> {
    HalfDuplexStep {
        state: HalfDuplexState::Arming,
        log,
        action: HalfDuplexAction::PrepareToReceive,
    }
}

/// One step of the half-duplex loop.
///
/// Every pass arms reception first. While the radio listens, an outbound
/// frame opens a transmission burst and a reception is read and enqueued; a
/// reception that yields no frame is dropped with a debug report.
/// A burst sends the frame that opened it and then up to the burst limit in
/// all, as long as the next frame arrives within the burst wait; a frame that
/// arrives once the limit is reached ends the burst and is discarded. Every
/// branch ends by arming reception again. A driver that cannot be armed ends
/// the task, and so does an event that the state does not wait for.
pub open spec fn spec_step<P>(state: HalfDuplexState<P>, event: HalfDuplexEvent<P>)
    -> HalfDuplexStep<P> {
    match (state, event) {
        (HalfDuplexState::Arming, HalfDuplexEvent::ReceivePrepared { ok }) => if ok {
            HalfDuplexStep {
                state: HalfDuplexState::Listening,
                log: None,
                action: HalfDuplexAction::WaitForOutboundOrReady,
            }
        } else {
            HalfDuplexStep {
                state: HalfDuplexState::Stopped,
                log: Some(NetworkLog::ReceiveNotPrepared),
                action: HalfDuplexAction::Stop,
            }
        },
        (HalfDuplexState::Listening, HalfDuplexEvent::Outbound(first)) => HalfDuplexStep {
            state: HalfDuplexState::PreparingSend { first },
            log: None,
            action: HalfDuplexAction::PrepareToSend,
        },
        (HalfDuplexState::Listening, HalfDuplexEvent::ReceiveReady) => HalfDuplexStep {
            state: HalfDuplexState::Receiving,
            log: None,
            action: HalfDuplexAction::Receive,
        },
        (HalfDuplexState::PreparingSend { first }, HalfDuplexEvent::SendPrepared { ok }) => if ok {
            HalfDuplexStep {
                state: HalfDuplexState::Sending { sent: 1 },
                log: None,
                action: HalfDuplexAction::Send(first),
            }
        } else {
            HalfDuplexStep {
                state: HalfDuplexState::Stopped,
                log: Some(NetworkLog::SendNotPrepared),
                action: HalfDuplexAction::Stop,
            }
        },
        (HalfDuplexState::Sending { sent }, HalfDuplexEvent::Sent) => HalfDuplexStep {
            state: HalfDuplexState::BurstWaiting { sent },
            log: None,
            action: HalfDuplexAction::WaitForOutbound {
                timeout_ms: CONTINOUS_TRANSMISSION_WAIT_MS,
            },
        },
        (HalfDuplexState::BurstWaiting { sent }, HalfDuplexEvent::OutboundIdle) => spec_rearm(None),
        (HalfDuplexState::BurstWaiting { sent }, HalfDuplexEvent::Outbound(next)) => if sent
            >= CONTINOUS_TRANSMISSION_PACKET_LIMIT {
            spec_rearm(None)
        } else {
            HalfDuplexStep {
                state: HalfDuplexState::Sending { sent: (sent + 1) as u8 },
                log: None,
                action: HalfDuplexAction::Send(next),
            }
        },
        (HalfDuplexState::Receiving, HalfDuplexEvent::Received(Some(frame))) => HalfDuplexStep {
            state: HalfDuplexState::Enqueueing,
            log: None,
            action: HalfDuplexAction::Enqueue(frame),
        },
        (HalfDuplexState::Receiving, HalfDuplexEvent::Received(None)) => spec_rearm(
            Some(NetworkLog::NothingReceived),
        ),
        (HalfDuplexState::Enqueueing, HalfDuplexEvent::Enqueued(outcome)) => spec_rearm(
            spec_enqueue_log(outcome),
        ),
        _ => spec_halt(),
    }
}

/// The half-duplex network interface: the loop that time-shares one
/// half-duplex driver between reception and transmission.
pub struct HalfDuplexNetwork<P> {
    state: HalfDuplexState<P>,
    buffer_size: usize,
}

impl<P> NetworkInterface for HalfDuplexNetwork<P> {
    closed spec fn spec_buffer_size(&self) -> usize {
        self.buffer_size
    }

    /// An interface that is about to arm reception, for channels that hold
    /// `buffer_size` frames each.
    fn new(buffer_size: usize) -> (network: Self)
        ensures
            network.state() == HalfDuplexState::<P>::Arming,
            network.state().well_formed(),
    {
        HalfDuplexNetwork { state: HalfDuplexState::Arming, buffer_size }
    }

    /// An interface that is about to arm reception, for channels that the
    /// caller has made already.
    fn new_barebone() -> (network: Self)
        ensures
            network.state() == HalfDuplexState::<P>::Arming,
            network.state().well_formed(),
    {
        HalfDuplexNetwork { state: HalfDuplexState::Arming, buffer_size: 0 }
    }

    fn buffer_size(&self) -> (size: usize) {
        self.buffer_size
    }
}

impl<P> HalfDuplexNetwork<P> {
    /// State of the loop.
    pub closed spec fn state(&self) -> HalfDuplexState<P> {
        self.state
    }

    /// Starts the loop: the first thing to do is to arm reception.
    pub fn run(self) -> (started: (Self, HalfDuplexAction<P>))
        ensures
            started.0.state() == HalfDuplexState::<P>::Arming,
            started.0.spec_buffer_size() == self.spec_buffer_size(),
            started.1 == HalfDuplexAction::<P>::PrepareToReceive,
    {
        (
            HalfDuplexNetwork { state: HalfDuplexState::Arming, buffer_size: self.buffer_size },
            HalfDuplexAction::PrepareToReceive,
        )
    }

    /// Takes the outcome of the last action and decides the next one.
    pub fn step(self, event: HalfDuplexEvent<P>) -> (next: (
        Self,
        Option<NetworkLog>,
        HalfDuplexAction<P>,
    ))
        ensures
            next.0.state() == spec_step(self.state(), event).state,
            next.1 == spec_step(self.state(), event).log,
            next.2 == spec_step(self.state(), event).action,
            next.0.spec_buffer_size() == self.spec_buffer_size(),
            self.state().well_formed() ==> next.0.state().well_formed(),
    {
        let buffer_size = self.buffer_size;
        let (state, log, action) = match (self.state, event) {
            (HalfDuplexState::Arming, HalfDuplexEvent::ReceivePrepared { ok }) => if ok {
                (HalfDuplexState::Listening, None, HalfDuplexAction::WaitForOutboundOrReady)
            } else {
                (
                    HalfDuplexState::Stopped,
                    Some(NetworkLog::ReceiveNotPrepared),
                    HalfDuplexAction::Stop,
                )
            },
            (HalfDuplexState::Listening, HalfDuplexEvent::Outbound(first)) => (
                HalfDuplexState::PreparingSend { first },
                None,
                HalfDuplexAction::PrepareToSend,
            ),
            (HalfDuplexState::Listening, HalfDuplexEvent::ReceiveReady) => (
                HalfDuplexState::Receiving,
                None,
                HalfDuplexAction::Receive,
            ),
            (HalfDuplexState::PreparingSend { first }, HalfDuplexEvent::SendPrepared { ok }) => {
                if ok {
                    (HalfDuplexState::Sending { sent: 1 }, None, HalfDuplexAction::Send(first))
                } else {
                    (
                        HalfDuplexState::Stopped,
                        Some(NetworkLog::SendNotPrepared),
                        HalfDuplexAction::Stop,
                    )
                }
            },
            (HalfDuplexState::Sending { sent }, HalfDuplexEvent::Sent) => (
                HalfDuplexState::BurstWaiting { sent },
                None,
                HalfDuplexAction::WaitForOutbound { timeout_ms: CONTINOUS_TRANSMISSION_WAIT_MS },
            ),
            (HalfDuplexState::BurstWaiting { sent: _ }, HalfDuplexEvent::OutboundIdle) => (
                HalfDuplexState::Arming,
                None,
                HalfDuplexAction::PrepareToReceive,
            ),
            (HalfDuplexState::BurstWaiting { sent }, HalfDuplexEvent::Outbound(next)) => if sent
                >= CONTINOUS_TRANSMISSION_PACKET_LIMIT {
                (HalfDuplexState::Arming, None, HalfDuplexAction::PrepareToReceive)
            } else {
                (HalfDuplexState::Sending { sent: sent + 1 }, None, HalfDuplexAction::Send(next))
            },
            (HalfDuplexState::Receiving, HalfDuplexEvent::Received(Some(frame))) => (
                HalfDuplexState::Enqueueing,
                None,
                HalfDuplexAction::Enqueue(frame),
            ),
            (HalfDuplexState::Receiving, HalfDuplexEvent::Received(None)) => (
                HalfDuplexState::Arming,
                Some(NetworkLog::NothingReceived),
                HalfDuplexAction::PrepareToReceive,
            ),
            (HalfDuplexState::Enqueueing, HalfDuplexEvent::Enqueued(outcome)) => (
                HalfDuplexState::Arming,
                enqueue_log(outcome),
                HalfDuplexAction::PrepareToReceive,
            ),
            _ => (HalfDuplexState::Stopped, None, HalfDuplexAction::Stop),
        };
        (HalfDuplexNetwork { state, buffer_size }, log, action)
    }
}

/// The actions that the loop asks for, in order, when it is fed `events`
/// one by one from `state`.
pub open spec fn spec_run<P>(state: HalfDuplexState<P>, events: Seq<HalfDuplexEvent<P>>) -> Seq<
    HalfDuplexAction<P>,
>
    decreases events.len(),
{
    if events.len() == 0 {
        Seq::empty()
    } else {
        let step = spec_step(state, events[0]);
        seq![step.action] + spec_run(step.state, events.drop_first())
    }
}

/// Everything that a task asks of its caller, from `run` on, when the caller
/// reports `events`.
pub open spec fn spec_task_trace<P>(events: Seq<HalfDuplexEvent<P>>) -> Seq<HalfDuplexAction<P>> {
    seq![HalfDuplexAction::PrepareToReceive] + spec_run(HalfDuplexState::Arming, events)
}

/// Number of sends at the end of `actions` since reception was last armed.
pub open spec fn sends_since_armed<P>(actions: Seq<HalfDuplexAction<P>>) -> nat
    decreases actions.len(),
{
    if actions.len() == 0 {
        0
    } else {
        match actions.last() {
            HalfDuplexAction::PrepareToReceive => 0,
            HalfDuplexAction::Send(_) => 1 + sends_since_armed(actions.drop_last()),
            _ => sends_since_armed(actions.drop_last()),
        }
    }
}

/// The burst counter of a state agrees with the number of sends since
/// reception was last armed.
spec fn counts<P>(state: HalfDuplexState<P>, sends: nat) -> bool {
    match state {
        HalfDuplexState::Sending { sent } => sends == sent,
        HalfDuplexState::BurstWaiting { sent } => sends == sent,
        HalfDuplexState::Stopped => sends <= CONTINOUS_TRANSMISSION_PACKET_LIMIT,
        _ => sends == 0,
    }
}

proof fn lemma_run_len<P>(state: HalfDuplexState<P>, events: Seq<HalfDuplexEvent<P>>)
    ensures
        spec_run(state, events).len() == events.len(),
    decreases events.len(),
{
    if events.len() > 0 {
        lemma_run_len(spec_step(state, events[0]).state, events.drop_first());
    }
}

proof fn lemma_sends_after_push<P>(actions: Seq<HalfDuplexAction<P>>, action: HalfDuplexAction<P>)
    ensures
        sends_since_armed(actions.push(action)) == match action {
            HalfDuplexAction::PrepareToReceive => 0,
            HalfDuplexAction::Send(_) => 1 + sends_since_armed(actions),
            _ => sends_since_armed(actions),
        },
{
    assert(actions.push(action).drop_last() =~= actions);
}

proof fn lemma_run_bounded<P>(
    done: Seq<HalfDuplexAction<P>>,
    state: HalfDuplexState<P>,
    events: Seq<HalfDuplexEvent<P>>,
    n: int,
)
    requires
        state.well_formed(),
        counts(state, sends_since_armed(done)),
        0 <= n <= events.len(),
    ensures
        sends_since_armed(done + spec_run(state, events).take(n))
            <= CONTINOUS_TRANSMISSION_PACKET_LIMIT,
    decreases events.len(),
{
    lemma_run_len(state, events);
    if n == 0 {
        assert(done + spec_run(state, events).take(0) =~= done);
    } else {
        let step = spec_step(state, events[0]);
        let rest = events.drop_first();
        lemma_sends_after_push(done, step.action);
        lemma_run_len(step.state, rest);
        lemma_run_bounded(done.push(step.action), step.state, rest, n - 1);
        assert(done + spec_run(state, events).take(n) =~= done.push(step.action) + spec_run(
            step.state,
            rest,
        ).take(n - 1));
    }
}

/// Burst bound: whatever the caller reports, and however long the outbound
/// channel stays fed, no more than the burst limit of sends are asked for
/// between two requests to arm reception. Stated of every prefix of a task's
/// trace.
pub proof fn lemma_burst_bound<P>(events: Seq<HalfDuplexEvent<P>>, n: int)
    requires
        0 <= n <= spec_task_trace(events).len(),
    ensures
        sends_since_armed(spec_task_trace(events).take(n)) <= CONTINOUS_TRANSMISSION_PACKET_LIMIT,
{
    let first = seq![HalfDuplexAction::<P>::PrepareToReceive];
    lemma_run_len(HalfDuplexState::<P>::Arming, events);
    if n == 0 {
        assert(spec_task_trace(events).take(0) =~= Seq::<HalfDuplexAction<P>>::empty());
    } else {
        assert(first =~= Seq::<HalfDuplexAction<P>>::empty().push(
            HalfDuplexAction::PrepareToReceive,
        ));
        lemma_sends_after_push(
            Seq::<HalfDuplexAction<P>>::empty(),
            HalfDuplexAction::PrepareToReceive,
        );
        lemma_run_bounded(first, HalfDuplexState::Arming, events, n - 1);
        assert(spec_task_trace(events).take(n) =~= first + spec_run(
            HalfDuplexState::Arming,
            events,
        ).take(n - 1));
    }
}

/// What the radio was last asked to be armed for.
#[derive(Debug, Clone, Copy, PartialEq, Eq, Structural)]
pub enum RadioUse {
    /// Reception.
    Listening,
    /// Transmission.
    Transmitting,
}

/// What the radio is armed for after `actions`: the last arming among them.
pub open spec fn armed_for<P>(actions: Seq<HalfDuplexAction<P>>) -> Option<RadioUse>
    decreases actions.len(),
{
    if actions.len() == 0 {
        None
    } else {
        match actions.last() {
            HalfDuplexAction::PrepareToReceive => Some(RadioUse::Listening),
            HalfDuplexAction::PrepareToSend => Some(RadioUse::Transmitting),
            _ => armed_for(actions.drop_last()),
        }
    }
}

/// The state agrees with what the radio is armed for.
spec fn uses<P>(state: HalfDuplexState<P>, armed: Option<RadioUse>) -> bool {
    match state {
        HalfDuplexState::PreparingSend { first } => armed == Some(RadioUse::Transmitting),
        HalfDuplexState::Sending { sent } => armed == Some(RadioUse::Transmitting),
        HalfDuplexState::BurstWaiting { sent } => armed == Some(RadioUse::Transmitting),
        HalfDuplexState::Stopped => true,
        _ => armed == Some(RadioUse::Listening),
    }
}

proof fn lemma_armed_after_push<P>(actions: Seq<HalfDuplexAction<P>>, action: HalfDuplexAction<P>)
    ensures
        armed_for(actions.push(action)) == match action {
            HalfDuplexAction::PrepareToReceive => Some(RadioUse::Listening),
            HalfDuplexAction::PrepareToSend => Some(RadioUse::Transmitting),
            _ => armed_for(actions),
        },
{
    assert(actions.push(action).drop_last() =~= actions);
}

proof fn lemma_run_disciplined<P>(
    done: Seq<HalfDuplexAction<P>>,
    state: HalfDuplexState<P>,
    events: Seq<HalfDuplexEvent<P>>,
    n: int,
)
    requires
        uses(state, armed_for(done)),
        0 <= n < events.len(),
    ensures
        spec_run(state, events).len() == events.len(),
        spec_run(state, events)[n] is Send ==> armed_for(done + spec_run(state, events).take(n))
            == Some(RadioUse::Transmitting),
        spec_run(state, events)[n] is Receive ==> armed_for(
            done + spec_run(state, events).take(n),
        ) == Some(RadioUse::Listening),
    decreases events.len(),
{
    lemma_run_len(state, events);
    let step = spec_step(state, events[0]);
    let rest = events.drop_first();
    if n == 0 {
        assert(done + spec_run(state, events).take(0) =~= done);
    } else {
        lemma_armed_after_push(done, step.action);
        lemma_run_len(step.state, rest);
        lemma_run_disciplined(done.push(step.action), step.state, rest, n - 1);
        assert(done + spec_run(state, events).take(n) =~= done.push(step.action) + spec_run(
            step.state,
            rest,
        ).take(n - 1));
    }
}

/// Half-duplex discipline: the radio is never asked to transmit while it
/// listens, nor to hand over a reception while it transmits. Whatever the
/// caller reports, every send in a task's trace comes after an arming of
/// transmission with no arming of reception in between, and every receive
/// comes after an arming of reception with no arming of transmission in
/// between.
pub proof fn lemma_half_duplex_discipline<P>(events: Seq<HalfDuplexEvent<P>>, n: int)
    requires
        0 <= n < spec_task_trace(events).len(),
    ensures
        spec_task_trace(events)[n] is Send ==> armed_for(spec_task_trace(events).take(n)) == Some(
            RadioUse::Transmitting,
        ),
        spec_task_trace(events)[n] is Receive ==> armed_for(spec_task_trace(events).take(n))
            == Some(RadioUse::Listening),
{
    let first = seq![HalfDuplexAction::<P>::PrepareToReceive];
    lemma_run_len(HalfDuplexState::<P>::Arming, events);
    if n > 0 {
        assert(first =~= Seq::<HalfDuplexAction<P>>::empty().push(
            HalfDuplexAction::PrepareToReceive,
        ));
        lemma_armed_after_push(
            Seq::<HalfDuplexAction<P>>::empty(),
            HalfDuplexAction::PrepareToReceive,
        );
        lemma_run_disciplined(first, HalfDuplexState::Arming, events, n - 1);
        assert(spec_task_trace(events).take(n) =~= first + spec_run(
            HalfDuplexState::Arming,
            events,
        ).take(n - 1));
    }
}

/// Yield: when a send has completed and no outbound frame arrives within the
/// burst wait, the next thing asked of the driver is to arm reception.
pub proof fn lemma_idle_burst_yields<P>(sent: u8)
    ensures
        spec_step(HalfDuplexState::<P>::Sending { sent }, HalfDuplexEvent::Sent).action
            == (HalfDuplexAction::<P>::WaitForOutbound {
            timeout_ms: CONTINOUS_TRANSMISSION_WAIT_MS,
        }),
        spec_run(
            HalfDuplexState::<P>::Sending { sent },
            seq![HalfDuplexEvent::Sent, HalfDuplexEvent::OutboundIdle],
        ).last() == HalfDuplexAction::<P>::PrepareToReceive,
{
    let events = seq![HalfDuplexEvent::<P>::Sent, HalfDuplexEvent::OutboundIdle];
    let waiting = HalfDuplexState::<P>::BurstWaiting { sent };
    assert(events.drop_first() =~= seq![HalfDuplexEvent::<P>::OutboundIdle]);
    assert(events.drop_first().drop_first() =~= Seq::<HalfDuplexEvent<P>>::empty());
    assert(spec_run(HalfDuplexState::<P>::Arming, events.drop_first().drop_first())
        =~= Seq::<HalfDuplexAction<P>>::empty());
    assert(spec_run(waiting, events.drop_first()) =~= seq![
        HalfDuplexAction::<P>::PrepareToReceive,
    ]);
}

/// Backpressure: when the inbound channel is full, the received frame is
/// dropped with exactly one error report, and the loop goes on: it arms
/// reception again, and the next frame that the driver receives is offered to
/// the channel.
pub proof fn lemma_inbound_overflow_is_survived<P>(later: P)
    ensures
        spec_step(
            HalfDuplexState::<P>::Enqueueing,
            HalfDuplexEvent::Enqueued(EnqueueOutcome::Full),
        ) == spec_rearm::<P>(Some(NetworkLog::InboundFull)),
        spec_run(
            HalfDuplexState::<P>::Arming,
            seq![
                HalfDuplexEvent::ReceivePrepared { ok: true },
                HalfDuplexEvent::ReceiveReady,
                HalfDuplexEvent::Received(Some(later)),
            ],
        ) == seq![
            HalfDuplexAction::<P>::WaitForOutboundOrReady,
            HalfDuplexAction::Receive,
            HalfDuplexAction::Enqueue(later),
        ],
{
    let events = seq![
        HalfDuplexEvent::<P>::ReceivePrepared { ok: true },
        HalfDuplexEvent::ReceiveReady,
        HalfDuplexEvent::Received(Some(later)),
    ];
    let e1 = events.drop_first();
    let e2 = e1.drop_first();
    let e3 = e2.drop_first();
    assert(e1 =~= seq![HalfDuplexEvent::<P>::ReceiveReady, HalfDuplexEvent::Received(Some(later))]);
    assert(e2 =~= seq![HalfDuplexEvent::<P>::Received(Some(later))]);
    assert(e3 =~= Seq::<HalfDuplexEvent<P>>::empty());
    assert(spec_run(HalfDuplexState::<P>::Enqueueing, e3) =~= Seq::<HalfDuplexAction<P>>::empty());
    assert(spec_run(HalfDuplexState::<P>::Receiving, e2) =~= seq![
        HalfDuplexAction::<P>::Enqueue(later),
    ]);
    assert(spec_run(HalfDuplexState::<P>::Listening, e1) =~= seq![
        HalfDuplexAction::<P>::Receive,
        HalfDuplexAction::Enqueue(later),
    ]);
    assert(spec_run(HalfDuplexState::<P>::Arming, events) =~= seq![
        HalfDuplexAction::<P>::WaitForOutboundOrReady,
        HalfDuplexAction::Receive,
        HalfDuplexAction::Enqueue(later),
    ]);
}

} // verus!
