use std::collections::VecDeque;

use mavlink_network_node::network::half_duplex_network::{
    HalfDuplexAction, HalfDuplexEvent, HalfDuplexNetwork, CONTINOUS_TRANSMISSION_PACKET_LIMIT,
    CONTINOUS_TRANSMISSION_WAIT_MS,
};
use mavlink_network_node::network::{EnqueueOutcome, NetworkInterface, NetworkLog};
use tokio::sync::mpsc;
use tokio::sync::mpsc::error::{TryRecvError, TrySendError};

/// What a mock driver saw, in order.
#[derive(Debug, Clone, PartialEq, Eq)]
enum Call {
    PrepareToReceive,
    PrepareToSend,
    Send(u32),
    Receive,
}

/// Runs the loop against a mock driver and real channels until the outbound
/// channel is empty and the radio has nothing more to deliver.
fn run_loop(
    outbound: &mut mpsc::Receiver<u32>,
    inbound: &mpsc::Sender<u32>,
    mut receptions: VecDeque<Option<u32>>,
    max_steps: usize,
) -> (Vec<Call>, Vec<NetworkLog>) {
    let mut calls = Vec::new();
    let mut logs = Vec::new();
    let (mut network, mut action) = HalfDuplexNetwork::<u32>::new_barebone().run();
    for _ in 0..max_steps {
        let event = match action {
            HalfDuplexAction::PrepareToReceive => {
                calls.push(Call::PrepareToReceive);
                HalfDuplexEvent::ReceivePrepared { ok: true }
            }
            HalfDuplexAction::WaitForOutboundOrReady => match outbound.try_recv() {
                Ok(frame) => HalfDuplexEvent::Outbound(frame),
                Err(TryRecvError::Empty) | Err(TryRecvError::Disconnected) => {
                    if receptions.is_empty() {
                        break;
                    }
                    HalfDuplexEvent::ReceiveReady
                }
            },
            HalfDuplexAction::PrepareToSend => {
                calls.push(Call::PrepareToSend);
                HalfDuplexEvent::SendPrepared { ok: true }
            }
            HalfDuplexAction::Send(frame) => {
                calls.push(Call::Send(frame));
                HalfDuplexEvent::Sent
            }
            HalfDuplexAction::WaitForOutbound { timeout_ms } => {
                assert_eq!(timeout_ms, 2);
                match outbound.try_recv() {
                    Ok(frame) => HalfDuplexEvent::Outbound(frame),
                    Err(_) => HalfDuplexEvent::OutboundIdle,
                }
            }
            HalfDuplexAction::Receive => {
                calls.push(Call::Receive);
                HalfDuplexEvent::Received(receptions.pop_front().flatten())
            }
            HalfDuplexAction::Enqueue(frame) => match inbound.try_send(frame) {
                Ok(()) => HalfDuplexEvent::Enqueued(EnqueueOutcome::Accepted),
                Err(TrySendError::Full(_)) => HalfDuplexEvent::Enqueued(EnqueueOutcome::Full),
                Err(TrySendError::Closed(_)) => HalfDuplexEvent::Enqueued(EnqueueOutcome::Closed),
            },
            HalfDuplexAction::Stop => break,
        };
        let (next, log, next_action) = network.step(event);
        network = next;
        action = next_action;
        logs.extend(log);
    }
    (calls, logs)
}

fn sends_between_arming(calls: &[Call]) -> Vec<usize> {
    let mut bursts = Vec::new();
    let mut current = 0;
    for call in calls {
        match call {
            Call::PrepareToReceive => {
                bursts.push(current);
                current = 0;
            }
            Call::Send(_) => current += 1,
            _ => {}
        }
    }
    bursts.push(current);
    bursts
}

#[test]
fn constants_of_the_burst() {
    assert_eq!(CONTINOUS_TRANSMISSION_PACKET_LIMIT, 5);
    assert_eq!(CONTINOUS_TRANSMISSION_WAIT_MS, 2);
}

#[test]
fn run_arms_reception_first() {
    let (network, action) = HalfDuplexNetwork::<u32>::new(128).run();
    assert!(matches!(action, HalfDuplexAction::PrepareToReceive));
    assert_eq!(network.buffer_size(), 128);
    assert_eq!(HalfDuplexNetwork::<u32>::new_barebone().buffer_size(), 0);
}

#[test]
fn burst_cap_with_twenty_frames() {
    let (outbound_tx, mut outbound_rx) = mpsc::channel::<u32>(32);
    let (inbound_tx, _inbound_rx) = mpsc::channel::<u32>(32);
    for frame in 1..=20 {
        outbound_tx.try_send(frame).unwrap();
    }
    let (calls, logs) = run_loop(&mut outbound_rx, &inbound_tx, VecDeque::new(), 1000);
    assert!(logs.is_empty());

    let first_burst: Vec<Call> = calls.iter().take(8).cloned().collect();
    assert_eq!(
        first_burst,
        vec![
            Call::PrepareToReceive,
            Call::PrepareToSend,
            Call::Send(1),
            Call::Send(2),
            Call::Send(3),
            Call::Send(4),
            Call::Send(5),
            Call::PrepareToReceive,
        ]
    );
    let bursts = sends_between_arming(&calls);
    assert!(bursts.iter().all(|sends| *sends <= 5), "bursts: {:?}", bursts);
    assert_eq!(&bursts[1..4], &[5, 5, 5]);
    let second_burst: Vec<&Call> =
        calls.iter().skip(8).take_while(|call| **call != Call::PrepareToReceive).collect();
    assert_eq!(second_burst.len(), 6);
    assert_eq!(second_burst[0], &Call::PrepareToSend);
}

#[test]
fn frame_that_meets_a_full_burst_is_discarded() {
    let (outbound_tx, mut outbound_rx) = mpsc::channel::<u32>(32);
    let (inbound_tx, _inbound_rx) = mpsc::channel::<u32>(32);
    for frame in 1..=7 {
        outbound_tx.try_send(frame).unwrap();
    }
    let (calls, _) = run_loop(&mut outbound_rx, &inbound_tx, VecDeque::new(), 1000);
    let sent: Vec<u32> = calls
        .iter()
        .filter_map(|call| match call {
            Call::Send(frame) => Some(*frame),
            _ => None,
        })
        .collect();
    assert_eq!(sent, vec![1, 2, 3, 4, 5, 7]);
}

#[test]
fn short_burst_yields_when_the_channel_is_idle() {
    let (outbound_tx, mut outbound_rx) = mpsc::channel::<u32>(32);
    let (inbound_tx, _inbound_rx) = mpsc::channel::<u32>(32);
    outbound_tx.try_send(1).unwrap();
    outbound_tx.try_send(2).unwrap();
    let (calls, _) = run_loop(&mut outbound_rx, &inbound_tx, VecDeque::new(), 1000);
    assert_eq!(
        calls,
        vec![
            Call::PrepareToReceive,
            Call::PrepareToSend,
            Call::Send(1),
            Call::Send(2),
            Call::PrepareToReceive,
        ]
    );
}

#[test]
fn idle_after_a_send_arms_reception_next() {
    let (network, _) = HalfDuplexNetwork::<u32>::new_barebone().run();
    let (network, _, _) = network.step(HalfDuplexEvent::ReceivePrepared { ok: true });
    let (network, _, action) = network.step(HalfDuplexEvent::Outbound(9));
    assert!(matches!(action, HalfDuplexAction::PrepareToSend));
    let (network, _, action) = network.step(HalfDuplexEvent::SendPrepared { ok: true });
    assert!(matches!(action, HalfDuplexAction::Send(9)));
    let (network, _, action) = network.step(HalfDuplexEvent::Sent);
    assert!(matches!(action, HalfDuplexAction::WaitForOutbound { timeout_ms: 2 }));
    let (_, log, action) = network.step(HalfDuplexEvent::OutboundIdle);
    assert_eq!(log, None);
    assert!(matches!(action, HalfDuplexAction::PrepareToReceive));
}

#[test]
fn reception_is_enqueued_and_reported() {
    let (_outbound_tx, mut outbound_rx) = mpsc::channel::<u32>(4);
    let (inbound_tx, mut inbound_rx) = mpsc::channel::<u32>(4);
    let receptions = VecDeque::from(vec![Some(41), None, Some(42)]);
    let (calls, logs) = run_loop(&mut outbound_rx, &inbound_tx, receptions, 1000);
    assert_eq!(inbound_rx.try_recv(), Ok(41));
    assert_eq!(inbound_rx.try_recv(), Ok(42));
    assert!(inbound_rx.try_recv().is_err());
    assert_eq!(
        logs,
        vec![NetworkLog::SentToMain, NetworkLog::NothingReceived, NetworkLog::SentToMain]
    );
    assert_eq!(calls.iter().filter(|call| **call == Call::Receive).count(), 3);
    assert_eq!(calls.iter().filter(|call| **call == Call::PrepareToReceive).count(), 4);
}

#[test]
fn full_inbound_channel_drops_with_one_error_and_the_loop_goes_on() {
    let capacity = 3;
    let (_outbound_tx, mut outbound_rx) = mpsc::channel::<u32>(4);
    let (inbound_tx, mut inbound_rx) = mpsc::channel::<u32>(capacity);
    for frame in 0..capacity as u32 {
        inbound_tx.try_send(frame).unwrap();
    }
    let (_, logs) =
        run_loop(&mut outbound_rx, &inbound_tx, VecDeque::from(vec![Some(99)]), 1000);
    assert_eq!(logs, vec![NetworkLog::InboundFull]);
    for frame in 0..capacity as u32 {
        assert_eq!(inbound_rx.try_recv(), Ok(frame));
    }
    assert!(inbound_rx.try_recv().is_err(), "the extra frame was dropped");

    let (_, logs) =
        run_loop(&mut outbound_rx, &inbound_tx, VecDeque::from(vec![Some(100)]), 1000);
    assert_eq!(logs, vec![NetworkLog::SentToMain]);
    assert_eq!(inbound_rx.try_recv(), Ok(100));
}

#[test]
fn closed_inbound_channel_is_silent() {
    let (network, _) = HalfDuplexNetwork::<u32>::new_barebone().run();
    let (network, _, _) = network.step(HalfDuplexEvent::ReceivePrepared { ok: true });
    let (network, _, _) = network.step(HalfDuplexEvent::ReceiveReady);
    let (network, _, action) = network.step(HalfDuplexEvent::Received(Some(1)));
    assert!(matches!(action, HalfDuplexAction::Enqueue(1)));
    let (_, log, action) = network.step(HalfDuplexEvent::Enqueued(EnqueueOutcome::Closed));
    assert_eq!(log, None);
    assert!(matches!(action, HalfDuplexAction::PrepareToReceive));
}

#[test]
fn failed_arming_of_reception_ends_the_task() {
    let (network, _) = HalfDuplexNetwork::<u32>::new_barebone().run();
    let (network, log, action) = network.step(HalfDuplexEvent::ReceivePrepared { ok: false });
    assert_eq!(log, Some(NetworkLog::ReceiveNotPrepared));
    assert!(matches!(action, HalfDuplexAction::Stop));
    let (_, log, action) = network.step(HalfDuplexEvent::ReceivePrepared { ok: true });
    assert_eq!(log, None);
    assert!(matches!(action, HalfDuplexAction::Stop));
}

#[test]
fn failed_arming_of_transmission_ends_the_task() {
    let (network, _) = HalfDuplexNetwork::<u32>::new_barebone().run();
    let (network, _, _) = network.step(HalfDuplexEvent::ReceivePrepared { ok: true });
    let (network, _, _) = network.step(HalfDuplexEvent::Outbound(5));
    let (_, log, action) = network.step(HalfDuplexEvent::SendPrepared { ok: false });
    assert_eq!(log, Some(NetworkLog::SendNotPrepared));
    assert!(matches!(action, HalfDuplexAction::Stop));
}

#[test]
fn nothing_to_wait_for_ends_the_task() {
    let (network, _) = HalfDuplexNetwork::<u32>::new_barebone().run();
    let (network, _, _) = network.step(HalfDuplexEvent::ReceivePrepared { ok: true });
    let (_, log, action) = network.step(HalfDuplexEvent::NothingToWaitFor);
    assert_eq!(log, None);
    assert!(matches!(action, HalfDuplexAction::Stop));
}

#[test]
fn unexpected_event_ends_the_task() {
    let (network, _) = HalfDuplexNetwork::<u32>::new_barebone().run();
    let (_, log, action) = network.step(HalfDuplexEvent::Sent);
    assert_eq!(log, None);
    assert!(matches!(action, HalfDuplexAction::Stop));
}

#[test]
fn pending_reception_is_served_after_a_burst() {
    let (outbound_tx, mut outbound_rx) = mpsc::channel::<u32>(4);
    let (inbound_tx, mut inbound_rx) = mpsc::channel::<u32>(4);
    outbound_tx.try_send(1).unwrap();
    let (calls, logs) =
        run_loop(&mut outbound_rx, &inbound_tx, VecDeque::from(vec![Some(77)]), 1000);
    assert_eq!(
        calls,
        vec![
            Call::PrepareToReceive,
            Call::PrepareToSend,
            Call::Send(1),
            Call::PrepareToReceive,
            Call::Receive,
            Call::PrepareToReceive,
        ]
    );
    assert_eq!(logs, vec![NetworkLog::SentToMain]);
    assert_eq!(inbound_rx.try_recv(), Ok(77));
}

#[test]
fn empty_reception_is_dropped_with_a_debug_report() {
    let (network, _) = HalfDuplexNetwork::<u32>::new_barebone().run();
    let (network, _, _) = network.step(HalfDuplexEvent::ReceivePrepared { ok: true });
    let (network, _, action) = network.step(HalfDuplexEvent::ReceiveReady);
    assert!(matches!(action, HalfDuplexAction::Receive));
    let (_, log, action) = network.step(HalfDuplexEvent::Received(None));
    assert_eq!(log, Some(NetworkLog::NothingReceived));
    assert!(matches!(action, HalfDuplexAction::PrepareToReceive));
}
