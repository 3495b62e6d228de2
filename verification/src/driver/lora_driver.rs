//! What the LoRa drivers share: the payload that goes on the air for a frame,
//! the frame in a completed reception, and the answers of a half-duplex
//! driver to the steps of arming and waiting.

use vstd::prelude::*;

use crate::driver::{LinkReport, PREPARE_ERROR, WAIT_FOR_IRQ_ERROR};
use crate::utils::logging_utils::{
    deserialize_frame_or_report, spec_record, LogLevel, LogRecord, LogRecordView,
    DESERIALIZE_ERROR, NETWORK_TARGET, PACKET_RECEIVE_ERROR_MSG,
};
use crate::utils::lora_types::{
    IrqState, PacketStatus, RadioMode, TargetIrqState, LORA_MAX_PAYLOAD,
};
use crate::utils::mavlink_utils::{
    bytes_view, deserialize_frame, mavlink_v2_bytes, packet_view, serialize_frame,
    spec_deserialize_frame,
};
use crate::utils::types::{MavFramePacket, MavFrameView};

verus! {

/// Tag of the first LoRa driver.
pub const LORA_DRIVER: &'static str = "lora_driver";

/// The payload that goes on the air for wire bytes: the bytes themselves, as
/// long as one LoRa packet holds them.
pub open spec fn spec_lora_payload(bytes: Option<Seq<u8>>) -> Option<Seq<u8>> {
    match bytes {
        Some(buffer) => if buffer.len() <= LORA_MAX_PAYLOAD {
            Some(buffer)
        } else {
            None
        },
        None => None,
    }
}

/// The bytes of a completed reception: the first `received_len` bytes of the
/// receive buffer. Any other report of the radio, a radio error (`None`), or
/// a length beyond the buffer gives none.
pub open spec fn spec_received_bytes(irq: Option<IrqState>, buffer: Seq<u8>) -> Option<Seq<u8>> {
    match irq {
        Some(IrqState::RxDone(received_len, _)) => if received_len <= buffer.len() {
            Some(buffer.take(received_len as int))
        } else {
            None
        },
        _ => None,
    }
}

/// The frame of a completed reception.
pub open spec fn spec_received_frame(irq: Option<IrqState>, buffer: Seq<u8>) -> Option<
    MavFrameView,
> {
    match spec_received_bytes(irq, buffer) {
        Some(bytes) => spec_deserialize_frame(bytes),
        None => None,
    }
}

/// The signal quality of a completed reception.
pub open spec fn spec_packet_status(irq: Option<IrqState>) -> Option<PacketStatus> {
    match irq {
        Some(IrqState::RxDone(_, status)) => Some(status),
        _ => None,
    }
}

/// Keeps wire bytes that fit into one LoRa packet and drops longer ones.
pub fn lora_payload(bytes: Option<Vec<u8>>) -> (payload: Option<Vec<u8>>)
    ensures
        bytes_view(payload) == spec_lora_payload(bytes_view(bytes)),
{
    match bytes {
        Some(buffer) => if buffer.len() <= LORA_MAX_PAYLOAD {
            Some(buffer)
        } else {
            None
        },
        None => None,
    }
}

/// The payload that goes on the air for a frame: its version 2 wire bytes,
/// if one LoRa packet holds them.
pub fn lora_transmit(packet: &MavFramePacket) -> (payload: Option<Vec<u8>>)
    ensures
        bytes_view(payload) == spec_lora_payload(mavlink_v2_bytes(packet@.header, packet@.msg)),
{
    lora_payload(serialize_frame(packet.clone()))
}

/// Whether the processed interrupt calls for reading the receive buffer: only
/// when the radio reports a completed operation.
pub fn reception_complete(target_irq_state: Option<TargetIrqState>) -> (complete: bool)
    ensures
        complete == (target_irq_state == Some(TargetIrqState::Done)),
{
    match target_irq_state {
        Some(TargetIrqState::Done) => true,
        _ => false,
    }
}

/// The frame of a completed reception, with its signal quality. `irq` is
/// what the radio reported for the reception interrupt, `None` for a radio
/// error; `buffer` is the receive buffer.
pub fn lora_receive(irq: Option<IrqState>, buffer: &[u8]) -> (received: Option<
    (MavFramePacket, PacketStatus),
>)
    ensures
        received.is_some() == spec_received_frame(irq, buffer@).is_some(),
        received matches Some(found) ==> {
            &&& Some(found.0@) == spec_received_frame(irq, buffer@)
            &&& Some(found.1) == spec_packet_status(irq)
        },
{
    match irq {
        Some(IrqState::RxDone(received_len, status)) => {
            let len = received_len as usize;
            if len <= buffer.len() {
                let received_data = vstd::slice::slice_subrange(buffer, 0, len);
                match deserialize_frame(received_data) {
                    Some(frame) => Some((frame, status)),
                    None => None,
                }
            } else {
                None
            }
        },
        _ => None,
    }
}

/// The frame of a completed reception as `lora_receive` gives it, with the
/// error record of a completed reception whose bytes hold no frame. The
/// record shows the received bytes, not the rest of the buffer. Any other
/// report of the radio is dropped without a record.
pub fn lora_receive_or_report(driver: &str, irq: Option<IrqState>, buffer: &[u8]) -> (decoded: (
    Option<(MavFramePacket, PacketStatus)>,
    Option<LogRecord>,
))
    ensures
        decoded.0.is_some() == spec_received_frame(irq, buffer@).is_some(),
        decoded.0 matches Some(found) ==> {
            &&& Some(found.0@) == spec_received_frame(irq, buffer@)
            &&& Some(found.1) == spec_packet_status(irq)
        },
        decoded.1.is_some() == (spec_received_bytes(irq, buffer@).is_some()
            && spec_received_frame(irq, buffer@).is_none()),
        decoded.1 matches Some(entry) ==> entry@.packet.is_some() && entry@ == (LogRecordView {
            error: Some(DESERIALIZE_ERROR@),
            packet: entry@.packet,
            ..spec_record(LogLevel::Error, NETWORK_TARGET@, driver@, PACKET_RECEIVE_ERROR_MSG@)
        }),
{
    match irq {
        Some(IrqState::RxDone(received_len, status)) => {
            let len = received_len as usize;
            if len <= buffer.len() {
                let received_data = vstd::slice::slice_subrange(buffer, 0, len);
                match deserialize_frame_or_report(driver, received_data) {
                    (Some(frame), _) => (Some((frame, status)), None),
                    (None, report) => (None, report),
                }
            } else {
                (None, None)
            }
        },
        _ => (None, None),
    }
}

/// The mode of the radio after an attempt to arm it for `target`: the target
/// mode if the radio did it, the mode before otherwise.
pub open spec fn spec_mode_after(before: RadioMode, target: RadioMode, link: LinkReport)
    -> RadioMode {
    match link {
        LinkReport::Done => target,
        LinkReport::Failed => before,
    }
}

/// The answer of a half-duplex driver to an attempt to arm its radio.
pub fn armed(link: LinkReport) -> (answer: Result<(), &'static str>)
    ensures
        answer.is_ok() == (link == LinkReport::Done),
        answer matches Err(error) ==> error@ == PREPARE_ERROR@,
{
    match link {
        LinkReport::Done => Ok(()),
        LinkReport::Failed => Err(PREPARE_ERROR),
    }
}

/// The answer of a half-duplex driver to the wait for the radio's interrupt.
pub fn interrupted(link: LinkReport) -> (answer: Result<(), &'static str>)
    ensures
        answer.is_ok() == (link == LinkReport::Done),
        answer matches Err(error) ==> error@ == WAIT_FOR_IRQ_ERROR@,
{
    match link {
        LinkReport::Done => Ok(()),
        LinkReport::Failed => Err(WAIT_FOR_IRQ_ERROR),
    }
}

/// The first LoRa driver of the relay: an SX1276 radio with the default
/// settings, every frame sent and received through the shared framing.
pub struct LoRaDriver {
    mode: RadioMode,
}

impl LoRaDriver {
    /// The mode that the driver has put its radio in.
    pub closed spec fn spec_mode(&self) -> RadioMode {
        self.mode
    }

    /// A driver whose radio is in standby.
    pub fn create_instance() -> (driver: Self)
        ensures
            driver.spec_mode() == RadioMode::Standby,
    {
        LoRaDriver { mode: RadioMode::Standby }
    }

    /// The tag of the driver in logs.
    pub fn identity(&self) -> (tag: String)
        ensures
            tag@ == LORA_DRIVER@,
    {
        LORA_DRIVER.to_owned()
    }

    /// The payload to transmit for a frame: its version 2 wire bytes, if one
    /// LoRa packet holds them.
    pub fn send(&self, packet_to_send: MavFramePacket) -> (payload: Option<Vec<u8>>)
        ensures
            bytes_view(payload) == spec_lora_payload(
                mavlink_v2_bytes(packet_to_send@.header, packet_to_send@.msg),
            ),
    {
        lora_transmit(&packet_to_send)
    }

    /// The frame in the bytes of a received packet.
    pub fn receive(&self, received: &[u8]) -> (packet: Option<MavFramePacket>)
        ensures
            packet_view(packet) == spec_deserialize_frame(received@),
    {
        deserialize_frame(received)
    }
}

} // verus!
