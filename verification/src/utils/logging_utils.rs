//! The log records of the relay. Each function builds the record of one
//! event; the caller hands it to whatever writes the log.

use std::fmt::Debug;

use vstd::prelude::*;

use crate::driver::{LinkReport, PREPARE_ERROR};
use crate::network::bridge::BridgeLog;
use crate::network::NetworkLog;
use crate::utils::lora_types::PacketStatus;
use crate::utils::mavlink_utils::{deserialize_frame, packet_view, spec_deserialize_frame};
use crate::utils::types::MavFramePacket;

verus! {

/// Severity of a log record.
#[derive(Debug, Clone, Copy, PartialEq, Eq, Structural)]
pub enum LogLevel {
    Debug,
    Info,
    Error,
}

/// Target of the records of the network layer.
pub const NETWORK_TARGET: &'static str = "network";

/// Target of the records of the bridge.
pub const MAIN_TARGET: &'static str = "main";

pub const PACKET_TRANSMIT_ERROR_MSG: &'static str = "Packet transmit failed";

pub const PACKET_RECEIVE_ERROR_MSG: &'static str = "Packet receive failed";

pub const SEND_PACKET_MSG: &'static str = "Sending packet";

pub const RECEIVE_PACKET_MSG: &'static str = "Received packet";

pub const DRIVER_CREATION_MSG: &'static str = "Driver instance created";

pub const TRANSMIT_INITIATED_MSG: &'static str = "Transmit initiated";

pub const LISTEN_INITIATED_MSG: &'static str = "Listen initiated";

pub const TRANSMIT_ERROR_MSG: &'static str = "Transmit error";

pub const SEND_TO_MAIN_MSG: &'static str = "Send to main";

pub const SEND_TO_NETWORK_MSG: &'static str = "Send to network";

pub const NETWORK_INTERFACE_CREATION_MSG: &'static str = "Network interface created";

pub const NETWORK_INTERFACE_RUNNING_MSG: &'static str = "Running network interface";

/// Message of the record of a frame dropped on a full inbound channel.
pub const CHANNEL_FULL_MSG: &'static str = "Send channel is full, dropping packet.";

/// Error text of a frame that the link did not transmit.
pub const LINK_ERROR: &'static str = "Radio error";

/// Error text of received bytes that hold no frame.
pub const DESERIALIZE_ERROR: &'static str = "Failed to deserialize mavlink frame";

/// Error text of a frame that the sink of a forwarding task did not take.
pub const FORWARD_ERROR: &'static str = "Outbound channel is closed, dropping packet.";

/// One log record.
#[derive(Debug)]
pub struct LogRecord {
    /// Severity.
    pub level: LogLevel,
    /// Part of the relay that the record belongs to.
    pub target: String,
    /// Identity of the driver that the record is about.
    pub driver: String,
    /// Message of the record.
    pub message: String,
    /// Error text, where the record reports an error.
    pub error: Option<String>,
    /// The packet that the record is about, as debug text.
    pub packet: Option<String>,
    /// Signal strength of a reception.
    pub rssi: Option<i16>,
    /// Signal-to-noise ratio of a reception.
    pub snr: Option<i16>,
    /// Number of bytes on the wire.
    pub size: Option<usize>,
    /// Address of the other end.
    pub peer: Option<String>,
    /// Id of the message in the packet.
    pub message_id: Option<u32>,
    /// Sequence number of the packet.
    pub message_seq: Option<u8>,
}

/// Mathematical value of a [`LogRecord`].
pub struct LogRecordView {
    pub level: LogLevel,
    pub target: Seq<char>,
    pub driver: Seq<char>,
    pub message: Seq<char>,
    pub error: Option<Seq<char>>,
    pub packet: Option<Seq<char>>,
    pub rssi: Option<i16>,
    pub snr: Option<i16>,
    pub size: Option<usize>,
    pub peer: Option<Seq<char>>,
    pub message_id: Option<u32>,
    pub message_seq: Option<u8>,
}

/// The text of an optional string, as a mathematical value.
pub open spec fn text_view(text: Option<String>) -> Option<Seq<char>> {
    match text {
        Some(s) => Some(s@),
        None => None,
    }
}

impl View for LogRecord {
    type V = LogRecordView;

    open spec fn view(&self) -> LogRecordView {
        LogRecordView {
            level: self.level,
            target: self.target@,
            driver: self.driver@,
            message: self.message@,
            error: text_view(self.error),
            packet: text_view(self.packet),
            rssi: self.rssi,
            snr: self.snr,
            size: self.size,
            peer: text_view(self.peer),
            message_id: self.message_id,
            message_seq: self.message_seq,
        }
    }
}

/// A record that carries a message about a driver and nothing else.
pub open spec fn spec_record(
    level: LogLevel,
    target: Seq<char>,
    driver: Seq<char>,
    message: Seq<char>,
) -> LogRecordView {
    LogRecordView {
        level,
        target,
        driver,
        message,
        error: None,
        packet: None,
        rssi: None,
        snr: None,
        size: None,
        peer: None,
        message_id: None,
        message_seq: None,
    }
}

/// The text of an optional string slice, as a mathematical value.
pub open spec fn str_view(text: Option<&str>) -> Option<Seq<char>> {
    match text {
        Some(s) => Some(s@),
        None => None,
    }
}

/// Formats a value with its `Debug` implementation (`format!("{:?}", ..)`).
/// Nothing is claimed of the text.
#[verifier::external_body]
fn debug_text<T: Debug>(value: &T) -> (text: String) {
    format!("{:?}", value)
}

fn record(level: LogLevel, target: &str, driver: &str, message: &str) -> (record: LogRecord)
    ensures
        record@ == spec_record(level, target@, driver@, message@),
{
    LogRecord {
        level,
        target: target.to_owned(),
        driver: driver.to_owned(),
        message: message.to_owned(),
        error: None,
        packet: None,
        rssi: None,
        snr: None,
        size: None,
        peer: None,
        message_id: None,
        message_seq: None,
    }
}

/// Record of a packet on the wire, at info level: its size, the address of
/// the other end where there is one, and the message id and sequence number
/// of the frame.
fn wire_record(
    size: usize,
    peer: Option<&str>,
    frame: &MavFramePacket,
    driver: &str,
    message: &str,
) -> (entry: LogRecord)
    ensures
        entry@ == (LogRecordView {
            size: Some(size),
            peer: str_view(peer),
            message_id: Some(frame@.msg.message_id),
            message_seq: Some(frame@.header.sequence),
            ..spec_record(LogLevel::Info, NETWORK_TARGET@, driver@, message@)
        }),
{
    let mut entry = record(LogLevel::Info, NETWORK_TARGET, driver, message);
    entry.size = Some(size);
    entry.peer = match peer {
        Some(addr) => Some(addr.to_owned()),
        None => None,
    };
    entry.message_id = Some(frame.msg.message_id);
    entry.message_seq = Some(frame.header.sequence);
    entry
}

/// Record of a packet that arrived, at info level: its size, the address it
/// came from where the link knows one, and the message id and sequence
/// number of its frame.
pub fn log_packet_received(
    size: usize,
    src_addr: Option<&str>,
    mavlink_frame: &MavFramePacket,
    driver: &str,
) -> (entry: LogRecord)
    ensures
        entry@ == (LogRecordView {
            size: Some(size),
            peer: str_view(src_addr),
            message_id: Some(mavlink_frame@.msg.message_id),
            message_seq: Some(mavlink_frame@.header.sequence),
            ..spec_record(LogLevel::Info, NETWORK_TARGET@, driver@, RECEIVE_PACKET_MSG@)
        }),
{
    wire_record(size, src_addr, mavlink_frame, driver, RECEIVE_PACKET_MSG)
}

/// Record of a packet that goes out, at info level: its size, the address it
/// goes to where the link has one, and the message id and sequence number of
/// its frame.
pub fn log_packet_sent(
    size: usize,
    dest_addr: Option<&str>,
    packet: &MavFramePacket,
    driver: &str,
) -> (entry: LogRecord)
    ensures
        entry@ == (LogRecordView {
            size: Some(size),
            peer: str_view(dest_addr),
            message_id: Some(packet@.msg.message_id),
            message_seq: Some(packet@.header.sequence),
            ..spec_record(LogLevel::Info, NETWORK_TARGET@, driver@, SEND_PACKET_MSG@)
        }),
{
    wire_record(size, dest_addr, packet, driver, SEND_PACKET_MSG)
}

/// Record of a failed transmission of a packet whose debug text is given.
pub fn packet_transmit_error_record(driver: &str, packet: String, error: &str) -> (entry: LogRecord)
    ensures
        entry@ == (LogRecordView {
            error: Some(error@),
            packet: Some(packet@),
            ..spec_record(LogLevel::Error, NETWORK_TARGET@, driver@, PACKET_TRANSMIT_ERROR_MSG@)
        }),
{
    let mut entry = record(LogLevel::Error, NETWORK_TARGET, driver, PACKET_TRANSMIT_ERROR_MSG);
    entry.error = Some(error.to_owned());
    entry.packet = Some(packet);
    entry
}

/// Record of a failed transmission of a packet, at error level. The packet
/// appears as its debug text.
pub fn log_packet_transmit_error<Packet: Debug>(
    driver: &str,
    packet: &Packet,
    error: &str,
) -> (entry: LogRecord)
    ensures
        entry@.packet.is_some(),
        entry@ == (LogRecordView {
            error: Some(error@),
            packet: entry@.packet,
            ..spec_record(LogLevel::Error, NETWORK_TARGET@, driver@, PACKET_TRANSMIT_ERROR_MSG@)
        }),
{
    packet_transmit_error_record(driver, debug_text(packet), error)
}

/// Record of a failed reception, at error level.
pub fn log_packet_receive_error(driver: &str, error: &str) -> (entry: LogRecord)
    ensures
        entry@ == (LogRecordView {
            error: Some(error@),
            ..spec_record(LogLevel::Error, NETWORK_TARGET@, driver@, PACKET_RECEIVE_ERROR_MSG@)
        }),
{
    let mut entry = record(LogLevel::Error, NETWORK_TARGET, driver, PACKET_RECEIVE_ERROR_MSG);
    entry.error = Some(error.to_owned());
    entry
}

/// Record of a packet about to be sent, whose debug text is given.
pub fn send_packet_record(driver: &str, packet: String) -> (entry: LogRecord)
    ensures
        entry@ == (LogRecordView {
            packet: Some(packet@),
            ..spec_record(LogLevel::Debug, NETWORK_TARGET@, driver@, SEND_PACKET_MSG@)
        }),
{
    let mut entry = record(LogLevel::Debug, NETWORK_TARGET, driver, SEND_PACKET_MSG);
    entry.packet = Some(packet);
    entry
}

/// Record of a packet about to be sent, at debug level. The packet appears
/// as its debug text.
pub fn log_debug_send_packet<Packet: Debug>(driver: &str, packet: &Packet) -> (entry: LogRecord)
    ensures
        entry@.packet.is_some(),
        entry@ == (LogRecordView {
            packet: entry@.packet,
            ..spec_record(LogLevel::Debug, NETWORK_TARGET@, driver@, SEND_PACKET_MSG@)
        }),
{
    send_packet_record(driver, debug_text(packet))
}

/// Record of a received packet whose debug text is given, with the signal
/// strength and signal-to-noise ratio where the link reports them.
pub fn receive_packet_record(
    driver: &str,
    packet: String,
    rssi: Option<i16>,
    snr: Option<i16>,
) -> (entry: LogRecord)
    ensures
        entry@ == (LogRecordView {
            packet: Some(packet@),
            rssi,
            snr,
            ..spec_record(LogLevel::Debug, NETWORK_TARGET@, driver@, RECEIVE_PACKET_MSG@)
        }),
{
    let mut entry = record(LogLevel::Debug, NETWORK_TARGET, driver, RECEIVE_PACKET_MSG);
    entry.packet = Some(packet);
    entry.rssi = rssi;
    entry.snr = snr;
    entry
}

/// Record of a received packet, at debug level. The packet appears as its
/// debug text.
pub fn log_debug_receive_packet<Packet: Debug>(
    driver: &str,
    packet: &Packet,
    rssi: Option<i16>,
    snr: Option<i16>,
) -> (entry: LogRecord)
    ensures
        entry@.packet.is_some(),
        entry@ == (LogRecordView {
            packet: entry@.packet,
            rssi,
            snr,
            ..spec_record(LogLevel::Debug, NETWORK_TARGET@, driver@, RECEIVE_PACKET_MSG@)
        }),
{
    receive_packet_record(driver, debug_text(packet), rssi, snr)
}

/// Record of the creation of a driver, at debug level.
pub fn log_driver_creation(driver: &str) -> (entry: LogRecord)
    ensures
        entry@ == spec_record(LogLevel::Debug, NETWORK_TARGET@, driver@, DRIVER_CREATION_MSG@),
{
    record(LogLevel::Debug, NETWORK_TARGET, driver, DRIVER_CREATION_MSG)
}

/// Record of the start of a transmission, at info level.
pub fn log_transmit_initiated(driver: &str) -> (entry: LogRecord)
    ensures
        entry@ == spec_record(LogLevel::Info, NETWORK_TARGET@, driver@, TRANSMIT_INITIATED_MSG@),
{
    record(LogLevel::Info, NETWORK_TARGET, driver, TRANSMIT_INITIATED_MSG)
}

/// Record of the start of listening, at info level.
pub fn log_listen_initiated(driver: &str) -> (entry: LogRecord)
    ensures
        entry@ == spec_record(LogLevel::Info, NETWORK_TARGET@, driver@, LISTEN_INITIATED_MSG@),
{
    record(LogLevel::Info, NETWORK_TARGET, driver, LISTEN_INITIATED_MSG)
}

/// Record of an error during transmission, at error level.
pub fn log_transmit_error(driver: &str, error: &str) -> (entry: LogRecord)
    ensures
        entry@ == (LogRecordView {
            error: Some(error@),
            ..spec_record(LogLevel::Error, NETWORK_TARGET@, driver@, TRANSMIT_ERROR_MSG@)
        }),
{
    let mut entry = record(LogLevel::Error, NETWORK_TARGET, driver, TRANSMIT_ERROR_MSG);
    entry.error = Some(error.to_owned());
    entry
}

/// Record of a frame handed to the inbound channel, at debug level.
pub fn log_debug_send_to_main(driver: &str) -> (entry: LogRecord)
    ensures
        entry@ == spec_record(LogLevel::Debug, NETWORK_TARGET@, driver@, SEND_TO_MAIN_MSG@),
{
    record(LogLevel::Debug, NETWORK_TARGET, driver, SEND_TO_MAIN_MSG)
}

/// Record of a frame handed to a network interface by the bridge, at debug
/// level.
pub fn log_debug_send_to_network(driver: &str) -> (entry: LogRecord)
    ensures
        entry@ == spec_record(LogLevel::Debug, MAIN_TARGET@, driver@, SEND_TO_NETWORK_MSG@),
{
    record(LogLevel::Debug, MAIN_TARGET, driver, SEND_TO_NETWORK_MSG)
}

/// Record of the creation of a network interface, at debug level.
pub fn log_network_interface_creation(driver: &str) -> (entry: LogRecord)
    ensures
        entry@ == spec_record(
            LogLevel::Debug,
            NETWORK_TARGET@,
            driver@,
            NETWORK_INTERFACE_CREATION_MSG@,
        ),
{
    record(LogLevel::Debug, NETWORK_TARGET, driver, NETWORK_INTERFACE_CREATION_MSG)
}

/// Record of a network interface that starts to run, at info level.
pub fn log_network_interface_running(driver: &str) -> (entry: LogRecord)
    ensures
        entry@ == spec_record(
            LogLevel::Info,
            NETWORK_TARGET@,
            driver@,
            NETWORK_INTERFACE_RUNNING_MSG@,
        ),
{
    record(LogLevel::Info, NETWORK_TARGET, driver, NETWORK_INTERFACE_RUNNING_MSG)
}

/// The record of a report of a network loop about the driver `driver`.
pub open spec fn spec_network_record(log: NetworkLog, driver: Seq<char>) -> LogRecordView {
    match log {
        NetworkLog::SentToMain => spec_record(
            LogLevel::Debug,
            NETWORK_TARGET@,
            driver,
            SEND_TO_MAIN_MSG@,
        ),
        NetworkLog::InboundFull => spec_record(
            LogLevel::Error,
            NETWORK_TARGET@,
            driver,
            CHANNEL_FULL_MSG@,
        ),
        NetworkLog::NothingReceived => spec_record(
            LogLevel::Debug,
            NETWORK_TARGET@,
            driver,
            PACKET_RECEIVE_ERROR_MSG@,
        ),
        NetworkLog::ReceiveNotPrepared => LogRecordView {
            error: Some(PREPARE_ERROR@),
            ..spec_record(LogLevel::Error, NETWORK_TARGET@, driver, PACKET_RECEIVE_ERROR_MSG@)
        },
        NetworkLog::SendNotPrepared => LogRecordView {
            error: Some(PREPARE_ERROR@),
            ..spec_record(LogLevel::Error, NETWORK_TARGET@, driver, TRANSMIT_ERROR_MSG@)
        },
    }
}

/// Builds the record of a report of a network loop: a debug trace for a
/// frame handed on and for a reception without a frame, one error for a
/// frame dropped on a full channel, and an error for a driver that could not
/// be armed.
pub fn log_network(log: NetworkLog, driver: &str) -> (entry: LogRecord)
    ensures
        entry@ == spec_network_record(log, driver@),
{
    match log {
        NetworkLog::SentToMain => log_debug_send_to_main(driver),
        NetworkLog::InboundFull => record(
            LogLevel::Error,
            NETWORK_TARGET,
            driver,
            CHANNEL_FULL_MSG,
        ),
        NetworkLog::NothingReceived => record(
            LogLevel::Debug,
            NETWORK_TARGET,
            driver,
            PACKET_RECEIVE_ERROR_MSG,
        ),
        NetworkLog::ReceiveNotPrepared => log_packet_receive_error(driver, PREPARE_ERROR),
        NetworkLog::SendNotPrepared => log_transmit_error(driver, PREPARE_ERROR),
    }
}

/// The record of a report of a forwarding task towards the driver `driver`.
pub open spec fn spec_bridge_record(log: BridgeLog, driver: Seq<char>) -> LogRecordView {
    match log {
        BridgeLog::SendToNetwork => spec_record(
            LogLevel::Debug,
            MAIN_TARGET@,
            driver,
            SEND_TO_NETWORK_MSG@,
        ),
        BridgeLog::ForwardFailed => LogRecordView {
            error: Some(FORWARD_ERROR@),
            ..spec_record(LogLevel::Error, NETWORK_TARGET@, driver, TRANSMIT_ERROR_MSG@)
        },
    }
}

/// Builds the record of a report of a forwarding task.
pub fn log_bridge(log: BridgeLog, driver: &str) -> (entry: LogRecord)
    ensures
        entry@ == spec_bridge_record(log, driver@),
{
    match log {
        BridgeLog::SendToNetwork => log_debug_send_to_network(driver),
        BridgeLog::ForwardFailed => log_transmit_error(driver, FORWARD_ERROR),
    }
}

/// Builds the record of a send once the link has answered: a debug trace of
/// the frame when it went out, an error with the frame when the link failed.
/// The error goes no further than the log.
pub fn log_send_outcome(
    driver: &str,
    packet: &MavFramePacket,
    link: LinkReport,
) -> (entry: LogRecord)
    ensures
        entry@.packet.is_some(),
        link == LinkReport::Done ==> entry@ == (LogRecordView {
            packet: entry@.packet,
            ..spec_record(LogLevel::Debug, NETWORK_TARGET@, driver@, SEND_PACKET_MSG@)
        }),
        link == LinkReport::Failed ==> entry@ == (LogRecordView {
            error: Some(LINK_ERROR@),
            packet: entry@.packet,
            ..spec_record(LogLevel::Error, NETWORK_TARGET@, driver@, PACKET_TRANSMIT_ERROR_MSG@)
        }),
{
    match link {
        LinkReport::Done => log_debug_send_packet(driver, packet),
        LinkReport::Failed => log_packet_transmit_error(driver, packet, LINK_ERROR),
    }
}

/// Builds the record of a received frame, at debug level, with the signal
/// quality where the link reports it.
pub fn log_received(
    driver: &str,
    packet: &MavFramePacket,
    status: Option<PacketStatus>,
) -> (entry: LogRecord)
    ensures
        entry@.packet.is_some(),
        entry@ == (LogRecordView {
            packet: entry@.packet,
            rssi: match status {
                Some(quality) => Some(quality.rssi),
                None => None,
            },
            snr: match status {
                Some(quality) => Some(quality.snr),
                None => None,
            },
            ..spec_record(LogLevel::Debug, NETWORK_TARGET@, driver@, RECEIVE_PACKET_MSG@)
        }),
{
    match status {
        Some(quality) => log_debug_receive_packet(
            driver,
            packet,
            Some(quality.rssi),
            Some(quality.snr),
        ),
        None => log_debug_receive_packet(driver, packet, None, None),
    }
}

/// Builds the record of received bytes that hold no frame, at error level.
/// The raw bytes appear as their debug text.
pub fn log_undecoded(driver: &str, received: &[u8]) -> (entry: LogRecord)
    ensures
        entry@.packet.is_some(),
        entry@ == (LogRecordView {
            error: Some(DESERIALIZE_ERROR@),
            packet: entry@.packet,
            ..spec_record(LogLevel::Error, NETWORK_TARGET@, driver@, PACKET_RECEIVE_ERROR_MSG@)
        }),
{
    let mut entry = log_packet_receive_error(driver, DESERIALIZE_ERROR);
    entry.packet = Some(debug_text(&received));
    entry
}

/// Decodes one frame from `buffer` as `deserialize_frame` does, and builds
/// the error record of the raw bytes when they hold no frame.
pub fn deserialize_frame_or_report(driver: &str, buffer: &[u8]) -> (decoded: (
    Option<MavFramePacket>,
    Option<LogRecord>,
))
    ensures
        packet_view(decoded.0) == spec_deserialize_frame(buffer@),
        decoded.1.is_some() == decoded.0.is_none(),
        decoded.1 matches Some(entry) ==> entry@.packet.is_some() && entry@ == (LogRecordView {
            error: Some(DESERIALIZE_ERROR@),
            packet: entry@.packet,
            ..spec_record(LogLevel::Error, NETWORK_TARGET@, driver@, PACKET_RECEIVE_ERROR_MSG@)
        }),
{
    match deserialize_frame(buffer) {
        Some(frame) => (Some(frame), None),
        None => (None, Some(log_undecoded(driver, buffer))),
    }
}

} // verus!
