//! The driver of an SX1262 radio behind an E22 UART adapter.

use vstd::prelude::*;

use crate::driver::{Driver, LinkReport, LinkRole};
use crate::utils::logging_utils::{
    log_debug_receive_packet, log_packet_receive_error, log_undecoded, spec_record, LogLevel,
    LogRecord, LogRecordView, DESERIALIZE_ERROR, NETWORK_TARGET, PACKET_RECEIVE_ERROR_MSG,
    RECEIVE_PACKET_MSG,
};
use crate::utils::lora_serial::{
    spec_configuration_command, spec_frequency_offset, spec_send_frame, spec_start_frequency,
    AirSpeed, ChannelRssiError, PackageSize, PowerLevel, ReceiveResult, Sx1262UartE22,
    Sx1262UartE22View, RECEIVE_PREFIX_LEN,
};
use crate::utils::mavlink_utils::{
    bytes_view, deserialize_frame, mavlink_v2_bytes, packet_view, serialize_frame,
    spec_deserialize_frame,
};
use crate::utils::types::{MavFramePacket, MavFrameView};

verus! {

/// Tag of the SX1262 UART driver.
pub const LORA_SX1262_UART_DRIVER: &'static str = "lora_sx1262_uart_driver";

/// Serial port of the adapter.
pub const SERIAL_PORT: &'static str = "/dev/ttyS0";

/// Frequency of the link, in MHz.
pub const UART_LINK_FREQUENCY: u32 = 868;

/// Address of the peer: frames go to node 0.
pub const PEER_ADDRESS: u16 = 0;

/// Own address that the adapter is configured with.
pub const OWN_ADDRESS: u16 = 0;

/// Network id that the adapter is configured with.
pub const NETWORK_ID: u16 = 0xFFFF;

/// Settings of the SX1262 UART driver. There are none to choose.
#[derive(Debug, Clone, Copy, PartialEq, Eq, Structural)]
pub struct LoRaSx1262UartConfig {}

/// The SX1262 UART driver.
pub struct LoRaSx1262UartDriver {
    device: Sx1262UartE22,
    config: LoRaSx1262UartConfig,
}

/// The configuration command that the driver writes to a new adapter:
/// 868 MHz, own address 0, network id `FFFF`, 22 dBm, RSSI reporting on, an
/// air speed of 2400, packets of 240 bytes, no key.
pub open spec fn spec_driver_configuration_command() -> Seq<u8> {
    spec_configuration_command(
        UART_LINK_FREQUENCY,
        OWN_ADDRESS,
        NETWORK_ID,
        PowerLevel::Power22dBm,
        true,
        AirSpeed::Speed2400,
        PackageSize::Size240Byte,
        0,
    )
}

/// Error text of a reception whose channel RSSI could not be queried.
pub const RSSI_ERROR: &'static str = "Failed to get channel RSSI";

/// The state of the adapter of a new driver: the configured own address on
/// the link's band.
pub open spec fn spec_driver_adapter() -> Sx1262UartE22View {
    Sx1262UartE22View {
        addr: OWN_ADDRESS,
        start_freq: spec_start_frequency(UART_LINK_FREQUENCY),
        offset_freq: spec_frequency_offset(UART_LINK_FREQUENCY) as u16,
        ..Sx1262UartE22::spec_new()
    }
}

/// The bytes to write to the adapter for wire bytes of a frame: the frame
/// addressed to the peer on the link's frequency.
pub open spec fn spec_uart_frame(adapter: Sx1262UartE22View, bytes: Option<Seq<u8>>) -> Option<
    Seq<u8>,
> {
    match bytes {
        Some(payload) => Some(
            spec_send_frame(
                PEER_ADDRESS,
                UART_LINK_FREQUENCY,
                adapter.addr,
                adapter.offset_freq,
                payload,
            ),
        ),
        None => None,
    }
}

/// The frame in one read from the adapter: what follows the three leading
/// bytes is decoded; a shorter read holds nothing.
pub open spec fn spec_uart_received(r_buff: Seq<u8>) -> Option<MavFrameView> {
    if r_buff.len() >= RECEIVE_PREFIX_LEN {
        spec_deserialize_frame(r_buff.subrange(RECEIVE_PREFIX_LEN as int, r_buff.len() as int))
    } else {
        None
    }
}

impl LoRaSx1262UartDriver {
    /// The state of the driver's adapter.
    pub closed spec fn device(&self) -> Sx1262UartE22View {
        self.device@
    }

    /// A driver for a new adapter, with the configuration command to write
    /// to it.
    pub fn new(config: LoRaSx1262UartConfig) -> (made: (Self, Vec<u8>))
        ensures
            made.0.device() == spec_driver_adapter(),
            made.1@ == spec_driver_configuration_command(),
    {
        let mut lora = Sx1262UartE22::new();
        let command = lora.set(
            UART_LINK_FREQUENCY,
            OWN_ADDRESS,
            NETWORK_ID,
            PowerLevel::Power22dBm,
            true,
            AirSpeed::Speed2400,
            PackageSize::Size240Byte,
            0,
        );
        (LoRaSx1262UartDriver { device: lora, config }, command)
    }

    /// The frame in one read from the adapter, with the channel RSSI queried
    /// for it and the noise byte of the read.
    pub fn receive_with_status(&self, r_buff: &[u8], rssi: i16) -> (received: Option<
        (MavFramePacket, Option<i16>, Option<u8>),
    >)
        ensures
            received.is_some() == spec_uart_received(r_buff@).is_some(),
            received matches Some(found) ==> {
                &&& Some(found.0@) == spec_uart_received(r_buff@)
                &&& found.1 == Some(rssi)
                &&& found.2 == Some(r_buff@.last())
            },
    {
        match self.device.receive(r_buff, rssi) {
            Some(result) => {
                let ReceiveResult { data, rssi, snr } = result;
                match deserialize_frame(data.as_slice()) {
                    Some(frame) => Some((frame, rssi, snr)),
                    None => None,
                }
            },
            None => None,
        }
    }
}

impl LoRaSx1262UartDriver {
    /// The frame in one read from the adapter, given the outcome of the
    /// channel RSSI query made for it: the frame with the RSSI and the noise
    /// byte of the read, or nothing when the query failed, the read is too
    /// short, or the bytes behind the three leading ones hold no frame.
    pub fn receive_queried(
        &self,
        r_buff: &[u8],
        rssi: Result<i16, ChannelRssiError>,
    ) -> (received: Option<(MavFramePacket, Option<i16>, Option<u8>)>)
        ensures
            received.is_some() == (rssi.is_ok() && spec_uart_received(r_buff@).is_some()),
            received matches Some(found) ==> {
                &&& Some(found.0@) == spec_uart_received(r_buff@)
                &&& rssi == Ok::<i16, ChannelRssiError>(found.1.unwrap())
                &&& found.1.is_some()
                &&& found.2 == Some(r_buff@.last())
            },
    {
        match rssi {
            Ok(value) => self.receive_with_status(r_buff, value),
            Err(_) => None,
        }
    }

    /// The record of a received frame, at debug level, with the channel RSSI
    /// and the noise byte of the read.
    pub fn log_reception(
        &self,
        packet: &MavFramePacket,
        rssi: Option<i16>,
        noise: Option<u8>,
    ) -> (entry: LogRecord)
        ensures
            entry@.packet.is_some(),
            entry@ == (LogRecordView {
                packet: entry@.packet,
                rssi,
                snr: match noise {
                    Some(level) => Some(level as i16),
                    None => None,
                },
                ..spec_record(
                    LogLevel::Debug,
                    NETWORK_TARGET@,
                    LORA_SX1262_UART_DRIVER@,
                    RECEIVE_PACKET_MSG@,
                )
            }),
    {
        let snr = match noise {
            Some(level) => Some(level as i16),
            None => None,
        };
        log_debug_receive_packet(LORA_SX1262_UART_DRIVER, packet, rssi, snr)
    }

    /// The frame in one read from the adapter as `receive_queried` gives it,
    /// with the error record of a read that held a packet and yielded no
    /// frame: the failed RSSI query, or else the bytes that could not be
    /// decoded. A read too short to hold a packet is dropped without a
    /// record.
    pub fn receive_or_report(
        &self,
        r_buff: &[u8],
        rssi: Result<i16, ChannelRssiError>,
    ) -> (decoded: (Option<(MavFramePacket, Option<i16>, Option<u8>)>, Option<LogRecord>))
        ensures
            decoded.0.is_some() == (rssi.is_ok() && spec_uart_received(r_buff@).is_some()),
            decoded.0 matches Some(found) ==> {
                &&& Some(found.0@) == spec_uart_received(r_buff@)
                &&& rssi == Ok::<i16, ChannelRssiError>(found.1.unwrap())
                &&& found.1.is_some()
                &&& found.2 == Some(r_buff@.last())
            },
            decoded.1.is_some() == (decoded.0.is_none() && r_buff@.len() >= RECEIVE_PREFIX_LEN),
            decoded.1 matches Some(entry) ==> {
                &&& rssi.is_err() ==> entry@ == (LogRecordView {
                    error: Some(RSSI_ERROR@),
                    ..spec_record(
                        LogLevel::Error,
                        NETWORK_TARGET@,
                        LORA_SX1262_UART_DRIVER@,
                        PACKET_RECEIVE_ERROR_MSG@,
                    )
                })
                &&& rssi.is_ok() ==> entry@.packet.is_some() && entry@ == (LogRecordView {
                    error: Some(DESERIALIZE_ERROR@),
                    packet: entry@.packet,
                    ..spec_record(
                        LogLevel::Error,
                        NETWORK_TARGET@,
                        LORA_SX1262_UART_DRIVER@,
                        PACKET_RECEIVE_ERROR_MSG@,
                    )
                })
            },
    {
        let len = r_buff.len();
        if len < RECEIVE_PREFIX_LEN {
            return (None, None);
        }
        match rssi {
            Ok(value) => match self.receive_with_status(r_buff, value) {
                Some(found) => (Some(found), None),
                None => {
                    let payload = vstd::slice::slice_subrange(r_buff, RECEIVE_PREFIX_LEN, len);
                    (None, Some(log_undecoded(LORA_SX1262_UART_DRIVER, payload)))
                },
            },
            Err(_) => (None, Some(log_packet_receive_error(LORA_SX1262_UART_DRIVER, RSSI_ERROR))),
        }
    }
}

impl Driver<MavFramePacket> for LoRaSx1262UartDriver {
    open spec fn spec_link_role(&self) -> LinkRole {
        LinkRole::HalfDuplex
    }

    fn link_role(&self) -> (role: LinkRole) {
        LinkRole::HalfDuplex
    }

    fn identity(&self) -> (tag: String)
        ensures
            tag@ == LORA_SX1262_UART_DRIVER@,
    {
        LORA_SX1262_UART_DRIVER.to_owned()
    }

    /// The bytes to write to the adapter for a frame: its version 2 wire
    /// bytes behind the addresses and frequency offsets of peer and self.
    fn send(&self, packet: &MavFramePacket) -> (data: Option<Vec<u8>>)
        ensures
            bytes_view(data) == spec_uart_frame(
                self.device(),
                mavlink_v2_bytes(packet@.header, packet@.msg),
            ),
    {
        match serialize_frame(packet.clone()) {
            Some(serialised_frame) => Some(
                self.device.send(PEER_ADDRESS, UART_LINK_FREQUENCY, &serialised_frame),
            ),
            None => None,
        }
    }

    /// The frame in one read from the adapter.
    fn receive(&self, received: &[u8]) -> (packet: Option<MavFramePacket>)
        ensures
            packet_view(packet) == spec_uart_received(received@),
    {
        match self.receive_with_status(received, 0) {
            Some(found) => Some(found.0),
            None => None,
        }
    }

    /// The adapter switches between listening and transmitting by itself:
    /// there is nothing to arm.
    fn prepare_to_receive(&mut self, link: LinkReport) -> (armed: Result<(), &'static str>)
        ensures
            armed.is_ok(),
            final(self).device() == old(self).device(),
    {
        Ok(())
    }

    /// The adapter switches between listening and transmitting by itself:
    /// there is nothing to arm.
    fn prepare_to_send(&mut self, link: LinkReport) -> (armed: Result<(), &'static str>)
        ensures
            armed.is_ok(),
            final(self).device() == old(self).device(),
    {
        Ok(())
    }

    /// A read from the adapter needs no interrupt: the driver is always
    /// ready.
    fn ready_to_receive(&self, link: LinkReport) -> (ready: Result<(), &'static str>)
        ensures
            ready.is_ok(),
    {
        Ok(())
    }
}

} // verus!
