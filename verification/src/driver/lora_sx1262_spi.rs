//! The half-duplex driver of an SX1262 radio on SPI.

use vstd::prelude::*;

use crate::driver::lora_driver::{
    armed, interrupted, lora_receive, lora_receive_or_report, lora_transmit, spec_lora_payload,
    spec_mode_after, spec_packet_status, spec_received_bytes, spec_received_frame,
};
use crate::driver::{Driver, LinkReport, LinkRole, PREPARE_ERROR, WAIT_FOR_IRQ_ERROR};
use crate::utils::logging_utils::{
    log_debug_receive_packet, spec_record, LogLevel, LogRecord, LogRecordView,
    DESERIALIZE_ERROR, NETWORK_TARGET, PACKET_RECEIVE_ERROR_MSG, RECEIVE_PACKET_MSG,
};
use crate::utils::lora_types::{
    Bandwidth, CodingRate, IrqState, ModulationParams, PacketParams, PacketStatus, RadioMode,
    SpreadingFactor, LORA_FREQUENCY_IN_HZ,
};
use crate::utils::mavlink_utils::{
    bytes_view, deserialize_frame, mavlink_v2_bytes, packet_view, spec_deserialize_frame,
};
use crate::utils::types::MavFramePacket;

verus! {

/// Tag of the SX1262 SPI driver.
pub const LORA_SX1262_SPI_DRIVER: &'static str = "lora_sx1262_spi_driver";

/// Transmission power of the SX1262 driver, in dBm.
pub const SX1262_TX_POWER: i32 = 12;

/// Whether the SX1262 driver boosts its transmission.
pub const SX1262_TX_BOOST: bool = true;

/// What the driver configures its radio with.
#[derive(Debug, Clone, Copy, PartialEq, Eq, Structural)]
pub struct LoRaSx1262SpiConfig {
    pub mdltn_params: ModulationParams,
    pub rx_pkt_params: PacketParams,
    pub tx_pkt_params: PacketParams,
}

/// The configuration of every SX1262 driver: SF7, 250 kHz, coding rate 4/5
/// at the family's default frequency, a preamble of 4 symbols, explicit
/// header, CRC on, IQ not inverted, and receptions of up to 255 bytes.
pub open spec fn spec_sx1262_config() -> LoRaSx1262SpiConfig {
    LoRaSx1262SpiConfig {
        mdltn_params: ModulationParams {
            spreading_factor: SpreadingFactor::_7,
            bandwidth: Bandwidth::_250KHz,
            coding_rate: CodingRate::_4_5,
            frequency_in_hz: LORA_FREQUENCY_IN_HZ,
        },
        rx_pkt_params: PacketParams {
            preamble_length: 4,
            implicit_header: false,
            payload_length: 255,
            crc_on: true,
            iq_inverted: false,
        },
        tx_pkt_params: PacketParams {
            preamble_length: 4,
            implicit_header: false,
            payload_length: 0,
            crc_on: true,
            iq_inverted: false,
        },
    }
}

/// The SX1262 SPI driver.
pub struct LoRaSx1262SpiDriver {
    config: LoRaSx1262SpiConfig,
    mode: RadioMode,
}

impl LoRaSx1262SpiDriver {
    /// The radio configuration of the driver. It never changes.
    pub closed spec fn spec_config(&self) -> LoRaSx1262SpiConfig {
        self.config
    }

    /// The mode that the driver has put its radio in.
    pub closed spec fn spec_mode(&self) -> RadioMode {
        self.mode
    }

    /// A driver with the family's configuration, its radio in standby. A
    /// configuration handed in is not looked at.
    pub fn new(_config: Option<LoRaSx1262SpiConfig>) -> (driver: Self)
        ensures
            driver.spec_config() == spec_sx1262_config(),
            driver.spec_mode() == RadioMode::Standby,
    {
        let mdltn_params = ModulationParams {
            spreading_factor: SpreadingFactor::_7,
            bandwidth: Bandwidth::_250KHz,
            coding_rate: CodingRate::_4_5,
            frequency_in_hz: LORA_FREQUENCY_IN_HZ,
        };
        let rx_pkt_params = PacketParams {
            preamble_length: 4,
            implicit_header: false,
            payload_length: 255,
            crc_on: true,
            iq_inverted: false,
        };
        let tx_pkt_params = PacketParams {
            preamble_length: 4,
            implicit_header: false,
            payload_length: 0,
            crc_on: true,
            iq_inverted: false,
        };
        LoRaSx1262SpiDriver {
            config: LoRaSx1262SpiConfig { mdltn_params, rx_pkt_params, tx_pkt_params },
            mode: RadioMode::Standby,
        }
    }

    /// The radio configuration of the driver.
    pub fn config(&self) -> (config: LoRaSx1262SpiConfig)
        ensures
            config == self.spec_config(),
    {
        self.config
    }

    /// The mode that the driver has put its radio in.
    pub fn mode(&self) -> (mode: RadioMode)
        ensures
            mode == self.spec_mode(),
    {
        self.mode
    }

    /// The frame of a completed reception, with its signal strength and
    /// signal-to-noise ratio. `irq` is what the radio reported for the
    /// reception interrupt, `None` for a radio error; `buffer` is the receive
    /// buffer.
    pub fn process_rx_irq(&self, irq: Option<IrqState>, buffer: &[u8]) -> (received: Option<
        (MavFramePacket, PacketStatus),
    >)
        ensures
            received.is_some() == spec_received_frame(irq, buffer@).is_some(),
            received matches Some(found) ==> {
                &&& Some(found.0@) == spec_received_frame(irq, buffer@)
                &&& Some(found.1) == spec_packet_status(irq)
            },
    {
        lora_receive(irq, buffer)
    }

    /// The frame of a completed reception as `process_rx_irq` gives it, with
    /// the error record of a completed reception whose bytes hold no frame.
    pub fn process_rx_irq_or_report(&self, irq: Option<IrqState>, buffer: &[u8]) -> (decoded: (
        Option<(MavFramePacket, PacketStatus)>,
        Option<LogRecord>,
    ))
        ensures
            decoded.0.is_some() == spec_received_frame(irq, buffer@).is_some(),
            decoded.0 matches Some(found) ==> {
                &&& Some(found.0@) == spec_received_frame(irq, buffer@)
                &&& Some(found.1) == spec_packet_status(irq)
            },
            decoded.1.is_some() == (spec_received_bytes(irq, buffer@).is_some()
                && spec_received_frame(irq, buffer@).is_none()),
            decoded.1 matches Some(entry) ==> entry@.packet.is_some() && entry@ == (LogRecordView {
                error: Some(DESERIALIZE_ERROR@),
                packet: entry@.packet,
                ..spec_record(
                    LogLevel::Error,
                    NETWORK_TARGET@,
                    LORA_SX1262_SPI_DRIVER@,
                    PACKET_RECEIVE_ERROR_MSG@,
                )
            }),
    {
        lora_receive_or_report(LORA_SX1262_SPI_DRIVER, irq, buffer)
    }

    /// The record of a received frame, at debug level, with the signal
    /// strength and the signal-to-noise ratio of the reception.
    pub fn log_reception(&self, packet: &MavFramePacket, status: PacketStatus) -> (entry: LogRecord)
        ensures
            entry@.packet.is_some(),
            entry@ == (LogRecordView {
                packet: entry@.packet,
                rssi: Some(status.rssi),
                snr: Some(status.snr),
                ..spec_record(
                    LogLevel::Debug,
                    NETWORK_TARGET@,
                    LORA_SX1262_SPI_DRIVER@,
                    RECEIVE_PACKET_MSG@,
                )
            }),
    {
        log_debug_receive_packet(
            LORA_SX1262_SPI_DRIVER,
            packet,
            Some(status.rssi),
            Some(status.snr),
        )
    }
}

impl Driver<MavFramePacket> for LoRaSx1262SpiDriver {
    open spec fn spec_link_role(&self) -> LinkRole {
        LinkRole::HalfDuplex
    }

    fn link_role(&self) -> (role: LinkRole) {
        LinkRole::HalfDuplex
    }

    fn identity(&self) -> (tag: String)
        ensures
            tag@ == LORA_SX1262_SPI_DRIVER@,
    {
        LORA_SX1262_SPI_DRIVER.to_owned()
    }

    /// The payload to transmit for a frame: its version 2 wire bytes, if one
    /// LoRa packet holds them.
    fn send(&self, packet: &MavFramePacket) -> (payload: Option<Vec<u8>>)
        ensures
            bytes_view(payload) == spec_lora_payload(
                mavlink_v2_bytes(packet@.header, packet@.msg),
            ),
    {
        lora_transmit(packet)
    }

    /// The frame in the bytes of a received packet.
    fn receive(&self, received: &[u8]) -> (packet: Option<MavFramePacket>)
        ensures
            packet_view(packet) == spec_deserialize_frame(received@),
    {
        deserialize_frame(received)
    }

    /// Takes note of the radio's answer to arming continuous reception.
    fn prepare_to_receive(&mut self, link: LinkReport) -> (armed: Result<(), &'static str>)
        ensures
            armed.is_ok() == (link == LinkReport::Done),
            armed matches Err(error) ==> error@ == PREPARE_ERROR@,
            final(self).spec_mode() == spec_mode_after(
                old(self).spec_mode(),
                RadioMode::Receive,
                link,
            ),
            final(self).spec_config() == old(self).spec_config(),
    {
        if link == LinkReport::Done {
            self.mode = RadioMode::Receive;
        }
        armed(link)
    }

    /// Takes note of the radio's answer to arming transmission at 12 dBm
    /// with boost.
    fn prepare_to_send(&mut self, link: LinkReport) -> (armed: Result<(), &'static str>)
        ensures
            armed.is_ok() == (link == LinkReport::Done),
            armed matches Err(error) ==> error@ == PREPARE_ERROR@,
            final(self).spec_mode() == spec_mode_after(
                old(self).spec_mode(),
                RadioMode::Transmit,
                link,
            ),
            final(self).spec_config() == old(self).spec_config(),
    {
        if link == LinkReport::Done {
            self.mode = RadioMode::Transmit;
        }
        armed(link)
    }

    /// Takes note of the radio's answer to the wait for its interrupt.
    fn ready_to_receive(&self, link: LinkReport) -> (ready: Result<(), &'static str>)
        ensures
            ready.is_ok() == (link == LinkReport::Done),
            ready matches Err(error) ==> error@ == WAIT_FOR_IRQ_ERROR@,
    {
        interrupted(link)
    }
}

} // verus!
