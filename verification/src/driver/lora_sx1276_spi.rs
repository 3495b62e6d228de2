//! The half-duplex driver of an SX1276 radio on SPI.

use vstd::prelude::*;

use crate::driver::lora_driver::{
    armed, interrupted, lora_receive, lora_receive_or_report, lora_transmit, spec_lora_payload,
    spec_mode_after, spec_packet_status, spec_received_bytes, spec_received_frame,
};
use crate::driver::{Driver, LinkReport, LinkRole, PREPARE_ERROR, WAIT_FOR_IRQ_ERROR};
use crate::utils::logging_utils::{
    log_debug_receive_packet, spec_record, LogLevel, LogRecord, LogRecordView,
    DESERIALIZE_ERROR, NETWORK_TARGET, PACKET_RECEIVE_ERROR_MSG, RECEIVE_PACKET_MSG,
};
use crate::utils::lora_types::{
    Bandwidth, CodingRate, IrqState, ModulationParams, PacketParams, PacketStatus, RadioMode,
    SpreadingFactor,
};
use crate::utils::mavlink_utils::{
    bytes_view, deserialize_frame, mavlink_v2_bytes, packet_view, spec_deserialize_frame,
};
use crate::utils::types::MavFramePacket;

verus! {

/// Tag of the SX1276 SPI driver.
pub const LORA_SX1276_SPI_DRIVER: &'static str = "lora_sx1276_spi_driver";

/// The settings of an SX1276 link, each of which may be left to its default.
#[derive(Debug, Clone, Copy)]
pub struct LoRaSx1276SpiOptionalInitConfig {
    pub spreading_factor: Option<SpreadingFactor>,
    pub bandwidth: Option<Bandwidth>,
    pub coding_rate: Option<CodingRate>,
    pub frequency: Option<u32>,
    pub max_payload_length: Option<u8>,
    pub tx_power: Option<i32>,
    pub tx_boost: Option<bool>,
    pub preamble_length: Option<u16>,
    pub implicit_header: Option<bool>,
    pub crc_enabled: Option<bool>,
    pub iq_inverted: Option<bool>,
}

/// The settings of an SX1276 link.
#[derive(Debug, Clone, Copy, PartialEq, Eq, Structural)]
pub struct LoRaSx1276SpiInitConfig {
    pub spreading_factor: SpreadingFactor,
    pub bandwidth: Bandwidth,
    pub coding_rate: CodingRate,
    /// Center frequency in Hz.
    pub frequency: u32,
    pub max_payload_length: u8,
    /// Transmission power in dBm.
    pub tx_power: i32,
    pub tx_boost: bool,
    pub preamble_length: u16,
    pub implicit_header: bool,
    pub crc_enabled: bool,
    pub iq_inverted: bool,
}

/// The default settings: SF7, 250 kHz, coding rate 4/5, 868.1 MHz, payloads
/// up to 255 bytes, 12 dBm with boost, a preamble of 4 symbols, explicit
/// header, CRC on, IQ not inverted.
pub open spec fn spec_default_init_config() -> LoRaSx1276SpiInitConfig {
    LoRaSx1276SpiInitConfig {
        spreading_factor: SpreadingFactor::_7,
        bandwidth: Bandwidth::_250KHz,
        coding_rate: CodingRate::_4_5,
        frequency: 868_100_000,
        max_payload_length: 255,
        tx_power: 12,
        tx_boost: true,
        preamble_length: 4,
        implicit_header: false,
        crc_enabled: true,
        iq_inverted: false,
    }
}

/// A setting, or its default where it was left open.
pub open spec fn spec_or<T>(setting: Option<T>, default: T) -> T {
    match setting {
        Some(value) => value,
        None => default,
    }
}

impl LoRaSx1276SpiOptionalInitConfig {
    /// The settings with every open one at its default.
    pub open spec fn spec_build(self) -> LoRaSx1276SpiInitConfig {
        let default = spec_default_init_config();
        LoRaSx1276SpiInitConfig {
            spreading_factor: spec_or(self.spreading_factor, default.spreading_factor),
            bandwidth: spec_or(self.bandwidth, default.bandwidth),
            coding_rate: spec_or(self.coding_rate, default.coding_rate),
            frequency: spec_or(self.frequency, default.frequency),
            max_payload_length: spec_or(self.max_payload_length, default.max_payload_length),
            tx_power: spec_or(self.tx_power, default.tx_power),
            tx_boost: spec_or(self.tx_boost, default.tx_boost),
            preamble_length: spec_or(self.preamble_length, default.preamble_length),
            implicit_header: spec_or(self.implicit_header, default.implicit_header),
            crc_enabled: spec_or(self.crc_enabled, default.crc_enabled),
            iq_inverted: spec_or(self.iq_inverted, default.iq_inverted),
        }
    }

    /// Fills every setting that was left open with its default.
    pub fn build(self) -> (config: LoRaSx1276SpiInitConfig)
        ensures
            config == self.spec_build(),
    {
        LoRaSx1276SpiInitConfig {
            spreading_factor: match self.spreading_factor {
                Some(value) => value,
                None => SpreadingFactor::_7,
            },
            bandwidth: match self.bandwidth {
                Some(value) => value,
                None => Bandwidth::_250KHz,
            },
            coding_rate: match self.coding_rate {
                Some(value) => value,
                None => CodingRate::_4_5,
            },
            frequency: match self.frequency {
                Some(value) => value,
                None => 868_100_000,
            },
            max_payload_length: match self.max_payload_length {
                Some(value) => value,
                None => 255,
            },
            tx_power: match self.tx_power {
                Some(value) => value,
                None => 12,
            },
            tx_boost: match self.tx_boost {
                Some(value) => value,
                None => true,
            },
            preamble_length: match self.preamble_length {
                Some(value) => value,
                None => 4,
            },
            implicit_header: match self.implicit_header {
                Some(value) => value,
                None => false,
            },
            crc_enabled: match self.crc_enabled {
                Some(value) => value,
                None => true,
            },
            iq_inverted: match self.iq_inverted {
                Some(value) => value,
                None => false,
            },
        }
    }
}

impl Default for LoRaSx1276SpiOptionalInitConfig {
    /// Every setting, set to its default.
    fn default() -> (config: Self)
        ensures
            config.spec_build() == spec_default_init_config(),
            config.spreading_factor.is_some(),
            config.bandwidth.is_some(),
            config.coding_rate.is_some(),
            config.frequency.is_some(),
            config.max_payload_length.is_some(),
            config.tx_power.is_some(),
            config.tx_boost.is_some(),
            config.preamble_length.is_some(),
            config.implicit_header.is_some(),
            config.crc_enabled.is_some(),
            config.iq_inverted.is_some(),
    {
        LoRaSx1276SpiOptionalInitConfig {
            spreading_factor: Some(SpreadingFactor::_7),
            bandwidth: Some(Bandwidth::_250KHz),
            coding_rate: Some(CodingRate::_4_5),
            frequency: Some(868_100_000),
            max_payload_length: Some(255),
            tx_power: Some(12),
            tx_boost: Some(true),
            preamble_length: Some(4),
            implicit_header: Some(false),
            crc_enabled: Some(true),
            iq_inverted: Some(false),
        }
    }
}

/// What the driver configures its radio with.
#[derive(Debug, Clone, Copy, PartialEq, Eq, Structural)]
pub struct LoRaSx1276SpiConfig {
    pub modulation_params: ModulationParams,
    pub rx_pkt_params: PacketParams,
    pub tx_pkt_params: PacketParams,
    /// Transmission power in dBm.
    pub tx_power: i32,
    pub tx_boost: bool,
}

/// The radio configuration that a set of link settings asks for.
pub open spec fn spec_radio_config(init: LoRaSx1276SpiInitConfig) -> LoRaSx1276SpiConfig {
    LoRaSx1276SpiConfig {
        modulation_params: ModulationParams {
            spreading_factor: init.spreading_factor,
            bandwidth: init.bandwidth,
            coding_rate: init.coding_rate,
            frequency_in_hz: init.frequency,
        },
        rx_pkt_params: PacketParams {
            preamble_length: init.preamble_length,
            implicit_header: init.implicit_header,
            payload_length: init.max_payload_length,
            crc_on: init.crc_enabled,
            iq_inverted: init.iq_inverted,
        },
        tx_pkt_params: PacketParams {
            preamble_length: init.preamble_length,
            implicit_header: init.implicit_header,
            payload_length: 0,
            crc_on: init.crc_enabled,
            iq_inverted: init.iq_inverted,
        },
        tx_power: init.tx_power,
        tx_boost: init.tx_boost,
    }
}

/// The settings that a driver is made with: those given, with every open one
/// at its default, or all defaults where none are given.
pub open spec fn spec_init_config(init_config: Option<LoRaSx1276SpiOptionalInitConfig>)
    -> LoRaSx1276SpiInitConfig {
    match init_config {
        Some(given) => given.spec_build(),
        None => spec_default_init_config(),
    }
}

/// The SX1276 SPI driver.
pub struct LoRaSx1276SpiDriver {
    config: LoRaSx1276SpiConfig,
    mode: RadioMode,
}

impl LoRaSx1276SpiDriver {
    /// The radio configuration of the driver. It never changes.
    pub closed spec fn spec_config(&self) -> LoRaSx1276SpiConfig {
        self.config
    }

    /// The mode that the driver has put its radio in.
    pub closed spec fn spec_mode(&self) -> RadioMode {
        self.mode
    }

    /// A driver with the given settings, its radio in standby.
    pub fn new(init_config: Option<LoRaSx1276SpiOptionalInitConfig>) -> (driver: Self)
        ensures
            driver.spec_config() == spec_radio_config(spec_init_config(init_config)),
            driver.spec_mode() == RadioMode::Standby,
    {
        let init = match init_config {
            Some(given) => given.build(),
            None => LoRaSx1276SpiOptionalInitConfig::default().build(),
        };
        let config = LoRaSx1276SpiConfig {
            modulation_params: ModulationParams {
                spreading_factor: init.spreading_factor,
                bandwidth: init.bandwidth,
                coding_rate: init.coding_rate,
                frequency_in_hz: init.frequency,
            },
            rx_pkt_params: PacketParams {
                preamble_length: init.preamble_length,
                implicit_header: init.implicit_header,
                payload_length: init.max_payload_length,
                crc_on: init.crc_enabled,
                iq_inverted: init.iq_inverted,
            },
            tx_pkt_params: PacketParams {
                preamble_length: init.preamble_length,
                implicit_header: init.implicit_header,
                payload_length: 0,
                crc_on: init.crc_enabled,
                iq_inverted: init.iq_inverted,
            },
            tx_power: init.tx_power,
            tx_boost: init.tx_boost,
        };
        LoRaSx1276SpiDriver { config, mode: RadioMode::Standby }
    }

    /// The radio configuration of the driver.
    pub fn config(&self) -> (config: LoRaSx1276SpiConfig)
        ensures
            config == self.spec_config(),
    {
        self.config
    }

    /// The mode that the driver has put its radio in.
    pub fn mode(&self) -> (mode: RadioMode)
        ensures
            mode == self.spec_mode(),
    {
        self.mode
    }

    /// The frame of a completed reception, with its signal strength and
    /// signal-to-noise ratio. `irq` is what the radio reported for the
    /// reception interrupt, `None` for a radio error; `buffer` is the receive
    /// buffer.
    pub fn process_rx_irq(&self, irq: Option<IrqState>, buffer: &[u8]) -> (received: Option<
        (MavFramePacket, PacketStatus),
    >)
        ensures
            received.is_some() == spec_received_frame(irq, buffer@).is_some(),
            received matches Some(found) ==> {
                &&& Some(found.0@) == spec_received_frame(irq, buffer@)
                &&& Some(found.1) == spec_packet_status(irq)
            },
    {
        lora_receive(irq, buffer)
    }

    /// The frame of a completed reception as `process_rx_irq` gives it, with
    /// the error record of a completed reception whose bytes hold no frame.
    pub fn process_rx_irq_or_report(&self, irq: Option<IrqState>, buffer: &[u8]) -> (decoded: (
        Option<(MavFramePacket, PacketStatus)>,
        Option<LogRecord>,
    ))
        ensures
            decoded.0.is_some() == spec_received_frame(irq, buffer@).is_some(),
            decoded.0 matches Some(found) ==> {
                &&& Some(found.0@) == spec_received_frame(irq, buffer@)
                &&& Some(found.1) == spec_packet_status(irq)
            },
            decoded.1.is_some() == (spec_received_bytes(irq, buffer@).is_some()
                && spec_received_frame(irq, buffer@).is_none()),
            decoded.1 matches Some(entry) ==> entry@.packet.is_some() && entry@ == (LogRecordView {
                error: Some(DESERIALIZE_ERROR@),
                packet: entry@.packet,
                ..spec_record(
                    LogLevel::Error,
                    NETWORK_TARGET@,
                    LORA_SX1276_SPI_DRIVER@,
                    PACKET_RECEIVE_ERROR_MSG@,
                )
            }),
    {
        lora_receive_or_report(LORA_SX1276_SPI_DRIVER, irq, buffer)
    }

    /// The record of a received frame, at debug level, with the signal strength of the reception.
    pub fn log_reception(&self, packet: &MavFramePacket, status: PacketStatus) -> (entry: LogRecord)
        ensures
            entry@.packet.is_some(),
            entry@ == (LogRecordView {
                packet: entry@.packet,
                rssi: Some(status.rssi),
                snr: None,
                ..spec_record(
                    LogLevel::Debug,
                    NETWORK_TARGET@,
                    LORA_SX1276_SPI_DRIVER@,
                    RECEIVE_PACKET_MSG@,
                )
            }),
    {
        log_debug_receive_packet(LORA_SX1276_SPI_DRIVER, packet, Some(status.rssi), None)
    }
}

impl Driver<MavFramePacket> for LoRaSx1276SpiDriver {
    open spec fn spec_link_role(&self) -> LinkRole {
        LinkRole::HalfDuplex
    }

    fn link_role(&self) -> (role: LinkRole) {
        LinkRole::HalfDuplex
    }

    fn identity(&self) -> (tag: String)
        ensures
            tag@ == LORA_SX1276_SPI_DRIVER@,
    {
        LORA_SX1276_SPI_DRIVER.to_owned()
    }

    /// The payload to transmit for a frame: its version 2 wire bytes, if one
    /// LoRa packet holds them.
    fn send(&self, packet: &MavFramePacket) -> (payload: Option<Vec<u8>>)
        ensures
            bytes_view(payload) == spec_lora_payload(
                mavlink_v2_bytes(packet@.header, packet@.msg),
            ),
    {
        lora_transmit(packet)
    }

    /// The frame in the bytes of a received packet.
    fn receive(&self, received: &[u8]) -> (packet: Option<MavFramePacket>)
        ensures
            packet_view(packet) == spec_deserialize_frame(received@),
    {
        deserialize_frame(received)
    }

    /// Takes note of the radio's answer to arming continuous reception.
    fn prepare_to_receive(&mut self, link: LinkReport) -> (armed: Result<(), &'static str>)
        ensures
            armed.is_ok() == (link == LinkReport::Done),
            armed matches Err(error) ==> error@ == PREPARE_ERROR@,
            final(self).spec_mode() == spec_mode_after(
                old(self).spec_mode(),
                RadioMode::Receive,
                link,
            ),
            final(self).spec_config() == old(self).spec_config(),
    {
        if link == LinkReport::Done {
            self.mode = RadioMode::Receive;
        }
        armed(link)
    }

    /// Takes note of the radio's answer to arming transmission with the
    /// configured power and boost.
    fn prepare_to_send(&mut self, link: LinkReport) -> (armed: Result<(), &'static str>)
        ensures
            armed.is_ok() == (link == LinkReport::Done),
            armed matches Err(error) ==> error@ == PREPARE_ERROR@,
            final(self).spec_mode() == spec_mode_after(
                old(self).spec_mode(),
                RadioMode::Transmit,
                link,
            ),
            final(self).spec_config() == old(self).spec_config(),
    {
        if link == LinkReport::Done {
            self.mode = RadioMode::Transmit;
        }
        armed(link)
    }

    /// Takes note of the radio's answer to the wait for its interrupt.
    fn ready_to_receive(&self, link: LinkReport) -> (ready: Result<(), &'static str>)
        ensures
            ready.is_ok() == (link == LinkReport::Done),
            ready matches Err(error) ==> error@ == WAIT_FOR_IRQ_ERROR@,
    {
        interrupted(link)
    }
}

} // verus!
