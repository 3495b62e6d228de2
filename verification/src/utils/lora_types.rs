//! The values that describe a LoRa radio to the relay: its modulation, its
//! packet parameters, its mode and what it reports of a reception.

use vstd::prelude::*;

verus! {

/// Spreading factor of the modulation.
#[derive(Debug, Clone, Copy, PartialEq, Eq, Structural)]
pub enum SpreadingFactor {
    _5,
    _6,
    _7,
    _8,
    _9,
    _10,
    _11,
    _12,
}

/// Bandwidth of the modulation.
#[derive(Debug, Clone, Copy, PartialEq, Eq, Structural)]
pub enum Bandwidth {
    _7KHz,
    _10KHz,
    _15KHz,
    _20KHz,
    _31KHz,
    _41KHz,
    _62KHz,
    _125KHz,
    _250KHz,
    _500KHz,
}

/// Coding rate of the modulation.
#[derive(Debug, Clone, Copy, PartialEq, Eq, Structural)]
pub enum CodingRate {
    _4_5,
    _4_6,
    _4_7,
    _4_8,
}

/// Modulation of a LoRa link. Both ends of a link share it.
#[derive(Debug, Clone, Copy, PartialEq, Eq, Structural)]
pub struct ModulationParams {
    pub spreading_factor: SpreadingFactor,
    pub bandwidth: Bandwidth,
    pub coding_rate: CodingRate,
    /// Center frequency in Hz.
    pub frequency_in_hz: u32,
}

/// Packet parameters of one direction of a LoRa link.
#[derive(Debug, Clone, Copy, PartialEq, Eq, Structural)]
pub struct PacketParams {
    /// Number of preamble symbols.
    pub preamble_length: u16,
    /// Whether packets go without a header.
    pub implicit_header: bool,
    /// Longest payload expected on reception; 0 for transmission, where each
    /// packet sets it.
    pub payload_length: u8,
    /// Whether packets carry a CRC.
    pub crc_on: bool,
    /// Whether the IQ signals are inverted.
    pub iq_inverted: bool,
}

/// Mode that a driver has put its radio in.
#[derive(Debug, Clone, Copy, PartialEq, Eq, Structural)]
pub enum RadioMode {
    /// Neither armed for reception nor for transmission.
    Standby,
    /// Armed for continuous reception.
    Receive,
    /// Armed for transmission.
    Transmit,
}

/// What the radio's interrupt was waited for.
#[derive(Debug, Clone, Copy, PartialEq, Eq, Structural)]
pub enum TargetIrqState {
    /// A preamble was detected.
    PreambleReceived,
    /// The operation is complete.
    Done,
}

/// Signal quality of a received packet.
#[derive(Debug, Clone, Copy, PartialEq, Eq, Structural)]
pub struct PacketStatus {
    pub rssi: i16,
    pub snr: i16,
}

/// What the radio reports when its reception interrupt is processed.
#[derive(Debug, Clone, Copy, PartialEq, Eq, Structural)]
pub enum IrqState {
    /// A preamble was detected; no packet yet.
    PreambleReceived,
    /// A packet of this many bytes is in the receive buffer.
    RxDone(u8, PacketStatus),
}

/// Largest payload of a LoRa packet.
pub const LORA_MAX_PAYLOAD: usize = 255;

/// Center frequency of the SX126x family, in Hz, unless configured.
pub const LORA_FREQUENCY_IN_HZ: u32 = 869_525_000;

/// Whether the receiver gain is boosted while the radio listens.
pub const RX_BOOSTED: bool = true;

/// Milliseconds after which the radio gives up a transmission.
pub const TX_TIMEOUT_MS: u32 = 0xffffff;

} // verus!
