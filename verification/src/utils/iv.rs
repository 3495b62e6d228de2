//! The board-level handling of a LoRa radio: the reset pulse and the order in
//! which the RF switch pins change.

use vstd::prelude::*;

use crate::utils::lora_serial::PinLevel;

verus! {

/// Family of the radio on the board.
#[derive(Debug, Clone, Copy, PartialEq, Eq, Structural)]
pub enum RadioFamily {
    Sx127x,
    Sx126x,
}

/// One of the two pins of the RF switch.
#[derive(Debug, Clone, Copy, PartialEq, Eq, Structural)]
pub enum RfSwitchPin {
    Rx,
    Tx,
}

/// Position asked of the RF switch.
#[derive(Debug, Clone, Copy, PartialEq, Eq, Structural)]
pub enum RfSwitchPosition {
    /// Antenna on the receiver.
    Rx,
    /// Antenna on the transmitter.
    Tx,
    /// Antenna on neither.
    Off,
}

/// A pin of the RF switch and the level to drive it to.
#[derive(Debug, Clone, Copy, PartialEq, Eq, Structural)]
pub struct RfSwitchStep {
    pub pin: RfSwitchPin,
    pub level: PinLevel,
}

/// The reset pulse of a radio: wait, pull the reset pin low, hold, release,
/// wait. All durations in milliseconds.
#[derive(Debug, Clone, Copy, PartialEq, Eq, Structural)]
pub struct ResetPulse {
    pub before_ms: u32,
    pub low_ms: u32,
    pub after_ms: u32,
}

/// The reset pulse of a family: 10, 20 and 10 ms for the SX127x, 100 ms each
/// for the SX126x.
pub open spec fn spec_reset_pulse(family: RadioFamily) -> ResetPulse {
    match family {
        RadioFamily::Sx127x => ResetPulse { before_ms: 10, low_ms: 20, after_ms: 10 },
        RadioFamily::Sx126x => ResetPulse { before_ms: 100, low_ms: 100, after_ms: 100 },
    }
}

/// The two steps that bring the RF switch into a position, in order: the pin
/// of the other direction goes low first, then the pin of the direction asked
/// for goes high; for `Off` both go low, the receive pin first.
pub open spec fn spec_rf_switch_steps(position: RfSwitchPosition) -> (RfSwitchStep, RfSwitchStep) {
    match position {
        RfSwitchPosition::Rx => (
            RfSwitchStep { pin: RfSwitchPin::Tx, level: PinLevel::Low },
            RfSwitchStep { pin: RfSwitchPin::Rx, level: PinLevel::High },
        ),
        RfSwitchPosition::Tx => (
            RfSwitchStep { pin: RfSwitchPin::Rx, level: PinLevel::Low },
            RfSwitchStep { pin: RfSwitchPin::Tx, level: PinLevel::High },
        ),
        RfSwitchPosition::Off => (
            RfSwitchStep { pin: RfSwitchPin::Rx, level: PinLevel::Low },
            RfSwitchStep { pin: RfSwitchPin::Tx, level: PinLevel::Low },
        ),
    }
}

/// The reset pulse of a family.
pub fn reset(family: RadioFamily) -> (pulse: ResetPulse)
    ensures
        pulse == spec_reset_pulse(family),
{
    match family {
        RadioFamily::Sx127x => ResetPulse { before_ms: 10, low_ms: 20, after_ms: 10 },
        RadioFamily::Sx126x => ResetPulse { before_ms: 100, low_ms: 100, after_ms: 100 },
    }
}

/// The steps that put the antenna on the receiver.
pub fn enable_rf_switch_rx() -> (steps: (RfSwitchStep, RfSwitchStep))
    ensures
        steps == spec_rf_switch_steps(RfSwitchPosition::Rx),
{
    (
        RfSwitchStep { pin: RfSwitchPin::Tx, level: PinLevel::Low },
        RfSwitchStep { pin: RfSwitchPin::Rx, level: PinLevel::High },
    )
}

/// The steps that put the antenna on the transmitter.
pub fn enable_rf_switch_tx() -> (steps: (RfSwitchStep, RfSwitchStep))
    ensures
        steps == spec_rf_switch_steps(RfSwitchPosition::Tx),
{
    (
        RfSwitchStep { pin: RfSwitchPin::Rx, level: PinLevel::Low },
        RfSwitchStep { pin: RfSwitchPin::Tx, level: PinLevel::High },
    )
}

/// The steps that take the antenna off both.
pub fn disable_rf_switch() -> (steps: (RfSwitchStep, RfSwitchStep))
    ensures
        steps == spec_rf_switch_steps(RfSwitchPosition::Off),
{
    (
        RfSwitchStep { pin: RfSwitchPin::Rx, level: PinLevel::Low },
        RfSwitchStep { pin: RfSwitchPin::Tx, level: PinLevel::Low },
    )
}

/// In no position of the switch are both pins high: the antenna is never on
/// the receiver and the transmitter at once.
pub proof fn lemma_rf_switch_is_exclusive(position: RfSwitchPosition)
    ensures
        spec_rf_switch_steps(position).0.pin != spec_rf_switch_steps(position).1.pin,
        !(spec_rf_switch_steps(position).0.level == PinLevel::High && spec_rf_switch_steps(
            position,
        ).1.level == PinLevel::High),
        spec_rf_switch_steps(position).0.level == PinLevel::Low,
{
}

} // verus!
