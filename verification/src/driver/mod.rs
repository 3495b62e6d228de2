//! The drivers of the relay, without their hardware: what each link puts on
//! the wire for a frame, what it makes of the bytes that arrive, and how it
//! answers the steps of the half-duplex discipline. The caller owns the
//! socket or the radio and reports what they did.

pub mod lora_driver;
pub mod lora_sx1262_spi;
pub mod lora_sx1262_uart;
pub mod lora_sx1276_spi;
pub mod udp_driver;

use vstd::prelude::*;

verus! {

/// Whether a link can transmit and receive at the same instant.
#[derive(Debug, Clone, Copy, PartialEq, Eq, Structural)]
pub enum LinkRole {
    /// The link either transmits or listens.
    HalfDuplex,
    /// The link transmits and receives independently.
    FullDuplex,
}

/// What the link reported of a step that a driver asked of it.
#[derive(Debug, Clone, Copy, PartialEq, Eq, Structural)]
pub enum LinkReport {
    /// The step was carried out.
    Done,
    /// The link reported an error.
    Failed,
}

/// Error of a driver that could not arm its radio.
pub const PREPARE_ERROR: &'static str = "Failed to prepare for RX";

/// Error of a driver whose wait for the radio's interrupt failed.
pub const WAIT_FOR_IRQ_ERROR: &'static str = "Failed to wait for IRQ";

/// The capabilities that a network interface needs of a link, whatever the
/// link is.
pub trait Driver<P> {
    /// Whether the link is half-duplex or full-duplex.
    spec fn spec_link_role(&self) -> LinkRole;

    /// Whether the link is half-duplex or full-duplex.
    fn link_role(&self) -> (role: LinkRole)
        ensures
            role == self.spec_link_role(),
    ;

    /// The tag of the driver in logs and task names.
    fn identity(&self) -> String;

    /// The bytes that carry `packet` on the link, or `None` when the packet
    /// cannot be put on this link.
    fn send(&self, packet: &P) -> Option<Vec<u8>>;

    /// The frame in the bytes that arrived on the link, or `None` when they
    /// hold none that the driver passes on.
    fn receive(&self, received: &[u8]) -> Option<P>;

    /// Takes note of the link's answer to arming reception. A full-duplex
    /// link has nothing to arm and always succeeds.
    fn prepare_to_receive(&mut self, link: LinkReport) -> (armed: Result<(), &'static str>)
        ensures
            old(self).spec_link_role() == LinkRole::FullDuplex ==> armed.is_ok(),
    {
        Ok(())
    }

    /// Takes note of the link's answer to arming transmission. A full-duplex
    /// link has nothing to arm and always succeeds.
    fn prepare_to_send(&mut self, link: LinkReport) -> (armed: Result<(), &'static str>)
        ensures
            old(self).spec_link_role() == LinkRole::FullDuplex ==> armed.is_ok(),
    {
        Ok(())
    }

    /// Takes note of the link's answer to the wait for a reception. A
    /// full-duplex link is always ready.
    fn ready_to_receive(&self, link: LinkReport) -> (ready: Result<(), &'static str>)
        ensures
            self.spec_link_role() == LinkRole::FullDuplex ==> ready.is_ok(),
    {
        Ok(())
    }
}

} // verus!
