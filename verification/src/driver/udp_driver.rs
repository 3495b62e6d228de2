//! The full-duplex UDP driver: MAVLink version 2 datagrams out, any MAVLink
//! datagram in, without the telemetry that would saturate the radio link.

use vstd::prelude::*;

use crate::driver::{Driver, LinkRole};
use crate::utils::logging_utils::{
    deserialize_frame_or_report, spec_record, LogLevel, LogRecord, LogRecordView,
    DESERIALIZE_ERROR, NETWORK_TARGET, PACKET_RECEIVE_ERROR_MSG,
};
use crate::utils::mavlink_utils::{
    bytes_view, deserialize_frame, mavlink_read, mavlink_v2_bytes, packet_view, serialize_frame,
    spec_deserialize_frame, spec_v2_header_layout, HEARTBEAT_MESSAGE_ID,
};
use crate::utils::types::{
    MavFramePacket, MavFrameView, MavHeader, MavMessageView, MavlinkVersion, NodeType,
};

verus! {

/// Tag of the UDP driver.
pub const UDP_DRIVER: &'static str = "udp_driver";

/// Largest datagram that the driver reads.
pub const UDP_RECEIVE_BUFFER_SIZE: usize = 256;

/// Where the UDP driver binds and sends.
#[derive(Debug)]
pub struct UDPConfig {
    /// Local address to bind.
    pub addr: String,
    /// Address to send to.
    pub dest_addr: String,
    /// Whether the socket may broadcast.
    pub broadcast: bool,
}

/// Local address of both roles: any interface, any port.
pub const LOCAL_ADDRESS: &'static str = "0.0.0.0:0";

/// Address that a drone sends to.
pub const DRONE_PEER_ADDRESS: &'static str = "192.168.0.255:14540";

/// Address that a gateway sends to.
pub const GATEWAY_PEER_ADDRESS: &'static str = "192.168.1.255:14550";

impl UDPConfig {
    /// The socket of a node unless configured otherwise: bound to any
    /// interface, broadcasting to the peer address of the node's role.
    pub fn for_node(node_type: NodeType) -> (config: UDPConfig)
        ensures
            config.addr@ == LOCAL_ADDRESS@,
            config.dest_addr@ == (match node_type {
                NodeType::Drone => DRONE_PEER_ADDRESS@,
                NodeType::Gateway => GATEWAY_PEER_ADDRESS@,
            }),
            config.broadcast,
    {
        let dest_addr = match node_type {
            NodeType::Drone => DRONE_PEER_ADDRESS.to_owned(),
            NodeType::Gateway => GATEWAY_PEER_ADDRESS.to_owned(),
        };
        UDPConfig { addr: LOCAL_ADDRESS.to_owned(), dest_addr, broadcast: true }
    }
}

/// The UDP driver.
pub struct UDPDriver {
    config: UDPConfig,
}

/// Whether a message id belongs to the high-rate telemetry that is redundant
/// on the long-range link: the ids 30, 74, 141 and 410.
pub open spec fn spec_is_redundant_telemetry(message_id: u32) -> bool {
    message_id == 30 || message_id == 74 || message_id == 141 || message_id == 410
}

/// What the driver passes on of a decoded datagram: every frame but those of
/// redundant telemetry.
pub open spec fn spec_filter_redundant_telemetry(packet: Option<MavFrameView>) -> Option<
    MavFrameView,
> {
    match packet {
        Some(frame) => if spec_is_redundant_telemetry(frame.msg.message_id) {
            None
        } else {
            Some(frame)
        },
        None => None,
    }
}

/// Whether a message id belongs to the redundant telemetry.
pub fn is_redundant_telemetry(message_id: u32) -> (redundant: bool)
    ensures
        redundant == spec_is_redundant_telemetry(message_id),
{
    message_id == 30 || message_id == 141 || message_id == 74 || message_id == 410
}

/// Drops a decoded frame of redundant telemetry and passes every other frame
/// through unchanged.
pub fn filter_redundant_telemetry(packet: Option<MavFramePacket>) -> (passed: Option<
    MavFramePacket,
>)
    ensures
        packet_view(passed) == spec_filter_redundant_telemetry(packet_view(packet)),
{
    match packet {
        Some(frame) => if is_redundant_telemetry(frame.msg.message_id()) {
            None
        } else {
            Some(frame)
        },
        None => None,
    }
}

impl UDPDriver {
    /// The configuration of the driver.
    pub closed spec fn config(&self) -> UDPConfig {
        self.config
    }

    /// A driver for the socket that `config` describes.
    pub fn new(config: UDPConfig) -> (driver: Self)
        ensures
            driver.config() == config,
    {
        UDPDriver { config }
    }

    /// Local address to bind.
    pub fn addr(&self) -> (addr: &String)
        ensures
            *addr == self.config().addr,
    {
        &self.config.addr
    }

    /// Address to send to.
    pub fn dest_addr(&self) -> (addr: &String)
        ensures
            *addr == self.config().dest_addr,
    {
        &self.config.dest_addr
    }

    /// Whether the socket may broadcast.
    pub fn broadcast(&self) -> (broadcast: bool)
        ensures
            broadcast == self.config().broadcast,
    {
        self.config.broadcast
    }
}

/// A version 1 heartbeat on the wire: a datagram in which the `mavlink`
/// reader finds no version 2 frame but a version 1 heartbeat passes the
/// filter and comes out with its header and message, tagged as version 2.
pub proof fn lemma_v1_heartbeat_passes(datagram: Seq<u8>, header: MavHeader, msg: MavMessageView)
    requires
        mavlink_read(datagram, MavlinkVersion::V2).is_none(),
        mavlink_read(datagram, MavlinkVersion::V1) == Some((header, msg)),
        msg.message_id == HEARTBEAT_MESSAGE_ID,
    ensures
        spec_filter_redundant_telemetry(spec_deserialize_frame(datagram)) == Some(
            MavFrameView { header, msg, protocol_version: MavlinkVersion::V2 },
        ),
{
}

impl UDPDriver {
    /// The frame in a datagram as `receive` gives it, with the error record
    /// of a datagram that holds no frame. A frame of redundant telemetry is
    /// dropped without a record.
    pub fn receive_or_report(&self, received: &[u8]) -> (decoded: (
        Option<MavFramePacket>,
        Option<LogRecord>,
    ))
        ensures
            packet_view(decoded.0) == spec_filter_redundant_telemetry(
                spec_deserialize_frame(received@),
            ),
            decoded.1.is_some() == spec_deserialize_frame(received@).is_none(),
            decoded.1 matches Some(entry) ==> entry@.packet.is_some() && entry@ == (LogRecordView {
                error: Some(DESERIALIZE_ERROR@),
                packet: entry@.packet,
                ..spec_record(
                    LogLevel::Error,
                    NETWORK_TARGET@,
                    UDP_DRIVER@,
                    PACKET_RECEIVE_ERROR_MSG@,
                )
            }),
    {
        let (frame, report) = deserialize_frame_or_report(UDP_DRIVER, received);
        (filter_redundant_telemetry(frame), report)
    }
}

impl Driver<MavFramePacket> for UDPDriver {
    open spec fn spec_link_role(&self) -> LinkRole {
        LinkRole::FullDuplex
    }

    fn link_role(&self) -> (role: LinkRole) {
        LinkRole::FullDuplex
    }

    fn identity(&self) -> (tag: String)
        ensures
            tag@ == UDP_DRIVER@,
    {
        UDP_DRIVER.to_owned()
    }

    /// The datagram for a frame: its version 2 wire bytes.
    fn send(&self, packet: &MavFramePacket) -> (datagram: Option<Vec<u8>>)
        ensures
            bytes_view(datagram) == mavlink_v2_bytes(packet@.header, packet@.msg),
            datagram matches Some(bytes) ==> spec_v2_header_layout(
                bytes@,
                packet@.header,
                packet@.msg.message_id,
            ),
    {
        serialize_frame(packet.clone())
    }

    /// The frame in a datagram: version 2 is tried first, then version 1,
    /// and frames of redundant telemetry are dropped.
    fn receive(&self, received: &[u8]) -> (packet: Option<MavFramePacket>)
        ensures
            packet_view(packet) == spec_filter_redundant_telemetry(
                spec_deserialize_frame(received@),
            ),
    {
        filter_redundant_telemetry(deserialize_frame(received))
    }
}

} // verus!
