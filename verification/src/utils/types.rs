//! The frame that travels through the relay, and the role of a node.

use vstd::prelude::*;

verus! {

/// Role of a node in the relay pair.
#[derive(Debug, Clone, Copy, PartialEq, Eq, Structural)]
pub enum NodeType {
    /// Airborne companion computer.
    Drone,
    /// Ground station bridge.
    Gateway,
}

/// System id carried by the heartbeats of a drone.
pub const DRONE_SYSTEM_ID: u8 = 201;

/// System id carried by the heartbeats of a gateway.
pub const GATEWAY_SYSTEM_ID: u8 = 101;

impl NodeType {
    /// The role that a name stands for: exactly `Drone` or `Gateway`.
    pub open spec fn spec_from_str(s: Seq<char>) -> Option<NodeType> {
        if s == "Drone"@ {
            Some(NodeType::Drone)
        } else if s == "Gateway"@ {
            Some(NodeType::Gateway)
        } else {
            None
        }
    }

    /// Parses the role given on the command line. Any name other than
    /// `Drone` or `Gateway` is rejected.
    pub fn from_str(s: &str) -> (r: Result<NodeType, ()>)
        ensures
            r.is_ok() <==> Self::spec_from_str(s@).is_some(),
            r matches Ok(node) ==> Self::spec_from_str(s@) == Some(node),
    {
        let name = s.to_owned();
        if name == "Drone".to_owned() {
            Ok(NodeType::Drone)
        } else if name == "Gateway".to_owned() {
            Ok(NodeType::Gateway)
        } else {
            Err(())
        }
    }

    /// MAVLink system id that the node stamps on the frames it generates.
    pub open spec fn spec_system_id(self) -> u8 {
        match self {
            NodeType::Drone => DRONE_SYSTEM_ID,
            NodeType::Gateway => GATEWAY_SYSTEM_ID,
        }
    }

    /// MAVLink system id that the node stamps on the frames it generates:
    /// 201 for a drone, 101 for a gateway.
    pub fn system_id(&self) -> (id: u8)
        ensures
            id == self.spec_system_id(),
    {
        match self {
            NodeType::Drone => DRONE_SYSTEM_ID,
            NodeType::Gateway => GATEWAY_SYSTEM_ID,
        }
    }
}

/// Version of the MAVLink framing.
#[derive(Debug, Clone, Copy, PartialEq, Eq, Structural)]
pub enum MavlinkVersion {
    /// Version 1.0 framing.
    V1,
    /// Version 2.0 framing.
    V2,
}

/// Header fields of a MAVLink frame.
#[derive(Debug, Clone, Copy, PartialEq, Eq, Structural)]
pub struct MavHeader {
    /// Sender system id.
    pub system_id: u8,
    /// Sender component id.
    pub component_id: u8,
    /// Packet sequence number.
    pub sequence: u8,
}

/// A MAVLink message: its numeric id and its body in the version 2 payload
/// encoding. The relay never looks inside the body.
#[derive(Debug)]
pub struct MavMessage {
    /// Numeric message id.
    pub message_id: u32,
    /// Body of the message, as the bytes of a version 2 payload.
    pub payload: Vec<u8>,
}

/// Mathematical value of a [`MavMessage`].
pub struct MavMessageView {
    pub message_id: u32,
    pub payload: Seq<u8>,
}

impl View for MavMessage {
    type V = MavMessageView;

    open spec fn view(&self) -> MavMessageView {
        MavMessageView { message_id: self.message_id, payload: self.payload@ }
    }
}

impl MavMessage {
    /// Numeric id of the message.
    pub fn message_id(&self) -> (id: u32)
        ensures
            id == self@.message_id,
    {
        self.message_id
    }
}

impl Clone for MavMessage {
    fn clone(&self) -> (copy: Self)
        ensures
            copy@ == self@,
    {
        MavMessage { message_id: self.message_id, payload: self.payload.clone() }
    }
}

/// The unit that the relay transports end to end: a message with its header
/// and the tag of the protocol version.
#[derive(Debug)]
pub struct MavFramePacket {
    /// Header of the frame.
    pub header: MavHeader,
    /// Message carried by the frame.
    pub msg: MavMessage,
    /// Version tag of the frame.
    pub protocol_version: MavlinkVersion,
}

/// Mathematical value of a [`MavFramePacket`].
pub struct MavFrameView {
    pub header: MavHeader,
    pub msg: MavMessageView,
    pub protocol_version: MavlinkVersion,
}

impl View for MavFramePacket {
    type V = MavFrameView;

    open spec fn view(&self) -> MavFrameView {
        MavFrameView {
            header: self.header,
            msg: self.msg@,
            protocol_version: self.protocol_version,
        }
    }
}

impl Clone for MavFramePacket {
    fn clone(&self) -> (copy: Self)
        ensures
            copy@ == self@,
    {
        MavFramePacket {
            header: self.header,
            msg: self.msg.clone(),
            protocol_version: self.protocol_version,
        }
    }
}

} // verus!
