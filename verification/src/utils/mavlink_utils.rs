//! The MAVLink framing layer: decoding with version fallback, version 2
//! encoding, the heartbeat message and the sequenced header of generated
//! frames.

use mavlink::ardupilotmega::MavMessage as Dialect;
use mavlink::peek_reader::PeekReader;
use mavlink::{Message, ReadVersion};
use vstd::prelude::*;

use crate::utils::types::{
    MavFramePacket, MavFrameView, MavHeader, MavMessage, MavMessageView, MavlinkVersion, NodeType,
};

verus! {

/// Largest number of bytes that a frame occupies on the wire.
pub const MAX_FRAME_SIZE: usize = 280;

/// Message id of the heartbeat.
pub const HEARTBEAT_MESSAGE_ID: u32 = 0;

/// Component id of every generated frame.
pub const COMPONENT_ID: u8 = 1;

/// `MAV_TYPE` of a quadrotor.
pub const MAV_TYPE_QUADROTOR: u8 = 2;

/// `MAV_AUTOPILOT` of the ArduPilot family.
pub const MAV_AUTOPILOT_ARDUPILOTMEGA: u8 = 3;

/// `MAV_STATE` of a system that is grounded and on standby.
pub const MAV_STATE_STANDBY: u8 = 3;

/// MAVLink version that the heartbeat announces.
pub const HEARTBEAT_MAVLINK_VERSION: u8 = 3;

/// What the `mavlink` reader finds in `buffer` when it reads one message of
/// the given version in the ArduPilotMega dialect: the header and the message
/// of the first frame that it accepts, or `None` when it accepts none.
pub uninterp spec fn mavlink_read(buffer: Seq<u8>, version: MavlinkVersion) -> Option<
    (MavHeader, MavMessageView),
>;

/// The version 2 wire bytes that the `mavlink` crate writes for a header and
/// a message, or `None` when the ArduPilotMega dialect does not accept the
/// message id with that body.
pub uninterp spec fn mavlink_v2_bytes(header: MavHeader, msg: MavMessageView) -> Option<Seq<u8>>;

/// Marker that opens a version 2 frame.
pub const MAV_STX_V2: u8 = 0xFD;

/// Number of bytes that a version 2 frame holds besides its payload: the
/// marker, nine header bytes and two checksum bytes.
pub const V2_FRAME_OVERHEAD: usize = 12;

/// The layout of the first ten bytes of an unsigned version 2 frame: marker,
/// payload length, two flag bytes that are zero, sequence number, system id,
/// component id, and the message id as three little-endian bytes.
pub open spec fn spec_v2_header_layout(bytes: Seq<u8>, header: MavHeader, message_id: u32) -> bool {
    &&& V2_FRAME_OVERHEAD <= bytes.len() <= MAX_FRAME_SIZE
    &&& bytes[0] == MAV_STX_V2
    &&& bytes[1] == bytes.len() - V2_FRAME_OVERHEAD
    &&& bytes[2] == 0
    &&& bytes[3] == 0
    &&& bytes[4] == header.sequence
    &&& bytes[5] == header.system_id
    &&& bytes[6] == header.component_id
    &&& bytes[7] == message_id % 256
    &&& bytes[8] == (message_id / 256) % 256
    &&& bytes[9] == (message_id / 65536) % 256
}

/// The header and message of a reading, as mathematical values.
pub open spec fn reading_view(reading: Option<(MavHeader, MavMessage)>) -> Option<
    (MavHeader, MavMessageView),
> {
    match reading {
        Some(found) => Some((found.0, found.1@)),
        None => None,
    }
}

/// The frame of an optional packet, as a mathematical value.
pub open spec fn packet_view(packet: Option<MavFramePacket>) -> Option<MavFrameView> {
    match packet {
        Some(frame) => Some(frame@),
        None => None,
    }
}

/// The bytes of an optional buffer, as a mathematical value.
pub open spec fn bytes_view(bytes: Option<Vec<u8>>) -> Option<Seq<u8>> {
    match bytes {
        Some(buffer) => Some(buffer@),
        None => None,
    }
}

/// Calls `mavlink::read_versioned_msg` on a reader over `buffer`, for a single
/// version and the ArduPilotMega dialect. The header comes back field by
/// field; the message comes back as its id (`Message::message_id`) and its
/// version 2 payload (`Message::ser`). Trusted: the result is `mavlink_read`
/// of the same bytes and version; `None` stands for any read or parse error.
#[verifier::external_body]
fn read_versioned_msg(buffer: &[u8], version: MavlinkVersion) -> (reading: Option<
    (MavHeader, MavMessage),
>)
    ensures
        reading_view(reading) == mavlink_read(buffer@, version),
{
    let wire = match version {
        MavlinkVersion::V1 => mavlink::MavlinkVersion::V1,
        MavlinkVersion::V2 => mavlink::MavlinkVersion::V2,
    };
    let mut reader = PeekReader::new(std::io::Cursor::new(buffer));
    let read = mavlink::read_versioned_msg::<Dialect, _>(&mut reader, ReadVersion::Single(wire));
    let (mavlink::MavHeader { system_id, component_id, sequence }, msg) = read.ok()?;
    let mut body = [0u8; 255];
    let len = msg.ser(mavlink::MavlinkVersion::V2, &mut body);
    let found = MavMessage { message_id: msg.message_id(), payload: body[..len].to_vec() };
    Some((MavHeader { system_id, component_id, sequence }, found))
}

/// Calls `mavlink::MAVLinkV2MessageRaw::serialize_message` with the header and
/// the message that `Message::parse` builds from the id and the version 2
/// payload, and copies `raw_bytes`. Trusted: the result is `mavlink_v2_bytes`
/// of the same header and message, `None` where `parse` fails; the bytes are
/// the front of the crate's 280-byte frame buffer, and they open with the
/// marker and the header fields as the crate lays them out, without flags.
#[verifier::external_body]
fn serialize_message(header: MavHeader, msg: &MavMessage) -> (bytes: Option<Vec<u8>>)
    ensures
        bytes_view(bytes) == mavlink_v2_bytes(header, msg@),
        bytes matches Some(buffer) ==> spec_v2_header_layout(buffer@, header, msg@.message_id),
{
    let message = Dialect::parse(mavlink::MavlinkVersion::V2, msg.message_id, &msg.payload).ok()?;
    let MavHeader { system_id, component_id, sequence } = header;
    let mut raw = mavlink::MAVLinkV2MessageRaw::new();
    raw.serialize_message(mavlink::MavHeader { system_id, component_id, sequence }, &message);
    Some(raw.raw_bytes().to_vec())
}

/// The frame that a reading becomes. Whatever version the reading was made
/// with, the frame is tagged as version 2.
pub open spec fn spec_frame_of_reading(reading: (MavHeader, MavMessageView)) -> MavFrameView {
    MavFrameView { header: reading.0, msg: reading.1, protocol_version: MavlinkVersion::V2 }
}

/// The frame chosen from a version 2 reading and a version 1 reading of the
/// same bytes: version 2 is preferred, version 1 is the fallback.
pub open spec fn spec_select_reading(
    v2: Option<(MavHeader, MavMessageView)>,
    v1: Option<(MavHeader, MavMessageView)>,
) -> Option<MavFrameView> {
    match v2 {
        Some(found) => Some(spec_frame_of_reading(found)),
        None => match v1 {
            Some(found) => Some(spec_frame_of_reading(found)),
            None => None,
        },
    }
}

/// The frame that `deserialize_frame` finds in `buffer`.
pub open spec fn spec_deserialize_frame(buffer: Seq<u8>) -> Option<MavFrameView> {
    spec_select_reading(
        mavlink_read(buffer, MavlinkVersion::V2),
        mavlink_read(buffer, MavlinkVersion::V1),
    )
}

/// Chooses the frame from the two readings of one buffer: the version 2
/// reading if there is one, else the version 1 reading, else nothing. The
/// chosen frame is tagged as version 2 in both cases.
pub fn select_reading(
    v2: Option<(MavHeader, MavMessage)>,
    v1: Option<(MavHeader, MavMessage)>,
) -> (packet: Option<MavFramePacket>)
    ensures
        packet_view(packet) == spec_select_reading(reading_view(v2), reading_view(v1)),
{
    match v2 {
        Some((header, msg)) => Some(
            MavFramePacket { header, msg, protocol_version: MavlinkVersion::V2 },
        ),
        None => match v1 {
            Some((header, msg)) => Some(
                MavFramePacket { header, msg, protocol_version: MavlinkVersion::V2 },
            ),
            None => None,
        },
    }
}

/// Decodes one frame from `buffer`: version 2 first, version 1 from the start
/// of the same bytes if that fails, `None` if both fail.
pub fn deserialize_frame(buffer: &[u8]) -> (packet: Option<MavFramePacket>)
    ensures
        packet_view(packet) == spec_deserialize_frame(buffer@),
{
    let v2 = read_versioned_msg(buffer, MavlinkVersion::V2);
    if v2.is_some() {
        select_reading(v2, None)
    } else {
        let v1 = read_versioned_msg(buffer, MavlinkVersion::V1);
        select_reading(None, v1)
    }
}

/// Encodes a frame as version 2 wire bytes, whatever its version tag says.
/// `None` exactly when the dialect does not accept the message id with its
/// body. The bytes are at most 280 and open with the marker and the header
/// fields of the frame.
pub fn serialize_frame(packet: MavFramePacket) -> (bytes: Option<Vec<u8>>)
    ensures
        bytes_view(bytes) == mavlink_v2_bytes(packet@.header, packet@.msg),
        bytes matches Some(buffer) ==> spec_v2_header_layout(
            buffer@,
            packet@.header,
            packet@.msg.message_id,
        ),
{
    serialize_message(packet.header, &packet.msg)
}

/// Round trip, as far as the library decides it: where the `mavlink` reader
/// finds in the version 2 bytes of a frame the header and the message that
/// were written, `deserialize_frame` gives that frame back, tagged as version
/// 2. The fallback and the tagging lose nothing. That the reader does find
/// them is a property of the `mavlink` crate and is the hypothesis here.
pub proof fn lemma_round_trip_where_the_reader_inverts(frame: MavFrameView, bytes: Seq<u8>)
    requires
        mavlink_v2_bytes(frame.header, frame.msg) == Some(bytes),
        mavlink_read(bytes, MavlinkVersion::V2) == Some((frame.header, frame.msg)),
    ensures
        spec_deserialize_frame(bytes) == Some(
            MavFrameView { protocol_version: MavlinkVersion::V2, ..frame },
        ),
{
}

/// Version 1 fallback: bytes in which the `mavlink` reader finds no version 2
/// frame but a version 1 frame decode to that frame, tagged as version 2.
pub proof fn lemma_v1_reading_is_the_fallback(
    bytes: Seq<u8>,
    header: MavHeader,
    msg: MavMessageView,
)
    requires
        mavlink_read(bytes, MavlinkVersion::V2).is_none(),
        mavlink_read(bytes, MavlinkVersion::V1) == Some((header, msg)),
    ensures
        spec_deserialize_frame(bytes) == Some(
            MavFrameView { header, msg, protocol_version: MavlinkVersion::V2 },
        ),
{
}

/// The heartbeat that the relay generates: a quadrotor with an ArduPilot
/// autopilot, no mode flags, on standby, announcing MAVLink version 3. The
/// body is the message's version 2 payload: the custom mode as four
/// little-endian bytes, then type, autopilot, base mode, system status and
/// MAVLink version.
pub open spec fn spec_heartbeat_message() -> MavMessageView {
    MavMessageView {
        message_id: HEARTBEAT_MESSAGE_ID,
        payload: seq![
            0u8,
            0u8,
            0u8,
            0u8,
            MAV_TYPE_QUADROTOR,
            MAV_AUTOPILOT_ARDUPILOTMEGA,
            0u8,
            MAV_STATE_STANDBY,
            HEARTBEAT_MAVLINK_VERSION,
        ],
    }
}

/// Creates the heartbeat message of the relay.
pub fn heartbeat_message() -> (msg: MavMessage)
    ensures
        msg@ == spec_heartbeat_message(),
{
    let mut payload: Vec<u8> = Vec::new();
    payload.push(0);
    payload.push(0);
    payload.push(0);
    payload.push(0);
    payload.push(MAV_TYPE_QUADROTOR);
    payload.push(MAV_AUTOPILOT_ARDUPILOTMEGA);
    payload.push(0);
    payload.push(MAV_STATE_STANDBY);
    payload.push(HEARTBEAT_MAVLINK_VERSION);
    assert(payload@ =~= spec_heartbeat_message().payload);
    MavMessage { message_id: HEARTBEAT_MESSAGE_ID, payload }
}

/// Source of the headers of locally generated frames. It holds the 8-bit
/// sequence counter of the node, which wraps from 255 to 0.
pub struct MavlinkHeaderGenerator {
    sequence: u8,
}

impl MavlinkHeaderGenerator {
    /// The sequence number that the next generated header carries.
    pub closed spec fn next_sequence(&self) -> u8 {
        self.sequence
    }

    /// The sequence number that follows `sequence`, modulo 256.
    pub open spec fn spec_following(sequence: u8) -> u8 {
        ((sequence + 1) % 256) as u8
    }

    /// The header that the generator stamps next for a node of the given role.
    pub open spec fn spec_next_header(&self, node_type: NodeType) -> MavHeader {
        MavHeader {
            system_id: node_type.spec_system_id(),
            component_id: COMPONENT_ID,
            sequence: self.next_sequence(),
        }
    }

    /// The heartbeat frame that the generator emits next for a node of the
    /// given role.
    pub open spec fn spec_next_heartbeat(&self, node_type: NodeType) -> MavFrameView {
        MavFrameView {
            header: self.spec_next_header(node_type),
            msg: spec_heartbeat_message(),
            protocol_version: MavlinkVersion::V2,
        }
    }

    /// A generator whose first header carries sequence number 0.
    pub fn new() -> (generator: MavlinkHeaderGenerator)
        ensures
            generator.next_sequence() == 0,
    {
        MavlinkHeaderGenerator { sequence: 0 }
    }

    /// Stamps the next header: the system id of the node's role, component
    /// id 1 and the current sequence number, which then advances by one
    /// modulo 256.
    pub fn create_mavlink_header(&mut self, node_type: NodeType) -> (header: MavHeader)
        ensures
            header == old(self).spec_next_header(node_type),
            final(self).next_sequence() == Self::spec_following(old(self).next_sequence()),
    {
        let sequence = self.sequence;
        self.sequence = if sequence == u8::MAX {
            0
        } else {
            sequence + 1
        };
        MavHeader { system_id: node_type.system_id(), component_id: COMPONENT_ID, sequence }
    }

    /// Emits the next heartbeat frame: the relay's heartbeat message under a
    /// freshly sequenced header, tagged as version 2.
    pub fn create_mavlink_heartbeat_frame(&mut self, node_type: NodeType) -> (frame: MavFramePacket)
        ensures
            frame@ == old(self).spec_next_heartbeat(node_type),
            final(self).next_sequence() == Self::spec_following(old(self).next_sequence()),
    {
        MavFramePacket {
            header: self.create_mavlink_header(node_type),
            msg: heartbeat_message(),
            protocol_version: MavlinkVersion::V2,
        }
    }
}

/// The sequence number stamped by the call that follows `calls` earlier calls
/// on a generator whose next sequence number was `start`.
pub open spec fn sequence_after(start: u8, calls: nat) -> u8
    decreases calls,
{
    if calls == 0 {
        start
    } else {
        MavlinkHeaderGenerator::spec_following(sequence_after(start, (calls - 1) as nat))
    }
}

/// Consecutive calls stamp consecutive sequence numbers modulo 256: after
/// `calls` calls on a generator that started at `start`, the next sequence
/// number is `(start + calls) mod 256`.
pub proof fn lemma_sequence_numbers_consecutive(start: u8, calls: nat)
    ensures
        sequence_after(start, calls) == (start + calls) % 256,
    decreases calls,
{
    if calls > 0 {
        lemma_sequence_numbers_consecutive(start, (calls - 1) as nat);
    }
}

/// The system id of a generated header is fixed by the role alone: 201 on a
/// drone and 101 on a gateway, whatever the state of the generator.
pub proof fn lemma_role_fixes_system_id(generator: MavlinkHeaderGenerator, node_type: NodeType)
    ensures
        node_type == NodeType::Drone ==> generator.spec_next_heartbeat(node_type).header.system_id
            == 201,
        node_type == NodeType::Gateway ==> generator.spec_next_heartbeat(
            node_type,
        ).header.system_id == 101,
        generator.spec_next_heartbeat(node_type).header.component_id == 1,
{
}

} // verus!
