use mavlink::ardupilotmega::{
    MavAutopilot, MavMessage as DialectMessage, MavModeFlag, MavState, MavType, HEARTBEAT_DATA,
};
use mavlink::peek_reader::PeekReader;
use mavlink::{MAVLinkV1MessageRaw, MAVLinkV2MessageRaw, Message, ReadVersion};
use mavlink_network_node::utils::mavlink_utils::{
    deserialize_frame, heartbeat_message, select_reading, serialize_frame,
};
use mavlink_network_node::utils::types::{MavFramePacket, MavHeader, MavMessage, MavlinkVersion};

fn heartbeat_frame(sequence: u8) -> MavFramePacket {
    MavFramePacket {
        header: MavHeader { system_id: 101, component_id: 1, sequence },
        msg: heartbeat_message(),
        protocol_version: MavlinkVersion::V2,
    }
}

fn dialect_heartbeat() -> DialectMessage {
    DialectMessage::HEARTBEAT(HEARTBEAT_DATA {
        custom_mode: 0,
        mavtype: MavType::MAV_TYPE_QUADROTOR,
        autopilot: MavAutopilot::MAV_AUTOPILOT_ARDUPILOTMEGA,
        base_mode: MavModeFlag::empty(),
        system_status: MavState::MAV_STATE_STANDBY,
        mavlink_version: 3,
    })
}

fn v1_heartbeat_bytes(sequence: u8) -> Vec<u8> {
    let mut raw = MAVLinkV1MessageRaw::new();
    raw.serialize_message(
        mavlink::MavHeader { system_id: 42, component_id: 9, sequence },
        &dialect_heartbeat(),
    );
    raw.raw_bytes().to_vec()
}

#[test]
fn heartbeat_round_trip() {
    let frame = heartbeat_frame(7);
    let bytes = serialize_frame(frame.clone()).expect("a heartbeat is part of the dialect");
    assert_eq!(bytes.len(), 21);
    assert_eq!(bytes[0], 0xFD);
    let back = deserialize_frame(&bytes).expect("the bytes hold one frame");
    assert_eq!(back.header, frame.header);
    assert_eq!(back.msg.message_id, 0);
    assert_eq!(back.msg.payload, frame.msg.payload);
    assert_eq!(back.protocol_version, MavlinkVersion::V2);
}

#[test]
fn round_trip_keeps_every_header_field() {
    for sequence in [0u8, 1, 127, 255] {
        for system_id in [1u8, 101, 201, 255] {
            let frame = MavFramePacket {
                header: MavHeader { system_id, component_id: 190, sequence },
                msg: heartbeat_message(),
                protocol_version: MavlinkVersion::V2,
            };
            let bytes = serialize_frame(frame.clone()).unwrap();
            let back = deserialize_frame(&bytes).unwrap();
            assert_eq!(back.header, frame.header);
            assert_eq!(back.msg.message_id, frame.msg.message_id);
            assert_eq!(back.msg.payload, frame.msg.payload);
        }
    }
}

#[test]
fn serialized_heartbeat_is_what_the_dialect_writes() {
    let mut raw = MAVLinkV2MessageRaw::new();
    raw.serialize_message(
        mavlink::MavHeader { system_id: 101, component_id: 1, sequence: 7 },
        &dialect_heartbeat(),
    );
    let ours = serialize_frame(heartbeat_frame(7)).unwrap();
    assert_eq!(ours, raw.raw_bytes().to_vec());
    assert_eq!(
        &ours[..10],
        &[0xFD, 9, 0, 0, 7, 101, 1, 0, 0, 0],
        "marker, length, flags, sequence, system, component and message id"
    );
    assert_eq!(&ours[10..19], &[0, 0, 0, 0, 2, 3, 0, 3, 3]);
}

#[test]
fn serialized_heartbeat_reads_back_as_the_typed_message() {
    let bytes = serialize_frame(heartbeat_frame(200)).unwrap();
    let mut reader = PeekReader::new(std::io::Cursor::new(&bytes[..]));
    let (header, msg) = mavlink::read_versioned_msg::<DialectMessage, _>(
        &mut reader,
        ReadVersion::Single(mavlink::MavlinkVersion::V2),
    )
    .unwrap();
    assert_eq!(header.sequence, 200);
    assert_eq!(header.system_id, 101);
    assert_eq!(header.component_id, 1);
    match msg {
        DialectMessage::HEARTBEAT(data) => {
            assert_eq!(data.custom_mode, 0);
            assert_eq!(data.mavtype, MavType::MAV_TYPE_QUADROTOR);
            assert_eq!(data.autopilot, MavAutopilot::MAV_AUTOPILOT_ARDUPILOTMEGA);
            assert_eq!(data.base_mode, MavModeFlag::empty());
            assert_eq!(data.system_status, MavState::MAV_STATE_STANDBY);
            assert_eq!(data.mavlink_version, 3);
        }
        other => panic!("not a heartbeat: {}", other.message_name()),
    }
}

#[test]
fn v1_heartbeat_is_accepted_and_tagged_v2() {
    let bytes = v1_heartbeat_bytes(33);
    assert_eq!(bytes[0], 0xFE);
    assert_eq!(bytes.len(), 17);
    let frame = deserialize_frame(&bytes).expect("version 1 is the fallback");
    assert_eq!(frame.header, MavHeader { system_id: 42, component_id: 9, sequence: 33 });
    assert_eq!(frame.msg.message_id, 0);
    assert_eq!(frame.msg.payload, vec![0, 0, 0, 0, 2, 3, 0, 3, 3]);
    assert_eq!(frame.protocol_version, MavlinkVersion::V2);
}

#[test]
fn v1_frame_goes_out_as_v2() {
    let frame = deserialize_frame(&v1_heartbeat_bytes(5)).unwrap();
    let bytes = serialize_frame(frame).unwrap();
    assert_eq!(bytes[0], 0xFD);
    assert_eq!(bytes[4], 5);
    assert_eq!(bytes[5], 42);
    assert_eq!(bytes[6], 9);
}

#[test]
fn garbage_is_not_a_frame() {
    assert!(deserialize_frame(&[]).is_none());
    assert!(deserialize_frame(&[0x00, 0x01, 0x02, 0x03]).is_none());
    assert!(deserialize_frame(&[0xFD]).is_none());
    assert!(deserialize_frame(b"DISCOVER_REQUEST").is_none());
}

#[test]
fn corrupted_checksum_is_not_a_frame() {
    let mut bytes = serialize_frame(heartbeat_frame(1)).unwrap();
    let last = bytes.len() - 1;
    bytes[last] ^= 0xFF;
    assert!(deserialize_frame(&bytes).is_none());
}

#[test]
fn truncated_frame_is_not_a_frame() {
    let bytes = serialize_frame(heartbeat_frame(1)).unwrap();
    assert!(deserialize_frame(&bytes[..bytes.len() - 1]).is_none());
}

#[test]
fn deserialize_does_not_hand_the_bytes_back() {
    let bytes = serialize_frame(heartbeat_frame(9)).unwrap();
    let frame = deserialize_frame(&bytes).unwrap();
    assert_ne!(frame.msg.payload, bytes);
    assert_eq!(frame.msg.payload.len(), 9);
}

#[test]
fn serialize_does_not_hand_the_payload_back() {
    let frame = heartbeat_frame(9);
    let bytes = serialize_frame(frame.clone()).unwrap();
    assert_ne!(bytes, frame.msg.payload);
    assert_eq!(bytes.len(), frame.msg.payload.len() + 12);
}

#[test]
fn unknown_message_id_cannot_be_serialized() {
    let frame = MavFramePacket {
        header: MavHeader { system_id: 1, component_id: 1, sequence: 0 },
        msg: MavMessage { message_id: 0x00FF_FFFF, payload: vec![1, 2, 3] },
        protocol_version: MavlinkVersion::V2,
    };
    assert!(serialize_frame(frame).is_none());
}

#[test]
fn serialized_frames_stay_within_the_frame_limit() {
    for id in [0u32, 1, 24, 30, 33, 74, 110, 141, 253] {
        let Some(default) = DialectMessage::default_message_from_id(id) else {
            continue;
        };
        let mut body = [0u8; 255];
        let len = default.ser(mavlink::MavlinkVersion::V2, &mut body);
        let frame = MavFramePacket {
            header: MavHeader { system_id: 1, component_id: 1, sequence: 0 },
            msg: MavMessage { message_id: id, payload: body[..len].to_vec() },
            protocol_version: MavlinkVersion::V2,
        };
        let bytes = serialize_frame(frame).expect("a default message is valid");
        assert!(bytes.len() <= 280);
        let back = deserialize_frame(&bytes).unwrap();
        assert_eq!(back.msg.message_id, id);
    }
}

#[test]
fn select_reading_prefers_version_2() {
    let v2 = (
        MavHeader { system_id: 2, component_id: 2, sequence: 2 },
        MavMessage { message_id: 2, payload: vec![2] },
    );
    let v1 = (
        MavHeader { system_id: 1, component_id: 1, sequence: 1 },
        MavMessage { message_id: 1, payload: vec![1] },
    );
    let both = select_reading(Some(v2.clone()), Some(v1.clone())).unwrap();
    assert_eq!(both.header.sequence, 2);
    assert_eq!(both.msg.message_id, 2);
    assert_eq!(both.protocol_version, MavlinkVersion::V2);
    let fallback = select_reading(None, Some(v1)).unwrap();
    assert_eq!(fallback.header.sequence, 1);
    assert_eq!(fallback.msg.payload, vec![1]);
    assert_eq!(fallback.protocol_version, MavlinkVersion::V2);
    let only_v2 = select_reading(Some(v2), None).unwrap();
    assert_eq!(only_v2.header.system_id, 2);
    assert!(select_reading(None, None).is_none());
}

#[test]
fn message_id_is_written_as_three_little_endian_bytes() {
    let id = 300u32;
    let default = DialectMessage::default_message_from_id(id).expect("id 300 is in the dialect");
    let mut body = [0u8; 255];
    let len = default.ser(mavlink::MavlinkVersion::V2, &mut body);
    let frame = MavFramePacket {
        header: MavHeader { system_id: 9, component_id: 8, sequence: 7 },
        msg: MavMessage { message_id: id, payload: body[..len].to_vec() },
        protocol_version: MavlinkVersion::V2,
    };
    let bytes = serialize_frame(frame).unwrap();
    assert_eq!(bytes[0], 0xFD);
    assert_eq!(usize::from(bytes[1]), bytes.len() - 12);
    assert_eq!(&bytes[2..10], &[0, 0, 7, 9, 8, 44, 1, 0]);
}

#[test]
fn every_default_message_of_the_dialect_keeps_the_header_layout_and_round_trips() {
    let mut seen = 0;
    for id in 0u32..=60_000 {
        let Some(default) = DialectMessage::default_message_from_id(id) else {
            continue;
        };
        seen += 1;
        let mut body = [0u8; 255];
        let len = default.ser(mavlink::MavlinkVersion::V2, &mut body);
        let header = MavHeader {
            system_id: (id % 251) as u8,
            component_id: (id % 7) as u8,
            sequence: (id % 256) as u8,
        };
        let frame = MavFramePacket {
            header,
            msg: MavMessage { message_id: id, payload: body[..len].to_vec() },
            protocol_version: MavlinkVersion::V2,
        };
        let bytes = serialize_frame(frame.clone()).expect("a default message is valid");
        assert!(bytes.len() >= 12 && bytes.len() <= 280, "id {id}");
        assert_eq!(bytes[0], 0xFD, "id {id}");
        assert_eq!(usize::from(bytes[1]), bytes.len() - 12, "id {id}");
        assert_eq!(bytes[2], 0, "id {id}");
        assert_eq!(bytes[3], 0, "id {id}");
        assert_eq!(bytes[4], header.sequence, "id {id}");
        assert_eq!(bytes[5], header.system_id, "id {id}");
        assert_eq!(bytes[6], header.component_id, "id {id}");
        assert_eq!(u32::from(bytes[7]), id % 256, "id {id}");
        assert_eq!(u32::from(bytes[8]), (id / 256) % 256, "id {id}");
        assert_eq!(u32::from(bytes[9]), (id / 65536) % 256, "id {id}");
        let back = deserialize_frame(&bytes).expect("what was written can be read");
        assert_eq!(back.header, header, "id {id}");
        assert_eq!(back.msg.message_id, id, "id {id}");
        assert_eq!(back.msg.payload, frame.msg.payload, "id {id}");
        assert_eq!(back.protocol_version, MavlinkVersion::V2);
    }
    assert!(seen > 100, "the dialect holds {seen} messages");
}

#[test]
fn frame_behind_garbage_is_found() {
    let mut bytes = vec![0x00, 0x11, 0x22];
    bytes.extend(serialize_frame(heartbeat_frame(77)).unwrap());
    let frame = deserialize_frame(&bytes).expect("the reader skips to the marker");
    assert_eq!(frame.header.sequence, 77);
}
