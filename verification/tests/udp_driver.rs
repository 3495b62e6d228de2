use mavlink::ardupilotmega::MavMessage as DialectMessage;
use mavlink::{MAVLinkV2MessageRaw, Message};
use mavlink_network_node::driver::udp_driver::{
    filter_redundant_telemetry, is_redundant_telemetry, UDPConfig, UDPDriver, UDP_DRIVER,
};
use mavlink_network_node::driver::{Driver, LinkReport, LinkRole};
use mavlink_network_node::utils::mavlink_utils::heartbeat_message;
use mavlink_network_node::utils::types::{MavFramePacket, MavHeader, MavMessage, MavlinkVersion};

fn driver() -> UDPDriver {
    UDPDriver::new(UDPConfig {
        addr: "0.0.0.0:0".to_string(),
        dest_addr: "192.168.1.255:14550".to_string(),
        broadcast: true,
    })
}

fn frame_with_id(message_id: u32) -> MavFramePacket {
    MavFramePacket {
        header: MavHeader { system_id: 1, component_id: 1, sequence: 3 },
        msg: MavMessage { message_id, payload: vec![1, 2, 3] },
        protocol_version: MavlinkVersion::V2,
    }
}

fn wire_bytes_of_default(message_id: u32) -> Vec<u8> {
    let message = DialectMessage::default_message_from_id(message_id)
        .expect("the id is part of the dialect");
    let mut raw = MAVLinkV2MessageRaw::new();
    raw.serialize_message(
        mavlink::MavHeader { system_id: 1, component_id: 1, sequence: 11 },
        &message,
    );
    raw.raw_bytes().to_vec()
}

#[test]
fn redundant_ids_are_exactly_four() {
    let redundant: Vec<u32> = (0u32..2000).filter(|id| is_redundant_telemetry(*id)).collect();
    assert_eq!(redundant, vec![30, 74, 141, 410]);
    assert!(!is_redundant_telemetry(u32::MAX));
}

#[test]
fn filter_drops_redundant_frames() {
    for id in [30u32, 74, 141, 410] {
        assert!(filter_redundant_telemetry(Some(frame_with_id(id))).is_none());
    }
}

#[test]
fn filter_passes_other_frames_unchanged() {
    for id in [0u32, 1, 29, 31, 73, 75, 140, 142, 409, 411, 0x00FF_FFFF] {
        let passed = filter_redundant_telemetry(Some(frame_with_id(id))).unwrap();
        assert_eq!(passed.msg.message_id, id);
        assert_eq!(passed.msg.payload, vec![1, 2, 3]);
        assert_eq!(passed.header, MavHeader { system_id: 1, component_id: 1, sequence: 3 });
    }
    assert!(filter_redundant_telemetry(None).is_none());
}

#[test]
fn udp_receive_drops_attitude() {
    let datagram = wire_bytes_of_default(30);
    assert!(driver().receive(&datagram).is_none());
}

#[test]
fn udp_receive_drops_vfr_hud_and_altitude() {
    assert!(driver().receive(&wire_bytes_of_default(74)).is_none());
    assert!(driver().receive(&wire_bytes_of_default(141)).is_none());
}

#[test]
fn udp_receive_passes_a_heartbeat() {
    let datagram = wire_bytes_of_default(0);
    let frame = driver().receive(&datagram).expect("a heartbeat passes");
    assert_eq!(frame.msg.message_id, 0);
    assert_eq!(frame.header.sequence, 11);
}

#[test]
fn udp_receive_passes_other_telemetry() {
    for id in [1u32, 24, 33] {
        let frame = driver().receive(&wire_bytes_of_default(id)).unwrap();
        assert_eq!(frame.msg.message_id, id);
    }
}

#[test]
fn udp_receive_ignores_garbage() {
    assert!(driver().receive(&[]).is_none());
    assert!(driver().receive(&[1, 2, 3, 4, 5]).is_none());
}

#[test]
fn udp_send_is_the_v2_encoding() {
    let frame = MavFramePacket {
        header: MavHeader { system_id: 201, component_id: 1, sequence: 4 },
        msg: heartbeat_message(),
        protocol_version: MavlinkVersion::V2,
    };
    let datagram = driver().send(&frame).unwrap();
    assert_eq!(datagram[0], 0xFD);
    assert_eq!(datagram[4], 4);
    assert_eq!(datagram[5], 201);
    assert_eq!(datagram.len(), 21);
    let back = driver().receive(&datagram).unwrap();
    assert_eq!(back.header, frame.header);
}

#[test]
fn udp_driver_identity_and_role() {
    let udp = driver();
    assert_eq!(udp.identity(), "udp_driver");
    assert_eq!(UDP_DRIVER, "udp_driver");
    assert_eq!(udp.link_role(), LinkRole::FullDuplex);
    assert_eq!(udp.addr(), "0.0.0.0:0");
    assert_eq!(udp.dest_addr(), "192.168.1.255:14550");
    assert!(udp.broadcast());
}

#[test]
fn udp_driver_has_nothing_to_arm() {
    let mut udp = driver();
    assert_eq!(udp.prepare_to_receive(LinkReport::Done), Ok(()));
    assert_eq!(udp.prepare_to_receive(LinkReport::Failed), Ok(()));
    assert_eq!(udp.prepare_to_send(LinkReport::Failed), Ok(()));
    assert_eq!(udp.ready_to_receive(LinkReport::Failed), Ok(()));
}

#[test]
fn default_sockets_of_the_roles() {
    let drone = UDPConfig::for_node(mavlink_network_node::utils::types::NodeType::Drone);
    assert_eq!(drone.addr, "0.0.0.0:0");
    assert_eq!(drone.dest_addr, "192.168.0.255:14540");
    assert!(drone.broadcast);
    let gateway = UDPConfig::for_node(mavlink_network_node::utils::types::NodeType::Gateway);
    assert_eq!(gateway.addr, "0.0.0.0:0");
    assert_eq!(gateway.dest_addr, "192.168.1.255:14550");
    assert!(gateway.broadcast);
}

#[test]
fn udp_receive_reports_an_undecodable_datagram() {
    let (frame, report) = driver().receive_or_report(&[9, 8, 7]);
    assert!(frame.is_none());
    let report = report.expect("bytes without a frame are reported");
    assert_eq!(report.driver, "udp_driver");
    assert_eq!(report.message, "Packet receive failed");
    assert_eq!(report.error.as_deref(), Some("Failed to deserialize mavlink frame"));
    assert_eq!(report.packet.as_deref(), Some("[9, 8, 7]"));
}

#[test]
fn udp_receive_drops_redundant_telemetry_without_a_report() {
    let (frame, report) = driver().receive_or_report(&wire_bytes_of_default(30));
    assert!(frame.is_none());
    assert!(report.is_none());
    let (frame, report) = driver().receive_or_report(&wire_bytes_of_default(0));
    assert_eq!(frame.unwrap().header.sequence, 11);
    assert!(report.is_none());
}
