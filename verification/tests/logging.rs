use mavlink_network_node::network::bridge::BridgeLog;
use mavlink_network_node::network::NetworkLog;
use mavlink_network_node::utils::adapter::{prepare_transfer, BlockingAsync};
use mavlink_network_node::utils::delay_adapter::WithDelayNs;
use mavlink_network_node::utils::logging_utils::{
    log_bridge, log_debug_receive_packet, log_debug_send_packet, log_debug_send_to_main,
    log_debug_send_to_network, log_driver_creation, log_listen_initiated, log_network,
    log_network_interface_creation, log_network_interface_running, log_packet_receive_error,
    log_packet_transmit_error, log_transmit_error, log_transmit_initiated,
    packet_transmit_error_record, receive_packet_record, send_packet_record, LogLevel, LogRecord,
};

fn assert_plain(record: &LogRecord, level: LogLevel, target: &str, driver: &str, message: &str) {
    assert_eq!(record.level, level);
    assert_eq!(record.target, target);
    assert_eq!(record.driver, driver);
    assert_eq!(record.message, message);
    assert_eq!(record.rssi, None);
    assert_eq!(record.snr, None);
}

#[test]
fn plain_records() {
    let cases = [
        (log_driver_creation("udp_driver"), LogLevel::Debug, "network", "Driver instance created"),
        (log_transmit_initiated("udp_driver"), LogLevel::Info, "network", "Transmit initiated"),
        (log_listen_initiated("udp_driver"), LogLevel::Info, "network", "Listen initiated"),
        (log_debug_send_to_main("udp_driver"), LogLevel::Debug, "network", "Send to main"),
        (log_debug_send_to_network("udp_driver"), LogLevel::Debug, "main", "Send to network"),
        (
            log_network_interface_creation("udp_driver"),
            LogLevel::Debug,
            "network",
            "Network interface created",
        ),
        (
            log_network_interface_running("udp_driver"),
            LogLevel::Info,
            "network",
            "Running network interface",
        ),
    ];
    for (record, level, target, message) in cases {
        assert_plain(&record, level, target, "udp_driver", message);
        assert_eq!(record.error, None);
        assert_eq!(record.packet, None);
    }
}

#[test]
fn error_records() {
    let record = log_packet_receive_error("lora_driver", "timeout");
    assert_plain(&record, LogLevel::Error, "network", "lora_driver", "Packet receive failed");
    assert_eq!(record.error.as_deref(), Some("timeout"));
    assert_eq!(record.packet, None);

    let record = log_transmit_error("lora_driver", "busy");
    assert_plain(&record, LogLevel::Error, "network", "lora_driver", "Transmit error");
    assert_eq!(record.error.as_deref(), Some("busy"));

    let record = log_packet_transmit_error("lora_driver", &(1u8, "x"), "no ack");
    assert_plain(&record, LogLevel::Error, "network", "lora_driver", "Packet transmit failed");
    assert_eq!(record.error.as_deref(), Some("no ack"));
    assert_eq!(record.packet.as_deref(), Some("(1, \"x\")"));

    let record = packet_transmit_error_record("d", "P".to_string(), "e");
    assert_eq!(record.packet.as_deref(), Some("P"));
    assert_eq!(record.error.as_deref(), Some("e"));
}

#[test]
fn packet_records() {
    let record = log_debug_send_packet("udp_driver", &vec![1u8, 2]);
    assert_plain(&record, LogLevel::Debug, "network", "udp_driver", "Sending packet");
    assert_eq!(record.packet.as_deref(), Some("[1, 2]"));
    assert_eq!(record.error, None);

    let record = log_debug_receive_packet("lora_driver", &7u32, Some(-70), Some(5));
    assert_eq!(record.level, LogLevel::Debug);
    assert_eq!(record.message, "Received packet");
    assert_eq!(record.packet.as_deref(), Some("7"));
    assert_eq!(record.rssi, Some(-70));
    assert_eq!(record.snr, Some(5));

    let record = log_debug_receive_packet("udp_driver", &7u32, None, None);
    assert_eq!(record.rssi, None);
    assert_eq!(record.snr, None);

    assert_eq!(send_packet_record("d", "text".to_string()).packet.as_deref(), Some("text"));
    let record = receive_packet_record("d", "text".to_string(), Some(1), None);
    assert_eq!(record.packet.as_deref(), Some("text"));
    assert_eq!(record.rssi, Some(1));
}

#[test]
fn records_of_the_network_loops() {
    let record = log_network(NetworkLog::InboundFull, "udp_driver");
    assert_plain(
        &record,
        LogLevel::Error,
        "network",
        "udp_driver",
        "Send channel is full, dropping packet.",
    );
    assert_eq!(record.error, None);

    let record = log_network(NetworkLog::SentToMain, "udp_driver");
    assert_plain(&record, LogLevel::Debug, "network", "udp_driver", "Send to main");

    let record = log_network(NetworkLog::NothingReceived, "lora_driver");
    assert_plain(&record, LogLevel::Debug, "network", "lora_driver", "Packet receive failed");
    assert_eq!(record.error, None);

    let record = log_network(NetworkLog::ReceiveNotPrepared, "lora_driver");
    assert_eq!(record.level, LogLevel::Error);
    assert_eq!(record.message, "Packet receive failed");
    assert_eq!(record.error.as_deref(), Some("Failed to prepare for RX"));

    let record = log_network(NetworkLog::SendNotPrepared, "lora_driver");
    assert_eq!(record.level, LogLevel::Error);
    assert_eq!(record.message, "Transmit error");
    assert_eq!(record.error.as_deref(), Some("Failed to prepare for RX"));
}

#[test]
fn records_of_the_bridge() {
    let record = log_bridge(BridgeLog::SendToNetwork, "udp_driver");
    assert_plain(&record, LogLevel::Debug, "main", "udp_driver", "Send to network");
    let record = log_bridge(BridgeLog::ForwardFailed, "udp_driver");
    assert_eq!(record.level, LogLevel::Error);
    assert_eq!(record.message, "Transmit error");
    assert_eq!(record.error.as_deref(), Some("Outbound channel is closed, dropping packet."));
}

#[test]
fn transfer_fills_the_front_of_the_read_buffer() {
    let mut read = [9u8; 5];
    prepare_transfer(&mut read, &[1, 2, 3]);
    assert_eq!(read, [1, 2, 3, 9, 9]);

    let mut read = [9u8; 2];
    prepare_transfer(&mut read, &[1, 2, 3]);
    assert_eq!(read, [1, 2]);

    let mut read = [9u8; 3];
    prepare_transfer(&mut read, &[]);
    assert_eq!(read, [9, 9, 9]);

    let mut read: [u8; 0] = [];
    prepare_transfer(&mut read, &[1]);
    assert_eq!(read, []);
}

#[test]
fn wrappers_hold_what_they_are_given() {
    let mut adapter = BlockingAsync::new(vec![1, 2, 3]);
    adapter.get_mut().push(4);
    assert_eq!(adapter.into_inner(), vec![1, 2, 3, 4]);

    let mut delay = WithDelayNs::new(5u32);
    *delay.get_mut() += 1;
    assert_eq!(delay.into_inner(), 6);
}

#[test]
fn undecodable_bytes_are_reported_with_their_text() {
    let (frame, report) =
        mavlink_network_node::utils::logging_utils::deserialize_frame_or_report("udp_driver", &[1, 2]);
    assert!(frame.is_none());
    let report = report.expect("bytes without a frame are reported");
    assert_eq!(report.level, LogLevel::Error);
    assert_eq!(report.driver, "udp_driver");
    assert_eq!(report.message, "Packet receive failed");
    assert_eq!(report.error.as_deref(), Some("Failed to deserialize mavlink frame"));
    assert_eq!(report.packet.as_deref(), Some("[1, 2]"));
}

#[test]
fn decodable_bytes_are_not_reported() {
    let frame = mavlink_network_node::utils::types::MavFramePacket {
        header: mavlink_network_node::utils::types::MavHeader {
            system_id: 1,
            component_id: 1,
            sequence: 1,
        },
        msg: mavlink_network_node::utils::mavlink_utils::heartbeat_message(),
        protocol_version: mavlink_network_node::utils::types::MavlinkVersion::V2,
    };
    let bytes = mavlink_network_node::utils::mavlink_utils::serialize_frame(frame).unwrap();
    let (frame, report) =
        mavlink_network_node::utils::logging_utils::deserialize_frame_or_report("udp_driver", &bytes);
    assert_eq!(frame.unwrap().header.sequence, 1);
    assert!(report.is_none());
}

#[test]
fn wire_records() {
    let frame = mavlink_network_node::utils::types::MavFramePacket {
        header: mavlink_network_node::utils::types::MavHeader {
            system_id: 1,
            component_id: 1,
            sequence: 42,
        },
        msg: mavlink_network_node::utils::mavlink_utils::heartbeat_message(),
        protocol_version: mavlink_network_node::utils::types::MavlinkVersion::V2,
    };
    let record = mavlink_network_node::utils::logging_utils::log_packet_received(
        21,
        Some("10.0.0.1:14550"),
        &frame,
        "udp_driver",
    );
    assert_plain(&record, LogLevel::Info, "network", "udp_driver", "Received packet");
    assert_eq!(record.size, Some(21));
    assert_eq!(record.peer.as_deref(), Some("10.0.0.1:14550"));
    assert_eq!(record.message_id, Some(0));
    assert_eq!(record.message_seq, Some(42));

    let record = mavlink_network_node::utils::logging_utils::log_packet_sent(
        17,
        None,
        &frame,
        "lora_driver",
    );
    assert_plain(&record, LogLevel::Info, "network", "lora_driver", "Sending packet");
    assert_eq!(record.size, Some(17));
    assert_eq!(record.peer, None);
    assert_eq!(record.message_seq, Some(42));
}
