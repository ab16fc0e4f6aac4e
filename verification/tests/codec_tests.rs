//! Wire codec tests: tag conversions, message constructors, and the
//! encode/decode round trip for commands and telemetry.

use tcspecial::commands::{Command, CommandType, ConfigCommand, ConfigDHCommand, PingCommand,
    QueryDHCommand, RestartArmCommand, RestartCommand, StartDHCommand, StopDHCommand};
use tcspecial::protocol::MessageFrame;
use tcspecial::telemetry::{BeaconTelemetry, PingTelemetry, QueryDHTelemetry, Telemetry,
    TelemetryType};
use tcspecial::types::{ArmKey, BeaconTime, CommandStatus, DHId, DHName, DHType, ErrorCode,
    Statistics, Timestamp};
use tcspecial::wire::{decode_command, decode_telemetry, encode_command, encode_telemetry};

#[test]
fn test_command_type_conversion() {
    let cmd_type = CommandType::Ping;
    assert_eq!(cmd_type.to_u8(), 0x01);
    assert_eq!(CommandType::from_u8(0x01), Some(CommandType::Ping));
}

#[test]
fn test_ping_command() {
    let cmd = PingCommand::new(1);
    assert_eq!(cmd.header.sequence, 1);
    assert_eq!(cmd.header.cmd_type, CommandType::Ping);
}

#[test]
fn test_command_serialization() {
    let cmd = Command::Ping(PingCommand::new(42));
    let bytes = encode_command(&cmd);
    let deserialized = decode_command(&bytes).unwrap();
    assert_eq!(cmd, deserialized);
}

#[test]
fn test_command_round_trip_all_kinds() {
    let cmds = vec![
        Command::Ping(PingCommand::new(1)),
        Command::RestartArm(RestartArmCommand::new(2, ArmKey(0xF001ADAD))),
        Command::Restart(RestartCommand::new(3, ArmKey(0xDEADBEEF))),
        Command::StartDH(StartDHCommand::new(
            4,
            DHId(3),
            DHType::Network,
            DHName::new(String::from("127.0.0.1:5003")),
        )),
        Command::StartDH(StartDHCommand::new(
            5,
            DHId(2),
            DHType::Device,
            DHName::new(String::from("/dev/urandom")),
        )),
        Command::StopDH(StopDHCommand::new(6, DHId(3))),
        Command::QueryDH(QueryDHCommand::new(7, DHId(3))),
        Command::Config(ConfigCommand::new(8, BeaconTime(1000))),
        Command::Config(ConfigCommand::new_without_interval(10)),
        Command::ConfigDH(ConfigDHCommand::new(9, DHId(0))),
    ];
    for cmd in cmds {
        let bytes = encode_command(&cmd);
        let decoded = decode_command(&bytes).expect("round trip must decode");
        assert_eq!(cmd, decoded);
    }
}

#[test]
fn test_ping_command_exact_bytes() {
    let cmd = Command::Ping(PingCommand::new(42));
    let bytes = encode_command(&cmd);
    assert_eq!(bytes, vec![1u8, 0, 0, 10, 0, 1, 0, 0, 0, 42]);
}

#[test]
fn test_decode_rejects_bad_header() {
    let good = encode_command(&Command::Ping(PingCommand::new(7)));
    let mut bad_version = good.clone();
    bad_version[0] = 2;
    assert!(decode_command(&bad_version).is_none());
    let mut bad_kind = good.clone();
    bad_kind[1] = 1;
    assert!(decode_command(&bad_kind).is_none());
    let mut bad_length = good.clone();
    bad_length[3] = 11;
    assert!(decode_command(&bad_length).is_none());
    let mut truncated = good.clone();
    truncated.pop();
    assert!(decode_command(&truncated).is_none());
}

#[test]
fn test_decode_rejects_empty_datagram() {
    assert!(decode_command(&[]).is_none());
    assert!(decode_telemetry(&[]).is_none());
}

#[test]
fn test_decode_rejects_invalid_name_bytes() {
    // A StartDH whose name bytes are not valid UTF-8 must be dropped.
    let cmd = Command::StartDH(StartDHCommand::new(
        4,
        DHId(1),
        DHType::Network,
        DHName::new(String::from("ab:1")),
    ));
    let mut bytes = encode_command(&cmd);
    let n = bytes.len();
    bytes[n - 1] = 0xFF;
    assert!(decode_command(&bytes).is_none());
}

#[test]
fn test_telemetry_type_conversion() {
    let tm_type = TelemetryType::Ping;
    assert_eq!(tm_type.to_u8(), 0x81);
    assert_eq!(TelemetryType::from_u8(0x81), Some(TelemetryType::Ping));
}

#[test]
fn test_ping_telemetry() {
    let tm = PingTelemetry::new(1, CommandStatus::Success);
    assert_eq!(tm.header.sequence, 1);
    assert_eq!(tm.header.status, CommandStatus::Success);
}

#[test]
fn test_beacon_telemetry() {
    let tm = BeaconTelemetry::new();
    assert_eq!(tm.header.tm_type, TelemetryType::Beacon);
}

#[test]
fn test_telemetry_serialization() {
    let tm = Telemetry::Ping(PingTelemetry::new(42, CommandStatus::Success));
    let bytes = encode_telemetry(&tm);
    let deserialized = decode_telemetry(&bytes).unwrap();
    assert_eq!(tm.sequence(), deserialized.sequence());
}

#[test]
fn test_telemetry_round_trip_query() {
    let mut stats = Statistics::new();
    stats.bytes_received = 1234;
    stats.reads_completed = 56;
    stats.timestamp = Some(Timestamp::new(1234567890, 123456789));
    let tm = Telemetry::QueryDH(QueryDHTelemetry::new(
        9,
        CommandStatus::Failure(ErrorCode::DHNotFound),
        DHId(3),
        stats,
    ));
    let bytes = encode_telemetry(&tm);
    let decoded = decode_telemetry(&bytes).unwrap();
    match decoded {
        Telemetry::QueryDH(q) => {
            assert_eq!(q.header.sequence, 9);
            assert_eq!(q.header.status, CommandStatus::Failure(ErrorCode::DHNotFound));
            assert_eq!(q.dh_id, DHId(3));
            assert_eq!(q.statistics.bytes_received, 1234);
            assert_eq!(q.statistics.reads_completed, 56);
            assert_eq!(q.statistics.timestamp, Some(Timestamp::new(1234567890, 123456789)));
        }
        _ => panic!("wrong telemetry kind"),
    }
}

#[test]
fn test_message_frame() {
    let data = vec![1, 2, 3, 4, 5];
    let frame = MessageFrame::new(data.clone());
    let bytes = frame.to_bytes();
    let parsed = MessageFrame::from_bytes(&bytes).unwrap();
    assert_eq!(parsed.data, data);
}

#[test]
fn test_message_frame_short_input() {
    assert!(MessageFrame::from_bytes(&[0, 0]).is_none());
    assert!(MessageFrame::from_bytes(&[0, 0, 0, 9, 1, 2]).is_none());
}
