//! Value type tests: timestamps, ids, statistics and error codes.

use tcspecial::error::TcsError;
use tcspecial::types::{CanonicalSocketType, DHId, ErrorCode, Statistics, Timestamp};

#[test]
fn test_timestamp() {
    let ts = Timestamp::new(1234567890, 123456789);
    assert_eq!(ts.seconds, 1234567890);
    assert_eq!(ts.nanoseconds, 123456789);
}

#[test]
fn test_timestamp_now_is_well_formed() {
    let ts = Timestamp::now();
    assert!(ts.nanoseconds < 1_000_000_000);
    assert!(ts.seconds > 0);
}

#[test]
fn test_dh_id_ordering() {
    let id1 = DHId(1);
    let id2 = DHId(2);
    assert!(id1 < id2);
}

#[test]
fn test_statistics_default() {
    let stats = Statistics::new();
    assert_eq!(stats.bytes_received, 0);
    assert_eq!(stats.reads_completed, 0);
}

#[test]
fn test_statistics_merge_saturates() {
    let mut a = Statistics::new();
    a.bytes_received = u64::MAX - 1;
    let mut b = Statistics::new();
    b.bytes_received = 10;
    b.writes_failed = 3;
    a.merge(&b);
    assert_eq!(a.bytes_received, u64::MAX);
    assert_eq!(a.writes_failed, 3);
}

#[test]
fn test_socket_type_semantics() {
    assert!(CanonicalSocketType::Stream.is_stream());
    assert!(CanonicalSocketType::Dgram.is_datagram());
    assert!(CanonicalSocketType::SeqPacket.is_datagram());
}

#[test]
fn test_error_code_conversion() {
    let err = TcsError::Timeout;
    assert_eq!(err.to_error_code(), ErrorCode::IoError);
}

#[test]
fn test_error_code_mapping_all_variants() {
    assert_eq!(TcsError::Io(String::from("x")).to_error_code(), ErrorCode::IoError);
    assert_eq!(TcsError::Serialization(String::from("x")).to_error_code(), ErrorCode::InvalidCommand);
    assert_eq!(TcsError::protocol(String::from("x")).to_error_code(), ErrorCode::InvalidCommand);
    assert_eq!(TcsError::data_handler(String::from("x")).to_error_code(), ErrorCode::DHNotFound);
    assert_eq!(
        TcsError::command(ErrorCode::InvalidArmKey, String::from("x")).to_error_code(),
        ErrorCode::InvalidArmKey
    );
    assert_eq!(
        TcsError::configuration(String::from("x")).to_error_code(),
        ErrorCode::InvalidConfiguration
    );
    assert_eq!(
        TcsError::resource_allocation(String::from("x")).to_error_code(),
        ErrorCode::ResourceAllocationFailed
    );
    assert_eq!(TcsError::ConnectionClosed.to_error_code(), ErrorCode::IoError);
    assert_eq!(TcsError::invalid_state(String::from("x")).to_error_code(), ErrorCode::Unknown);
}

#[test]
fn test_error_code_wire_round_trip() {
    let codes = [
        ErrorCode::Unknown,
        ErrorCode::InvalidCommand,
        ErrorCode::DHNotFound,
        ErrorCode::DHAlreadyExists,
        ErrorCode::InvalidArmKey,
        ErrorCode::RestartNotArmed,
        ErrorCode::ArmWindowExpired,
        ErrorCode::ResourceAllocationFailed,
        ErrorCode::InvalidConfiguration,
        ErrorCode::IoError,
    ];
    for code in codes {
        assert_eq!(ErrorCode::from_u16(code.to_u16()), Some(code));
    }
    assert_eq!(ErrorCode::from_u16(10), None);
}
