//! Command interpreter scenarios: ping, the arm/restart window, data
//! handler lifecycle, duplicate ids, capacity, and the beacon cadence.

use tcspecial::ci::{CommandInterpreter, StartIoOutcome};
use tcspecial::conduit::{Conduit, ConduitDirection, ConduitEvent, WriteOutcome};
use tcspecial::commands::{Command, ConfigCommand, PingCommand, QueryDHCommand, RestartArmCommand,
    RestartCommand, StartDHCommand, StopDHCommand};
use tcspecial::config::{DHConfig, TcspecialConfig};
use tcspecial::dh::{DataHandler, DHManager, DHState};
use tcspecial::telemetry::Telemetry;
use tcspecial::types::{ArmKey, BeaconTime, CommandStatus, DHId, DHName, DHType, ErrorCode};
use tcspecial::wire::decode_telemetry;
use tcspecial::ARM_WINDOW_SECS;

fn new_ci() -> CommandInterpreter {
    CommandInterpreter::new(TcspecialConfig::new_default(), 0)
}

fn start_cmd(seq: u32, id: u32, name: &str) -> Command {
    Command::StartDH(StartDHCommand::new(
        seq,
        DHId(id),
        DHType::Network,
        DHName::new(String::from(name)),
    ))
}

#[test]
fn test_arm_window() {
    assert_eq!(ARM_WINDOW_SECS, 60);
}

#[test]
fn test_ci_creation() {
    let ci = new_ci();
    assert!(ci.running);
    assert!(ci.arm_state.is_none());
}

#[test]
fn test_ping_round_trip() {
    // Ping{seq=42} comes back as Ping{seq=42, status=Success} with a
    // real timestamp.
    let mut ci = new_ci();
    let reply = ci.process_command(Command::Ping(PingCommand::new(42)), 5, StartIoOutcome::Ready);
    match reply {
        Telemetry::Ping(p) => {
            assert_eq!(p.header.sequence, 42);
            assert_eq!(p.header.status, CommandStatus::Success);
            assert!(p.timestamp.seconds > 0);
        }
        _ => panic!("expected a ping reply"),
    }
}

#[test]
fn test_reply_echoes_sequence() {
    let mut ci = new_ci();
    let commands = vec![
        Command::Ping(PingCommand::new(10)),
        Command::RestartArm(RestartArmCommand::new(11, ArmKey(1))),
        start_cmd(12, 0, "127.0.0.1:5003"),
        Command::QueryDH(QueryDHCommand::new(13, DHId(0))),
        Command::StopDH(StopDHCommand::new(14, DHId(0))),
        Command::Config(ConfigCommand::new(15, BeaconTime(1000))),
    ];
    for (i, cmd) in commands.into_iter().enumerate() {
        let seq = 10 + i as u32;
        let reply = ci.process_command(cmd, 0, StartIoOutcome::Ready);
        assert_eq!(reply.sequence(), seq);
    }
}

#[test]
fn test_arm_then_restart() {
    // RestartArm{key=0xF001ADAD} then a wrong key, then the right one.
    let mut ci = new_ci();
    let r1 = ci.process_command(
        Command::RestartArm(RestartArmCommand::new(10, ArmKey(0xF001ADAD))),
        1000,
        StartIoOutcome::Ready,
    );
    assert_eq!(r1.status(), CommandStatus::Success);
    let r2 = ci.process_command(
        Command::Restart(RestartCommand::new(11, ArmKey(0xDEADBEEF))),
        2000,
        StartIoOutcome::Ready,
    );
    assert_eq!(r2.status(), CommandStatus::Failure(ErrorCode::InvalidArmKey));
    assert!(ci.running);
    assert!(ci.arm_state.is_some());
    let r3 = ci.process_command(
        Command::Restart(RestartCommand::new(12, ArmKey(0xF001ADAD))),
        3000,
        StartIoOutcome::Ready,
    );
    assert_eq!(r3.status(), CommandStatus::Success);
    assert!(!ci.running);
    assert!(ci.arm_state.is_none());
}

#[test]
fn test_arm_window_expiry() {
    // Arm, wait 61 s, restart with the right key: ArmWindowExpired.
    let mut ci = new_ci();
    let r1 = ci.process_command(
        Command::RestartArm(RestartArmCommand::new(20, ArmKey(1))),
        0,
        StartIoOutcome::Ready,
    );
    assert_eq!(r1.status(), CommandStatus::Success);
    let r2 = ci.process_command(
        Command::Restart(RestartCommand::new(21, ArmKey(1))),
        61_000,
        StartIoOutcome::Ready,
    );
    assert_eq!(r2.status(), CommandStatus::Failure(ErrorCode::ArmWindowExpired));
    assert!(ci.running);
    assert!(ci.arm_state.is_none());
}

#[test]
fn test_restart_not_armed() {
    let mut ci = new_ci();
    let r = ci.process_command(Command::Restart(RestartCommand::new(1, ArmKey(1))), 0, StartIoOutcome::Ready);
    assert_eq!(r.status(), CommandStatus::Failure(ErrorCode::RestartNotArmed));
}

#[test]
fn test_rearm_resets_window() {
    let mut ci = new_ci();
    ci.process_command(Command::RestartArm(RestartArmCommand::new(1, ArmKey(1))), 0, StartIoOutcome::Ready);
    ci.process_command(Command::RestartArm(RestartArmCommand::new(2, ArmKey(2))), 50_000, StartIoOutcome::Ready);
    // The old key no longer matches; the new window is still open at 100 s.
    let r = ci.process_command(Command::Restart(RestartCommand::new(3, ArmKey(2))), 100_000, StartIoOutcome::Ready);
    assert_eq!(r.status(), CommandStatus::Success);
}

#[test]
fn test_start_query_stop_dh() {
    // StartDH, query zero counters, account relayed bytes, query again,
    // stop twice idempotently.
    let mut ci = new_ci();
    let r1 = ci.process_command(start_cmd(1, 3, "127.0.0.1:5003"), 0, StartIoOutcome::Ready);
    assert_eq!(r1.status(), CommandStatus::Success);
    let r2 = ci.process_command(Command::QueryDH(QueryDHCommand::new(2, DHId(3))), 1, StartIoOutcome::Ready);
    match r2 {
        Telemetry::QueryDH(q) => {
            assert_eq!(q.header.status, CommandStatus::Success);
            assert_eq!(q.statistics.bytes_received, 0);
        }
        _ => panic!("expected a query reply"),
    }
    let mut p2g = tcspecial::types::Statistics::new();
    p2g.bytes_received = 15;
    p2g.reads_completed = 1;
    let g2p = tcspecial::types::Statistics::new();
    ci.dh_manager.record_relay_stats(DHId(3), &g2p, &p2g).unwrap();
    let r3 = ci.process_command(Command::QueryDH(QueryDHCommand::new(3, DHId(3))), 2, StartIoOutcome::Ready);
    match r3 {
        Telemetry::QueryDH(q) => {
            assert_eq!(q.header.status, CommandStatus::Success);
            assert!(q.statistics.bytes_received >= 15);
        }
        _ => panic!("expected a query reply"),
    }
    let r4 = ci.process_command(Command::StopDH(StopDHCommand::new(4, DHId(3))), 3, StartIoOutcome::Ready);
    assert_eq!(r4.status(), CommandStatus::Success);
    let r5 = ci.process_command(Command::StopDH(StopDHCommand::new(5, DHId(3))), 4, StartIoOutcome::Ready);
    assert_eq!(r5.status(), CommandStatus::Success);
}

#[test]
fn test_duplicate_dh_id() {
    // The documented policy: a second StartDH with the same id is
    // rejected with DHAlreadyExists, consistently.
    let mut ci = new_ci();
    let r1 = ci.process_command(start_cmd(1, 0, "127.0.0.1:5000"), 0, StartIoOutcome::Ready);
    assert_eq!(r1.status(), CommandStatus::Success);
    let r2 = ci.process_command(start_cmd(2, 0, "127.0.0.1:5001"), 1, StartIoOutcome::Ready);
    assert_eq!(r2.status(), CommandStatus::Failure(ErrorCode::DHAlreadyExists));
    let r3 = ci.process_command(start_cmd(3, 0, "127.0.0.1:5002"), 2, StartIoOutcome::Ready);
    assert_eq!(r3.status(), CommandStatus::Failure(ErrorCode::DHAlreadyExists));
}

#[test]
fn test_max_data_handlers_reached() {
    // With the capacity exactly reached, the next create fails with
    // ResourceAllocationFailed.
    let mut ci = new_ci();
    for i in 0..8u32 {
        let r = ci.process_command(start_cmd(i, i, "127.0.0.1:5000"), 0, StartIoOutcome::Ready);
        assert_eq!(r.status(), CommandStatus::Success);
    }
    let r = ci.process_command(start_cmd(100, 100, "127.0.0.1:5000"), 0, StartIoOutcome::Ready);
    assert_eq!(r.status(), CommandStatus::Failure(ErrorCode::ResourceAllocationFailed));
}

#[test]
fn test_start_dh_invalid_name() {
    let mut ci = new_ci();
    let r = ci.process_command(start_cmd(1, 0, "no-port-here"), 0, StartIoOutcome::Ready);
    assert_eq!(r.status(), CommandStatus::Failure(ErrorCode::InvalidConfiguration));
}

#[test]
fn test_start_dh_io_failure_keeps_created() {
    // A socket failure after a good parse: the reply is IoError and the
    // handler stays created, not active.
    let mut ci = new_ci();
    let r = ci.process_command(start_cmd(1, 0, "127.0.0.1:5000"), 0, StartIoOutcome::OpenFailed);
    assert_eq!(r.status(), CommandStatus::Failure(ErrorCode::IoError));
    // A later stop still succeeds and the handler winds up stopped.
    let r2 = ci.process_command(Command::StopDH(StopDHCommand::new(2, DHId(0))), 1, StartIoOutcome::Ready);
    assert_eq!(r2.status(), CommandStatus::Success);
}

#[test]
fn test_stop_window_never_dangles() {
    // Stop interleaved with activation: a handler is stopped or created
    // afterwards, never stuck active.
    let mut manager = DHManager::new(8);
    manager
        .create_dh(
            DHId(1),
            DHType::Network,
            DHName::new(String::from("127.0.0.1:5001")),
            DHConfig::datagram(),
            true,
        )
        .unwrap();
    // Stop lands before activation completes: activation must then fail
    // and the state stays stopped.
    manager.stop_dh(DHId(1)).unwrap();
    assert!(manager.activate_dh(DHId(1)).is_err());
    let stats = manager.get_dh_stats(DHId(1));
    assert!(stats.is_ok());
}

#[test]
fn test_dh_manager_create() {
    let mut manager = DHManager::new(8);
    let result = manager.create_dh(
        DHId(0),
        DHType::Network,
        DHName::new(String::from("localhost:5000")),
        DHConfig::default(),
        true,
    );
    assert!(result.is_ok());

    // Creating a duplicate should fail.
    let result2 = manager.create_dh(
        DHId(0),
        DHType::Network,
        DHName::new(String::from("localhost:5001")),
        DHConfig::default(),
        true,
    );
    assert!(result2.is_err());
}

#[test]
fn test_dh_state() {
    let dh = DataHandler::new(
        DHId(0),
        DHType::Network,
        DHName::new(String::from("localhost:5000")),
        DHConfig::default(),
    );
    assert_eq!(dh.get_state(), DHState::Created);
}

#[test]
fn test_registry_lifecycle_query_until_stop() {
    // After a successful create, queries succeed; stop is idempotent
    // and a stopped handler still answers queries.
    let mut manager = DHManager::new(8);
    manager
        .create_dh(
            DHId(5),
            DHType::Network,
            DHName::new(String::from("localhost:5005")),
            DHConfig::datagram(),
            true,
        )
        .unwrap();
    assert!(manager.get_dh_stats(DHId(5)).is_ok());
    manager.stop_dh(DHId(5)).unwrap();
    manager.stop_dh(DHId(5)).unwrap();
    assert!(manager.get_dh_stats(DHId(5)).is_ok());
    assert!(manager.get_dh_stats(DHId(6)).is_err());
}

#[test]
fn test_beacon_cadence_change() {
    // With a 5000 ms interval beacons come every 5 s; a Config with a
    // 1000 ms interval fires one immediately and then every 1 s.
    let mut ci = CommandInterpreter::new(
        {
            let mut c = TcspecialConfig::new_default();
            c.beacon_interval = BeaconTime(5000);
            c
        },
        0,
    );
    assert!(!ci.beacon_due(4999));
    assert!(ci.beacon_due(5000));
    let bytes = ci.emit_beacon(5000);
    let beacon = decode_telemetry(&bytes).unwrap();
    assert_eq!(beacon.sequence(), 0);
    assert_eq!(beacon.status(), CommandStatus::Success);
    assert!(!ci.beacon_due(9999));
    assert!(ci.beacon_due(10_000));
    let r = ci.process_command(Command::Config(ConfigCommand::new(30, BeaconTime(1000))), 7000, StartIoOutcome::Ready);
    assert_eq!(r.status(), CommandStatus::Success);
    assert!(ci.beacon_due(7000));
    ci.emit_beacon(7000);
    assert!(!ci.beacon_due(7999));
    assert!(ci.beacon_due(8000));
}

#[test]
fn test_beacon_zero_disables_and_reenables() {
    let mut ci = new_ci();
    let r = ci.process_command(Command::Config(ConfigCommand::new(1, BeaconTime(0))), 100, StartIoOutcome::Ready);
    assert_eq!(r.status(), CommandStatus::Success);
    assert!(!ci.beacon_due(1_000_000_000));
    let r2 = ci.process_command(Command::Config(ConfigCommand::new(2, BeaconTime(500))), 200, StartIoOutcome::Ready);
    assert_eq!(r2.status(), CommandStatus::Success);
    assert!(ci.beacon_due(200));
}

#[test]
fn test_datagram_dispatch_round_trip() {
    // A full wire pass: encoded command in, decoded reply out, sequence
    // echoed; an empty or undecodable datagram is dropped.
    let mut ci = new_ci();
    let cmd = Command::Ping(PingCommand::new(77));
    let bytes = tcspecial::wire::encode_command(&cmd);
    let reply_bytes = ci.handle_datagram(&bytes, 0, StartIoOutcome::Ready).expect("a reply is owed");
    let reply = decode_telemetry(&reply_bytes).expect("the reply must decode");
    assert_eq!(reply.sequence(), 77);
    assert!(ci.handle_datagram(&[], 0, StartIoOutcome::Ready).is_none());
    assert!(ci.handle_datagram(&[9, 9, 9], 0, StartIoOutcome::Ready).is_none());
}

#[test]
fn test_shutdown_stops_all() {
    let mut ci = new_ci();
    ci.process_command(start_cmd(1, 0, "127.0.0.1:5000"), 0, StartIoOutcome::Ready);
    ci.process_command(start_cmd(2, 1, "127.0.0.1:5001"), 0, StartIoOutcome::Ready);
    ci.shutdown().unwrap();
    // A stopped handler still answers queries.
    let r = ci.process_command(Command::QueryDH(QueryDHCommand::new(9, DHId(0))), 1, StartIoOutcome::Ready);
    assert_eq!(r.status(), CommandStatus::Success);
}

#[test]
fn test_config_dh_acknowledged() {
    let mut ci = new_ci();
    let r = ci.process_command(
        Command::ConfigDH(tcspecial::commands::ConfigDHCommand::new(6, DHId(1))),
        0,
        StartIoOutcome::Ready,
    );
    assert_eq!(r.sequence(), 6);
    assert_eq!(r.status(), CommandStatus::Success);
}

#[test]
fn test_start_dh_pipe_failure_registers_nothing() {
    // A failed pipe allocation fails the create itself with
    // ResourceAllocationFailed and leaves no registry entry, so a
    // retry starts clean.
    let mut ci = new_ci();
    let r = ci.process_command(start_cmd(1, 0, "127.0.0.1:5000"), 0, StartIoOutcome::PipeFailed);
    assert_eq!(r.status(), CommandStatus::Failure(ErrorCode::ResourceAllocationFailed));
    assert!(!ci.dh_manager.contains(DHId(0)));
    let r2 = ci.process_command(start_cmd(2, 0, "127.0.0.1:5000"), 1, StartIoOutcome::Ready);
    assert_eq!(r2.status(), CommandStatus::Success);
}

#[test]
fn test_query_unknown_dh_reports_empty_stats() {
    let ci = new_ci();
    let r = ci.handle_query_dh(&QueryDHCommand::new(7, DHId(9)));
    match r {
        Telemetry::QueryDH(q) => {
            assert_eq!(q.header.status, CommandStatus::Failure(ErrorCode::DHNotFound));
            assert_eq!(q.statistics.bytes_received, 0);
            assert_eq!(q.statistics.bytes_sent, 0);
            assert!(q.statistics.timestamp.is_none());
        }
        _ => panic!("expected a query reply"),
    }
}

#[test]
fn test_set_relay_stats_live_query() {
    // Feeding running relay totals never double-counts: a repeated
    // snapshot leaves the reported counters at the totals.
    let mut ci = new_ci();
    let r = ci.process_command(start_cmd(1, 4, "127.0.0.1:5004"), 0, StartIoOutcome::Ready);
    assert_eq!(r.status(), CommandStatus::Success);
    let mut p2g = tcspecial::types::Statistics::new();
    p2g.bytes_received = 15;
    p2g.reads_completed = 2;
    let mut g2p = tcspecial::types::Statistics::new();
    g2p.bytes_sent = 7;
    g2p.writes_completed = 1;
    ci.dh_manager.set_relay_stats(DHId(4), &g2p, &p2g).unwrap();
    ci.dh_manager.set_relay_stats(DHId(4), &g2p, &p2g).unwrap();
    let q = ci.process_command(Command::QueryDH(QueryDHCommand::new(2, DHId(4))), 1, StartIoOutcome::Ready);
    match q {
        Telemetry::QueryDH(q) => {
            assert_eq!(q.header.status, CommandStatus::Success);
            assert_eq!(q.statistics.bytes_received, 15);
            assert_eq!(q.statistics.bytes_sent, 7);
            assert_eq!(q.statistics.writes_completed, 1);
        }
        _ => panic!("expected a query reply"),
    }
}

#[test]
fn test_datagram_reply_owed_for_every_command_kind() {
    // Every decodable command datagram gets exactly one reply.
    let mut ci = new_ci();
    let cmds = vec![
        Command::Ping(PingCommand::new(1)),
        Command::RestartArm(RestartArmCommand::new(2, ArmKey(5))),
        start_cmd(3, 0, "127.0.0.1:5000"),
        Command::QueryDH(QueryDHCommand::new(4, DHId(0))),
        Command::StopDH(StopDHCommand::new(5, DHId(0))),
        Command::Config(ConfigCommand::new(6, BeaconTime(2000))),
    ];
    for cmd in cmds {
        let seq = cmd.sequence();
        let bytes = tcspecial::wire::encode_command(&cmd);
        let reply = ci.handle_datagram(&bytes, 0, StartIoOutcome::Ready).expect("a reply is owed");
        assert_eq!(decode_telemetry(&reply).unwrap().sequence(), seq);
    }
}

#[test]
fn test_config_without_interval_changes_nothing() {
    let mut ci = new_ci();
    let before = (ci.beacon.interval_ms, ci.beacon.deadline_ms);
    let r = ci.process_command(
        Command::Config(tcspecial::commands::ConfigCommand::new_without_interval(9)),
        500,
        StartIoOutcome::Ready,
    );
    assert_eq!(r.sequence(), 9);
    assert_eq!(r.status(), CommandStatus::Success);
    assert_eq!((ci.beacon.interval_ms, ci.beacon.deadline_ms), before);
}

#[test]
fn test_conduit_run_events_matches_step_fold() {
    // The loop consumes events up to and including the first stopping
    // one, and the statistics are the fold of the per-event updates.
    let mut c = Conduit::new(ConduitDirection::PayloadToGround);
    let events = vec![
        ConduitEvent::Passed(vec![1, 2], WriteOutcome::Completed),
        ConduitEvent::ReadFailed,
        ConduitEvent::Passed(vec![3], WriteOutcome::Failed),
        ConduitEvent::WaitFailed,
        ConduitEvent::Passed(vec![4, 5, 6], WriteOutcome::Completed),
    ];
    let processed = c.run_events(&events);
    assert_eq!(processed, 4);
    let s = c.get_stats();
    assert_eq!(s.bytes_received, 3);
    assert_eq!(s.bytes_sent, 2);
    assert_eq!(s.reads_failed, 1);
    assert_eq!(s.writes_failed, 1);
    assert!(!c.is_running());
}
