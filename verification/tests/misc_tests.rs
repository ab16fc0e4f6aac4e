//! Client, console, simulator and configuration tests.

use std::sync::atomic::{AtomicU32, Ordering};
use tcspecial::config::{DHConfig, TcspecialConfig};
use tcspecial::endpoint::{parse_network_name, EndpointSpec, PayloadProto};
use tcspecial::moc::{DHPanel, DHPanelState, MocState, TcsClientBuilder, UiMessage};
use tcspecial::sim::{Payload, PayloadConfig, PayloadType, SharedStats};
use tcspecial::indicator::{IndicatorColor, IndicatorState, IndicatorStates};
use tcspecial::types::{DHName, DHType, EndpointDelayConfig, Statistics, next_backoff};

#[test]
fn test_sequence_increment() {
    // This test just verifies the atomic counter works.
    let counter = AtomicU32::new(1);
    assert_eq!(counter.fetch_add(1, Ordering::Relaxed), 1);
    assert_eq!(counter.fetch_add(1, Ordering::Relaxed), 2);
}

#[test]
fn test_next_sequence_wraps() {
    let mut c: u32 = u32::MAX;
    assert_eq!(tcspecial::moc::next_sequence(&mut c), u32::MAX);
    assert_eq!(c, 0);
}

#[test]
fn test_client_builder() {
    let builder = TcsClientBuilder::new().timeout(10_000);
    assert_eq!(builder.timeout_ms, 10_000);
}

#[test]
fn test_default_config() {
    let config = TcspecialConfig::new_default();
    assert_eq!(config.max_data_handlers, 8);
    assert_eq!(config.beacon_interval.0, 10000);
}

#[test]
fn test_dh_config() {
    let stream_config = DHConfig::stream();
    assert!(stream_config.is_stream);

    let dgram_config = DHConfig::datagram();
    assert!(!dgram_config.is_stream);
}

#[test]
fn test_payload_config() {
    let config = PayloadConfig {
        id: 0,
        payload_type: PayloadType::TcpServer,
        address: String::from("127.0.0.1:5000"),
        packet_size: 12,
        interval_ms: 1000,
    };
    assert_eq!(config.id, 0);
    assert_eq!(config.packet_size, 12);
}

fn make_dummy_stats() -> SharedStats {
    SharedStats {
        sent: 0,
        received: 0,
        last_sent: String::new(),
        last_received: String::new(),
        status: String::new(),
        connected: false,
    }
}

#[test]
fn test_packet_generation() {
    let config = PayloadConfig {
        id: 0,
        payload_type: PayloadType::UdpServer,
        address: String::from("127.0.0.1:5000"),
        packet_size: 12,
        interval_ms: 1000,
    };
    let mut payload = Payload::new(config, make_dummy_stats());
    let packet = payload.generate_packet();
    assert_eq!(packet.len(), 12);
    // The sequence number rides in the first four bytes.
    assert_eq!(&packet[0..4], &[0, 0, 0, 0]);
    let packet2 = payload.generate_packet();
    assert_eq!(&packet2[0..4], &[0, 0, 0, 1]);
}

#[test]
fn test_payload_records() {
    let config = PayloadConfig {
        id: 1,
        payload_type: PayloadType::UdpServer,
        address: String::from("127.0.0.1:5001"),
        packet_size: 8,
        interval_ms: 100,
    };
    let mut payload = Payload::new(config, make_dummy_stats());
    payload.update_status(String::from("Listening"));
    payload.update_connected(true);
    payload.record_sent(String::from("8 bytes"));
    payload.record_received(String::from("3 bytes"));
    assert_eq!(payload.stats.sent, 1);
    assert_eq!(payload.stats.received, 1);
    assert!(payload.stats.connected);
    assert_eq!(payload.stats.status, "Listening");
}

#[test]
fn test_dh_panel_lifecycle() {
    let mut panel = DHPanel::new(2);
    assert_eq!(panel.state, DHPanelState::Idle);
    assert_eq!(panel.dh_type, DHType::Device);
    panel.set_started();
    assert_eq!(panel.state, DHPanelState::Active);
    panel.set_stopped();
    assert_eq!(panel.state, DHPanelState::Stopped);
    panel.set_status(String::from("Stopped"));
    assert_eq!(panel.status, "Stopped");
    let mut stats = Statistics::new();
    stats.bytes_received = 9;
    panel.update_stats(stats);
    assert_eq!(panel.stats.as_ref().unwrap().bytes_received, 9);
}

#[test]
fn test_moc_state_messages() {
    let mut state = MocState {
        connected: false,
        status_message: String::new(),
        dh_panels: (0u32..8).map(DHPanel::new).collect(),
    };
    state.apply_ui_message(UiMessage::Connected);
    assert!(state.connected);
    state.apply_ui_message(UiMessage::DHStarted(3, true, String::from("Started")));
    assert_eq!(state.dh_panels[3].state, DHPanelState::Active);
    assert_eq!(state.dh_panels[3].status, "Started");
    state.apply_ui_message(UiMessage::DHStopped(3, true, String::from("Stopped")));
    assert_eq!(state.dh_panels[3].state, DHPanelState::Stopped);
    // An unknown panel id changes nothing.
    state.apply_ui_message(UiMessage::DHStarted(99, true, String::from("x")));
    state.apply_ui_message(UiMessage::Disconnected(String::from("gone")));
    assert!(!state.connected);
}

#[test]
fn test_parse_network_name() {
    let sp = parse_network_name(&DHName::new(String::from("localhost:5003:udp")), true).unwrap();
    match sp {
        EndpointSpec::Network { host, port, proto } => {
            assert_eq!(host, "localhost");
            assert_eq!(port, 5003);
            assert_eq!(proto, PayloadProto::Udp);
        }
        _ => panic!("expected a network endpoint"),
    }
    // The protocol defaults by stream semantics.
    let sp2 = parse_network_name(&DHName::new(String::from("10.0.0.1:80")), true).unwrap();
    match sp2 {
        EndpointSpec::Network { port, proto, .. } => {
            assert_eq!(port, 80);
            assert_eq!(proto, PayloadProto::Tcp);
        }
        _ => panic!("expected a network endpoint"),
    }
    assert!(parse_network_name(&DHName::new(String::from("no-colon")), false).is_none());
    assert!(parse_network_name(&DHName::new(String::from("host:")), false).is_none());
    assert!(parse_network_name(&DHName::new(String::from("host:99999")), false).is_none());
    assert!(parse_network_name(&DHName::new(String::from("host:5x")), false).is_none());
    assert!(parse_network_name(&DHName::new(String::from("host:1:bogus")), false).is_none());
}

#[test]
fn test_backoff_doubles_to_cap() {
    let d = EndpointDelayConfig::default();
    assert_eq!(d.init_ms, 100);
    assert_eq!(d.max_ms, 10_000);
    let mut cur = d.init_ms;
    let mut steps = 0;
    while cur < d.max_ms {
        cur = next_backoff(cur, d.max_ms);
        steps += 1;
    }
    assert_eq!(cur, 10_000);
    assert!(steps <= 8);
}

#[test]
fn test_indicator_delay_and_color() {
    let grey = IndicatorColor { alpha: 255, red: 196, green: 196, blue: 196 };
    let green = IndicatorColor { alpha: 255, red: 0, green: 255, blue: 0 };
    let red = IndicatorColor { alpha: 255, red: 255, green: 0, blue: 0 };
    let sec: u64 = 1_000_000_000;
    let states = IndicatorStates::new(
        grey,
        vec![
            IndicatorState::Steady(sec, green),
            IndicatorState::Blinking(4 * sec, sec, sec, green, grey),
            IndicatorState::Blinking(u64::MAX, sec / 2, sec / 2, red, grey),
        ],
    );
    // No beacon yet: the unset colour, no timeout.
    assert_eq!(states.delay_and_color(&None, 10), (None, grey));
    assert_eq!(states.unset_color(), grey);
    // A clock step backwards resets to unset.
    assert_eq!(states.delay_and_color(&Some(100), 50), (None, grey));
    // Within the steady second: green, change due at its end.
    let (d, c) = states.delay_and_color(&Some(0), sec / 2);
    assert_eq!(c, green);
    assert_eq!(d, Some(sec / 2));
    // In the blink phase, second half of the first blink: grey.
    let (_, c2) = states.delay_and_color(&Some(0), 2 * sec + sec / 2);
    assert_eq!(c2, grey);
    // Far out: red blinking forever, on phase at an even half second.
    let (d3, c3) = states.delay_and_color(&Some(0), 6 * sec);
    assert_eq!(c3, red);
    assert_eq!(d3, Some(sec / 2));
}
