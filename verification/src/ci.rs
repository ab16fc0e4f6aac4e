//! The command interpreter: dispatch of ground commands, the
//! arm/restart state machine, the data handler registry and the beacon
//! timer. Every accepted command produces exactly one reply that echoes
//! its sequence number; a datagram that does not decode is dropped.
//!
//! The interpreter is a state machine over plain values: the process
//! edge receives datagrams, hands the bytes and the current monotonic
//! time in, performs the socket work a `StartDH` asks for, and sends the
//! reply bytes back.

use vstd::prelude::*;
use crate::beacon::Beacon;
use crate::commands::{Command, CommandType, ConfigCommand, ConfigDHCommand, PingCommand,
    QueryDHCommand, RestartArmCommand, RestartCommand, StartDHCommand, StopDHCommand};
use crate::config::{DHConfig, TcspecialConfig};
use crate::dh::{contains_id, idx_of, spec_network_parse_fails, DataHandler, DHManager, DHState};
use crate::error::TcsResult;
use crate::telemetry::{BeaconTelemetry, ConfigDHTelemetry, ConfigTelemetry, PingTelemetry,
    QueryDHTelemetry, RestartArmTelemetry, RestartTelemetry, StartDHTelemetry, StopDHTelemetry,
    Telemetry, TelemetryType};
use crate::types::{ArmKey, CommandStatus, ErrorCode, Statistics};
use crate::wire::{cmd_wf, decode_command, enc_command_msg, enc_telemetry_msg, encode_telemetry,
    tm_wf};
use crate::ARM_WINDOW_MS;

verus! {

/// The arm window has closed: more than the window has passed since the
/// arm instant. A clock that stepped backwards never expires the arm.
pub open spec fn arm_expired(armed_at_ms: u64, now_ms: u64) -> bool {
    now_ms >= armed_at_ms && now_ms - armed_at_ms > ARM_WINDOW_MS
}

/// The restart decision: given the arm state, the key offered and the
/// time, what the new arm state is, what status the reply carries, and
/// whether the interpreter keeps running.
pub open spec fn spec_restart_decision(
    arm: Option<(ArmKey, u64)>,
    key: ArmKey,
    now_ms: u64,
) -> (Option<(ArmKey, u64)>, CommandStatus, bool) {
    match arm {
        None => (None, CommandStatus::Failure(ErrorCode::RestartNotArmed), true),
        Some((k, t)) => {
            if arm_expired(t, now_ms) {
                (None, CommandStatus::Failure(ErrorCode::ArmWindowExpired), true)
            } else if k != key {
                (Some((k, t)), CommandStatus::Failure(ErrorCode::InvalidArmKey), true)
            } else {
                (None, CommandStatus::Success, false)
            }
        },
    }
}

/// The telemetry type that answers each command type.
pub open spec fn spec_reply_type(ct: CommandType) -> TelemetryType {
    match ct {
        CommandType::Ping => TelemetryType::Ping,
        CommandType::RestartArm => TelemetryType::RestartArm,
        CommandType::Restart => TelemetryType::Restart,
        CommandType::StartDH => TelemetryType::StartDH,
        CommandType::StopDH => TelemetryType::StopDH,
        CommandType::QueryDH => TelemetryType::QueryDH,
        CommandType::Config => TelemetryType::Config,
        CommandType::ConfigDH => TelemetryType::ConfigDH,
    }
}

/// The relay configuration a `StartDH` derives from the handler type:
/// stream semantics for devices, datagram semantics for the network.
pub open spec fn spec_dh_config_for(t: crate::types::DHType) -> DHConfig {
    match t {
        crate::types::DHType::Network => DHConfig {
            read_buffer_size: 4096,
            write_buffer_size: 4096,
            is_stream: false,
            stream_delay_ms: None,
        },
        crate::types::DHType::Device => DHConfig {
            read_buffer_size: 4096,
            write_buffer_size: 4096,
            is_stream: true,
            stream_delay_ms: Some(10),
        },
    }
}

/// A `StartDH` is rejected for its name exactly when it names a network
/// payload whose name does not parse under datagram semantics.
pub open spec fn spec_start_parse_fails(cmd: StartDHCommand) -> bool {
    cmd.dh_type is Network && spec_network_parse_fails(cmd.name, false)
}

/// What the process edge reports about the resource work a `StartDH`
/// needs: everything is in place, the cancellation pipe could not be
/// allocated, or a socket or device failed to open.
#[derive(Debug, Clone, Copy, PartialEq, Eq, Structural)]
pub enum StartIoOutcome {
    /// Pipe allocated and endpoints open
    Ready,
    /// The cancellation pipe could not be allocated
    PipeFailed,
    /// A socket or device could not be opened
    OpenFailed,
}

/// What dispatching a command changes, beyond the registry details
/// stated on the individual handlers: the arm/restart machine, the
/// running flag, the beacon timer and the configuration.
pub open spec fn spec_command_effects(
    pre: CommandInterpreter,
    post: CommandInterpreter,
    c: Command,
    now_ms: u64,
) -> bool {
    &&& (c matches Command::Restart(rc) ==> ({
        let d = spec_restart_decision(pre.arm_state, rc.arm_key, now_ms);
        &&& post.arm_state == d.0
        &&& post.running == (pre.running && d.2)
    }))
    &&& (c matches Command::RestartArm(rc) ==> post.arm_state == Some((rc.arm_key, now_ms)))
    &&& (!(c is Restart) && !(c is RestartArm) ==> post.arm_state == pre.arm_state)
    &&& (!(c is Restart) ==> post.running == pre.running)
    &&& (c matches Command::Config(cc) ==> ((cc.beacon_interval matches Some(b)
        ==> post.beacon.interval_ms == b.0 && (b.0 != 0 ==> post.beacon.deadline_ms == now_ms)) && (
    cc.beacon_interval is None ==> post.beacon == pre.beacon)))
    &&& (!(c is Config) ==> post.beacon == pre.beacon)
    &&& (!(c is StartDH) && !(c is StopDH) ==> post.dh_manager == pre.dh_manager)
    &&& post.config == pre.config
}

/// Command interpreter state.
pub struct CommandInterpreter {
    /// Configuration the interpreter was created with
    pub config: TcspecialConfig,
    /// The data handler registry
    pub dh_manager: DHManager,
    /// Cleared by an accepted RESTART or an outside shutdown request
    pub running: bool,
    /// The arm key and the instant it was accepted, if armed
    pub arm_state: Option<(ArmKey, u64)>,
    /// The beacon timer
    pub beacon: Beacon,
}

impl CommandInterpreter {
    pub open spec fn wf(self) -> bool {
        self.dh_manager.wf()
    }

    /// Create a new command interpreter: running, not armed, the beacon
    /// timer started from the configured interval.
    pub fn new(config: TcspecialConfig, now_ms: u64) -> (r: Self)
        ensures
            r.wf(),
            r.running,
            r.arm_state is None,
            r.beacon.interval_ms == config.beacon_interval.0,
            r.dh_manager.spec_handlers().len() == 0,
            r.dh_manager.spec_max() == config.max_data_handlers,
    {
        let beacon = Beacon::new(config.beacon_interval.0, now_ms);
        let dh_manager = DHManager::new(config.max_data_handlers);
        Self { config, dh_manager, running: true, arm_state: None, beacon }
    }

    /// Ask the interpreter to stop; the main loop exits when it sees
    /// the flag cleared.
    pub fn stop(&mut self)
        ensures
            !final(self).running,
            final(self).dh_manager == old(self).dh_manager,
            final(self).arm_state == old(self).arm_state,
            final(self).beacon == old(self).beacon,
            final(self).config == old(self).config,
    {
        self.running = false;
    }

    /// PING: reply success, stamped with the current time.
    pub fn handle_ping(&self, cmd: &PingCommand) -> (r: Telemetry)
        ensures
            r matches Telemetry::Ping(p) && p.header.sequence == cmd.header.sequence
                && p.header.status == CommandStatus::Success && p.timestamp.wf(),
            tm_wf(r),
    {
        Telemetry::Ping(PingTelemetry::new(cmd.header.sequence, CommandStatus::Success))
    }

    /// RESTART_ARM: arm the restart with this key, starting the window
    /// now. Re-arming replaces the key and resets the window.
    pub fn handle_restart_arm(&mut self, cmd: &RestartArmCommand, now_ms: u64) -> (r: Telemetry)
        requires
            old(self).wf(),
        ensures
            final(self).wf(),
            final(self).arm_state == Some((cmd.arm_key, now_ms)),
            final(self).running == old(self).running,
            final(self).dh_manager == old(self).dh_manager,
            final(self).beacon == old(self).beacon,
            final(self).config == old(self).config,
            r matches Telemetry::RestartArm(p) && p.header.sequence == cmd.header.sequence
                && p.header.status == CommandStatus::Success,
            tm_wf(r),
    {
        self.arm_state = Some((cmd.arm_key, now_ms));
        Telemetry::RestartArm(RestartArmTelemetry::new(cmd.header.sequence, CommandStatus::Success))
    }

    /// RESTART: honoured only when armed, within the window and with the
    /// matching key; then the interpreter stops running. A stale window
    /// clears the arm; a wrong key leaves it armed.
    pub fn handle_restart(&mut self, cmd: &RestartCommand, now_ms: u64) -> (r: Telemetry)
        requires
            old(self).wf(),
        ensures
            final(self).wf(),
            ({
                let d = spec_restart_decision(old(self).arm_state, cmd.arm_key, now_ms);
                &&& final(self).arm_state == d.0
                &&& r.spec_status() == d.1
                &&& final(self).running == (old(self).running && d.2)
            }),
            final(self).dh_manager == old(self).dh_manager,
            final(self).beacon == old(self).beacon,
            final(self).config == old(self).config,
            r matches Telemetry::Restart(p) && p.header.sequence == cmd.header.sequence,
            tm_wf(r),
    {
        match self.arm_state {
            None => Telemetry::Restart(
                RestartTelemetry::new(
                    cmd.header.sequence,
                    CommandStatus::Failure(ErrorCode::RestartNotArmed),
                ),
            ),
            Some((k, t)) => {
                if now_ms >= t && now_ms - t > crate::ARM_WINDOW_MS {
                    self.arm_state = None;
                    Telemetry::Restart(
                        RestartTelemetry::new(
                            cmd.header.sequence,
                            CommandStatus::Failure(ErrorCode::ArmWindowExpired),
                        ),
                    )
                } else if k.0 != cmd.arm_key.0 {
                    Telemetry::Restart(
                        RestartTelemetry::new(
                            cmd.header.sequence,
                            CommandStatus::Failure(ErrorCode::InvalidArmKey),
                        ),
                    )
                } else {
                    self.arm_state = None;
                    self.running = false;
                    Telemetry::Restart(
                        RestartTelemetry::new(cmd.header.sequence, CommandStatus::Success),
                    )
                }
            },
        }
    }

    /// START_DH: create the handler, check its payload endpoint, and —
    /// when the process edge reports its resources ready — activate it.
    /// A duplicate id is rejected with `DHAlreadyExists`; a full
    /// registry, or a cancellation pipe that could not be allocated,
    /// with `ResourceAllocationFailed` (the pipe failure registers
    /// nothing, so a retry starts clean); a name that does not parse
    /// with `InvalidConfiguration`; a failed socket or device open with
    /// `IoError`, leaving the handler created but inactive.
    pub fn handle_start_dh(&mut self, cmd: StartDHCommand, io: StartIoOutcome) -> (r: Telemetry)
        requires
            old(self).wf(),
        ensures
            final(self).wf(),
            final(self).running == old(self).running,
            final(self).arm_state == old(self).arm_state,
            final(self).beacon == old(self).beacon,
            final(self).config == old(self).config,
            r matches Telemetry::StartDH(p) && p.header.sequence == cmd.header.sequence,
            tm_wf(r),
            ({
                let hs = old(self).dh_manager.spec_handlers();
                let created = DataHandler::spec_new(
                    cmd.dh_id,
                    cmd.dh_type,
                    cmd.name,
                    spec_dh_config_for(cmd.dh_type),
                );
                &&& (contains_id(hs, cmd.dh_id) ==> r.spec_status() == CommandStatus::Failure(
                    ErrorCode::DHAlreadyExists,
                ) && final(self).dh_manager == old(self).dh_manager)
                &&& (!contains_id(hs, cmd.dh_id) && hs.len() >= old(self).dh_manager.spec_max()
                    ==> r.spec_status() == CommandStatus::Failure(
                    ErrorCode::ResourceAllocationFailed,
                ) && final(self).dh_manager == old(self).dh_manager)
                &&& (!contains_id(hs, cmd.dh_id) && hs.len() < old(self).dh_manager.spec_max()
                    ==> {
                    &&& (io is PipeFailed ==> r.spec_status() == CommandStatus::Failure(
                        ErrorCode::ResourceAllocationFailed,
                    ) && final(self).dh_manager == old(self).dh_manager)
                    &&& (io !is PipeFailed && spec_start_parse_fails(cmd) ==> r.spec_status()
                        == CommandStatus::Failure(ErrorCode::InvalidConfiguration) && final(self).dh_manager.spec_handlers() == hs.push(created))
                    &&& (io is OpenFailed && !spec_start_parse_fails(cmd) ==> r.spec_status()
                        == CommandStatus::Failure(ErrorCode::IoError) && final(self).dh_manager.spec_handlers() == hs.push(created))
                    &&& (io is Ready && !spec_start_parse_fails(cmd) ==> r.spec_status()
                        == CommandStatus::Success && final(self).dh_manager.spec_handlers()
                        == hs.push(DataHandler { state: DHState::Active, ..created }))
                })
            }),
    {
        let seqno = cmd.header.sequence;
        let dh_id = cmd.dh_id;
        let dh_type = cmd.dh_type;
        let config = match dh_type {
            crate::types::DHType::Network => DHConfig::datagram(),
            crate::types::DHType::Device => DHConfig::stream(),
        };
        let ghost hs = old(self).dh_manager.spec_handlers();
        let ghost gname = cmd.name;
        let pipe_ok = !matches!(io, StartIoOutcome::PipeFailed);
        if let Err(e) = self.dh_manager.create_dh(dh_id, dh_type, cmd.name, config, pipe_ok) {
            return Telemetry::StartDH(
                StartDHTelemetry::new(seqno, CommandStatus::Failure(e.to_error_code())),
            );
        }
        proof {
            crate::dh::lemma_idx_of(self.dh_manager.spec_handlers(), dh_id, hs.len() as int);
        }
        match self.dh_manager.payload_endpoint_of(dh_id) {
            Err(e) => Telemetry::StartDH(
                StartDHTelemetry::new(seqno, CommandStatus::Failure(e.to_error_code())),
            ),
            Ok(_) => {
                if matches!(io, StartIoOutcome::OpenFailed) {
                    return Telemetry::StartDH(
                        StartDHTelemetry::new(seqno, CommandStatus::Failure(ErrorCode::IoError)),
                    );
                }
                let r = self.dh_manager.activate_dh(dh_id);
                proof {
                    let created = DataHandler::spec_new(
                        dh_id,
                        dh_type,
                        gname,
                        spec_dh_config_for(dh_type),
                    );
                    assert(final(self).dh_manager.spec_handlers() =~= hs.push(
                        DataHandler { state: DHState::Active, ..created },
                    ));
                }
                match r {
                    Ok(()) => Telemetry::StartDH(
                        StartDHTelemetry::new(seqno, CommandStatus::Success),
                    ),
                    Err(e) => Telemetry::StartDH(
                        StartDHTelemetry::new(seqno, CommandStatus::Failure(e.to_error_code())),
                    ),
                }
            },
        }
    }

    /// STOP_DH: stop the handler. Stopping an unknown or already
    /// stopped handler succeeds, so the command is idempotent.
    pub fn handle_stop_dh(&mut self, cmd: &StopDHCommand) -> (r: Telemetry)
        requires
            old(self).wf(),
        ensures
            final(self).wf(),
            final(self).running == old(self).running,
            final(self).arm_state == old(self).arm_state,
            final(self).beacon == old(self).beacon,
            final(self).config == old(self).config,
            r matches Telemetry::StopDH(p) && p.header.sequence == cmd.header.sequence
                && p.header.status == CommandStatus::Success,
            tm_wf(r),
            !contains_id(old(self).dh_manager.spec_handlers(), cmd.dh_id) ==> final(self).dh_manager == old(self).dh_manager,
            contains_id(old(self).dh_manager.spec_handlers(), cmd.dh_id) ==> ({
                let hs = old(self).dh_manager.spec_handlers();
                let i = idx_of(hs, cmd.dh_id);
                &&& final(self).dh_manager.spec_handlers().len() == hs.len()
                &&& (forall|j: int|
                    0 <= j < hs.len() && j != i ==> final(self).dh_manager.spec_handlers()[j]
                        == hs[j])
                &&& final(self).dh_manager.spec_handlers()[i] == (DataHandler {
                    state: DHState::Stopped,
                    ..hs[i]
                })
            }),
    {
        match self.dh_manager.stop_dh(cmd.dh_id) {
            Ok(()) => Telemetry::StopDH(
                StopDHTelemetry::new(cmd.header.sequence, CommandStatus::Success),
            ),
            Err(_) => Telemetry::StopDH(
                StopDHTelemetry::new(cmd.header.sequence, CommandStatus::Success),
            ),
        }
    }

    /// QUERY_DH: return a statistics snapshot for a known handler, and
    /// `DHNotFound` with empty statistics for an unknown one.
    pub fn handle_query_dh(&self, cmd: &QueryDHCommand) -> (r: Telemetry)
        requires
            self.wf(),
        ensures
            r matches Telemetry::QueryDH(p) && p.header.sequence == cmd.header.sequence && p.dh_id
                == cmd.dh_id,
            tm_wf(r),
            contains_id(self.dh_manager.spec_handlers(), cmd.dh_id) ==> ({
                let i = idx_of(self.dh_manager.spec_handlers(), cmd.dh_id);
                &&& r.spec_status() == CommandStatus::Success
                &&& r matches Telemetry::QueryDH(p) && p.statistics.counters()
                    == self.dh_manager.spec_handlers()[i].stats.counters()
            }),
            !contains_id(self.dh_manager.spec_handlers(), cmd.dh_id) ==> r.spec_status()
                == CommandStatus::Failure(ErrorCode::DHNotFound) && (r
                matches Telemetry::QueryDH(p) && p.statistics.is_zero()),
    {
        match self.dh_manager.get_dh_stats(cmd.dh_id) {
            Ok(stats) => Telemetry::QueryDH(
                QueryDHTelemetry::new(
                    cmd.header.sequence,
                    CommandStatus::Success,
                    cmd.dh_id,
                    stats,
                ),
            ),
            Err(_) => Telemetry::QueryDH(
                QueryDHTelemetry::new(
                    cmd.header.sequence,
                    CommandStatus::Failure(ErrorCode::DHNotFound),
                    cmd.dh_id,
                    Statistics::new(),
                ),
            ),
        }
    }

    /// CONFIG: retime the beacon driver. A zero interval is the
    /// reserved "disable" value, so it switches emission off rather
    /// than leaving the cadence unchanged; a positive one re-enables
    /// the driver and makes the next beacon due immediately.
    pub fn handle_config(&mut self, cmd: &ConfigCommand, now_ms: u64) -> (r: Telemetry)
        requires
            old(self).wf(),
        ensures
            final(self).wf(),
            final(self).running == old(self).running,
            final(self).arm_state == old(self).arm_state,
            final(self).dh_manager == old(self).dh_manager,
            final(self).config == old(self).config,
            cmd.beacon_interval is None ==> final(self).beacon == old(self).beacon,
            cmd.beacon_interval matches Some(b) ==> final(self).beacon.interval_ms == b.0,
            cmd.beacon_interval matches Some(b) ==> (b.0 == 0 ==> !final(self).beacon.enabled()),
            cmd.beacon_interval matches Some(b) ==> (b.0 != 0 ==> final(self).beacon.enabled()
                && final(self).beacon.deadline_ms == now_ms),
            r matches Telemetry::Config(p) && p.header.sequence == cmd.header.sequence
                && p.header.status == CommandStatus::Success,
            tm_wf(r),
    {
        if let Some(interval) = cmd.beacon_interval {
            self.beacon.set_interval(interval.0, now_ms);
        }
        Telemetry::Config(ConfigTelemetry::new(cmd.header.sequence, CommandStatus::Success))
    }

    /// CONFIG_DH: acknowledged; there are no per-handler settings yet.
    pub fn handle_config_dh(&self, cmd: &ConfigDHCommand) -> (r: Telemetry)
        ensures
            r matches Telemetry::ConfigDH(p) && p.header.sequence == cmd.header.sequence
                && p.header.status == CommandStatus::Success,
            tm_wf(r),
    {
        Telemetry::ConfigDH(ConfigDHTelemetry::new(cmd.header.sequence, CommandStatus::Success))
    }

    /// Dispatch one decoded command. Exactly one reply comes back, its
    /// sequence number echoing the command's and its type answering the
    /// command's type.
    pub fn process_command(&mut self, cmd: Command, now_ms: u64, start_io: StartIoOutcome) -> (r:
        Telemetry)
        requires
            old(self).wf(),
        ensures
            final(self).wf(),
            r.spec_sequence() == cmd.spec_sequence(),
            tm_wf(r),
            cmd_wf(cmd) ==> r.spec_tm_type() == spec_reply_type(cmd.spec_cmd_type()),
            spec_command_effects(*old(self), *final(self), cmd, now_ms),
            cmd matches Command::Restart(c) ==> r.spec_status() == spec_restart_decision(
                old(self).arm_state,
                c.arm_key,
                now_ms,
            ).1,
            cmd is RestartArm ==> r.spec_status() == CommandStatus::Success,
    {
        match cmd {
            Command::Ping(c) => self.handle_ping(&c),
            Command::RestartArm(c) => self.handle_restart_arm(&c, now_ms),
            Command::Restart(c) => self.handle_restart(&c, now_ms),
            Command::StartDH(c) => self.handle_start_dh(c, start_io),
            Command::StopDH(c) => self.handle_stop_dh(&c),
            Command::QueryDH(c) => self.handle_query_dh(&c),
            Command::Config(c) => self.handle_config(&c, now_ms),
            Command::ConfigDH(c) => self.handle_config_dh(&c),
        }
    }

    /// Handle one datagram from the command socket: decode, dispatch,
    /// encode the reply. A datagram that does not decode — the empty
    /// datagram among them — is dropped without a reply; an accepted
    /// command yields exactly one reply whose sequence number echoes the
    /// command's.
    pub fn handle_datagram(&mut self, bytes: &[u8], now_ms: u64, start_io: StartIoOutcome) -> (r:
        Option<Vec<u8>>)
        requires
            old(self).wf(),
        ensures
            final(self).wf(),
            r is None ==> *final(self) == *old(self),
            bytes@.len() == 0 ==> r is None,
            (forall|c: Command| cmd_wf(c) ==> bytes@ != enc_command_msg(c)) ==> r is None,
            (exists|c: Command| cmd_wf(c) && bytes@ == enc_command_msg(c)) ==> r is Some,
            r matches Some(v) ==> forall|c: Command|
                cmd_wf(c) && bytes@ == enc_command_msg(c) ==> spec_command_effects(
                    *old(self),
                    *final(self),
                    c,
                    now_ms,
                ) && exists|t: Telemetry|
                    {
                        &&& tm_wf(t)
                        &&& v@ == enc_telemetry_msg(t)
                        &&& t.spec_sequence() == c.spec_sequence()
                        &&& t.spec_tm_type() == spec_reply_type(c.spec_cmd_type())
                    },
    {
        proof {
            if bytes@.len() == 0 {
                assert forall|c: Command| cmd_wf(c) implies bytes@ != enc_command_msg(c) by {
                    if bytes@ == enc_command_msg(c) {
                        crate::wire::lemma_cmd_msg_shape(c);
                    }
                }
            }
        }
        let cmd = match decode_command(bytes) {
            Some(c) => c,
            None => {
                return None;
            },
        };
        let ghost gcmd = cmd;
        let reply = self.process_command(cmd, now_ms, start_io);
        let encoded = encode_telemetry(&reply);
        proof {
            assert(cmd_wf(gcmd) && bytes@ == enc_command_msg(gcmd) && tm_wf(reply) && encoded@
                == enc_telemetry_msg(reply) && reply.spec_sequence() == gcmd.spec_sequence()
                && reply.spec_tm_type() == spec_reply_type(gcmd.spec_cmd_type()));
            // Any command that encodes to these bytes is the decoded one,
            // up to name characters, so the reply and the state change
            // answer it too.
            assert forall|c2: Command|
                cmd_wf(c2) && bytes@ == enc_command_msg(c2) implies spec_command_effects(
                *old(self),
                *final(self),
                c2,
                now_ms,
            ) && (exists|t: Telemetry|
                {
                    &&& tm_wf(t)
                    &&& encoded@ == enc_telemetry_msg(t)
                    &&& t.spec_sequence() == c2.spec_sequence()
                    &&& t.spec_tm_type() == spec_reply_type(c2.spec_cmd_type())
                }) by {
                crate::wire::lemma_command_codec_injective(c2, gcmd);
                assert(c2.spec_sequence() == gcmd.spec_sequence());
                assert(c2.spec_cmd_type() == gcmd.spec_cmd_type());
                assert(tm_wf(reply) && encoded@ == enc_telemetry_msg(reply)
                    && reply.spec_sequence() == c2.spec_sequence() && reply.spec_tm_type()
                    == spec_reply_type(c2.spec_cmd_type()));
            }
        }
        Some(encoded)
    }

    /// A beacon is due when the timer says so; emitting one re-arms the
    /// timer one interval ahead.
    pub fn beacon_due(&self, now_ms: u64) -> (r: bool)
        ensures
            r == (self.beacon.enabled() && now_ms >= self.beacon.deadline_ms),
    {
        self.beacon.due(now_ms)
    }

    /// Produce the beacon telemetry bytes and re-arm the timer.
    pub fn emit_beacon(&mut self, now_ms: u64) -> (r: Vec<u8>)
        requires
            old(self).wf(),
        ensures
            final(self).wf(),
            final(self).beacon.interval_ms == old(self).beacon.interval_ms,
            final(self).beacon.deadline_ms == crate::types::sat_add(
                now_ms,
                old(self).beacon.interval_ms,
            ),
            final(self).dh_manager == old(self).dh_manager,
            final(self).arm_state == old(self).arm_state,
            final(self).running == old(self).running,
            exists|t: Telemetry|
                {
                    &&& tm_wf(t)
                    &&& r@ == enc_telemetry_msg(t)
                    &&& t matches Telemetry::Beacon(b)
                    &&& b.header.sequence == 0
                    &&& b.header.status == CommandStatus::Success
                    &&& b.timestamp.wf()
                },
    {
        self.beacon.fire(now_ms);
        let beacon = Telemetry::Beacon(BeaconTelemetry::new());
        let encoded = encode_telemetry(&beacon);
        proof {
            assert(tm_wf(beacon) && encoded@ == enc_telemetry_msg(beacon) && beacon is Beacon);
        }
        encoded
    }

    /// Shut the interpreter down: stop every data handler.
    pub fn shutdown(&mut self) -> (r: TcsResult<()>)
        requires
            old(self).wf(),
        ensures
            final(self).wf(),
            r is Ok,
            forall|j: int|
                0 <= j < old(self).dh_manager.spec_handlers().len() ==> final(self).dh_manager.spec_handlers()[j].state is Stopped,
    {
        self.dh_manager.stop_all()
    }
}

/// The arm/restart state machine, in one statement. Arming stores the
/// key and opens a fresh window. A restart with the wrong key within
/// the window is rejected and leaves the arm in place; one after the
/// window reports the expiry and clears the arm; one with the matching
/// key within the window succeeds, clears the arm and stops the
/// interpreter.
pub proof fn lemma_arm_restart_fsm(k: ArmKey, k2: ArmKey, t: u64, now: u64)
    requires
        now >= t,
    ensures
        k2 != k && now - t <= ARM_WINDOW_MS ==> spec_restart_decision(Some((k, t)), k2, now) == (
            Some((k, t)),
            CommandStatus::Failure(ErrorCode::InvalidArmKey),
            true,
        ),
        now - t > ARM_WINDOW_MS ==> spec_restart_decision(Some((k, t)), k2, now) == (
            None::<(ArmKey, u64)>,
            CommandStatus::Failure(ErrorCode::ArmWindowExpired),
            true,
        ),
        now - t <= ARM_WINDOW_MS ==> spec_restart_decision(Some((k, t)), k, now) == (
            None::<(ArmKey, u64)>,
            CommandStatus::Success,
            false,
        ),
        spec_restart_decision(None, k2, now) == (
            None::<(ArmKey, u64)>,
            CommandStatus::Failure(ErrorCode::RestartNotArmed),
            true,
        ),
{
}

} // verus!
