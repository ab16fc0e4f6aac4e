//! Command messages, sent from ground to space. Commands are idempotent:
//! ground re-issues a command whose reply was lost.

use vstd::prelude::*;
use crate::types::{ArmKey, BeaconTime, DHId, DHName, DHType};

verus! {

/// Command message header.
#[derive(Debug, Clone, Copy, PartialEq, Eq, Structural)]
pub struct CommandHeader {
    /// Command sequence number for tracking
    pub sequence: u32,
    /// Command type identifier
    pub cmd_type: CommandType,
}

/// Command types.
#[derive(Debug, Clone, Copy, PartialEq, Eq, Structural)]
pub enum CommandType {
    Ping,
    RestartArm,
    Restart,
    StartDH,
    StopDH,
    QueryDH,
    Config,
    ConfigDH,
}

impl CommandType {
    pub open spec fn spec_u8(self) -> u8 {
        match self {
            CommandType::Ping => 0x01,
            CommandType::RestartArm => 0x02,
            CommandType::Restart => 0x03,
            CommandType::StartDH => 0x10,
            CommandType::StopDH => 0x11,
            CommandType::QueryDH => 0x12,
            CommandType::Config => 0x20,
            CommandType::ConfigDH => 0x21,
        }
    }

    pub fn to_u8(&self) -> (r: u8)
        ensures
            r == self.spec_u8(),
    {
        match self {
            CommandType::Ping => 0x01,
            CommandType::RestartArm => 0x02,
            CommandType::Restart => 0x03,
            CommandType::StartDH => 0x10,
            CommandType::StopDH => 0x11,
            CommandType::QueryDH => 0x12,
            CommandType::Config => 0x20,
            CommandType::ConfigDH => 0x21,
        }
    }

    pub open spec fn spec_from_u8(value: u8) -> Option<CommandType> {
        if value == 0x01 {
            Some(CommandType::Ping)
        } else if value == 0x02 {
            Some(CommandType::RestartArm)
        } else if value == 0x03 {
            Some(CommandType::Restart)
        } else if value == 0x10 {
            Some(CommandType::StartDH)
        } else if value == 0x11 {
            Some(CommandType::StopDH)
        } else if value == 0x12 {
            Some(CommandType::QueryDH)
        } else if value == 0x20 {
            Some(CommandType::Config)
        } else if value == 0x21 {
            Some(CommandType::ConfigDH)
        } else {
            None
        }
    }

    pub fn from_u8(value: u8) -> (r: Option<Self>)
        ensures
            r == Self::spec_from_u8(value),
            forall|t: CommandType| value == t.spec_u8() ==> r == Some(t),
    {
        proof {
            assert forall|t: CommandType| value == t.spec_u8() implies Self::spec_from_u8(value)
                == Some(t) by {}
        }
        match value {
            0x01 => Some(CommandType::Ping),
            0x02 => Some(CommandType::RestartArm),
            0x03 => Some(CommandType::Restart),
            0x10 => Some(CommandType::StartDH),
            0x11 => Some(CommandType::StopDH),
            0x12 => Some(CommandType::QueryDH),
            0x20 => Some(CommandType::Config),
            0x21 => Some(CommandType::ConfigDH),
            _ => None,
        }
    }
}

/// PING command: verify that the interpreter is able to process commands.
#[derive(Debug, Clone, Copy, PartialEq, Eq, Structural)]
pub struct PingCommand {
    pub header: CommandHeader,
}

impl PingCommand {
    pub fn new(sequence: u32) -> (r: Self)
        ensures
            r.header.sequence == sequence,
            r.header.cmd_type == CommandType::Ping,
    {
        Self { header: CommandHeader { sequence, cmd_type: CommandType::Ping } }
    }
}

/// RESTART_ARM command: enable restart for the next arm window.
#[derive(Debug, Clone, Copy, PartialEq, Eq, Structural)]
pub struct RestartArmCommand {
    pub header: CommandHeader,
    pub arm_key: ArmKey,
}

impl RestartArmCommand {
    pub fn new(sequence: u32, arm_key: ArmKey) -> (r: Self)
        ensures
            r.header.sequence == sequence,
            r.header.cmd_type == CommandType::RestartArm,
            r.arm_key == arm_key,
    {
        Self { header: CommandHeader { sequence, cmd_type: CommandType::RestartArm }, arm_key }
    }
}

/// RESTART command: restart the process if armed with a matching key.
#[derive(Debug, Clone, Copy, PartialEq, Eq, Structural)]
pub struct RestartCommand {
    pub header: CommandHeader,
    pub arm_key: ArmKey,
}

impl RestartCommand {
    pub fn new(sequence: u32, arm_key: ArmKey) -> (r: Self)
        ensures
            r.header.sequence == sequence,
            r.header.cmd_type == CommandType::Restart,
            r.arm_key == arm_key,
    {
        Self { header: CommandHeader { sequence, cmd_type: CommandType::Restart }, arm_key }
    }
}

/// START_DH command: create and activate a data handler.
#[derive(Debug, Clone, PartialEq, Eq)]
pub struct StartDHCommand {
    pub header: CommandHeader,
    pub dh_id: DHId,
    pub dh_type: DHType,
    pub name: DHName,
}

impl StartDHCommand {
    pub fn new(sequence: u32, dh_id: DHId, dh_type: DHType, name: DHName) -> (r: Self)
        ensures
            r.header.sequence == sequence,
            r.header.cmd_type == CommandType::StartDH,
            r.dh_id == dh_id,
            r.dh_type == dh_type,
            r.name == name,
    {
        Self {
            header: CommandHeader { sequence, cmd_type: CommandType::StartDH },
            dh_id,
            dh_type,
            name,
        }
    }
}

/// STOP_DH command: stop a data handler.
#[derive(Debug, Clone, Copy, PartialEq, Eq, Structural)]
pub struct StopDHCommand {
    pub header: CommandHeader,
    pub dh_id: DHId,
}

impl StopDHCommand {
    pub fn new(sequence: u32, dh_id: DHId) -> (r: Self)
        ensures
            r.header.sequence == sequence,
            r.header.cmd_type == CommandType::StopDH,
            r.dh_id == dh_id,
    {
        Self { header: CommandHeader { sequence, cmd_type: CommandType::StopDH }, dh_id }
    }
}

/// QUERY_DH command: query statistics from a data handler.
#[derive(Debug, Clone, Copy, PartialEq, Eq, Structural)]
pub struct QueryDHCommand {
    pub header: CommandHeader,
    pub dh_id: DHId,
}

impl QueryDHCommand {
    pub fn new(sequence: u32, dh_id: DHId) -> (r: Self)
        ensures
            r.header.sequence == sequence,
            r.header.cmd_type == CommandType::QueryDH,
            r.dh_id == dh_id,
    {
        Self { header: CommandHeader { sequence, cmd_type: CommandType::QueryDH }, dh_id }
    }
}

/// CONFIG command: configure interpreter-wide values. The beacon
/// interval is optional on the wire; a command without one changes
/// nothing.
#[derive(Debug, Clone, Copy, PartialEq, Eq, Structural)]
pub struct ConfigCommand {
    pub header: CommandHeader,
    pub beacon_interval: Option<BeaconTime>,
}

impl ConfigCommand {
    pub fn new(sequence: u32, beacon_interval: BeaconTime) -> (r: Self)
        ensures
            r.header.sequence == sequence,
            r.header.cmd_type == CommandType::Config,
            r.beacon_interval == Some(beacon_interval),
    {
        Self {
            header: CommandHeader { sequence, cmd_type: CommandType::Config },
            beacon_interval: Some(beacon_interval),
        }
    }

    /// A CONFIG that carries no interval and so asks for no change.
    pub fn new_without_interval(sequence: u32) -> (r: Self)
        ensures
            r.header.sequence == sequence,
            r.header.cmd_type == CommandType::Config,
            r.beacon_interval is None,
    {
        Self {
            header: CommandHeader { sequence, cmd_type: CommandType::Config },
            beacon_interval: None,
        }
    }
}

/// CONFIG_DH command: configure data handler values.
#[derive(Debug, Clone, Copy, PartialEq, Eq, Structural)]
pub struct ConfigDHCommand {
    pub header: CommandHeader,
    pub dh_id: DHId,
}

impl ConfigDHCommand {
    pub fn new(sequence: u32, dh_id: DHId) -> (r: Self)
        ensures
            r.header.sequence == sequence,
            r.header.cmd_type == CommandType::ConfigDH,
            r.dh_id == dh_id,
    {
        Self { header: CommandHeader { sequence, cmd_type: CommandType::ConfigDH }, dh_id }
    }
}

/// Union of all command types.
#[derive(Debug, Clone, PartialEq, Eq)]
pub enum Command {
    Ping(PingCommand),
    RestartArm(RestartArmCommand),
    Restart(RestartCommand),
    StartDH(StartDHCommand),
    StopDH(StopDHCommand),
    QueryDH(QueryDHCommand),
    Config(ConfigCommand),
    ConfigDH(ConfigDHCommand),
}

impl Command {
    pub open spec fn spec_sequence(self) -> u32 {
        match self {
            Command::Ping(cmd) => cmd.header.sequence,
            Command::RestartArm(cmd) => cmd.header.sequence,
            Command::Restart(cmd) => cmd.header.sequence,
            Command::StartDH(cmd) => cmd.header.sequence,
            Command::StopDH(cmd) => cmd.header.sequence,
            Command::QueryDH(cmd) => cmd.header.sequence,
            Command::Config(cmd) => cmd.header.sequence,
            Command::ConfigDH(cmd) => cmd.header.sequence,
        }
    }

    pub fn sequence(&self) -> (r: u32)
        ensures
            r == self.spec_sequence(),
    {
        match self {
            Command::Ping(cmd) => cmd.header.sequence,
            Command::RestartArm(cmd) => cmd.header.sequence,
            Command::Restart(cmd) => cmd.header.sequence,
            Command::StartDH(cmd) => cmd.header.sequence,
            Command::StopDH(cmd) => cmd.header.sequence,
            Command::QueryDH(cmd) => cmd.header.sequence,
            Command::Config(cmd) => cmd.header.sequence,
            Command::ConfigDH(cmd) => cmd.header.sequence,
        }
    }

    pub open spec fn spec_cmd_type(self) -> CommandType {
        match self {
            Command::Ping(cmd) => cmd.header.cmd_type,
            Command::RestartArm(cmd) => cmd.header.cmd_type,
            Command::Restart(cmd) => cmd.header.cmd_type,
            Command::StartDH(cmd) => cmd.header.cmd_type,
            Command::StopDH(cmd) => cmd.header.cmd_type,
            Command::QueryDH(cmd) => cmd.header.cmd_type,
            Command::Config(cmd) => cmd.header.cmd_type,
            Command::ConfigDH(cmd) => cmd.header.cmd_type,
        }
    }

    pub fn cmd_type(&self) -> (r: CommandType)
        ensures
            r == self.spec_cmd_type(),
    {
        match self {
            Command::Ping(cmd) => cmd.header.cmd_type,
            Command::RestartArm(cmd) => cmd.header.cmd_type,
            Command::Restart(cmd) => cmd.header.cmd_type,
            Command::StartDH(cmd) => cmd.header.cmd_type,
            Command::StopDH(cmd) => cmd.header.cmd_type,
            Command::QueryDH(cmd) => cmd.header.cmd_type,
            Command::Config(cmd) => cmd.header.cmd_type,
            Command::ConfigDH(cmd) => cmd.header.cmd_type,
        }
    }
}

} // verus!
