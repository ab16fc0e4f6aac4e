//! Telemetry messages, sent from space to ground. Each reply echoes the
//! sequence number of the command that produced it and carries its status.

use vstd::prelude::*;
use crate::types::{CommandStatus, DHId, Statistics, Timestamp};

verus! {

/// Telemetry message header.
#[derive(Debug, Clone, Copy, PartialEq, Eq, Structural)]
pub struct TelemetryHeader {
    /// Sequence number matching the command that generated this response
    pub sequence: u32,
    /// Telemetry type identifier
    pub tm_type: TelemetryType,
    /// Command status
    pub status: CommandStatus,
}

/// Telemetry types.
#[derive(Debug, Clone, Copy, PartialEq, Eq, Structural)]
pub enum TelemetryType {
    Ping,
    RestartArm,
    Restart,
    StartDH,
    StopDH,
    QueryDH,
    Config,
    ConfigDH,
    Beacon,
}

impl TelemetryType {
    pub open spec fn spec_u8(self) -> u8 {
        match self {
            TelemetryType::Ping => 0x81,
            TelemetryType::RestartArm => 0x82,
            TelemetryType::Restart => 0x83,
            TelemetryType::StartDH => 0x90,
            TelemetryType::StopDH => 0x91,
            TelemetryType::QueryDH => 0x92,
            TelemetryType::Config => 0xA0,
            TelemetryType::ConfigDH => 0xA1,
            TelemetryType::Beacon => 0xF0,
        }
    }

    pub fn to_u8(&self) -> (r: u8)
        ensures
            r == self.spec_u8(),
    {
        match self {
            TelemetryType::Ping => 0x81,
            TelemetryType::RestartArm => 0x82,
            TelemetryType::Restart => 0x83,
            TelemetryType::StartDH => 0x90,
            TelemetryType::StopDH => 0x91,
            TelemetryType::QueryDH => 0x92,
            TelemetryType::Config => 0xA0,
            TelemetryType::ConfigDH => 0xA1,
            TelemetryType::Beacon => 0xF0,
        }
    }

    pub open spec fn spec_from_u8(value: u8) -> Option<TelemetryType> {
        if value == 0x81 {
            Some(TelemetryType::Ping)
        } else if value == 0x82 {
            Some(TelemetryType::RestartArm)
        } else if value == 0x83 {
            Some(TelemetryType::Restart)
        } else if value == 0x90 {
            Some(TelemetryType::StartDH)
        } else if value == 0x91 {
            Some(TelemetryType::StopDH)
        } else if value == 0x92 {
            Some(TelemetryType::QueryDH)
        } else if value == 0xA0 {
            Some(TelemetryType::Config)
        } else if value == 0xA1 {
            Some(TelemetryType::ConfigDH)
        } else if value == 0xF0 {
            Some(TelemetryType::Beacon)
        } else {
            None
        }
    }

    pub fn from_u8(value: u8) -> (r: Option<Self>)
        ensures
            r == Self::spec_from_u8(value),
            forall|t: TelemetryType| value == t.spec_u8() ==> r == Some(t),
    {
        proof {
            assert forall|t: TelemetryType| value == t.spec_u8() implies Self::spec_from_u8(value)
                == Some(t) by {}
        }
        match value {
            0x81 => Some(TelemetryType::Ping),
            0x82 => Some(TelemetryType::RestartArm),
            0x83 => Some(TelemetryType::Restart),
            0x90 => Some(TelemetryType::StartDH),
            0x91 => Some(TelemetryType::StopDH),
            0x92 => Some(TelemetryType::QueryDH),
            0xA0 => Some(TelemetryType::Config),
            0xA1 => Some(TelemetryType::ConfigDH),
            0xF0 => Some(TelemetryType::Beacon),
            _ => None,
        }
    }
}

/// PING telemetry response, stamped with the current spacecraft time.
#[derive(Debug, Clone, Copy, PartialEq, Eq, Structural)]
pub struct PingTelemetry {
    pub header: TelemetryHeader,
    pub timestamp: Timestamp,
}

impl PingTelemetry {
    pub fn new(sequence: u32, status: CommandStatus) -> (r: Self)
        ensures
            r.header.sequence == sequence,
            r.header.tm_type == TelemetryType::Ping,
            r.header.status == status,
            r.timestamp.wf(),
    {
        Self {
            header: TelemetryHeader { sequence, tm_type: TelemetryType::Ping, status },
            timestamp: Timestamp::now(),
        }
    }
}

/// RESTART_ARM telemetry response.
#[derive(Debug, Clone, Copy, PartialEq, Eq, Structural)]
pub struct RestartArmTelemetry {
    pub header: TelemetryHeader,
}

impl RestartArmTelemetry {
    pub fn new(sequence: u32, status: CommandStatus) -> (r: Self)
        ensures
            r.header == (TelemetryHeader { sequence, tm_type: TelemetryType::RestartArm, status }),
    {
        Self { header: TelemetryHeader { sequence, tm_type: TelemetryType::RestartArm, status } }
    }
}

/// RESTART telemetry response.
#[derive(Debug, Clone, Copy, PartialEq, Eq, Structural)]
pub struct RestartTelemetry {
    pub header: TelemetryHeader,
}

impl RestartTelemetry {
    pub fn new(sequence: u32, status: CommandStatus) -> (r: Self)
        ensures
            r.header == (TelemetryHeader { sequence, tm_type: TelemetryType::Restart, status }),
    {
        Self { header: TelemetryHeader { sequence, tm_type: TelemetryType::Restart, status } }
    }
}

/// START_DH telemetry response.
#[derive(Debug, Clone, Copy, PartialEq, Eq, Structural)]
pub struct StartDHTelemetry {
    pub header: TelemetryHeader,
}

impl StartDHTelemetry {
    pub fn new(sequence: u32, status: CommandStatus) -> (r: Self)
        ensures
            r.header == (TelemetryHeader { sequence, tm_type: TelemetryType::StartDH, status }),
    {
        Self { header: TelemetryHeader { sequence, tm_type: TelemetryType::StartDH, status } }
    }
}

/// STOP_DH telemetry response.
#[derive(Debug, Clone, Copy, PartialEq, Eq, Structural)]
pub struct StopDHTelemetry {
    pub header: TelemetryHeader,
}

impl StopDHTelemetry {
    pub fn new(sequence: u32, status: CommandStatus) -> (r: Self)
        ensures
            r.header == (TelemetryHeader { sequence, tm_type: TelemetryType::StopDH, status }),
    {
        Self { header: TelemetryHeader { sequence, tm_type: TelemetryType::StopDH, status } }
    }
}

/// QUERY_DH telemetry response, carrying a statistics snapshot.
#[derive(Debug, Clone)]
pub struct QueryDHTelemetry {
    pub header: TelemetryHeader,
    pub dh_id: DHId,
    pub statistics: Statistics,
}

impl QueryDHTelemetry {
    pub fn new(sequence: u32, status: CommandStatus, dh_id: DHId, statistics: Statistics) -> (r:
        Self)
        ensures
            r.header == (TelemetryHeader { sequence, tm_type: TelemetryType::QueryDH, status }),
            r.dh_id == dh_id,
            r.statistics == statistics,
    {
        Self {
            header: TelemetryHeader { sequence, tm_type: TelemetryType::QueryDH, status },
            dh_id,
            statistics,
        }
    }
}

/// CONFIG telemetry response.
#[derive(Debug, Clone, Copy, PartialEq, Eq, Structural)]
pub struct ConfigTelemetry {
    pub header: TelemetryHeader,
}

impl ConfigTelemetry {
    pub fn new(sequence: u32, status: CommandStatus) -> (r: Self)
        ensures
            r.header == (TelemetryHeader { sequence, tm_type: TelemetryType::Config, status }),
    {
        Self { header: TelemetryHeader { sequence, tm_type: TelemetryType::Config, status } }
    }
}

/// CONFIG_DH telemetry response.
#[derive(Debug, Clone, Copy, PartialEq, Eq, Structural)]
pub struct ConfigDHTelemetry {
    pub header: TelemetryHeader,
}

impl ConfigDHTelemetry {
    pub fn new(sequence: u32, status: CommandStatus) -> (r: Self)
        ensures
            r.header == (TelemetryHeader { sequence, tm_type: TelemetryType::ConfigDH, status }),
    {
        Self { header: TelemetryHeader { sequence, tm_type: TelemetryType::ConfigDH, status } }
    }
}

/// BEACON asynchronous liveness telemetry.
#[derive(Debug, Clone, Copy, PartialEq, Eq, Structural)]
pub struct BeaconTelemetry {
    pub header: TelemetryHeader,
    pub timestamp: Timestamp,
}

impl BeaconTelemetry {
    pub fn new() -> (r: Self)
        ensures
            r.header == (TelemetryHeader {
                sequence: 0,
                tm_type: TelemetryType::Beacon,
                status: CommandStatus::Success,
            }),
            r.timestamp.wf(),
    {
        Self {
            header: TelemetryHeader {
                sequence: 0,
                tm_type: TelemetryType::Beacon,
                status: CommandStatus::Success,
            },
            timestamp: Timestamp::now(),
        }
    }
}

impl Default for BeaconTelemetry {
    fn default() -> (r: Self)
        ensures
            r.header.sequence == 0,
            r.header.tm_type == TelemetryType::Beacon,
            r.header.status == CommandStatus::Success,
            r.timestamp.wf(),
    {
        Self::new()
    }
}

/// Union of all telemetry types.
#[derive(Debug, Clone)]
pub enum Telemetry {
    Ping(PingTelemetry),
    RestartArm(RestartArmTelemetry),
    Restart(RestartTelemetry),
    StartDH(StartDHTelemetry),
    StopDH(StopDHTelemetry),
    QueryDH(QueryDHTelemetry),
    Config(ConfigTelemetry),
    ConfigDH(ConfigDHTelemetry),
    Beacon(BeaconTelemetry),
}

impl Telemetry {
    pub open spec fn spec_header(self) -> TelemetryHeader {
        match self {
            Telemetry::Ping(tm) => tm.header,
            Telemetry::RestartArm(tm) => tm.header,
            Telemetry::Restart(tm) => tm.header,
            Telemetry::StartDH(tm) => tm.header,
            Telemetry::StopDH(tm) => tm.header,
            Telemetry::QueryDH(tm) => tm.header,
            Telemetry::Config(tm) => tm.header,
            Telemetry::ConfigDH(tm) => tm.header,
            Telemetry::Beacon(tm) => tm.header,
        }
    }

    pub open spec fn spec_sequence(self) -> u32 {
        self.spec_header().sequence
    }

    pub open spec fn spec_tm_type(self) -> TelemetryType {
        self.spec_header().tm_type
    }

    pub open spec fn spec_status(self) -> CommandStatus {
        self.spec_header().status
    }

    pub fn sequence(&self) -> (r: u32)
        ensures
            r == self.spec_sequence(),
    {
        match self {
            Telemetry::Ping(tm) => tm.header.sequence,
            Telemetry::RestartArm(tm) => tm.header.sequence,
            Telemetry::Restart(tm) => tm.header.sequence,
            Telemetry::StartDH(tm) => tm.header.sequence,
            Telemetry::StopDH(tm) => tm.header.sequence,
            Telemetry::QueryDH(tm) => tm.header.sequence,
            Telemetry::Config(tm) => tm.header.sequence,
            Telemetry::ConfigDH(tm) => tm.header.sequence,
            Telemetry::Beacon(tm) => tm.header.sequence,
        }
    }

    pub fn tm_type(&self) -> (r: TelemetryType)
        ensures
            r == self.spec_tm_type(),
    {
        match self {
            Telemetry::Ping(tm) => tm.header.tm_type,
            Telemetry::RestartArm(tm) => tm.header.tm_type,
            Telemetry::Restart(tm) => tm.header.tm_type,
            Telemetry::StartDH(tm) => tm.header.tm_type,
            Telemetry::StopDH(tm) => tm.header.tm_type,
            Telemetry::QueryDH(tm) => tm.header.tm_type,
            Telemetry::Config(tm) => tm.header.tm_type,
            Telemetry::ConfigDH(tm) => tm.header.tm_type,
            Telemetry::Beacon(tm) => tm.header.tm_type,
        }
    }

    pub fn status(&self) -> (r: CommandStatus)
        ensures
            r == self.spec_status(),
    {
        match self {
            Telemetry::Ping(tm) => tm.header.status,
            Telemetry::RestartArm(tm) => tm.header.status,
            Telemetry::Restart(tm) => tm.header.status,
            Telemetry::StartDH(tm) => tm.header.status,
            Telemetry::StopDH(tm) => tm.header.status,
            Telemetry::QueryDH(tm) => tm.header.status,
            Telemetry::Config(tm) => tm.header.status,
            Telemetry::ConfigDH(tm) => tm.header.status,
            Telemetry::Beacon(tm) => tm.header.status,
        }
    }
}

} // verus!
