//! Common value types shared by commands, telemetry and the interpreter.

use vstd::prelude::*;

verus! {

/// Spacecraft time: seconds and nanoseconds since the Unix epoch.
/// Monotonicity is not guaranteed; the clock can step.
#[derive(Debug, Clone, Copy, PartialEq, Eq, Structural)]
pub struct Timestamp {
    /// Seconds since epoch
    pub seconds: u64,
    /// Nanoseconds within the second
    pub nanoseconds: u32,
}

impl Timestamp {
    /// A timestamp is well formed when the nanosecond part stays within one second.
    pub open spec fn wf(self) -> bool {
        self.nanoseconds < 1_000_000_000
    }

    pub fn new(seconds: u64, nanoseconds: u32) -> (r: Self)
        ensures
            r.seconds == seconds,
            r.nanoseconds == nanoseconds,
    {
        Self { seconds, nanoseconds }
    }

    /// Relies on `std::time::SystemTime::now` and
    /// `SystemTime::duration_since(UNIX_EPOCH)`: the subsecond part of a
    /// `Duration` is documented to be below one billion nanoseconds.
    /// Nothing else can be promised of the clock.
    #[verifier::external_body]
    pub fn now() -> (r: Self)
        ensures
            r.wf(),
    {
        let duration = std::time::SystemTime::now()
            .duration_since(std::time::UNIX_EPOCH)
            .unwrap_or_default();
        Self { seconds: duration.as_secs(), nanoseconds: duration.subsec_nanos() }
    }
}

/// Key used for arming restart operations; compared for bitwise equality.
#[derive(Debug, Clone, Copy, PartialEq, Eq, Structural)]
pub struct ArmKey(pub u32);

/// Data handler identifier, ordered and unique per process.
#[derive(Debug, Clone, Copy, PartialEq, Eq, PartialOrd, Ord, Hash, Structural)]
pub struct DHId(pub u32);

/// Data handler type: network endpoint or character device.
#[derive(Debug, Clone, Copy, PartialEq, Eq, Structural)]
pub enum DHType {
    /// Network-based data handler (TCP/IP, UDP/IP, etc.)
    Network,
    /// Device-based data handler (serial ports, I2C, SPI, etc.)
    Device,
}

/// Data handler name: for network handlers `host:port[:proto]`,
/// for device handlers a filesystem path.
#[derive(Debug, Clone, PartialEq, Eq)]
pub struct DHName(pub String);

impl DHName {
    pub fn new(name: String) -> (r: Self)
        ensures
            r.0@ == name@,
    {
        Self(name)
    }
}

/// Beacon interval in milliseconds; 0 is reserved and disables the beacon driver.
#[derive(Debug, Clone, Copy, PartialEq, Eq, Structural)]
pub struct BeaconTime(pub u64);

impl Default for BeaconTime {
    /// The default cadence is one beacon every ten seconds.
    fn default() -> (r: Self)
        ensures
            r.0 == 10000,
    {
        Self(10000)
    }
}

/// Outcome of a command, carried in every telemetry reply.
#[derive(Debug, Clone, Copy, PartialEq, Eq, Structural)]
pub enum CommandStatus {
    Success,
    Failure(ErrorCode),
}

/// Error kinds surfaced to ground on the wire.
#[derive(Debug, Clone, Copy, PartialEq, Eq, Structural)]
pub enum ErrorCode {
    Unknown,
    InvalidCommand,
    DHNotFound,
    DHAlreadyExists,
    InvalidArmKey,
    RestartNotArmed,
    ArmWindowExpired,
    ResourceAllocationFailed,
    InvalidConfiguration,
    IoError,
}

impl ErrorCode {
    /// Wire value of the error code.
    pub fn to_u16(&self) -> (r: u16)
        ensures
            r == self.spec_u16(),
    {
        match self {
            ErrorCode::Unknown => 0,
            ErrorCode::InvalidCommand => 1,
            ErrorCode::DHNotFound => 2,
            ErrorCode::DHAlreadyExists => 3,
            ErrorCode::InvalidArmKey => 4,
            ErrorCode::RestartNotArmed => 5,
            ErrorCode::ArmWindowExpired => 6,
            ErrorCode::ResourceAllocationFailed => 7,
            ErrorCode::InvalidConfiguration => 8,
            ErrorCode::IoError => 9,
        }
    }

    pub open spec fn spec_u16(self) -> u16 {
        match self {
            ErrorCode::Unknown => 0,
            ErrorCode::InvalidCommand => 1,
            ErrorCode::DHNotFound => 2,
            ErrorCode::DHAlreadyExists => 3,
            ErrorCode::InvalidArmKey => 4,
            ErrorCode::RestartNotArmed => 5,
            ErrorCode::ArmWindowExpired => 6,
            ErrorCode::ResourceAllocationFailed => 7,
            ErrorCode::InvalidConfiguration => 8,
            ErrorCode::IoError => 9,
        }
    }

    pub open spec fn spec_from_u16(value: u16) -> Option<ErrorCode> {
        if value == 0 {
            Some(ErrorCode::Unknown)
        } else if value == 1 {
            Some(ErrorCode::InvalidCommand)
        } else if value == 2 {
            Some(ErrorCode::DHNotFound)
        } else if value == 3 {
            Some(ErrorCode::DHAlreadyExists)
        } else if value == 4 {
            Some(ErrorCode::InvalidArmKey)
        } else if value == 5 {
            Some(ErrorCode::RestartNotArmed)
        } else if value == 6 {
            Some(ErrorCode::ArmWindowExpired)
        } else if value == 7 {
            Some(ErrorCode::ResourceAllocationFailed)
        } else if value == 8 {
            Some(ErrorCode::InvalidConfiguration)
        } else if value == 9 {
            Some(ErrorCode::IoError)
        } else {
            None
        }
    }

    pub fn from_u16(value: u16) -> (r: Option<ErrorCode>)
        ensures
            r == Self::spec_from_u16(value),
            forall|c: ErrorCode| value == c.spec_u16() ==> r == Some(c),
    {
        proof {
            assert forall|c: ErrorCode| value == c.spec_u16() implies Self::spec_from_u16(
                value,
            ) == Some(c) by {}
        }
        match value {
            0 => Some(ErrorCode::Unknown),
            1 => Some(ErrorCode::InvalidCommand),
            2 => Some(ErrorCode::DHNotFound),
            3 => Some(ErrorCode::DHAlreadyExists),
            4 => Some(ErrorCode::InvalidArmKey),
            5 => Some(ErrorCode::RestartNotArmed),
            6 => Some(ErrorCode::ArmWindowExpired),
            7 => Some(ErrorCode::ResourceAllocationFailed),
            8 => Some(ErrorCode::InvalidConfiguration),
            9 => Some(ErrorCode::IoError),
            _ => None,
        }
    }
}

/// Reading back the wire value of an error code gives the code.
pub proof fn lemma_error_code_round(c: ErrorCode)
    ensures
        ErrorCode::spec_from_u16(c.spec_u16()) == Some(c),
{
}

/// A wire value that decodes to some error code is that code's wire value.
pub proof fn lemma_error_code_from_u16(x: u16)
    ensures
        ErrorCode::spec_from_u16(x) matches Some(c) ==> c.spec_u16() == x,
{
}

/// Saturating add on a statistics counter: counters stick at the maximum.
pub open spec fn sat_add(a: u64, b: u64) -> u64 {
    a.saturating_add(b)
}

/// I/O statistics for a data handler. All counters saturate at the maximum.
#[derive(Debug, Clone)]
pub struct Statistics {
    /// Spacecraft time when statistics were collected
    pub timestamp: Option<Timestamp>,
    /// Number of bytes received
    pub bytes_received: u64,
    /// Number of read operations completed successfully
    pub reads_completed: u64,
    /// Number of read operations that returned an error
    pub reads_failed: u64,
    /// Number of bytes sent
    pub bytes_sent: u64,
    /// Number of write operations completed successfully
    pub writes_completed: u64,
    /// Number of write operations that returned an error
    pub writes_failed: u64,
}

impl Statistics {
    /// All counters zero, no timestamp.
    pub open spec fn is_zero(self) -> bool {
        &&& self.timestamp is None
        &&& self.bytes_received == 0
        &&& self.reads_completed == 0
        &&& self.reads_failed == 0
        &&& self.bytes_sent == 0
        &&& self.writes_completed == 0
        &&& self.writes_failed == 0
    }

    /// The read-side and write-side counters, without the timestamp.
    pub open spec fn counters(self) -> (u64, u64, u64, u64, u64, u64) {
        (
            self.bytes_received,
            self.reads_completed,
            self.reads_failed,
            self.bytes_sent,
            self.writes_completed,
            self.writes_failed,
        )
    }

    /// Every counter of `self` is at least the matching counter of `other`.
    pub open spec fn dominates(self, other: Statistics) -> bool {
        &&& self.bytes_received >= other.bytes_received
        &&& self.reads_completed >= other.reads_completed
        &&& self.reads_failed >= other.reads_failed
        &&& self.bytes_sent >= other.bytes_sent
        &&& self.writes_completed >= other.writes_completed
        &&& self.writes_failed >= other.writes_failed
    }

    pub fn new() -> (r: Self)
        ensures
            r.is_zero(),
    {
        Self {
            timestamp: None,
            bytes_received: 0,
            reads_completed: 0,
            reads_failed: 0,
            bytes_sent: 0,
            writes_completed: 0,
            writes_failed: 0,
        }
    }

    /// The same counters, stamped with the current spacecraft time.
    pub fn with_timestamp(self) -> (r: Self)
        ensures
            r.timestamp matches Some(t) && t.wf(),
            r.counters() == self.counters(),
    {
        let mut s = self;
        s.timestamp = Some(Timestamp::now());
        s
    }

    /// Fold another set of counters into this one, saturating.
    pub fn merge(&mut self, other: &Statistics)
        ensures
            final(self).timestamp == old(self).timestamp,
            final(self).bytes_received == sat_add(old(self).bytes_received, other.bytes_received),
            final(self).reads_completed == sat_add(
                old(self).reads_completed,
                other.reads_completed,
            ),
            final(self).reads_failed == sat_add(old(self).reads_failed, other.reads_failed),
            final(self).bytes_sent == sat_add(old(self).bytes_sent, other.bytes_sent),
            final(self).writes_completed == sat_add(
                old(self).writes_completed,
                other.writes_completed,
            ),
            final(self).writes_failed == sat_add(old(self).writes_failed, other.writes_failed),
            final(self).dominates(*old(self)),
    {
        self.bytes_received = self.bytes_received.saturating_add(other.bytes_received);
        self.reads_completed = self.reads_completed.saturating_add(other.reads_completed);
        self.reads_failed = self.reads_failed.saturating_add(other.reads_failed);
        self.bytes_sent = self.bytes_sent.saturating_add(other.bytes_sent);
        self.writes_completed = self.writes_completed.saturating_add(other.writes_completed);
        self.writes_failed = self.writes_failed.saturating_add(other.writes_failed);
    }
}

impl Default for Statistics {
    fn default() -> (r: Self)
        ensures
            r.is_zero(),
    {
        Statistics::new()
    }
}

/// Canonical address family values (OS-independent).
#[derive(Debug, Clone, Copy, PartialEq, Eq, Structural)]
pub enum CanonicalAddressFamily {
    Unix,
    Inet,
    Inet6,
    Ax25,
    Ipx,
    Appletalk,
    X25,
    Decnet,
    Key,
    Netlink,
    Packet,
    Rds,
    Pppox,
    Llc,
    Ib,
    Mpls,
    Can,
    Tipc,
    Bluetooth,
    Alg,
    Vsock,
    Xdp,
}

/// Canonical socket type values (OS-independent).
#[derive(Debug, Clone, Copy, PartialEq, Eq, Structural)]
pub enum CanonicalSocketType {
    Stream,
    Dgram,
    Raw,
    SeqPacket,
}

impl CanonicalSocketType {
    /// Returns true if this socket type has stream semantics.
    pub fn is_stream(&self) -> (r: bool)
        ensures
            r == (self is Stream),
    {
        matches!(self, CanonicalSocketType::Stream)
    }

    /// Returns true if this socket type has datagram semantics.
    pub fn is_datagram(&self) -> (r: bool)
        ensures
            r == (self is Dgram || self is Raw || self is SeqPacket),
    {
        matches!(
            self,
            CanonicalSocketType::Dgram | CanonicalSocketType::Raw | CanonicalSocketType::SeqPacket
        )
    }
}

/// Parameters for the retry helper used while a payload connection is set up:
/// the delay starts at `init_ms` and doubles up to `max_ms`.
#[derive(Debug, Clone, Copy, PartialEq, Eq, Structural)]
pub struct EndpointDelayConfig {
    /// Initial delay value in milliseconds
    pub init_ms: u64,
    /// Maximum delay value in milliseconds
    pub max_ms: u64,
}

impl Default for EndpointDelayConfig {
    fn default() -> (r: Self)
        ensures
            r.init_ms == 100,
            r.max_ms == 10000,
    {
        Self { init_ms: 100, max_ms: 10000 }
    }
}

/// Delay, in milliseconds, that a stream reader waits before each read so
/// payload bytes coalesce into larger chunks; 0 disables coalescing.
#[derive(Debug, Clone, Copy, PartialEq, Eq, Structural)]
pub struct StreamEPDelay(pub u64);

impl Default for StreamEPDelay {
    fn default() -> (r: Self)
        ensures
            r.0 == 10,
    {
        Self(10)
    }
}

/// The next backoff delay: double the current one, capped at `max_ms`.
pub fn next_backoff(cur_ms: u64, max_ms: u64) -> (r: u64)
    ensures
        r == if sat_add(cur_ms, cur_ms) > max_ms {
            max_ms
        } else {
            sat_add(cur_ms, cur_ms)
        },
{
    let doubled = cur_ms.saturating_add(cur_ms);
    if doubled > max_ms {
        max_ms
    } else {
        doubled
    }
}

} // verus!
