//! Endpoint policy: how a data handler name is parsed into a payload
//! endpoint, and how a poll outcome is classified. The file descriptors
//! themselves live at the process edge; this module owns the decisions.

use vstd::prelude::*;
use vstd::slice::{slice_subrange, slice_to_vec};
use vstd::utf8::encode_utf8;
use crate::types::DHName;

verus! {

/// Result of waiting for an event on an endpoint.
#[derive(Debug, Clone, Copy, PartialEq, Eq, Structural)]
pub enum WaitResult {
    /// I/O is ready
    IoReady,
    /// A control command is pending
    CommandPending,
    /// Both I/O and a control command are ready
    Both,
    /// The wait timed out
    Timeout,
    /// An error occurred
    Error,
}

/// Classify the outcome of a poll over the I/O descriptor and the
/// control descriptor. A wait that returned ready descriptors but
/// flagged neither of ours reports an error condition on the I/O side.
pub fn classify_wait(num_ready: usize, io_ready: bool, cmd_ready: bool) -> (r: WaitResult)
    ensures
        num_ready == 0 ==> r == WaitResult::Timeout,
        num_ready > 0 && io_ready && cmd_ready ==> r == WaitResult::Both,
        num_ready > 0 && io_ready && !cmd_ready ==> r == WaitResult::IoReady,
        num_ready > 0 && !io_ready && cmd_ready ==> r == WaitResult::CommandPending,
        num_ready > 0 && !io_ready && !cmd_ready ==> r == WaitResult::Error,
{
    if num_ready == 0 {
        WaitResult::Timeout
    } else if io_ready && cmd_ready {
        WaitResult::Both
    } else if io_ready {
        WaitResult::IoReady
    } else if cmd_ready {
        WaitResult::CommandPending
    } else {
        WaitResult::Error
    }
}

/// Transport protocol of a network payload endpoint.
#[derive(Debug, Clone, Copy, PartialEq, Eq, Structural)]
pub enum PayloadProto {
    Tcp,
    Udp,
}

/// Where a data handler's payload lives: a network peer or a device path.
#[derive(Debug, Clone, PartialEq, Eq)]
pub enum EndpointSpec {
    /// Connect to `host:port` over the given protocol.
    Network { host: String, port: u16, proto: PayloadProto },
    /// Open the device at this filesystem path.
    Device { path: String },
}

/// A decimal digit byte.
pub open spec fn is_digit(b: u8) -> bool {
    0x30 <= b <= 0x39
}

pub open spec fn all_digits(s: Seq<u8>) -> bool {
    forall|i: int| 0 <= i < s.len() ==> is_digit(#[trigger] s[i])
}

/// Numeric value of a run of decimal digit bytes.
pub open spec fn dec_value(s: Seq<u8>) -> int
    decreases s.len(),
{
    if s.len() == 0 {
        0
    } else {
        dec_value(s.drop_last()) * 10 + (s.last() - 0x30)
    }
}

/// The colon byte.
pub open spec fn is_colon(b: u8) -> bool {
    b == 0x3a
}

/// Position of the first colon at or after `from`, if any.
pub open spec fn spec_find_colon(s: Seq<u8>, from: int) -> Option<int>
    decreases s.len() - from,
{
    if from < 0 || from >= s.len() {
        None
    } else if is_colon(s[from]) {
        Some(from)
    } else {
        spec_find_colon(s, from + 1)
    }
}

/// The byte sequences accepted as a protocol suffix, and what they mean.
pub open spec fn spec_proto_of(s: Seq<u8>) -> Option<PayloadProto> {
    if s == seq![0x74u8, 0x63u8, 0x70u8] {
        Some(PayloadProto::Tcp)
    } else if s == seq![0x75u8, 0x64u8, 0x70u8] {
        Some(PayloadProto::Udp)
    } else {
        None
    }
}

/// The protocol a network handler uses when its name gives none.
pub open spec fn spec_default_proto(is_stream: bool) -> PayloadProto {
    if is_stream {
        PayloadProto::Tcp
    } else {
        PayloadProto::Udp
    }
}

/// Deterministic parse of `host:port[:proto]` over a name's UTF-8
/// bytes: the host ends at the first colon, the digit run after it is
/// the port, and an optional second colon introduces the protocol.
/// Returns the host length, the port, and the protocol.
pub open spec fn spec_parse_network(s: Seq<u8>, is_stream: bool) -> Option<(int, u16, PayloadProto)> {
    match spec_find_colon(s, 0) {
        None => None,
        Some(i) => {
            let j = match spec_find_colon(s, i + 1) {
                None => s.len() as int,
                Some(j) => j,
            };
            let run = s.subrange(i + 1, j);
            if run.len() >= 1 && all_digits(run) && 0 <= dec_value(run) <= 65535 {
                if j == s.len() {
                    Some((i, dec_value(run) as u16, spec_default_proto(is_stream)))
                } else {
                    match spec_proto_of(s.subrange(j + 1, s.len() as int)) {
                        Some(p) => Some((i, dec_value(run) as u16, p)),
                        None => None,
                    }
                }
            } else {
                None
            }
        },
    }
}

/// Find the first colon at or after `from`.
fn find_colon(bytes: &[u8], from: usize) -> (r: Option<usize>)
    requires
        from <= bytes@.len(),
    ensures
        r matches Some(i) ==> from <= i < bytes@.len() && spec_find_colon(bytes@, from as int)
            == Some(i as int),
        r is None ==> spec_find_colon(bytes@, from as int) is None,
{
    let mut i = from;
    while i < bytes.len()
        invariant
            from <= i <= bytes@.len(),
            spec_find_colon(bytes@, from as int) == spec_find_colon(bytes@, i as int),
        decreases bytes@.len() - i,
    {
        if bytes[i] == 0x3a {
            return Some(i);
        }
        i = i + 1;
    }
    None
}

/// Parse a run of decimal digits as a port number.
fn parse_port(bytes: &[u8]) -> (r: Option<u16>)
    ensures
        r matches Some(v) ==> bytes@.len() >= 1 && all_digits(bytes@) && dec_value(bytes@) == v,
        r is None ==> (bytes@.len() == 0 || !all_digits(bytes@) || dec_value(bytes@) > 65535),
{
    if bytes.len() == 0 {
        return None;
    }
    let mut acc: u32 = 0;
    let mut i: usize = 0;
    while i < bytes.len()
        invariant
            0 <= i <= bytes@.len(),
            all_digits(bytes@.subrange(0, i as int)),
            acc == dec_value(bytes@.subrange(0, i as int)),
            acc <= 65535,
        decreases bytes@.len() - i,
    {
        let b = bytes[i];
        if b < 0x30 || b > 0x39 {
            proof {
                assert(!is_digit(bytes@[i as int]));
            }
            return None;
        }
        acc = acc * 10 + ((b - 0x30) as u32);
        proof {
            assert(bytes@.subrange(0, i as int + 1).drop_last() =~= bytes@.subrange(0, i as int));
            assert(bytes@.subrange(0, i as int + 1).last() == b);
        }
        i = i + 1;
        if acc > 65535 {
            if all_digits_check(bytes, i) {
                proof {
                    assert forall|j: int| 0 <= j < bytes@.len() implies is_digit(
                        #[trigger] bytes@[j],
                    ) by {
                        if j < i {
                            assert(bytes@[j] == bytes@.subrange(0, i as int)[j]);
                        }
                    }
                    lemma_dec_value_monotonic(bytes@, i as int);
                    assert(bytes@.subrange(0, bytes@.len() as int) =~= bytes@);
                }
                return None;
            }
            return None;
        }
    }
    proof {
        assert(bytes@.subrange(0, bytes@.len() as int) =~= bytes@);
    }
    Some(acc as u16)
}

/// Scan the tail for a non-digit; used only to justify a rejection.
fn all_digits_check(bytes: &[u8], from: usize) -> (r: bool)
    requires
        from <= bytes@.len(),
    ensures
        r == forall|j: int| from <= j < bytes@.len() ==> is_digit(#[trigger] bytes@[j]),
{
    let mut i = from;
    while i < bytes.len()
        invariant
            from <= i <= bytes@.len(),
            forall|j: int| from <= j < i ==> is_digit(#[trigger] bytes@[j]),
        decreases bytes@.len() - i,
    {
        let b = bytes[i];
        if b < 0x30 || b > 0x39 {
            proof {
                assert(!is_digit(bytes@[i as int]));
            }
            return false;
        }
        i = i + 1;
    }
    true
}

/// A digit run's value only grows as the run extends.
proof fn lemma_dec_value_monotonic(s: Seq<u8>, k: int)
    requires
        0 <= k <= s.len(),
        all_digits(s),
    ensures
        dec_value(s) >= dec_value(s.subrange(0, k)),
        dec_value(s) >= 0,
        dec_value(s.subrange(0, k)) >= 0,
    decreases s.len() - k,
{
    assert forall|j: int| 0 <= j < s.subrange(0, k).len() implies is_digit(
        #[trigger] s.subrange(0, k)[j],
    ) by {
        assert(s.subrange(0, k)[j] == s[j]);
    }
    lemma_dec_value_nonneg(s.subrange(0, k));
    lemma_dec_value_nonneg(s);
    if k < s.len() {
        lemma_dec_value_monotonic(s, k + 1);
        assert(s.subrange(0, k + 1).drop_last() =~= s.subrange(0, k));
        assert(dec_value(s.subrange(0, k + 1)) == dec_value(s.subrange(0, k)) * 10 + (s[k] - 0x30));
        assert(is_digit(s[k]));
        assert(dec_value(s.subrange(0, k + 1)) >= dec_value(s.subrange(0, k)));
    } else {
        assert(s.subrange(0, k) =~= s);
    }
}

proof fn lemma_dec_value_nonneg(s: Seq<u8>)
    requires
        all_digits(s),
    ensures
        dec_value(s) >= 0,
    decreases s.len(),
{
    if s.len() > 0 {
        assert forall|j: int| 0 <= j < s.drop_last().len() implies is_digit(
            #[trigger] s.drop_last()[j],
        ) by {
            assert(s.drop_last()[j] == s[j]);
        }
        lemma_dec_value_nonneg(s.drop_last());
        assert(is_digit(s.last()));
    }
}

/// Recognize a protocol suffix.
fn parse_proto(bytes: &[u8]) -> (r: Option<PayloadProto>)
    ensures
        r == spec_proto_of(bytes@),
{
    if bytes.len() == 3 {
        if bytes[0] == 0x74 && bytes[1] == 0x63 && bytes[2] == 0x70 {
            proof {
                assert(bytes@ =~= seq![0x74u8, 0x63u8, 0x70u8]);
            }
            return Some(PayloadProto::Tcp);
        }
        if bytes[0] == 0x75 && bytes[1] == 0x64 && bytes[2] == 0x70 {
            proof {
                assert(bytes@ =~= seq![0x75u8, 0x64u8, 0x70u8]);
            }
            return Some(PayloadProto::Udp);
        }
    }
    proof {
        if bytes@ == seq![0x74u8, 0x63u8, 0x70u8] {
            assert(bytes@[0] == 0x74 && bytes@[1] == 0x63 && bytes@[2] == 0x70);
        }
        if bytes@ == seq![0x75u8, 0x64u8, 0x70u8] {
            assert(bytes@[0] == 0x75 && bytes@[1] == 0x64 && bytes@[2] == 0x70);
        }
    }
    None
}

/// Parse a network data handler name of the form `host:port[:proto]`.
/// The protocol defaults to TCP for stream handlers and UDP otherwise.
/// A success returns exactly what `spec_parse_network` reads from the
/// name's bytes; a failure means the name does not parse, or its host
/// part is not self-contained UTF-8.
pub fn parse_network_name(name: &DHName, is_stream: bool) -> (r: Option<EndpointSpec>)
    ensures
        r matches Some(sp) ==> ({
            let s = encode_utf8(name.0@);
            &&& sp matches EndpointSpec::Network { host, port, proto }
            &&& spec_parse_network(s, is_stream) matches Some(p)
            &&& p.1 == sp->Network_port
            &&& p.2 == sp->Network_proto
            &&& encode_utf8(sp->Network_host@) == s.subrange(0, p.0)
        }),
        r is None ==> (spec_parse_network(encode_utf8(name.0@), is_stream) is None
            || !vstd::utf8::valid_utf8(encode_utf8(name.0@).subrange(
            0,
            spec_parse_network(encode_utf8(name.0@), is_stream)->Some_0.0,
        ))),
{
    let bytes: &[u8] = name.0.as_str().as_bytes();
    let blen = bytes.len();
    let ci = match find_colon(bytes, 0) {
        Some(i) => i,
        None => {
            return None;
        },
    };
    let pj = match find_colon(bytes, ci + 1) {
        Some(j) => j,
        None => bytes.len(),
    };
    let run = slice_subrange(bytes, ci + 1, pj);
    let port = match parse_port(run) {
        Some(p) => p,
        None => {
            return None;
        },
    };
    let proto = if pj == bytes.len() {
        if is_stream {
            PayloadProto::Tcp
        } else {
            PayloadProto::Udp
        }
    } else {
        let tail = slice_subrange(bytes, pj + 1, bytes.len());
        match parse_proto(tail) {
            Some(p) => p,
            None => {
                return None;
            },
        }
    };
    let host_bytes = slice_to_vec(slice_subrange(bytes, 0, ci));
    let host = match crate::wire::bytes_to_string(host_bytes) {
        Some(h) => h,
        None => {
            return None;
        },
    };
    proof {
        vstd::utf8::decode_utf8_encode_utf8(bytes@.subrange(0, ci as int));
    }
    Some(EndpointSpec::Network { host, port, proto })
}

} // verus!
