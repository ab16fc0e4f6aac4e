//! Canonical socket classification values and a simple length-prefixed
//! frame for stream transports.

use vstd::prelude::*;
use crate::codec::{enc_u32, lemma_dec_enc_u32, Reader};

verus! {

/// Canonical address family values.
#[derive(Debug, Clone, Copy, PartialEq, Eq, Structural)]
pub enum AddressFamily {
    Unix,
    Inet,
    Inet6,
    Ax25,
    Ipx,
    Appletalk,
    X25,
    Decnet,
    Key,
    Netlink,
    Packet,
    Rds,
    Pppox,
    Llc,
    Ib,
    Mpls,
    Can,
    Tipc,
    Bluetooth,
    Alg,
    Vsock,
    Xdp,
}

/// Canonical socket type values.
#[derive(Debug, Clone, Copy, PartialEq, Eq, Structural)]
pub enum SocketType {
    Stream,
    Dgram,
    Raw,
    Seqpacket,
}

impl SocketType {
    /// Check if this socket type has stream semantics.
    pub fn is_stream(&self) -> (r: bool)
        ensures
            r == (self is Stream),
    {
        matches!(self, SocketType::Stream)
    }

    /// Check if this socket type has datagram semantics.
    pub fn is_datagram(&self) -> (r: bool)
        ensures
            r == !(self is Stream),
    {
        !self.is_stream()
    }
}

/// Protocol configuration for socket creation.
#[derive(Debug, Clone, Copy, PartialEq, Eq, Structural)]
pub struct SocketConfig {
    pub family: AddressFamily,
    pub socket_type: SocketType,
    pub protocol: i32,
}

impl SocketConfig {
    pub fn tcp_v4() -> (r: Self)
        ensures
            r == (SocketConfig {
                family: AddressFamily::Inet,
                socket_type: SocketType::Stream,
                protocol: 0,
            }),
    {
        Self { family: AddressFamily::Inet, socket_type: SocketType::Stream, protocol: 0 }
    }

    pub fn udp_v4() -> (r: Self)
        ensures
            r == (SocketConfig {
                family: AddressFamily::Inet,
                socket_type: SocketType::Dgram,
                protocol: 0,
            }),
    {
        Self { family: AddressFamily::Inet, socket_type: SocketType::Dgram, protocol: 0 }
    }

    pub fn tcp_v6() -> (r: Self)
        ensures
            r == (SocketConfig {
                family: AddressFamily::Inet6,
                socket_type: SocketType::Stream,
                protocol: 0,
            }),
    {
        Self { family: AddressFamily::Inet6, socket_type: SocketType::Stream, protocol: 0 }
    }

    pub fn udp_v6() -> (r: Self)
        ensures
            r == (SocketConfig {
                family: AddressFamily::Inet6,
                socket_type: SocketType::Dgram,
                protocol: 0,
            }),
    {
        Self { family: AddressFamily::Inet6, socket_type: SocketType::Dgram, protocol: 0 }
    }

    pub fn unix_stream() -> (r: Self)
        ensures
            r == (SocketConfig {
                family: AddressFamily::Unix,
                socket_type: SocketType::Stream,
                protocol: 0,
            }),
    {
        Self { family: AddressFamily::Unix, socket_type: SocketType::Stream, protocol: 0 }
    }

    pub fn unix_dgram() -> (r: Self)
        ensures
            r == (SocketConfig {
                family: AddressFamily::Unix,
                socket_type: SocketType::Dgram,
                protocol: 0,
            }),
    {
        Self { family: AddressFamily::Unix, socket_type: SocketType::Dgram, protocol: 0 }
    }
}

/// Message framing for stream protocols: a big-endian 32-bit length,
/// then that many bytes of data. Trailing bytes after a frame are left
/// for the next frame.
#[derive(Debug, Clone, PartialEq, Eq)]
pub struct MessageFrame {
    /// Length of the message (not including the length field itself)
    pub length: u32,
    /// Message data
    pub data: Vec<u8>,
}

impl MessageFrame {
    /// The length field matches the data.
    pub open spec fn wf(self) -> bool {
        self.length == self.data@.len()
    }

    pub fn new(data: Vec<u8>) -> (r: Self)
        requires
            data@.len() <= u32::MAX,
        ensures
            r.wf(),
            r.data@ == data@,
            r.length == data@.len(),
    {
        let length = data.len() as u32;
        Self { length, data }
    }

    /// Serialize the frame: the length prefix, then the data.
    pub fn to_bytes(&self) -> (r: Vec<u8>)
        ensures
            r@ == enc_u32(self.length) + self.data@,
    {
        let mut out: Vec<u8> = Vec::new();
        crate::codec::push_u32(&mut out, self.length);
        crate::codec::push_bytes(&mut out, self.data.as_slice());
        assert(out@ =~= enc_u32(self.length) + self.data@);
        out
    }

    /// Deserialize a frame. Succeeds exactly when the input holds four
    /// length bytes and at least that many data bytes after them; the
    /// frame is read from the front and trailing bytes are ignored.
    pub fn from_bytes(bytes: &[u8]) -> (r: Option<Self>)
        ensures
            r matches Some(f) ==> ({
                &&& f.wf()
                &&& bytes@.len() >= 4 + f.length
                &&& bytes@.subrange(0, 4) == enc_u32(f.length)
                &&& f.data@ == bytes@.subrange(4, 4 + f.length as int)
            }),
            r is None ==> (bytes@.len() < 4 || ({
                let need = crate::codec::dec_u32(bytes@[0], bytes@[1], bytes@[2], bytes@[3]);
                bytes@.len() < 4 + need
            })),
    {
        let mut rd = Reader::new(bytes);
        let length = match rd.read_u32() {
            Some(l) => l,
            None => {
                return None;
            },
        };
        proof {
            assert(bytes@.subrange(0, 4) =~= seq![bytes@[0], bytes@[1], bytes@[2], bytes@[3]]);
            lemma_dec_enc_u32(bytes@[0], bytes@[1], bytes@[2], bytes@[3]);
            crate::codec::lemma_enc_u32_inj(
                length,
                crate::codec::dec_u32(bytes@[0], bytes@[1], bytes@[2], bytes@[3]),
            );
        }
        let data = match rd.read_bytes(length as usize) {
            Some(d) => d,
            None => {
                return None;
            },
        };
        Some(Self { length, data })
    }
}

} // verus!
