//! The payload simulator's state: its configuration, the statistics the
//! simulator window shows, and the packets it generates. The listening
//! sockets and the timer loop live at the process edge.

use vstd::prelude::*;
use crate::codec::{enc_u32, push_u32};
use crate::types::sat_add;

verus! {

/// Type of simulated payload.
#[derive(Debug, Clone, Copy, PartialEq, Eq, Structural)]
pub enum PayloadType {
    /// TCP server
    TcpServer,
    /// UDP server
    UdpServer,
}

/// Payload configuration.
#[derive(Debug, Clone)]
pub struct PayloadConfig {
    /// Payload id; matches the data handler number
    pub id: u32,
    /// Type of payload
    pub payload_type: PayloadType,
    /// Address to listen on
    pub address: String,
    /// Packet size in bytes
    pub packet_size: usize,
    /// Interval between packets in milliseconds
    pub interval_ms: u64,
}

/// Payload statistics for display.
#[derive(Debug)]
pub struct PayloadStats {
    pub sent: u64,
    pub received: u64,
    pub last_sent: String,
    pub last_received: String,
    pub status: String,
    pub connected: bool,
}

/// The statistics record the simulator shares with its window.
#[derive(Debug)]
pub struct SharedStats {
    pub sent: u64,
    pub received: u64,
    pub last_sent: String,
    pub last_received: String,
    pub status: String,
    pub connected: bool,
}

/// A simulated payload: it answers whatever arrives and emits a packet
/// with a running sequence number at a fixed cadence.
pub struct Payload {
    /// Configuration
    pub config: PayloadConfig,
    /// Sequence number of the next generated packet
    pub sequence: u32,
    /// Statistics shown to the operator
    pub stats: SharedStats,
}

impl Payload {
    pub fn new(config: PayloadConfig, stats: SharedStats) -> (r: Self)
        ensures
            r.config == config,
            r.sequence == 0,
            r.stats == stats,
    {
        Self { config, sequence: 0, stats }
    }

    /// Record a status line.
    pub fn update_status(&mut self, status: String)
        ensures
            final(self).stats.status == status,
            final(self).stats.sent == old(self).stats.sent,
            final(self).stats.received == old(self).stats.received,
            final(self).stats.connected == old(self).stats.connected,
            final(self).config == old(self).config,
            final(self).sequence == old(self).sequence,
    {
        self.stats.status = status;
    }

    /// Record whether a peer is connected.
    pub fn update_connected(&mut self, connected: bool)
        ensures
            final(self).stats.connected == connected,
            final(self).stats.sent == old(self).stats.sent,
            final(self).stats.received == old(self).stats.received,
            final(self).stats.status == old(self).stats.status,
            final(self).config == old(self).config,
            final(self).sequence == old(self).sequence,
    {
        self.stats.connected = connected;
    }

    /// Count one packet sent and keep its description.
    pub fn record_sent(&mut self, desc: String)
        ensures
            final(self).stats.sent == sat_add(old(self).stats.sent, 1),
            final(self).stats.last_sent == desc,
            final(self).stats.received == old(self).stats.received,
            final(self).stats.connected == old(self).stats.connected,
            final(self).config == old(self).config,
            final(self).sequence == old(self).sequence,
    {
        self.stats.sent = self.stats.sent.saturating_add(1);
        self.stats.last_sent = desc;
    }

    /// Count one packet received and keep its description.
    pub fn record_received(&mut self, desc: String)
        ensures
            final(self).stats.received == sat_add(old(self).stats.received, 1),
            final(self).stats.last_received == desc,
            final(self).stats.sent == old(self).stats.sent,
            final(self).stats.connected == old(self).stats.connected,
            final(self).config == old(self).config,
            final(self).sequence == old(self).sequence,
    {
        self.stats.received = self.stats.received.saturating_add(1);
        self.stats.last_received = desc;
    }

    /// Generate one packet: the sequence number in the first four
    /// bytes, random data after them, sized exactly as configured, and
    /// step the sequence.
    pub fn generate_packet(&mut self) -> (r: Vec<u8>)
        ensures
            r@.len() == old(self).config.packet_size,
            old(self).config.packet_size >= 4 ==> r@.subrange(0, 4) == enc_u32(old(self).sequence),
            final(self).sequence == (if old(self).sequence == u32::MAX {
                0u32
            } else {
                (old(self).sequence + 1) as u32
            }),
            final(self).config == old(self).config,
            final(self).stats == old(self).stats,
    {
        let mut packet: Vec<u8> = Vec::new();
        push_u32(&mut packet, self.sequence);
        if self.config.packet_size > 4 {
            let mut tail = random_bytes(self.config.packet_size - 4);
            packet.append(&mut tail);
        }
        packet.truncate(self.config.packet_size);
        proof {
            if self.config.packet_size >= 4 {
                assert(packet@.subrange(0, 4) =~= enc_u32(self.sequence));
            }
        }
        self.sequence = self.sequence.wrapping_add(1);
        packet
    }
}

/// Relies on `rand::thread_rng` and `rand::RngCore::fill_bytes`: the
/// buffer is filled with bytes. Nothing can be promised of random
/// bytes beyond the count.
#[verifier::external_body]
fn random_bytes(n: usize) -> (r: Vec<u8>)
    ensures
        r@.len() == n,
{
    let mut v = vec![0u8; n];
    rand::RngCore::fill_bytes(&mut rand::thread_rng(), &mut v);
    v
}

} // verus!
