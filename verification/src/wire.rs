//! The wire format for framed command and telemetry messages.
//!
//! Every message is a four-byte header — version, kind, and a big-endian
//! 16-bit total length — followed by a tagged payload: a 16-bit tag, the
//! 32-bit sequence number, and tag-specific fields. One message travels
//! per datagram, and the header length must equal the datagram length.
//!
//! The encoders promise exactly the spec-level byte sequence of the
//! message; the decoders promise that a successful decode returns a
//! message whose encoding is byte-for-byte the input, and that a failed
//! decode means no well-formed message encodes to the input. Together
//! with the injectivity lemmas this makes the codec bijective.

use vstd::prelude::*;
use vstd::utf8::{decode_utf8, encode_utf8, encode_utf8_decode_utf8, decode_utf8_encode_utf8,
    encode_utf8_valid_utf8, valid_utf8};
use crate::codec::{Reader, enc_u16, enc_u32, enc_u64, lemma_enc_u16_inj,
    lemma_enc_u32_inj, lemma_enc_u64_inj, push_bytes, push_u16, push_u32, push_u64, push_u8};
use crate::commands::{Command, CommandType, ConfigCommand, ConfigDHCommand, PingCommand,
    QueryDHCommand, RestartArmCommand, RestartCommand, StartDHCommand, StopDHCommand};
use crate::telemetry::{BeaconTelemetry, ConfigDHTelemetry, ConfigTelemetry, PingTelemetry,
    QueryDHTelemetry, RestartArmTelemetry, RestartTelemetry, StartDHTelemetry, StopDHTelemetry,
    Telemetry, TelemetryHeader, TelemetryType};
use crate::types::{ArmKey, BeaconTime, CommandStatus, DHId, DHName, DHType, ErrorCode, Statistics,
    Timestamp, lemma_error_code_from_u16, lemma_error_code_round};

verus! {

/// Wire protocol version carried in every header.
pub const WIRE_VERSION: u8 = 1;

/// Header kind of a command message (ground to space).
pub const KIND_COMMAND: u8 = 0;

/// Header kind of a telemetry message (space to ground).
pub const KIND_TELEMETRY: u8 = 1;

/// Longest accepted UTF-8 encoding of a data handler name: all that
/// fits in a message after the header, tag, sequence number, id, type
/// byte and name length, under the 16-bit total length field.
pub const MAX_NAME_BYTES: usize = 65518;

/// UTF-8 bytes of a data handler name.
pub open spec fn spec_name_bytes(n: DHName) -> Seq<u8> {
    encode_utf8(n.0@)
}

/// One byte for the data handler type.
pub open spec fn enc_dh_type(t: DHType) -> Seq<u8> {
    match t {
        DHType::Network => seq![0u8],
        DHType::Device => seq![1u8],
    }
}

/// Optional beacon interval on the wire: a presence byte, then the
/// interval if present.
pub open spec fn enc_opt_interval(o: Option<BeaconTime>) -> Seq<u8> {
    match o {
        None => seq![0u8],
        Some(b) => seq![1u8] + enc_u64(b.0),
    }
}

/// Wire tag of a command, from the shared tag table.
pub open spec fn spec_cmd_tag(c: Command) -> u16 {
    match c {
        Command::Ping(_) => 1,
        Command::RestartArm(_) => 2,
        Command::Restart(_) => 3,
        Command::StartDH(_) => 4,
        Command::StopDH(_) => 5,
        Command::QueryDH(_) => 6,
        Command::Config(_) => 7,
        Command::ConfigDH(_) => 8,
    }
}

/// Tag-specific fields of a command.
pub open spec fn enc_cmd_fields(c: Command) -> Seq<u8> {
    match c {
        Command::Ping(_) => Seq::<u8>::empty(),
        Command::RestartArm(x) => enc_u32(x.arm_key.0),
        Command::Restart(x) => enc_u32(x.arm_key.0),
        Command::StartDH(x) => enc_u32(x.dh_id.0) + enc_dh_type(x.dh_type) + enc_u16(
            spec_name_bytes(x.name).len() as u16,
        ) + spec_name_bytes(x.name),
        Command::StopDH(x) => enc_u32(x.dh_id.0),
        Command::QueryDH(x) => enc_u32(x.dh_id.0),
        Command::Config(x) => enc_opt_interval(x.beacon_interval),
        Command::ConfigDH(x) => enc_u32(x.dh_id.0),
    }
}

/// The whole command message: header, tag, sequence number, fields.
pub open spec fn enc_command_msg(c: Command) -> Seq<u8> {
    seq![WIRE_VERSION, KIND_COMMAND] + enc_u16((10 + enc_cmd_fields(c).len()) as u16) + enc_u16(
        spec_cmd_tag(c),
    ) + enc_u32(c.spec_sequence()) + enc_cmd_fields(c)
}

/// A command is well formed when its header names its own variant and a
/// data handler name fits the length field.
pub open spec fn cmd_wf(c: Command) -> bool {
    match c {
        Command::Ping(x) => x.header.cmd_type == CommandType::Ping,
        Command::RestartArm(x) => x.header.cmd_type == CommandType::RestartArm,
        Command::Restart(x) => x.header.cmd_type == CommandType::Restart,
        Command::StartDH(x) => x.header.cmd_type == CommandType::StartDH && spec_name_bytes(
            x.name,
        ).len() <= MAX_NAME_BYTES,
        Command::StopDH(x) => x.header.cmd_type == CommandType::StopDH,
        Command::QueryDH(x) => x.header.cmd_type == CommandType::QueryDH,
        Command::Config(x) => x.header.cmd_type == CommandType::Config,
        Command::ConfigDH(x) => x.header.cmd_type == CommandType::ConfigDH,
    }
}

/// Equality of commands; a data handler name counts as its characters.
pub open spec fn cmd_eq(a: Command, b: Command) -> bool {
    match (a, b) {
        (Command::Ping(x), Command::Ping(y)) => x == y,
        (Command::RestartArm(x), Command::RestartArm(y)) => x == y,
        (Command::Restart(x), Command::Restart(y)) => x == y,
        (Command::StartDH(x), Command::StartDH(y)) => x.header == y.header && x.dh_id == y.dh_id
            && x.dh_type == y.dh_type && x.name.0@ == y.name.0@,
        (Command::StopDH(x), Command::StopDH(y)) => x == y,
        (Command::QueryDH(x), Command::QueryDH(y)) => x == y,
        (Command::Config(x), Command::Config(y)) => x == y,
        (Command::ConfigDH(x), Command::ConfigDH(y)) => x == y,
        _ => false,
    }
}

/// Shape of an encoded command message: header bytes, length field, tag,
/// sequence number, and the position of every field.
pub proof fn lemma_cmd_msg_shape(c: Command)
    requires
        cmd_wf(c),
    ensures
        ({
            let m = enc_command_msg(c);
            let f = enc_cmd_fields(c);
            &&& m.len() == 10 + f.len()
            &&& m.len() <= 65535
            &&& m[0] == WIRE_VERSION
            &&& m[1] == KIND_COMMAND
            &&& m.subrange(0, 1) == seq![WIRE_VERSION]
            &&& m.subrange(1, 2) == seq![KIND_COMMAND]
            &&& m.subrange(2, 4) == enc_u16(m.len() as u16)
            &&& m.subrange(4, 6) == enc_u16(spec_cmd_tag(c))
            &&& m.subrange(6, 10) == enc_u32(c.spec_sequence())
            &&& m.subrange(10, m.len() as int) == f
            &&& 1 <= spec_cmd_tag(c) <= 8
            &&& (c matches Command::Ping(_) ==> f.len() == 0)
            &&& (c matches Command::RestartArm(x) ==> f == enc_u32(x.arm_key.0))
            &&& (c matches Command::Restart(x) ==> f == enc_u32(x.arm_key.0))
            &&& (c matches Command::StopDH(x) ==> f == enc_u32(x.dh_id.0))
            &&& (c matches Command::QueryDH(x) ==> f == enc_u32(x.dh_id.0))
            &&& (c matches Command::ConfigDH(x) ==> f == enc_u32(x.dh_id.0))
            &&& (c matches Command::Config(x) ==> {
                &&& f == enc_opt_interval(x.beacon_interval)
                &&& (x.beacon_interval is None ==> f.len() == 1 && m.subrange(10, 11)
                    == seq![0u8])
                &&& (x.beacon_interval matches Some(b) ==> f.len() == 9 && m.subrange(10, 11)
                    == seq![1u8] && m.subrange(11, 19) == enc_u64(b.0))
            })
            &&& (c matches Command::StartDH(x) ==> {
                let nb = spec_name_bytes(x.name);
                &&& nb.len() <= MAX_NAME_BYTES
                &&& f.len() == 7 + nb.len()
                &&& m.subrange(10, 14) == enc_u32(x.dh_id.0)
                &&& m.subrange(14, 15) == enc_dh_type(x.dh_type)
                &&& m.subrange(15, 17) == enc_u16(nb.len() as u16)
                &&& m.subrange(17, m.len() as int) == nb
            })
        }),
{
    let m = enc_command_msg(c);
    let f = enc_cmd_fields(c);
    match c {
        Command::StartDH(x) => {
            let nb = spec_name_bytes(x.name);
            assert(f.len() == 7 + nb.len());
            assert(m.subrange(10, 14) =~= enc_u32(x.dh_id.0));
            assert(m.subrange(14, 15) =~= enc_dh_type(x.dh_type));
            assert(m.subrange(15, 17) =~= enc_u16(nb.len() as u16));
            assert(m.subrange(17, m.len() as int) =~= nb);
        },
        Command::Config(x) => {
            match x.beacon_interval {
                None => {
                    assert(m.subrange(10, 11) =~= seq![0u8]);
                },
                Some(b) => {
                    assert(m.subrange(10, 11) =~= seq![1u8]);
                    assert(m.subrange(11, 19) =~= enc_u64(b.0));
                },
            }
        },
        _ => {},
    }
    assert(m.subrange(0, 1) =~= seq![WIRE_VERSION]);
    assert(m.subrange(1, 2) =~= seq![KIND_COMMAND]);
    assert(m.subrange(2, 4) =~= enc_u16(m.len() as u16));
    assert(m.subrange(4, 6) =~= enc_u16(spec_cmd_tag(c)));
    assert(m.subrange(6, 10) =~= enc_u32(c.spec_sequence()));
    assert(m.subrange(10, m.len() as int) =~= f);
}

/// Two byte strings agreeing on nine consecutive regions are equal.
pub proof fn lemma_seq_eq_parts(
    s: Seq<u8>,
    t: Seq<u8>,
    c1: int,
    c2: int,
    c3: int,
    c4: int,
    c5: int,
    c6: int,
    c7: int,
    c8: int,
)
    requires
        s.len() == t.len(),
        0 <= c1 <= c2 <= c3 <= c4 <= c5 <= c6 <= c7 <= c8 <= s.len(),
        s.subrange(0, c1) =~= t.subrange(0, c1),
        s.subrange(c1, c2) =~= t.subrange(c1, c2),
        s.subrange(c2, c3) =~= t.subrange(c2, c3),
        s.subrange(c3, c4) =~= t.subrange(c3, c4),
        s.subrange(c4, c5) =~= t.subrange(c4, c5),
        s.subrange(c5, c6) =~= t.subrange(c5, c6),
        s.subrange(c6, c7) =~= t.subrange(c6, c7),
        s.subrange(c7, c8) =~= t.subrange(c7, c8),
        s.subrange(c8, s.len() as int) =~= t.subrange(c8, t.len() as int),
    ensures
        s == t,
{
    assert forall|i: int| 0 <= i < s.len() implies s[i] == t[i] by {
        if i < c1 {
            assert(s[i] == s.subrange(0, c1)[i]);
            assert(t[i] == t.subrange(0, c1)[i]);
        } else if i < c2 {
            assert(s[i] == s.subrange(c1, c2)[i - c1]);
            assert(t[i] == t.subrange(c1, c2)[i - c1]);
        } else if i < c3 {
            assert(s[i] == s.subrange(c2, c3)[i - c2]);
            assert(t[i] == t.subrange(c2, c3)[i - c2]);
        } else if i < c4 {
            assert(s[i] == s.subrange(c3, c4)[i - c3]);
            assert(t[i] == t.subrange(c3, c4)[i - c3]);
        } else if i < c5 {
            assert(s[i] == s.subrange(c4, c5)[i - c4]);
            assert(t[i] == t.subrange(c4, c5)[i - c4]);
        } else if i < c6 {
            assert(s[i] == s.subrange(c5, c6)[i - c5]);
            assert(t[i] == t.subrange(c5, c6)[i - c5]);
        } else if i < c7 {
            assert(s[i] == s.subrange(c6, c7)[i - c6]);
            assert(t[i] == t.subrange(c6, c7)[i - c6]);
        } else if i < c8 {
            assert(s[i] == s.subrange(c7, c8)[i - c7]);
            assert(t[i] == t.subrange(c7, c8)[i - c7]);
        } else {
            assert(s[i] == s.subrange(c8, s.len() as int)[i - c8]);
            assert(t[i] == t.subrange(c8, t.len() as int)[i - c8]);
        }
    }
    assert(s =~= t);
}

/// Relies on `String::from_utf8`: it succeeds exactly on valid UTF-8 and
/// the returned string's characters are the UTF-8 decoding of the bytes.
#[verifier::external_body]
pub(crate) fn bytes_to_string(v: Vec<u8>) -> (r: Option<String>)
    ensures
        r matches Some(s) ==> valid_utf8(v@) && s@ == decode_utf8(v@),
        r is None ==> !valid_utf8(v@),
{
    String::from_utf8(v).ok()
}

/// Encode a command message: the four-byte header followed by the
/// tagged payload, exactly as `enc_command_msg` lays it out.
pub fn encode_command(c: &Command) -> (r: Vec<u8>)
    requires
        cmd_wf(*c),
    ensures
        r@ == enc_command_msg(*c),
        r@.len() <= 65535,
{
    proof {
        lemma_cmd_msg_shape(*c);
    }
    let mut fields: Vec<u8> = Vec::new();
    let tag: u16;
    match c {
        Command::Ping(_) => {
            tag = 1;
        },
        Command::RestartArm(x) => {
            tag = 2;
            push_u32(&mut fields, x.arm_key.0);
        },
        Command::Restart(x) => {
            tag = 3;
            push_u32(&mut fields, x.arm_key.0);
        },
        Command::StartDH(x) => {
            tag = 4;
            push_u32(&mut fields, x.dh_id.0);
            push_u8(
                &mut fields,
                match x.dh_type {
                    DHType::Network => 0,
                    DHType::Device => 1,
                },
            );
            let nb: &[u8] = x.name.0.as_str().as_bytes();
            push_u16(&mut fields, nb.len() as u16);
            push_bytes(&mut fields, nb);
            assert(fields@ =~= enc_cmd_fields(*c));
        },
        Command::StopDH(x) => {
            tag = 5;
            push_u32(&mut fields, x.dh_id.0);
        },
        Command::QueryDH(x) => {
            tag = 6;
            push_u32(&mut fields, x.dh_id.0);
        },
        Command::Config(x) => {
            tag = 7;
            match &x.beacon_interval {
                None => {
                    push_u8(&mut fields, 0);
                },
                Some(b) => {
                    push_u8(&mut fields, 1);
                    push_u64(&mut fields, b.0);
                },
            }
        },
        Command::ConfigDH(x) => {
            tag = 8;
            push_u32(&mut fields, x.dh_id.0);
        },
    }
    assert(fields@ =~= enc_cmd_fields(*c));
    let mut out: Vec<u8> = Vec::new();
    push_u8(&mut out, WIRE_VERSION);
    push_u8(&mut out, KIND_COMMAND);
    push_u16(&mut out, (10 + fields.len()) as u16);
    push_u16(&mut out, tag);
    push_u32(&mut out, c.sequence());
    push_bytes(&mut out, fields.as_slice());
    assert(out@ =~= enc_command_msg(*c));
    out
}

/// Decode a command message. A success returns a well-formed command
/// whose encoding is exactly the input; a failure means no well-formed
/// command encodes to the input, so nothing decodable was dropped.
pub fn decode_command(bytes: &[u8]) -> (r: Option<Command>)
    ensures
        r matches Some(c) ==> cmd_wf(c) && bytes@ == enc_command_msg(c),
        r is None ==> forall|c: Command| cmd_wf(c) ==> bytes@ != enc_command_msg(c),
{
    let n = bytes.len();
    let mut rd = Reader::new(bytes);
    let hdr = decode_header_checks(&mut rd, n, KIND_COMMAND);
    if !hdr {
        proof {
            assert forall|c: Command| cmd_wf(c) implies bytes@ != enc_command_msg(c) by {
                if bytes@ == enc_command_msg(c) {
                    lemma_cmd_msg_shape(c);
                }
            }
        }
        return None;
    }
    let tag = match rd.read_u16() {
        Some(t) => t,
        None => {
            proof {
                assert forall|c: Command| cmd_wf(c) implies bytes@ != enc_command_msg(c) by {
                    if bytes@ == enc_command_msg(c) {
                        lemma_cmd_msg_shape(c);
                    }
                }
            }
            return None;
        },
    };
    let seqno = match rd.read_u32() {
        Some(s) => s,
        None => {
            proof {
                assert forall|c: Command| cmd_wf(c) implies bytes@ != enc_command_msg(c) by {
                    if bytes@ == enc_command_msg(c) {
                        lemma_cmd_msg_shape(c);
                    }
                }
            }
            return None;
        },
    };
    proof {
        // Any command that encodes to these bytes carries this tag.
        assert forall|c: Command|
            cmd_wf(c) && bytes@ == enc_command_msg(c) implies spec_cmd_tag(c) == tag && c
            .spec_sequence() == seqno by {
            lemma_cmd_msg_shape(c);
            lemma_enc_u16_inj(spec_cmd_tag(c), tag);
            lemma_enc_u32_inj(c.spec_sequence(), seqno);
        }
    }
    let rest = rd.remaining();
    if tag == 1 && rest == 0 {
        let d = Command::Ping(PingCommand::new(seqno));
        proof {
            lemma_cmd_msg_shape(d);
            lemma_seq_eq_parts(bytes@, enc_command_msg(d), 1, 2, 4, 6, 10, 10, 10, 10);
        }
        return Some(d);
    }
    if (tag == 2 || tag == 3) && rest == 4 {
        let key = rd.read_u32().unwrap();
        let d = if tag == 2 {
            Command::RestartArm(RestartArmCommand::new(seqno, ArmKey(key)))
        } else {
            Command::Restart(RestartCommand::new(seqno, ArmKey(key)))
        };
        proof {
            lemma_cmd_msg_shape(d);
            lemma_seq_eq_parts(bytes@, enc_command_msg(d), 1, 2, 4, 6, 10, 14, 14, 14);
        }
        return Some(d);
    }
    if (tag == 5 || tag == 6 || tag == 8) && rest == 4 {
        let id = rd.read_u32().unwrap();
        let d = if tag == 5 {
            Command::StopDH(StopDHCommand::new(seqno, DHId(id)))
        } else if tag == 6 {
            Command::QueryDH(QueryDHCommand::new(seqno, DHId(id)))
        } else {
            Command::ConfigDH(ConfigDHCommand::new(seqno, DHId(id)))
        };
        proof {
            lemma_cmd_msg_shape(d);
            lemma_seq_eq_parts(bytes@, enc_command_msg(d), 1, 2, 4, 6, 10, 14, 14, 14);
        }
        return Some(d);
    }
    if tag == 7 && (rest == 1 || rest == 9) {
        let pb = rd.read_u8().unwrap();
        if pb == 0 && rest == 1 {
            let d = Command::Config(ConfigCommand::new_without_interval(seqno));
            proof {
                lemma_cmd_msg_shape(d);
                lemma_seq_eq_parts(bytes@, enc_command_msg(d), 1, 2, 4, 6, 10, 11, 11, 11);
            }
            return Some(d);
        }
        if pb == 1 && rest == 9 {
            let interval = rd.read_u64().unwrap();
            let d = Command::Config(ConfigCommand::new(seqno, BeaconTime(interval)));
            proof {
                lemma_cmd_msg_shape(d);
                lemma_seq_eq_parts(bytes@, enc_command_msg(d), 1, 2, 4, 6, 10, 11, 19, 19);
            }
            return Some(d);
        }
        proof {
            assert forall|c: Command| cmd_wf(c) implies bytes@ != enc_command_msg(c) by {
                if bytes@ == enc_command_msg(c) {
                    lemma_cmd_msg_shape(c);
                    if let Command::Config(x) = c {
                        assert(bytes@.subrange(10, 11)[0] == seq![pb][0]);
                        match x.beacon_interval {
                            None => {
                                assert(bytes@.subrange(10, 11)[0] == seq![0u8][0]);
                            },
                            Some(_) => {
                                assert(bytes@.subrange(10, 11)[0] == seq![1u8][0]);
                            },
                        }
                    }
                }
            }
        }
        return None;
    }
    if tag == 4 && rest >= 7 {
        let id = rd.read_u32().unwrap();
        let tb = rd.read_u8().unwrap();
        let nl = rd.read_u16().unwrap();
        if tb <= 1 && (nl as usize) <= MAX_NAME_BYTES && rd.remaining() == (nl as usize) {
            let nb = rd.read_bytes(nl as usize).unwrap();
            let ghost nbs = nb@;
            if let Some(name) = bytes_to_string(nb) {
                let dh_type = if tb == 0 {
                    DHType::Network
                } else {
                    DHType::Device
                };
                let sd = StartDHCommand::new(seqno, DHId(id), dh_type, DHName::new(name));
                let d = Command::StartDH(sd);
                proof {
                    decode_utf8_encode_utf8(nbs);
                    assert(spec_name_bytes(sd.name) == nbs);
                    lemma_cmd_msg_shape(d);
                    lemma_seq_eq_parts(bytes@, enc_command_msg(d), 1, 2, 4, 6, 10, 14, 15, 17);
                }
                return Some(d);
            } else {
                proof {
                    assert forall|c: Command| cmd_wf(c) implies bytes@ != enc_command_msg(c) by {
                        if bytes@ == enc_command_msg(c) {
                            lemma_cmd_msg_shape(c);
                            if let Command::StartDH(x) = c {
                                lemma_enc_u16_inj(spec_name_bytes(x.name).len() as u16, nl);
                                encode_utf8_valid_utf8(x.name.0@);
                                assert(nbs =~= spec_name_bytes(x.name));
                            }
                        }
                    }
                }
                return None;
            }
        }
        proof {
            assert forall|c: Command| cmd_wf(c) implies bytes@ != enc_command_msg(c) by {
                if bytes@ == enc_command_msg(c) {
                    lemma_cmd_msg_shape(c);
                    if let Command::StartDH(x) = c {
                        let nblen = spec_name_bytes(x.name).len();
                        lemma_enc_u16_inj(nblen as u16, nl);
                        assert(bytes@.subrange(14, 15) == enc_dh_type(x.dh_type));
                        assert(tb == enc_dh_type(x.dh_type)[0]);
                    }
                }
            }
        }
        return None;
    }
    proof {
        assert forall|c: Command| cmd_wf(c) implies bytes@ != enc_command_msg(c) by {
            if bytes@ == enc_command_msg(c) {
                lemma_cmd_msg_shape(c);
            }
        }
    }
    None
}

/// Check the four header bytes against the expected kind and the
/// datagram length; consume them from the reader.
fn decode_header_checks(rd: &mut Reader<'_>, n: usize, kind: u8) -> (ok: bool)
    requires
        old(rd).wf(),
        old(rd).spec_pos() == 0,
        old(rd).spec_bytes().len() == n,
    ensures
        final(rd).wf(),
        final(rd).spec_bytes() == old(rd).spec_bytes(),
        ok ==> final(rd).spec_pos() == 4 && n >= 4 && old(rd).spec_bytes()[0] == WIRE_VERSION && old(
            rd,
        ).spec_bytes()[1] == kind && old(rd).spec_bytes().subrange(2, 4) == enc_u16(n as u16) && n
            <= 65535,
        !ok ==> (n < 4 || old(rd).spec_bytes()[0] != WIRE_VERSION || old(rd).spec_bytes()[1] != kind
            || old(rd).spec_bytes().subrange(2, 4) != enc_u16(n as u16) || n > 65535),
{
    let v = match rd.read_u8() {
        Some(x) => x,
        None => {
            return false;
        },
    };
    let k = match rd.read_u8() {
        Some(x) => x,
        None => {
            return false;
        },
    };
    let l = match rd.read_u16() {
        Some(x) => x,
        None => {
            return false;
        },
    };
    if v != WIRE_VERSION || k != kind || n > 65535 || (l as usize) != n {
        proof {
            let b = old(rd).spec_bytes();
            assert(b[0] == b.subrange(0, 1)[0]);
            assert(b[1] == b.subrange(1, 2)[0]);
            if n <= 65535 && (l as usize) == n {
                assert(old(rd).spec_bytes().subrange(2, 4) == enc_u16(n as u16));
            }
            if v == WIRE_VERSION && k == kind && n <= 65535 && (l as usize) != n {
                if old(rd).spec_bytes().subrange(2, 4) == enc_u16(n as u16) {
                    crate::codec::lemma_enc_u16_inj(l, n as u16);
                }
            }
        }
        return false;
    }
    proof {
        let b = old(rd).spec_bytes();
        assert(b[0] == b.subrange(0, 1)[0]);
        assert(b[1] == b.subrange(1, 2)[0]);
        assert(l == n as u16);
    }
    true
}

/// A subrange of a tail is a subrange of the whole.
pub proof fn lemma_subrange_of_tail(s: Seq<u8>, o: int, a: int, b: int)
    requires
        0 <= o <= s.len(),
        0 <= a <= b,
        o + b <= s.len(),
    ensures
        s.subrange(o, s.len() as int).subrange(a, b) == s.subrange(o + a, o + b),
{
    assert(s.subrange(o, s.len() as int).subrange(a, b) =~= s.subrange(o + a, o + b));
}

/// Timestamp on the wire: seconds, then nanoseconds.
pub open spec fn enc_ts(t: Timestamp) -> Seq<u8> {
    enc_u64(t.seconds) + enc_u32(t.nanoseconds)
}

/// Status on the wire: a success byte, or a failure byte and the code.
pub open spec fn enc_status(s: CommandStatus) -> Seq<u8> {
    match s {
        CommandStatus::Success => seq![0u8],
        CommandStatus::Failure(c) => seq![1u8] + enc_u16(c.spec_u16()),
    }
}

/// Optional timestamp: a presence byte, then the timestamp if present.
pub open spec fn enc_opt_ts(o: Option<Timestamp>) -> Seq<u8> {
    match o {
        None => seq![0u8],
        Some(t) => seq![1u8] + enc_ts(t),
    }
}

/// Statistics on the wire: the optional timestamp, then the six counters.
pub open spec fn enc_stats(s: Statistics) -> Seq<u8> {
    enc_opt_ts(s.timestamp) + enc_u64(s.bytes_received) + enc_u64(s.reads_completed) + enc_u64(
        s.reads_failed,
    ) + enc_u64(s.bytes_sent) + enc_u64(s.writes_completed) + enc_u64(s.writes_failed)
}

/// Wire tag of a telemetry message; replies share the command tag table
/// and the beacon has its own tag.
pub open spec fn spec_tm_tag(t: Telemetry) -> u16 {
    match t {
        Telemetry::Ping(_) => 1,
        Telemetry::RestartArm(_) => 2,
        Telemetry::Restart(_) => 3,
        Telemetry::StartDH(_) => 4,
        Telemetry::StopDH(_) => 5,
        Telemetry::QueryDH(_) => 6,
        Telemetry::Config(_) => 7,
        Telemetry::ConfigDH(_) => 8,
        Telemetry::Beacon(_) => 100,
    }
}

/// Tag-specific fields of a telemetry message.
pub open spec fn enc_tm_fields(t: Telemetry) -> Seq<u8> {
    match t {
        Telemetry::Ping(x) => enc_ts(x.timestamp),
        Telemetry::RestartArm(_) => Seq::<u8>::empty(),
        Telemetry::Restart(_) => Seq::<u8>::empty(),
        Telemetry::StartDH(_) => Seq::<u8>::empty(),
        Telemetry::StopDH(_) => Seq::<u8>::empty(),
        Telemetry::QueryDH(x) => enc_u32(x.dh_id.0) + enc_stats(x.statistics),
        Telemetry::Config(_) => Seq::<u8>::empty(),
        Telemetry::ConfigDH(_) => Seq::<u8>::empty(),
        Telemetry::Beacon(x) => enc_ts(x.timestamp),
    }
}

/// The whole telemetry message: header, tag, sequence, status, fields.
pub open spec fn enc_telemetry_msg(t: Telemetry) -> Seq<u8> {
    seq![WIRE_VERSION, KIND_TELEMETRY] + enc_u16(
        (10 + enc_status(t.spec_status()).len() + enc_tm_fields(t).len()) as u16,
    ) + enc_u16(spec_tm_tag(t)) + enc_u32(t.spec_sequence()) + enc_status(t.spec_status())
        + enc_tm_fields(t)
}

/// A telemetry message is well formed when its header names its variant.
pub open spec fn tm_wf(t: Telemetry) -> bool {
    match t {
        Telemetry::Ping(x) => x.header.tm_type == TelemetryType::Ping,
        Telemetry::RestartArm(x) => x.header.tm_type == TelemetryType::RestartArm,
        Telemetry::Restart(x) => x.header.tm_type == TelemetryType::Restart,
        Telemetry::StartDH(x) => x.header.tm_type == TelemetryType::StartDH,
        Telemetry::StopDH(x) => x.header.tm_type == TelemetryType::StopDH,
        Telemetry::QueryDH(x) => x.header.tm_type == TelemetryType::QueryDH,
        Telemetry::Config(x) => x.header.tm_type == TelemetryType::Config,
        Telemetry::ConfigDH(x) => x.header.tm_type == TelemetryType::ConfigDH,
        Telemetry::Beacon(x) => x.header.tm_type == TelemetryType::Beacon,
    }
}

/// Shape of encoded statistics: position of the presence byte, the
/// optional timestamp, and each counter.
pub proof fn lemma_stats_shape(s: Statistics)
    ensures
        ({
            let e = enc_stats(s);
            let b: int = if s.timestamp is Some {
                13
            } else {
                1
            };
            &&& e.len() == b + 48
            &&& e.len() <= 61
            &&& (s.timestamp is None ==> e.subrange(0, 1) == seq![0u8])
            &&& (s.timestamp matches Some(t) ==> e.subrange(0, 1) == seq![1u8] && e.subrange(1, 9)
                == enc_u64(t.seconds) && e.subrange(9, 13) == enc_u32(t.nanoseconds))
            &&& e.subrange(b, b + 8) == enc_u64(s.bytes_received)
            &&& e.subrange(b + 8, b + 16) == enc_u64(s.reads_completed)
            &&& e.subrange(b + 16, b + 24) == enc_u64(s.reads_failed)
            &&& e.subrange(b + 24, b + 32) == enc_u64(s.bytes_sent)
            &&& e.subrange(b + 32, b + 40) == enc_u64(s.writes_completed)
            &&& e.subrange(b + 40, b + 48) == enc_u64(s.writes_failed)
        }),
{
    let e = enc_stats(s);
    let b: int = if s.timestamp is Some {
        13
    } else {
        1
    };
    match s.timestamp {
        None => {
            assert(e.subrange(0, 1) =~= seq![0u8]);
        },
        Some(t) => {
            assert(e.subrange(0, 1) =~= seq![1u8]);
            assert(e.subrange(1, 9) =~= enc_u64(t.seconds));
            assert(e.subrange(9, 13) =~= enc_u32(t.nanoseconds));
        },
    }
    assert(e.subrange(b, b + 8) =~= enc_u64(s.bytes_received));
    assert(e.subrange(b + 8, b + 16) =~= enc_u64(s.reads_completed));
    assert(e.subrange(b + 16, b + 24) =~= enc_u64(s.reads_failed));
    assert(e.subrange(b + 24, b + 32) =~= enc_u64(s.bytes_sent));
    assert(e.subrange(b + 32, b + 40) =~= enc_u64(s.writes_completed));
    assert(e.subrange(b + 40, b + 48) =~= enc_u64(s.writes_failed));
}

/// Shape of an encoded telemetry message: header bytes, length field,
/// tag, sequence number, status, and the position of every field.
pub proof fn lemma_tm_msg_shape(t: Telemetry)
    requires
        tm_wf(t),
    ensures
        ({
            let m = enc_telemetry_msg(t);
            let f = enc_tm_fields(t);
            let so: int = if t.spec_status() is Success {
                11
            } else {
                13
            };
            &&& m.len() == so + f.len()
            &&& m.len() <= 65535
            &&& m[0] == WIRE_VERSION
            &&& m[1] == KIND_TELEMETRY
            &&& m.subrange(0, 1) == seq![WIRE_VERSION]
            &&& m.subrange(1, 2) == seq![KIND_TELEMETRY]
            &&& m.subrange(2, 4) == enc_u16(m.len() as u16)
            &&& m.subrange(4, 6) == enc_u16(spec_tm_tag(t))
            &&& m.subrange(6, 10) == enc_u32(t.spec_sequence())
            &&& (t.spec_status() is Success ==> m.subrange(10, 11) == seq![0u8])
            &&& (t.spec_status() matches CommandStatus::Failure(c) ==> m.subrange(10, 11)
                == seq![1u8] && m.subrange(11, 13) == enc_u16(c.spec_u16()))
            &&& m.subrange(so, m.len() as int) == f
            &&& (1 <= spec_tm_tag(t) <= 8 || spec_tm_tag(t) == 100)
            &&& (t matches Telemetry::Ping(x) ==> f.len() == 12 && m.subrange(so, so + 8)
                == enc_u64(x.timestamp.seconds) && m.subrange(so + 8, so + 12) == enc_u32(
                x.timestamp.nanoseconds,
            ))
            &&& (t matches Telemetry::Beacon(x) ==> f.len() == 12 && m.subrange(so, so + 8)
                == enc_u64(x.timestamp.seconds) && m.subrange(so + 8, so + 12) == enc_u32(
                x.timestamp.nanoseconds,
            ))
            &&& (t matches Telemetry::QueryDH(x) ==> f.len() == 4 + enc_stats(x.statistics).len()
                && m.subrange(so, so + 4) == enc_u32(x.dh_id.0) && m.subrange(
                so + 4,
                m.len() as int,
            ) == enc_stats(x.statistics))
            &&& (t matches Telemetry::RestartArm(_) ==> f.len() == 0)
            &&& (t matches Telemetry::Restart(_) ==> f.len() == 0)
            &&& (t matches Telemetry::StartDH(_) ==> f.len() == 0)
            &&& (t matches Telemetry::StopDH(_) ==> f.len() == 0)
            &&& (t matches Telemetry::Config(_) ==> f.len() == 0)
            &&& (t matches Telemetry::ConfigDH(_) ==> f.len() == 0)
        }),
{
    let m = enc_telemetry_msg(t);
    let f = enc_tm_fields(t);
    let so: int = if t.spec_status() is Success {
        11
    } else {
        13
    };
    match t {
        Telemetry::QueryDH(x) => {
            lemma_stats_shape(x.statistics);
        },
        _ => {},
    }
    assert(m.subrange(0, 1) =~= seq![WIRE_VERSION]);
    assert(m.subrange(1, 2) =~= seq![KIND_TELEMETRY]);
    assert(m.subrange(2, 4) =~= enc_u16(m.len() as u16));
    assert(m.subrange(4, 6) =~= enc_u16(spec_tm_tag(t)));
    assert(m.subrange(6, 10) =~= enc_u32(t.spec_sequence()));
    match t.spec_status() {
        CommandStatus::Success => {
            assert(m.subrange(10, 11) =~= seq![0u8]);
        },
        CommandStatus::Failure(c) => {
            assert(m.subrange(10, 11) =~= seq![1u8]);
            assert(m.subrange(11, 13) =~= enc_u16(c.spec_u16()));
        },
    }
    assert(m.subrange(so, m.len() as int) =~= f);
    match t {
        Telemetry::Ping(x) => {
            assert(m.subrange(so, so + 8) =~= enc_u64(x.timestamp.seconds));
            assert(m.subrange(so + 8, so + 12) =~= enc_u32(x.timestamp.nanoseconds));
        },
        Telemetry::Beacon(x) => {
            assert(m.subrange(so, so + 8) =~= enc_u64(x.timestamp.seconds));
            assert(m.subrange(so + 8, so + 12) =~= enc_u32(x.timestamp.nanoseconds));
        },
        Telemetry::QueryDH(x) => {
            assert(m.subrange(so, so + 4) =~= enc_u32(x.dh_id.0));
            assert(m.subrange(so + 4, m.len() as int) =~= enc_stats(x.statistics));
        },
        _ => {},
    }
}

/// Append a status to the output.
fn push_status(v: &mut Vec<u8>, s: &CommandStatus)
    ensures
        final(v)@ == old(v)@ + enc_status(*s),
{
    match s {
        CommandStatus::Success => {
            push_u8(v, 0);
        },
        CommandStatus::Failure(c) => {
            push_u8(v, 1);
            push_u16(v, c.to_u16());
        },
    }
    assert(final(v)@ =~= old(v)@ + enc_status(*s));
}

/// Append a statistics block to the output.
fn push_stats(v: &mut Vec<u8>, s: &Statistics)
    ensures
        final(v)@ == old(v)@ + enc_stats(*s),
{
    match &s.timestamp {
        None => {
            push_u8(v, 0);
        },
        Some(t) => {
            push_u8(v, 1);
            push_u64(v, t.seconds);
            push_u32(v, t.nanoseconds);
        },
    }
    push_u64(v, s.bytes_received);
    push_u64(v, s.reads_completed);
    push_u64(v, s.reads_failed);
    push_u64(v, s.bytes_sent);
    push_u64(v, s.writes_completed);
    push_u64(v, s.writes_failed);
    assert(final(v)@ =~= old(v)@ + enc_stats(*s));
}

/// Encode a telemetry message: the four-byte header followed by the
/// tagged payload, exactly as `enc_telemetry_msg` lays it out.
pub fn encode_telemetry(t: &Telemetry) -> (r: Vec<u8>)
    requires
        tm_wf(*t),
    ensures
        r@ == enc_telemetry_msg(*t),
        r@.len() <= 65535,
{
    proof {
        lemma_tm_msg_shape(*t);
    }
    let mut body: Vec<u8> = Vec::new();
    let tag: u16;
    match t {
        Telemetry::Ping(x) => {
            tag = 1;
            push_status(&mut body, &x.header.status);
            push_u64(&mut body, x.timestamp.seconds);
            push_u32(&mut body, x.timestamp.nanoseconds);
        },
        Telemetry::RestartArm(x) => {
            tag = 2;
            push_status(&mut body, &x.header.status);
        },
        Telemetry::Restart(x) => {
            tag = 3;
            push_status(&mut body, &x.header.status);
        },
        Telemetry::StartDH(x) => {
            tag = 4;
            push_status(&mut body, &x.header.status);
        },
        Telemetry::StopDH(x) => {
            tag = 5;
            push_status(&mut body, &x.header.status);
        },
        Telemetry::QueryDH(x) => {
            tag = 6;
            push_status(&mut body, &x.header.status);
            push_u32(&mut body, x.dh_id.0);
            push_stats(&mut body, &x.statistics);
        },
        Telemetry::Config(x) => {
            tag = 7;
            push_status(&mut body, &x.header.status);
        },
        Telemetry::ConfigDH(x) => {
            tag = 8;
            push_status(&mut body, &x.header.status);
        },
        Telemetry::Beacon(x) => {
            tag = 100;
            push_status(&mut body, &x.header.status);
            push_u64(&mut body, x.timestamp.seconds);
            push_u32(&mut body, x.timestamp.nanoseconds);
        },
    }
    assert(body@ =~= enc_status(t.spec_status()) + enc_tm_fields(*t));
    let mut out: Vec<u8> = Vec::new();
    push_u8(&mut out, WIRE_VERSION);
    push_u8(&mut out, KIND_TELEMETRY);
    push_u16(&mut out, (10 + body.len()) as u16);
    push_u16(&mut out, tag);
    push_u32(&mut out, t.sequence());
    push_bytes(&mut out, body.as_slice());
    assert(out@ =~= enc_telemetry_msg(*t));
    out
}

/// Decode the tail of a QUERY_DH telemetry message: the data handler id
/// and the statistics block. The reader stands just past the status.
#[verifier::rlimit(100)]
fn decode_tm_query(
    bytes: &[u8],
    rd: Reader<'_>,
    n: usize,
    seqno: u32,
    status: CommandStatus,
) -> (r: Option<Telemetry>)
    requires
        rd.wf(),
        rd.spec_bytes() == bytes@,
        bytes@.len() == n,
        n <= 65535,
        rd.spec_pos() == (if status is Success {
            11int
        } else {
            13int
        }),
        bytes@.subrange(0, 1) == seq![WIRE_VERSION],
        bytes@.subrange(1, 2) == seq![KIND_TELEMETRY],
        bytes@.subrange(2, 4) == enc_u16(n as u16),
        bytes@.subrange(4, 6) == enc_u16(6u16),
        bytes@.subrange(6, 10) == enc_u32(seqno),
        status is Success ==> bytes@.subrange(10, 11) == seq![0u8],
        status matches CommandStatus::Failure(c) ==> bytes@.subrange(10, 11) == seq![1u8]
            && bytes@.subrange(11, 13) == enc_u16(c.spec_u16()),
        forall|t: Telemetry|
            tm_wf(t) && bytes@ == enc_telemetry_msg(t) ==> spec_tm_tag(t) == 6 && t.spec_sequence()
                == seqno && t.spec_status() == status,
    ensures
        r matches Some(t) ==> tm_wf(t) && bytes@ == enc_telemetry_msg(t),
        r is None ==> forall|t: Telemetry| tm_wf(t) ==> bytes@ != enc_telemetry_msg(t),
{
    let ghost so: int = if status is Success {
        11
    } else {
        13
    };
    let mut rd = rd;
    let rest = rd.remaining();
    if rest >= 5 {
        let id = rd.read_u32().unwrap();
        let pb = rd.read_u8().unwrap();
        let ghost sofs: int = so + 4;
        if pb <= 1 && rd.remaining() == (if pb == 1 {
            60
        } else {
            48
        }) {
            let timestamp: Option<Timestamp> = if pb == 1 {
                let sec = rd.read_u64().unwrap();
                let ns = rd.read_u32().unwrap();
                Some(Timestamp::new(sec, ns))
            } else {
                None
            };
            let bytes_received = rd.read_u64().unwrap();
            let reads_completed = rd.read_u64().unwrap();
            let reads_failed = rd.read_u64().unwrap();
            let bytes_sent = rd.read_u64().unwrap();
            let writes_completed = rd.read_u64().unwrap();
            let writes_failed = rd.read_u64().unwrap();
            let st = Statistics {
                timestamp,
                bytes_received,
                reads_completed,
                reads_failed,
                bytes_sent,
                writes_completed,
                writes_failed,
            };
            let d = Telemetry::QueryDH(
                QueryDHTelemetry {
                    header: TelemetryHeader {
                        sequence: seqno,
                        tm_type: TelemetryType::QueryDH,
                        status,
                    },
                    dh_id: DHId(id),
                    statistics: st,
                },
            );
            proof {
                lemma_stats_shape(st);
                let sp = bytes@.subrange(sofs, n as int);
                let cb: int = if pb == 1 {
                    13
                } else {
                    1
                };
                lemma_subrange_of_tail(bytes@, sofs, 0, 1);
                lemma_subrange_of_tail(bytes@, sofs, 1, 9);
                lemma_subrange_of_tail(bytes@, sofs, 9, 13);
                lemma_subrange_of_tail(bytes@, sofs, cb, cb + 8);
                lemma_subrange_of_tail(bytes@, sofs, cb + 8, cb + 16);
                lemma_subrange_of_tail(bytes@, sofs, cb + 16, cb + 24);
                lemma_subrange_of_tail(bytes@, sofs, cb + 24, cb + 32);
                lemma_subrange_of_tail(bytes@, sofs, cb + 32, cb + 40);
                lemma_subrange_of_tail(bytes@, sofs, cb + 40, cb + 48);
                if pb == 1 {
                    lemma_seq_eq_parts(sp, enc_stats(st), 1, 9, 13, 21, 29, 37, 45, 53);
                } else {
                    lemma_seq_eq_parts(sp, enc_stats(st), 1, 9, 17, 25, 33, 41, 49, 49);
                }
                lemma_tm_msg_shape(d);
                lemma_seq_eq_parts(bytes@, enc_telemetry_msg(d), 1, 2, 4, 6, 10, 11, so, sofs);
            }
            return Some(d);
        }
        proof {
            assert forall|t: Telemetry| tm_wf(t) implies bytes@ != enc_telemetry_msg(t) by {
                if bytes@ == enc_telemetry_msg(t) {
                    lemma_tm_msg_shape(t);
                    if let Telemetry::QueryDH(x) = t {
                        lemma_stats_shape(x.statistics);
                        lemma_subrange_of_tail(bytes@, sofs, 0, 1);
                        assert(bytes@.subrange(sofs, sofs + 1)[0] == seq![pb][0]);
                        if x.statistics.timestamp is Some {
                            assert(bytes@.subrange(sofs, sofs + 1)[0] == seq![1u8][0]);
                        } else {
                            assert(bytes@.subrange(sofs, sofs + 1)[0] == seq![0u8][0]);
                        }
                    }
                }
            }
        }
        return None;
    }
    proof {
        assert forall|t: Telemetry| tm_wf(t) implies bytes@ != enc_telemetry_msg(t) by {
            if bytes@ == enc_telemetry_msg(t) {
                lemma_tm_msg_shape(t);
                if let Telemetry::QueryDH(x) = t {
                    lemma_stats_shape(x.statistics);
                }
            }
        }
    }
    None
}

/// Decode the status of a telemetry message: a success byte, or a
/// failure byte followed by the error code. The reader stands at the
/// status position. Returns the status and its leading byte.
fn decode_tm_status(bytes: &[u8], rd: &mut Reader<'_>, n: usize) -> (r: Option<
    (CommandStatus, u8),
>)
    requires
        old(rd).wf(),
        old(rd).spec_bytes() == bytes@,
        bytes@.len() == n,
        old(rd).spec_pos() == 10,
    ensures
        final(rd).wf(),
        final(rd).spec_bytes() == bytes@,
        r matches Some(p) ==> ({
            &&& (p.1 == 0 || p.1 == 1)
            &&& (p.0 is Success <==> p.1 == 0)
            &&& final(rd).spec_pos() == (if p.1 == 0 {
                11int
            } else {
                13int
            })
            &&& (p.0 is Success ==> bytes@.subrange(10, 11) == seq![0u8])
            &&& (p.0 matches CommandStatus::Failure(c) ==> bytes@.subrange(10, 11) == seq![1u8]
                && bytes@.subrange(11, 13) == enc_u16(c.spec_u16()))
            &&& forall|t: Telemetry|
                tm_wf(t) && bytes@ == enc_telemetry_msg(t) ==> t.spec_status() == p.0
        }),
        r is None ==> forall|t: Telemetry| tm_wf(t) ==> bytes@ != enc_telemetry_msg(t),
{
    let sb = match rd.read_u8() {
        Some(x) => x,
        None => {
            proof {
                assert forall|t: Telemetry| tm_wf(t) implies bytes@ != enc_telemetry_msg(t) by {
                    if bytes@ == enc_telemetry_msg(t) {
                        lemma_tm_msg_shape(t);
                    }
                }
            }
            return None;
        },
    };
    if sb == 0 {
        proof {
            assert(bytes@.subrange(10, 11) =~= seq![0u8]);
            assert forall|t: Telemetry|
                tm_wf(t) && bytes@ == enc_telemetry_msg(t) implies t.spec_status()
                == CommandStatus::Success by {
                lemma_tm_msg_shape(t);
                if t.spec_status() is Failure {
                    assert(bytes@.subrange(10, 11)[0] == seq![1u8][0]);
                }
            }
        }
        return Some((CommandStatus::Success, 0));
    }
    if sb == 1 {
        let cw = match rd.read_u16() {
            Some(x) => x,
            None => {
                proof {
                    assert forall|t: Telemetry| tm_wf(t) implies bytes@ != enc_telemetry_msg(
                        t,
                    ) by {
                        if bytes@ == enc_telemetry_msg(t) {
                            lemma_tm_msg_shape(t);
                            assert(bytes@.subrange(10, 11)[0] == seq![sb][0]);
                            if t.spec_status() is Success {
                                assert(bytes@.subrange(10, 11)[0] == seq![0u8][0]);
                            }
                        }
                    }
                }
                return None;
            },
        };
        match ErrorCode::from_u16(cw) {
            Some(c) => {
                proof {
                    lemma_error_code_from_u16(cw);
                    assert(bytes@.subrange(10, 11) =~= seq![1u8]);
                    assert forall|t: Telemetry|
                        tm_wf(t) && bytes@ == enc_telemetry_msg(t) implies t.spec_status()
                        == CommandStatus::Failure(c) by {
                        lemma_tm_msg_shape(t);
                        match t.spec_status() {
                            CommandStatus::Success => {
                                assert(bytes@.subrange(10, 11)[0] == seq![0u8][0]);
                                assert(bytes@.subrange(10, 11)[0] == seq![sb][0]);
                            },
                            CommandStatus::Failure(e) => {
                                lemma_enc_u16_inj(e.spec_u16(), cw);
                                lemma_error_code_round(e);
                            },
                        }
                    }
                }
                return Some((CommandStatus::Failure(c), 1));
            },
            None => {
                proof {
                    assert forall|t: Telemetry| tm_wf(t) implies bytes@ != enc_telemetry_msg(
                        t,
                    ) by {
                        if bytes@ == enc_telemetry_msg(t) {
                            lemma_tm_msg_shape(t);
                            match t.spec_status() {
                                CommandStatus::Success => {
                                    assert(bytes@.subrange(10, 11)[0] == seq![0u8][0]);
                                    assert(bytes@.subrange(10, 11)[0] == seq![sb][0]);
                                },
                                CommandStatus::Failure(e) => {
                                    lemma_enc_u16_inj(e.spec_u16(), cw);
                                    lemma_error_code_round(e);
                                },
                            }
                        }
                    }
                }
                return None;
            },
        }
    }
    proof {
        assert forall|t: Telemetry| tm_wf(t) implies bytes@ != enc_telemetry_msg(t) by {
            if bytes@ == enc_telemetry_msg(t) {
                lemma_tm_msg_shape(t);
                assert(bytes@.subrange(10, 11)[0] == seq![sb][0]);
                if t.spec_status() is Success {
                    assert(bytes@.subrange(10, 11)[0] == seq![0u8][0]);
                } else {
                    assert(bytes@.subrange(10, 11)[0] == seq![1u8][0]);
                }
            }
        }
    }
    None
}

/// Decode a telemetry message. A success returns a well-formed message
/// whose encoding is exactly the input; a failure means no well-formed
/// telemetry message encodes to the input.
#[verifier::rlimit(100)]
pub fn decode_telemetry(bytes: &[u8]) -> (r: Option<Telemetry>)
    ensures
        r matches Some(t) ==> tm_wf(t) && bytes@ == enc_telemetry_msg(t),
        r is None ==> forall|t: Telemetry| tm_wf(t) ==> bytes@ != enc_telemetry_msg(t),
{
    let n = bytes.len();
    let mut rd = Reader::new(bytes);
    let hdr = decode_header_checks(&mut rd, n, KIND_TELEMETRY);
    if !hdr {
        proof {
            assert forall|t: Telemetry| tm_wf(t) implies bytes@ != enc_telemetry_msg(t) by {
                if bytes@ == enc_telemetry_msg(t) {
                    lemma_tm_msg_shape(t);
                }
            }
        }
        return None;
    }
    let tag = match rd.read_u16() {
        Some(x) => x,
        None => {
            proof {
                assert forall|t: Telemetry| tm_wf(t) implies bytes@ != enc_telemetry_msg(t) by {
                    if bytes@ == enc_telemetry_msg(t) {
                        lemma_tm_msg_shape(t);
                    }
                }
            }
            return None;
        },
    };
    let seqno = match rd.read_u32() {
        Some(x) => x,
        None => {
            proof {
                assert forall|t: Telemetry| tm_wf(t) implies bytes@ != enc_telemetry_msg(t) by {
                    if bytes@ == enc_telemetry_msg(t) {
                        lemma_tm_msg_shape(t);
                    }
                }
            }
            return None;
        },
    };
    proof {
        assert forall|t: Telemetry|
            tm_wf(t) && bytes@ == enc_telemetry_msg(t) implies spec_tm_tag(t) == tag && t
            .spec_sequence() == seqno by {
            lemma_tm_msg_shape(t);
            lemma_enc_u16_inj(spec_tm_tag(t), tag);
            lemma_enc_u32_inj(t.spec_sequence(), seqno);
        }
    }
    let (status, sb) = match decode_tm_status(bytes, &mut rd, n) {
        Some(p) => p,
        None => {
            return None;
        },
    };
    let ghost so: int = if sb == 0 {
        11
    } else {
        13
    };
    let rest = rd.remaining();
    if (2 <= tag && tag <= 5) || tag == 7 || tag == 8 {
        if rest == 0 {
            let d = if tag == 2 {
                Telemetry::RestartArm(RestartArmTelemetry::new(seqno, status))
            } else if tag == 3 {
                Telemetry::Restart(RestartTelemetry::new(seqno, status))
            } else if tag == 4 {
                Telemetry::StartDH(StartDHTelemetry::new(seqno, status))
            } else if tag == 5 {
                Telemetry::StopDH(StopDHTelemetry::new(seqno, status))
            } else if tag == 7 {
                Telemetry::Config(ConfigTelemetry::new(seqno, status))
            } else {
                Telemetry::ConfigDH(ConfigDHTelemetry::new(seqno, status))
            };
            proof {
                lemma_tm_msg_shape(d);
                lemma_seq_eq_parts(bytes@, enc_telemetry_msg(d), 1, 2, 4, 6, 10, 11, so, so);
            }
            return Some(d);
        }
        proof {
            assert forall|t: Telemetry| tm_wf(t) implies bytes@ != enc_telemetry_msg(t) by {
                if bytes@ == enc_telemetry_msg(t) {
                    lemma_tm_msg_shape(t);
                }
            }
        }
        return None;
    }
    if (tag == 1 || tag == 100) && rest == 12 {
        let sec = rd.read_u64().unwrap();
        let ns = rd.read_u32().unwrap();
        let ts = Timestamp::new(sec, ns);
        let d = if tag == 1 {
            Telemetry::Ping(
                PingTelemetry {
                    header: TelemetryHeader {
                        sequence: seqno,
                        tm_type: TelemetryType::Ping,
                        status,
                    },
                    timestamp: ts,
                },
            )
        } else {
            Telemetry::Beacon(
                BeaconTelemetry {
                    header: TelemetryHeader {
                        sequence: seqno,
                        tm_type: TelemetryType::Beacon,
                        status,
                    },
                    timestamp: ts,
                },
            )
        };
        proof {
            lemma_tm_msg_shape(d);
            lemma_seq_eq_parts(bytes@, enc_telemetry_msg(d), 1, 2, 4, 6, 10, 11, so, so + 8);
        }
        return Some(d);
    }
    if tag == 6 {
        proof {
            assert(bytes@.subrange(0, 1) =~= seq![WIRE_VERSION]);
            assert(bytes@.subrange(1, 2) =~= seq![KIND_TELEMETRY]);
        }
        return decode_tm_query(bytes, rd, n, seqno, status);
    }
    proof {
        assert forall|t: Telemetry| tm_wf(t) implies bytes@ != enc_telemetry_msg(t) by {
            if bytes@ == enc_telemetry_msg(t) {
                lemma_tm_msg_shape(t);
                if let Telemetry::QueryDH(x) = t {
                    lemma_stats_shape(x.statistics);
                }
            }
        }
    }
    None
}

/// Injectivity of the telemetry codec: two well-formed telemetry
/// messages with the same encoding are the same message. Together with
/// the decoder's contract, encoding then decoding any well-formed
/// telemetry message yields the original message.
pub proof fn lemma_telemetry_codec_injective(a: Telemetry, b: Telemetry)
    requires
        tm_wf(a),
        tm_wf(b),
        enc_telemetry_msg(a) == enc_telemetry_msg(b),
    ensures
        a == b,
{
    lemma_tm_msg_shape(a);
    lemma_tm_msg_shape(b);
    let m = enc_telemetry_msg(a);
    lemma_enc_u16_inj(spec_tm_tag(a), spec_tm_tag(b));
    lemma_enc_u32_inj(a.spec_sequence(), b.spec_sequence());
    let sa = a.spec_status();
    let sbt = b.spec_status();
    match (sa, sbt) {
        (CommandStatus::Success, CommandStatus::Success) => {},
        (CommandStatus::Failure(ca), CommandStatus::Failure(cb)) => {
            lemma_enc_u16_inj(ca.spec_u16(), cb.spec_u16());
            lemma_error_code_round(ca);
            lemma_error_code_round(cb);
        },
        _ => {
            assert(m.subrange(10, 11) == seq![0u8] && m.subrange(10, 11) == seq![1u8]);
            assert(m.subrange(10, 11)[0] == 0 && m.subrange(10, 11)[0] == 1);
        },
    }
    let so: int = if sa is Success {
        11
    } else {
        13
    };
    match (a, b) {
        (Telemetry::Ping(x), Telemetry::Ping(y)) => {
            lemma_enc_u64_inj(x.timestamp.seconds, y.timestamp.seconds);
            lemma_enc_u32_inj(x.timestamp.nanoseconds, y.timestamp.nanoseconds);
        },
        (Telemetry::Beacon(x), Telemetry::Beacon(y)) => {
            lemma_enc_u64_inj(x.timestamp.seconds, y.timestamp.seconds);
            lemma_enc_u32_inj(x.timestamp.nanoseconds, y.timestamp.nanoseconds);
        },
        (Telemetry::QueryDH(x), Telemetry::QueryDH(y)) => {
            lemma_enc_u32_inj(x.dh_id.0, y.dh_id.0);
            lemma_stats_shape(x.statistics);
            lemma_stats_shape(y.statistics);
            let ex = enc_stats(x.statistics);
            let ey = enc_stats(y.statistics);
            assert(ex == ey);
            assert(ex.subrange(0, 1)[0] == ey.subrange(0, 1)[0]);
            match (x.statistics.timestamp, y.statistics.timestamp) {
                (Some(tx), Some(ty)) => {
                    lemma_enc_u64_inj(tx.seconds, ty.seconds);
                    lemma_enc_u32_inj(tx.nanoseconds, ty.nanoseconds);
                },
                _ => {},
            }
            lemma_enc_u64_inj(x.statistics.bytes_received, y.statistics.bytes_received);
            lemma_enc_u64_inj(x.statistics.reads_completed, y.statistics.reads_completed);
            lemma_enc_u64_inj(x.statistics.reads_failed, y.statistics.reads_failed);
            lemma_enc_u64_inj(x.statistics.bytes_sent, y.statistics.bytes_sent);
            lemma_enc_u64_inj(x.statistics.writes_completed, y.statistics.writes_completed);
            lemma_enc_u64_inj(x.statistics.writes_failed, y.statistics.writes_failed);
        },
        _ => {},
    }
}

/// Injectivity of the command codec: two well-formed commands with the
/// same encoding are the same command. Together with the decoder's
/// contract, encoding then decoding any well-formed command yields the
/// original command.
pub proof fn lemma_command_codec_injective(a: Command, b: Command)
    requires
        cmd_wf(a),
        cmd_wf(b),
        enc_command_msg(a) == enc_command_msg(b),
    ensures
        cmd_eq(a, b),
{
    lemma_cmd_msg_shape(a);
    lemma_cmd_msg_shape(b);
    let m = enc_command_msg(a);
    lemma_enc_u16_inj(spec_cmd_tag(a), spec_cmd_tag(b));
    lemma_enc_u32_inj(a.spec_sequence(), b.spec_sequence());
    match (a, b) {
        (Command::RestartArm(x), Command::RestartArm(y)) => {
            lemma_enc_u32_inj(x.arm_key.0, y.arm_key.0);
        },
        (Command::Restart(x), Command::Restart(y)) => {
            lemma_enc_u32_inj(x.arm_key.0, y.arm_key.0);
        },
        (Command::StopDH(x), Command::StopDH(y)) => {
            lemma_enc_u32_inj(x.dh_id.0, y.dh_id.0);
        },
        (Command::QueryDH(x), Command::QueryDH(y)) => {
            lemma_enc_u32_inj(x.dh_id.0, y.dh_id.0);
        },
        (Command::ConfigDH(x), Command::ConfigDH(y)) => {
            lemma_enc_u32_inj(x.dh_id.0, y.dh_id.0);
        },
        (Command::Config(x), Command::Config(y)) => {
            match (x.beacon_interval, y.beacon_interval) {
                (None, None) => {},
                (Some(bx), Some(by)) => {
                    lemma_enc_u64_inj(bx.0, by.0);
                },
                _ => {
                    assert(m.subrange(10, 11)[0] == seq![0u8][0] && m.subrange(10, 11)[0]
                        == seq![1u8][0]);
                },
            }
        },
        (Command::StartDH(x), Command::StartDH(y)) => {
            lemma_enc_u32_inj(x.dh_id.0, y.dh_id.0);
            assert(enc_dh_type(x.dh_type) == m.subrange(14, 15));
            assert(enc_dh_type(x.dh_type)[0] == enc_dh_type(y.dh_type)[0]);
            assert(x.dh_type == y.dh_type);
            assert(spec_name_bytes(x.name) == m.subrange(17, m.len() as int));
            assert(spec_name_bytes(x.name) == spec_name_bytes(y.name));
            encode_utf8_decode_utf8(x.name.0@);
            encode_utf8_decode_utf8(y.name.0@);
        },
        _ => {},
    }
}

} // verus!
