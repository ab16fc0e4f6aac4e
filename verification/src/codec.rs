//! Big-endian byte-level encoding primitives for the wire codec, and a
//! cursor for decoding. Every primitive's contract ties the bytes written
//! or read to one spec-level encoding function, so that the message codec
//! can state exact round trips over those functions.

use vstd::prelude::*;
use vstd::slice::{slice_subrange, slice_to_vec};

verus! {

/// Big-endian bytes of a `u16`.
pub open spec fn enc_u16(x: u16) -> Seq<u8> {
    seq![((x >> 8) & 0xff) as u8, (x & 0xff) as u8]
}

/// Big-endian bytes of a `u32`.
pub open spec fn enc_u32(x: u32) -> Seq<u8> {
    seq![
        ((x >> 24) & 0xff) as u8,
        ((x >> 16) & 0xff) as u8,
        ((x >> 8) & 0xff) as u8,
        (x & 0xff) as u8,
    ]
}

/// Big-endian bytes of a `u64`.
pub open spec fn enc_u64(x: u64) -> Seq<u8> {
    seq![
        ((x >> 56) & 0xff) as u8,
        ((x >> 48) & 0xff) as u8,
        ((x >> 40) & 0xff) as u8,
        ((x >> 32) & 0xff) as u8,
        ((x >> 24) & 0xff) as u8,
        ((x >> 16) & 0xff) as u8,
        ((x >> 8) & 0xff) as u8,
        (x & 0xff) as u8,
    ]
}

/// The `u16` read back from two big-endian bytes.
pub open spec fn dec_u16(b0: u8, b1: u8) -> u16 {
    (((b0 as u16) << 8) | (b1 as u16)) as u16
}

/// The `u32` read back from four big-endian bytes.
pub open spec fn dec_u32(b0: u8, b1: u8, b2: u8, b3: u8) -> u32 {
    (((b0 as u32) << 24) | ((b1 as u32) << 16) | ((b2 as u32) << 8) | (b3 as u32)) as u32
}

/// The `u64` read back from eight big-endian bytes.
pub open spec fn dec_u64(b0: u8, b1: u8, b2: u8, b3: u8, b4: u8, b5: u8, b6: u8, b7: u8) -> u64 {
    (((b0 as u64) << 56) | ((b1 as u64) << 48) | ((b2 as u64) << 40) | ((b3 as u64) << 32) | ((
    b4 as u64) << 24) | ((b5 as u64) << 16) | ((b6 as u64) << 8) | (b7 as u64)) as u64
}

/// Decoding the two bytes of an encoded `u16` gives the value back.
pub proof fn lemma_enc_dec_u16(x: u16)
    ensures
        dec_u16(((x >> 8) & 0xff) as u8, (x & 0xff) as u8) == x,
{
    assert((((((x >> 8) & 0xff) as u8 as u16) << 8) | ((x & 0xff) as u8 as u16)) as u16 == x)
        by (bit_vector);
}

/// Encoding the `u16` read from two bytes gives the bytes back.
pub proof fn lemma_dec_enc_u16(b0: u8, b1: u8)
    ensures
        enc_u16(dec_u16(b0, b1)) =~= seq![b0, b1],
{
    let x = dec_u16(b0, b1);
    assert(((x >> 8) & 0xff) as u8 == b0 && (x & 0xff) as u8 == b1 && x == ((((b0 as u16) << 8) | (
    b1 as u16)) as u16)) by (bit_vector)
        requires
            x == ((((b0 as u16) << 8) | (b1 as u16)) as u16),
    ;
}

/// Two values with the same two-byte encoding are equal.
pub proof fn lemma_enc_u16_inj(x: u16, y: u16)
    requires
        enc_u16(x) == enc_u16(y),
    ensures
        x == y,
{
    lemma_enc_dec_u16(x);
    lemma_enc_dec_u16(y);
    assert(enc_u16(x)[0] == enc_u16(y)[0]);
    assert(enc_u16(x)[1] == enc_u16(y)[1]);
}

/// Decoding the four bytes of an encoded `u32` gives the value back.
pub proof fn lemma_enc_dec_u32(x: u32)
    ensures
        dec_u32(
            ((x >> 24) & 0xff) as u8,
            ((x >> 16) & 0xff) as u8,
            ((x >> 8) & 0xff) as u8,
            (x & 0xff) as u8,
        ) == x,
{
    assert((((((x >> 24) & 0xff) as u8 as u32) << 24) | ((((x >> 16) & 0xff) as u8 as u32) << 16)
        | ((((x >> 8) & 0xff) as u8 as u32) << 8) | ((x & 0xff) as u8 as u32)) as u32 == x)
        by (bit_vector);
}

/// Encoding the `u32` read from four bytes gives the bytes back.
pub proof fn lemma_dec_enc_u32(b0: u8, b1: u8, b2: u8, b3: u8)
    ensures
        enc_u32(dec_u32(b0, b1, b2, b3)) =~= seq![b0, b1, b2, b3],
{
    let x = dec_u32(b0, b1, b2, b3);
    assert(((x >> 24) & 0xff) as u8 == b0 && ((x >> 16) & 0xff) as u8 == b1 && ((x >> 8)
        & 0xff) as u8 == b2 && (x & 0xff) as u8 == b3) by (bit_vector)
        requires
            x == ((((b0 as u32) << 24) | ((b1 as u32) << 16) | ((b2 as u32) << 8) | (
            b3 as u32)) as u32),
    ;
}

/// Two values with the same four-byte encoding are equal.
pub proof fn lemma_enc_u32_inj(x: u32, y: u32)
    requires
        enc_u32(x) == enc_u32(y),
    ensures
        x == y,
{
    lemma_enc_dec_u32(x);
    lemma_enc_dec_u32(y);
    assert(enc_u32(x)[0] == enc_u32(y)[0]);
    assert(enc_u32(x)[1] == enc_u32(y)[1]);
    assert(enc_u32(x)[2] == enc_u32(y)[2]);
    assert(enc_u32(x)[3] == enc_u32(y)[3]);
}

/// Two values with the same eight-byte encoding are equal.
pub proof fn lemma_enc_u64_inj(x: u64, y: u64)
    requires
        enc_u64(x) == enc_u64(y),
    ensures
        x == y,
{
    lemma_enc_dec_u64(x);
    lemma_enc_dec_u64(y);
    assert(enc_u64(x)[0] == enc_u64(y)[0]);
    assert(enc_u64(x)[1] == enc_u64(y)[1]);
    assert(enc_u64(x)[2] == enc_u64(y)[2]);
    assert(enc_u64(x)[3] == enc_u64(y)[3]);
    assert(enc_u64(x)[4] == enc_u64(y)[4]);
    assert(enc_u64(x)[5] == enc_u64(y)[5]);
    assert(enc_u64(x)[6] == enc_u64(y)[6]);
    assert(enc_u64(x)[7] == enc_u64(y)[7]);
}

/// Decoding the eight bytes of an encoded `u64` gives the value back.
pub proof fn lemma_enc_dec_u64(x: u64)
    ensures
        dec_u64(
            ((x >> 56) & 0xff) as u8,
            ((x >> 48) & 0xff) as u8,
            ((x >> 40) & 0xff) as u8,
            ((x >> 32) & 0xff) as u8,
            ((x >> 24) & 0xff) as u8,
            ((x >> 16) & 0xff) as u8,
            ((x >> 8) & 0xff) as u8,
            (x & 0xff) as u8,
        ) == x,
{
    assert((((((x >> 56) & 0xff) as u8 as u64) << 56) | ((((x >> 48) & 0xff) as u8 as u64) << 48)
        | ((((x >> 40) & 0xff) as u8 as u64) << 40) | ((((x >> 32) & 0xff) as u8 as u64) << 32) | ((
    ((x >> 24) & 0xff) as u8 as u64) << 24) | ((((x >> 16) & 0xff) as u8 as u64) << 16) | ((((x
        >> 8) & 0xff) as u8 as u64) << 8) | ((x & 0xff) as u8 as u64)) as u64 == x) by (bit_vector);
}

/// Encoding the `u64` read from eight bytes gives the bytes back.
pub proof fn lemma_dec_enc_u64(b0: u8, b1: u8, b2: u8, b3: u8, b4: u8, b5: u8, b6: u8, b7: u8)
    ensures
        enc_u64(dec_u64(b0, b1, b2, b3, b4, b5, b6, b7)) =~= seq![b0, b1, b2, b3, b4, b5, b6, b7],
{
    let x = dec_u64(b0, b1, b2, b3, b4, b5, b6, b7);
    assert(((x >> 56) & 0xff) as u8 == b0 && ((x >> 48) & 0xff) as u8 == b1 && ((x >> 40)
        & 0xff) as u8 == b2 && ((x >> 32) & 0xff) as u8 == b3 && ((x >> 24) & 0xff) as u8 == b4 && (
    (x >> 16) & 0xff) as u8 == b5 && ((x >> 8) & 0xff) as u8 == b6 && (x & 0xff) as u8 == b7)
        by (bit_vector)
        requires
            x == ((((b0 as u64) << 56) | ((b1 as u64) << 48) | ((b2 as u64) << 40) | ((b3 as u64)
                << 32) | ((b4 as u64) << 24) | ((b5 as u64) << 16) | ((b6 as u64) << 8) | (
            b7 as u64)) as u64),
    ;
}

/// Append one byte.
pub fn push_u8(v: &mut Vec<u8>, x: u8)
    ensures
        final(v)@ == old(v)@ + seq![x],
{
    v.push(x);
    assert(final(v)@ =~= old(v)@ + seq![x]);
}

/// Append the two big-endian bytes of a `u16`.
pub fn push_u16(v: &mut Vec<u8>, x: u16)
    ensures
        final(v)@ == old(v)@ + enc_u16(x),
{
    assert((x >> 8) & 0xff <= 0xff && x & 0xff <= 0xff) by (bit_vector);
    v.push(((x >> 8) & 0xff) as u8);
    v.push((x & 0xff) as u8);
    assert(final(v)@ =~= old(v)@ + enc_u16(x));
}

/// Append the four big-endian bytes of a `u32`.
pub fn push_u32(v: &mut Vec<u8>, x: u32)
    ensures
        final(v)@ == old(v)@ + enc_u32(x),
{
    assert((x >> 24) & 0xff <= 0xff && (x >> 16) & 0xff <= 0xff && (x >> 8) & 0xff <= 0xff && x
        & 0xff <= 0xff) by (bit_vector);
    v.push(((x >> 24) & 0xff) as u8);
    v.push(((x >> 16) & 0xff) as u8);
    v.push(((x >> 8) & 0xff) as u8);
    v.push((x & 0xff) as u8);
    assert(final(v)@ =~= old(v)@ + enc_u32(x));
}

/// Append the eight big-endian bytes of a `u64`.
pub fn push_u64(v: &mut Vec<u8>, x: u64)
    ensures
        final(v)@ == old(v)@ + enc_u64(x),
{
    assert((x >> 56) & 0xff <= 0xff && (x >> 48) & 0xff <= 0xff && (x >> 40) & 0xff <= 0xff && (x
        >> 32) & 0xff <= 0xff && (x >> 24) & 0xff <= 0xff && (x >> 16) & 0xff <= 0xff && (x >> 8)
        & 0xff <= 0xff && x & 0xff <= 0xff) by (bit_vector);
    v.push(((x >> 56) & 0xff) as u8);
    v.push(((x >> 48) & 0xff) as u8);
    v.push(((x >> 40) & 0xff) as u8);
    v.push(((x >> 32) & 0xff) as u8);
    v.push(((x >> 24) & 0xff) as u8);
    v.push(((x >> 16) & 0xff) as u8);
    v.push(((x >> 8) & 0xff) as u8);
    v.push((x & 0xff) as u8);
    assert(final(v)@ =~= old(v)@ + enc_u64(x));
}

/// Append a run of bytes unchanged.
pub fn push_bytes(v: &mut Vec<u8>, b: &[u8])
    ensures
        final(v)@ == old(v)@ + b@,
{
    let mut tail = slice_to_vec(b);
    v.append(&mut tail);
    assert(final(v)@ =~= old(v)@ + b@);
}

/// A decoding cursor over a byte slice. Reads advance `pos`; a read past
/// the end fails without moving the cursor.
pub struct Reader<'a> {
    bytes: &'a [u8],
    pos: usize,
}

impl<'a> Reader<'a> {
    /// The bytes under the cursor.
    pub closed spec fn spec_bytes(self) -> Seq<u8> {
        self.bytes@
    }

    /// The cursor position.
    pub closed spec fn spec_pos(self) -> int {
        self.pos as int
    }

    pub open spec fn wf(self) -> bool {
        0 <= self.spec_pos() <= self.spec_bytes().len()
    }

    pub fn new(bytes: &'a [u8]) -> (r: Self)
        ensures
            r.wf(),
            r.spec_bytes() == bytes@,
            r.spec_pos() == 0,
    {
        Reader { bytes, pos: 0 }
    }

    /// How many bytes are left to read.
    pub fn remaining(&self) -> (r: usize)
        requires
            self.wf(),
        ensures
            r == self.spec_bytes().len() - self.spec_pos(),
    {
        self.bytes.len() - self.pos
    }

    pub fn read_u8(&mut self) -> (r: Option<u8>)
        requires
            old(self).wf(),
        ensures
            final(self).wf(),
            final(self).spec_bytes() == old(self).spec_bytes(),
            old(self).spec_pos() + 1 <= old(self).spec_bytes().len() ==> (r matches Some(x)
                && final(self).spec_pos() == old(self).spec_pos() + 1 && old(self).spec_bytes()
                .subrange(old(self).spec_pos(), final(self).spec_pos()) =~= seq![x]),
            old(self).spec_pos() + 1 > old(self).spec_bytes().len() ==> r is None && *final(self)
                == *old(self),
    {
        if self.pos < self.bytes.len() {
            let x = self.bytes[self.pos];
            self.pos = self.pos + 1;
            Some(x)
        } else {
            None
        }
    }

    pub fn read_u16(&mut self) -> (r: Option<u16>)
        requires
            old(self).wf(),
        ensures
            final(self).wf(),
            final(self).spec_bytes() == old(self).spec_bytes(),
            old(self).spec_pos() + 2 <= old(self).spec_bytes().len() ==> (r matches Some(x)
                && final(self).spec_pos() == old(self).spec_pos() + 2 && old(self).spec_bytes()
                .subrange(old(self).spec_pos(), final(self).spec_pos()) == enc_u16(x)),
            old(self).spec_pos() + 2 > old(self).spec_bytes().len() ==> r is None && *final(self)
                == *old(self),
    {
        if self.bytes.len() - self.pos >= 2 {
            let b0 = self.bytes[self.pos];
            let b1 = self.bytes[self.pos + 1];
            let x: u16 = ((b0 as u16) << 8) | (b1 as u16);
            proof {
                assert(x == dec_u16(b0, b1));
                lemma_dec_enc_u16(b0, b1);
                assert(old(self).spec_bytes().subrange(
                    old(self).spec_pos(),
                    old(self).spec_pos() + 2,
                ) =~= seq![b0, b1]);
            }
            self.pos = self.pos + 2;
            Some(x)
        } else {
            None
        }
    }

    pub fn read_u32(&mut self) -> (r: Option<u32>)
        requires
            old(self).wf(),
        ensures
            final(self).wf(),
            final(self).spec_bytes() == old(self).spec_bytes(),
            old(self).spec_pos() + 4 <= old(self).spec_bytes().len() ==> (r matches Some(x)
                && final(self).spec_pos() == old(self).spec_pos() + 4 && old(self).spec_bytes()
                .subrange(old(self).spec_pos(), final(self).spec_pos()) == enc_u32(x)),
            old(self).spec_pos() + 4 > old(self).spec_bytes().len() ==> r is None && *final(self)
                == *old(self),
    {
        if self.bytes.len() - self.pos >= 4 {
            let b0 = self.bytes[self.pos];
            let b1 = self.bytes[self.pos + 1];
            let b2 = self.bytes[self.pos + 2];
            let b3 = self.bytes[self.pos + 3];
            let x: u32 = ((b0 as u32) << 24) | ((b1 as u32) << 16) | ((b2 as u32) << 8) | (
            b3 as u32);
            proof {
                assert(x == dec_u32(b0, b1, b2, b3));
                lemma_dec_enc_u32(b0, b1, b2, b3);
                assert(old(self).spec_bytes().subrange(
                    old(self).spec_pos(),
                    old(self).spec_pos() + 4,
                ) =~= seq![b0, b1, b2, b3]);
            }
            self.pos = self.pos + 4;
            Some(x)
        } else {
            None
        }
    }

    pub fn read_u64(&mut self) -> (r: Option<u64>)
        requires
            old(self).wf(),
        ensures
            final(self).wf(),
            final(self).spec_bytes() == old(self).spec_bytes(),
            old(self).spec_pos() + 8 <= old(self).spec_bytes().len() ==> (r matches Some(x)
                && final(self).spec_pos() == old(self).spec_pos() + 8 && old(self).spec_bytes()
                .subrange(old(self).spec_pos(), final(self).spec_pos()) == enc_u64(x)),
            old(self).spec_pos() + 8 > old(self).spec_bytes().len() ==> r is None && *final(self)
                == *old(self),
    {
        if self.bytes.len() - self.pos >= 8 {
            let b0 = self.bytes[self.pos];
            let b1 = self.bytes[self.pos + 1];
            let b2 = self.bytes[self.pos + 2];
            let b3 = self.bytes[self.pos + 3];
            let b4 = self.bytes[self.pos + 4];
            let b5 = self.bytes[self.pos + 5];
            let b6 = self.bytes[self.pos + 6];
            let b7 = self.bytes[self.pos + 7];
            let x: u64 = ((b0 as u64) << 56) | ((b1 as u64) << 48) | ((b2 as u64) << 40) | ((
            b3 as u64) << 32) | ((b4 as u64) << 24) | ((b5 as u64) << 16) | ((b6 as u64) << 8) | (
            b7 as u64);
            proof {
                assert(x == dec_u64(b0, b1, b2, b3, b4, b5, b6, b7));
                lemma_dec_enc_u64(b0, b1, b2, b3, b4, b5, b6, b7);
                assert(old(self).spec_bytes().subrange(
                    old(self).spec_pos(),
                    old(self).spec_pos() + 8,
                ) =~= seq![b0, b1, b2, b3, b4, b5, b6, b7]);
            }
            self.pos = self.pos + 8;
            Some(x)
        } else {
            None
        }
    }

    /// Read `n` bytes as an owned vector.
    pub fn read_bytes(&mut self, n: usize) -> (r: Option<Vec<u8>>)
        requires
            old(self).wf(),
        ensures
            final(self).wf(),
            final(self).spec_bytes() == old(self).spec_bytes(),
            old(self).spec_pos() + n <= old(self).spec_bytes().len() ==> (r matches Some(v)
                && final(self).spec_pos() == old(self).spec_pos() + n && v@ == old(
                self,
            ).spec_bytes().subrange(old(self).spec_pos(), final(self).spec_pos())),
            old(self).spec_pos() + n > old(self).spec_bytes().len() ==> r is None && *final(self)
                == *old(self),
    {
        if n <= self.bytes.len() - self.pos {
            let sub = slice_subrange(self.bytes, self.pos, self.pos + n);
            let v = slice_to_vec(sub);
            self.pos = self.pos + n;
            Some(v)
        } else {
            None
        }
    }
}

} // verus!
