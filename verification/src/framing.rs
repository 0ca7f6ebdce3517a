//! Wire framing: one frame is a 4-byte big-endian length field followed by
//! that many payload bytes. The length field's byte order is pinned to
//! network order so that the encoding is portable.

use vstd::prelude::*;

verus! {

/// Failures of the framing layer. Fatal to the single connection.
#[derive(Debug, Clone, Copy, PartialEq, Eq, Structural)]
pub enum FrameError {
    /// The buffer ends before one whole frame is there.
    TruncatedFrame,
    /// The payload length does not fit in the 4-byte length field.
    PayloadTooLarge,
}

/// The value of a big-endian 4-byte length field.
pub open spec fn be_u32(b0: u8, b1: u8, b2: u8, b3: u8) -> u32 {
    ((b0 as u32) << 24) | ((b1 as u32) << 16) | ((b2 as u32) << 8) | (b3 as u32)
}

/// The big-endian 4-byte encoding of a length.
pub open spec fn u32_be(n: u32) -> Seq<u8> {
    seq![(n >> 24) as u8, (n >> 16) as u8, (n >> 8) as u8, n as u8]
}

/// The frame that carries a payload: length field, then the payload itself.
pub open spec fn spec_write_frame(p: Seq<u8>) -> Seq<u8> {
    u32_be(p.len() as u32) + p
}

/// The payload of the one frame at the front of a received buffer, or
/// `None` where the buffer holds no whole frame. Bytes after the frame are
/// not part of it: on a stream they belong to no read of this frame.
pub open spec fn spec_read_frame(b: Seq<u8>) -> Option<Seq<u8>> {
    if b.len() < 4 {
        None
    } else {
        let n = be_u32(b[0], b[1], b[2], b[3]) as int;
        if b.len() - 4 < n {
            None
        } else {
            Some(b.subrange(4, 4 + n))
        }
    }
}

proof fn lemma_be_round_trip(n: u32)
    ensures
        be_u32((n >> 24) as u8, (n >> 16) as u8, (n >> 8) as u8, n as u8) == n,
{
    assert((((((n >> 24) as u8) as u32) << 24) | ((((n >> 16) as u8) as u32) << 16) | ((((n
        >> 8) as u8) as u32) << 8) | ((n as u8) as u32)) == n) by (bit_vector);
}

/// Reading back a written frame yields the payload unchanged, for every
/// payload whose length fits the 4-byte length field.
pub proof fn lemma_frame_round_trip(p: Seq<u8>)
    requires
        p.len() < 0x1_0000_0000,
    ensures
        spec_read_frame(spec_write_frame(p)) == Some(p),
{
    let n = p.len() as u32;
    let f = spec_write_frame(p);
    lemma_be_round_trip(n);
    assert(be_u32(f[0], f[1], f[2], f[3]) == n);
    assert(f.subrange(4, 4 + n as int) =~= p);
}

/// Encodes one frame around a payload: the 4-byte big-endian length, then
/// the payload. Rejects a payload too long for the length field.
pub fn write_frame(payload: &Vec<u8>) -> (r: Result<Vec<u8>, FrameError>)
    ensures
        payload@.len() < 0x1_0000_0000 ==> (r matches Ok(f) && f@ == spec_write_frame(
            payload@,
        )),
        payload@.len() >= 0x1_0000_0000 ==> r == Err::<Vec<u8>, FrameError>(
            FrameError::PayloadTooLarge,
        ),
{
    if (payload.len() as u64) >= 0x1_0000_0000u64 {
        return Err(FrameError::PayloadTooLarge);
    }
    let n = payload.len() as u32;
    let mut frame: Vec<u8> = Vec::new();
    frame.push(#[verifier::truncate] ((n >> 24) as u8));
    frame.push(#[verifier::truncate] ((n >> 16) as u8));
    frame.push(#[verifier::truncate] ((n >> 8) as u8));
    frame.push(#[verifier::truncate] (n as u8));
    let mut i: usize = 0;
    while i < payload.len()
        invariant
            i <= payload@.len(),
            frame@ =~= u32_be(n) + payload@.subrange(0, i as int),
        decreases payload@.len() - i,
    {
        frame.push(payload[i]);
        i = i + 1;
    }
    assert(frame@ =~= spec_write_frame(payload@));
    Ok(frame)
}

/// The payload length announced by a frame's 4-byte length field, read in
/// big-endian order. The caller hands in the length field it read from the
/// stream and learns how many payload bytes follow.
pub fn frame_len(size_bytes: &[u8; 4]) -> (n: u32)
    ensures
        n == be_u32(size_bytes[0], size_bytes[1], size_bytes[2], size_bytes[3]),
{
    ((size_bytes[0] as u32) << 24) | ((size_bytes[1] as u32) << 16) | ((size_bytes[2] as u32)
        << 8) | (size_bytes[3] as u32)
}

/// Decodes the one frame at the front of a received buffer, returning its
/// payload. Fails with `TruncatedFrame` where the buffer ends before the
/// length field, or before the announced payload, is complete.
pub fn read_frame(buf: &Vec<u8>) -> (r: Result<Vec<u8>, FrameError>)
    ensures
        match spec_read_frame(buf@) {
            Some(p) => r matches Ok(q) && q@ == p,
            None => r == Err::<Vec<u8>, FrameError>(FrameError::TruncatedFrame),
        },
{
    let total: usize = buf.len();
    if total < 4 {
        return Err(FrameError::TruncatedFrame);
    }
    let n = ((buf[0] as u32) << 24) | ((buf[1] as u32) << 16) | ((buf[2] as u32) << 8) | (
    buf[3] as u32);
    let len = n as usize;
    if total - 4 < len {
        return Err(FrameError::TruncatedFrame);
    }
    let mut payload: Vec<u8> = Vec::new();
    let mut i: usize = 0;
    while i < len
        invariant
            i <= len,
            len + 4 <= total,
            total == buf@.len(),
            payload@ =~= buf@.subrange(4, 4 + i as int),
        decreases len - i,
    {
        payload.push(buf[4 + i]);
        i = i + 1;
    }
    assert(payload@ =~= buf@.subrange(4, 4 + n as int));
    Ok(payload)
}

} // verus!
