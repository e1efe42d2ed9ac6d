//! The frame layer: a two-byte big-endian length prefix followed by exactly
//! that many payload bytes.

use vstd::prelude::*;

verus! {

/// Width of the length prefix, in bytes.
pub const PREFIX_LEN: usize = 2;

/// The largest payload that a two-byte prefix can declare.
pub const MAX_FRAME_LEN: usize = 65535;

#[derive(Debug, Clone, Copy, PartialEq, Eq, Structural)]
pub enum FrameError {
    /// The declared (or requested) length is over the configured maximum.
    FrameTooLarge,
    /// The stream ended inside a frame.
    Truncated,
}

/// The two prefix bytes that declare a payload of `n` bytes.
pub open spec fn prefix_of(n: nat) -> Seq<u8> {
    seq![(n / 256) as u8, (n % 256) as u8]
}

/// A whole frame carrying `p`.
pub open spec fn frame_of(p: Seq<u8>) -> Seq<u8> {
    prefix_of(p.len()) + p
}

/// The length that the prefix at the front of `buf` declares.
pub open spec fn declared_len(buf: Seq<u8>) -> nat
    recommends
        buf.len() >= 2,
{
    buf[0] as nat * 256 + buf[1] as nat
}

/// The front of `buf` declares more than `max` bytes.
pub open spec fn too_large(buf: Seq<u8>, max: nat) -> bool {
    buf.len() >= 2 && declared_len(buf) > max
}

/// The front of `buf` holds a whole frame within the limit.
pub open spec fn frame_ready(buf: Seq<u8>, max: nat) -> bool {
    buf.len() >= 2 && declared_len(buf) <= max && buf.len() >= 2 + declared_len(buf)
}

/// The payload of the frame at the front of `buf`.
pub open spec fn front_payload(buf: Seq<u8>) -> Seq<u8> {
    buf.subrange(2, 2 + declared_len(buf) as int)
}

/// What follows the frame at the front of `buf`.
pub open spec fn after_front(buf: Seq<u8>) -> Seq<u8> {
    buf.subrange(2 + declared_len(buf) as int, buf.len() as int)
}

/// The prefix of a payload length reads back as that length.
pub proof fn lemma_prefix_declares(n: nat, rest: Seq<u8>)
    requires
        n <= 65535,
    ensures
        (prefix_of(n) + rest).len() == 2 + rest.len(),
        declared_len(prefix_of(n) + rest) == n,
{
    let b = prefix_of(n) + rest;
    assert(b[0] == (n / 256) as u8);
    assert(b[1] == (n % 256) as u8);
    assert((n / 256) < 256 && (n / 256) * 256 + n % 256 == n) by (nonlinear_arith)
        requires
            n <= 65535,
    ;
}

/// Round trip: the frame written for a payload of at most `max` bytes, followed
/// by any further bytes of the stream, reads back as exactly that payload and
/// leaves exactly those further bytes.
pub proof fn lemma_frame_round_trip(p: Seq<u8>, rest: Seq<u8>, max: nat)
    requires
        p.len() <= max,
        p.len() <= 65535,
    ensures
        frame_ready(frame_of(p) + rest, max),
        front_payload(frame_of(p) + rest) == p,
        after_front(frame_of(p) + rest) == rest,
{
    let b = frame_of(p) + rest;
    lemma_prefix_declares(p.len(), p + rest);
    assert(b =~= prefix_of(p.len()) + (p + rest));
    assert(front_payload(b) =~= p);
    assert(after_front(b) =~= rest);
}

/// Writes the frame that carries `payload`: the prefix and the payload in one
/// buffer, so that one write of it puts the whole frame on the stream.
pub fn write_frame(payload: &[u8], max_frame_len: usize) -> (r: Result<Vec<u8>, FrameError>)
    ensures
        payload@.len() <= max_frame_len && payload@.len() <= 65535 <==> r is Ok,
        r matches Ok(bytes) ==> bytes@ == frame_of(payload@),
        r matches Err(e) ==> e == FrameError::FrameTooLarge,
{
    let n = payload.len();
    if n > max_frame_len || n > MAX_FRAME_LEN {
        return Err(FrameError::FrameTooLarge);
    }
    let mut out: Vec<u8> = Vec::with_capacity(n + PREFIX_LEN);
    out.push((n / 256) as u8);
    out.push((n % 256) as u8);
    out.extend_from_slice(payload);
    assert(out@ =~= frame_of(payload@));
    Ok(out)
}

/// Reads frames out of the bytes that arrive on a stream.
pub struct FrameReader {
    buf: Vec<u8>,
    max_frame_len: usize,
}

impl FrameReader {
    /// The bytes received and not yet handed out as frames.
    pub closed spec fn pending(&self) -> Seq<u8> {
        self.buf@
    }

    /// The configured maximum payload length.
    pub closed spec fn limit(&self) -> nat {
        self.max_frame_len as nat
    }

    pub fn new(max_frame_len: usize) -> (r: FrameReader)
        ensures
            r.pending() == Seq::<u8>::empty(),
            r.limit() == max_frame_len,
    {
        FrameReader { buf: Vec::new(), max_frame_len }
    }

    /// Takes in bytes that arrived on the stream.
    pub fn feed(&mut self, data: &[u8])
        ensures
            final(self).pending() == old(self).pending() + data@,
            final(self).limit() == old(self).limit(),
    {
        self.buf.extend_from_slice(data);
        assert(self.buf@ =~= old(self).buf@ + data@);
    }

    /// Hands out the next whole frame's payload, if one has arrived.
    ///
    /// A declared length over the limit is refused as soon as the prefix is
    /// there, whatever payload bytes have or have not arrived behind it.
    pub fn read_frame(&mut self) -> (r: Result<Option<Vec<u8>>, FrameError>)
        ensures
            final(self).limit() == old(self).limit(),
            too_large(old(self).pending(), old(self).limit()) <==> r is Err,
            r matches Err(e) ==> e == FrameError::FrameTooLarge,
            frame_ready(old(self).pending(), old(self).limit()) <==> r matches Ok(Some(_)),
            r matches Ok(Some(p)) ==> p@ == front_payload(old(self).pending())
                && final(self).pending() == after_front(old(self).pending()),
            !(r matches Ok(Some(_))) ==> final(self).pending() == old(self).pending(),
    {
        let len = self.buf.len();
        if len < PREFIX_LEN {
            return Ok(None);
        }
        let declared: usize = (self.buf[0] as usize) * 256 + (self.buf[1] as usize);
        if declared > self.max_frame_len {
            return Err(FrameError::FrameTooLarge);
        }
        if len - PREFIX_LEN < declared {
            return Ok(None);
        }
        let end: usize = PREFIX_LEN + declared;
        let mut payload: Vec<u8> = Vec::with_capacity(declared);
        let mut rest: Vec<u8> = Vec::with_capacity(len - end);
        let mut i: usize = PREFIX_LEN;
        while i < len
            invariant
                PREFIX_LEN <= i <= len,
                end <= len,
                len == self.buf@.len(),
                self.buf@ == old(self).buf@,
                end == 2 + declared_len(self.buf@),
                i <= end ==> payload@ == self.buf@.subrange(2, i as int) && rest@.len() == 0,
                i > end ==> payload@ == self.buf@.subrange(2, end as int)
                    && rest@ == self.buf@.subrange(end as int, i as int),
            decreases len - i,
        {
            if i < end {
                payload.push(self.buf[i]);
            } else {
                rest.push(self.buf[i]);
            }
            i = i + 1;
            assert(payload@ =~= self.buf@.subrange(2, if i <= end { i as int } else { end as int }));
            assert(i > end ==> rest@ =~= self.buf@.subrange(end as int, i as int));
        }
        assert(rest@ =~= self.buf@.subrange(end as int, len as int));
        self.buf = rest;
        Ok(Some(payload))
    }

    /// Checks the stream's end: it may only end between frames.
    pub fn finish(&self) -> (r: Result<(), FrameError>)
        ensures
            r is Ok <==> self.pending().len() == 0,
            r matches Err(e) ==> e == FrameError::Truncated,
    {
        if self.buf.len() == 0 {
            Ok(())
        } else {
            Err(FrameError::Truncated)
        }
    }
}

} // verus!
