use vstd::prelude::*;

use crate::error::Error;

verus! {

/// The value of four bytes read as a big-endian unsigned integer.
pub open spec fn be_u32_value(b: Seq<u8>) -> int
    recommends
        b.len() == 4,
{
    b[0] as int * 0x1000000 + b[1] as int * 0x10000 + b[2] as int * 0x100 + b[3] as int
}

/// The four bytes of `n`, most significant first.
pub open spec fn u32_be(n: u32) -> Seq<u8> {
    seq![(n / 0x1000000) as u8, ((n / 0x10000) % 0x100) as u8, ((n / 0x100) % 0x100) as u8, (n % 0x100) as u8]
}

/// A control frame: the body's length as a big-endian `u32`, then the body.
pub open spec fn frame(body: Seq<u8>) -> Seq<u8>
    recommends
        body.len() <= u32::MAX,
{
    u32_be(body.len() as u32) + body
}

/// The length that the prefix of `buf` announces, for a buffer of four bytes or more.
pub open spec fn announced_len(buf: Seq<u8>) -> int {
    be_u32_value(buf.subrange(0, 4))
}

/// Whether `buf` starts with a whole frame.
pub open spec fn holds_frame(buf: Seq<u8>) -> bool {
    buf.len() >= 4 && 4 + announced_len(buf) <= buf.len()
}

proof fn lemma_be_u32_round_trip(n: u32)
    ensures
        be_u32_value(u32_be(n)) == n,
{
    let b = u32_be(n);
    assert(b[0] as int == n as int / 0x1000000);
    assert(b[1] as int == (n as int / 0x10000) % 0x100);
    assert(b[2] as int == (n as int / 0x100) % 0x100);
    assert(b[3] as int == n as int % 0x100);
    let x = n as int;
    assert(x / 0x1000000 * 0x1000000 + (x / 0x10000) % 0x100 * 0x10000 + (x / 0x100) % 0x100
        * 0x100 + x % 0x100 == x) by (nonlinear_arith)
        requires
            0 <= x < 0x100000000,
    ;
}

/// Frames `body` for a control stream. A body longer than a `u32` can count is
/// refused.
pub fn encode_frame(body: &[u8]) -> (r: Result<Vec<u8>, Error>)
    ensures
        body@.len() <= u32::MAX ==> (r matches Ok(f) && f@ == frame(body@)),
        body@.len() > u32::MAX ==> r matches Err(Error::FrameTooLong),
{
    if body.len() > 0xFFFF_FFFFusize {
        return Err(Error::FrameTooLong);
    }
    let n = body.len() as u32;
    let mut f: Vec<u8> = Vec::new();
    f.push((n / 0x1000000) as u8);
    f.push(((n / 0x10000) % 0x100) as u8);
    f.push(((n / 0x100) % 0x100) as u8);
    f.push((n % 0x100) as u8);
    let mut i: usize = 0;
    while i < body.len()
        invariant
            i <= body@.len(),
            f@ == u32_be(n) + body@.subrange(0, i as int),
        decreases body@.len() - i,
    {
        f.push(body[i]);
        i = i + 1;
        assert(f@ =~= u32_be(n) + body@.subrange(0, i as int));
    }
    assert(body@.subrange(0, body@.len() as int) =~= body@);
    Ok(f)
}

/// Takes the first frame off `buf`: its body and the number of bytes it
/// occupies, or `None` while `buf` does not yet hold a whole frame.
pub fn decode_frame(buf: &[u8]) -> (r: Option<(Vec<u8>, usize)>)
    ensures
        r is Some <==> holds_frame(buf@),
        r matches Some((body, used)) ==> {
            &&& used == 4 + announced_len(buf@)
            &&& body@ == buf@.subrange(4, used as int)
        },
{
    if buf.len() < 4 {
        return None;
    }
    let n: u32 = (buf[0] as u32) * 0x1000000 + (buf[1] as u32) * 0x10000 + (buf[2] as u32) * 0x100
        + (buf[3] as u32);
    assert(n as int == announced_len(buf@));
    if (n as usize) > buf.len() - 4 {
        return None;
    }
    let used: usize = 4 + n as usize;
    let mut body: Vec<u8> = Vec::new();
    let mut i: usize = 4;
    while i < used
        invariant
            4 <= i <= used <= buf@.len(),
            body@ == buf@.subrange(4, i as int),
        decreases used - i,
    {
        body.push(buf[i]);
        i = i + 1;
        assert(body@ =~= buf@.subrange(4, i as int));
    }
    Some((body, used))
}

/// Collects the bytes that arrive on a control stream and hands out the frames
/// they hold, in order.
pub struct FrameReader {
    buf: Vec<u8>,
}

impl View for FrameReader {
    type V = Seq<u8>;

    /// The bytes received and not yet handed out as frames.
    closed spec fn view(&self) -> Seq<u8> {
        self.buf@
    }
}

impl FrameReader {
    /// A reader that has received nothing.
    pub fn new() -> (r: FrameReader)
        ensures
            r@ == Seq::<u8>::empty(),
    {
        FrameReader { buf: Vec::new() }
    }

    /// Takes in bytes that arrived.
    pub fn feed(&mut self, data: &[u8])
        ensures
            final(self)@ == old(self)@ + data@,
    {
        let mut i: usize = 0;
        while i < data.len()
            invariant
                i <= data@.len(),
                self@ == old(self)@ + data@.subrange(0, i as int),
            decreases data@.len() - i,
        {
            self.buf.push(data[i]);
            i = i + 1;
            assert(self@ =~= old(self)@ + data@.subrange(0, i as int));
        }
        assert(data@.subrange(0, data@.len() as int) =~= data@);
    }

    /// The body of the next whole frame, which is removed from what is held; `None`
    /// while no whole frame has arrived.
    pub fn next_frame(&mut self) -> (r: Option<Vec<u8>>)
        ensures
            holds_frame(old(self)@) ==> (r matches Some(body) && body@ == old(self)@.subrange(
                4,
                4 + announced_len(old(self)@),
            ) && final(self)@ == old(self)@.subrange(
                4 + announced_len(old(self)@),
                old(self)@.len() as int,
            )),
            !holds_frame(old(self)@) ==> (r is None && final(self)@ == old(self)@),
    {
        match decode_frame(self.buf.as_slice()) {
            None => None,
            Some((body, used)) => {
                let rest = self.buf.split_off(used);
                self.buf = rest;
                Some(body)
            },
        }
    }
}

/// Decoding undoes encoding: a frame followed by any further bytes decodes to
/// its body, and the frame's own bytes are what is consumed.
pub proof fn lemma_frame_round_trip(body: Seq<u8>, rest: Seq<u8>)
    requires
        body.len() <= u32::MAX,
    ensures
        holds_frame(frame(body) + rest),
        announced_len(frame(body) + rest) == body.len(),
        (frame(body) + rest).subrange(4, 4 + body.len() as int) == body,
{
    let buf = frame(body) + rest;
    lemma_be_u32_round_trip(body.len() as u32);
    assert(buf.subrange(0, 4) =~= u32_be(body.len() as u32));
    assert(buf.subrange(4, 4 + body.len() as int) =~= body);
}

} // verus!
