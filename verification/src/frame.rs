//! The frames of the Android Auto wireless bootstrap: a length, a message id
//! and a payload.

use vstd::prelude::*;

verus! {

pub const HEADER_LEN: usize = 4;

/// The messages of the bootstrap.
#[derive(Clone, Copy, PartialEq, Eq, Structural)]
pub enum ProxyMessageId {
    WifiStartRequest,
    WifiInfoRequest,
    WifiInfoResponse,
    WifiVersionRequest,
    WifiVersionResponse,
    WifiConnectStatus,
    WifiStartResponse,
    WifiPingRequest,
    WifiPingResponse,
    WifiSetupInfo,
}

impl ProxyMessageId {
    pub open spec fn number(self) -> u16 {
        match self {
            ProxyMessageId::WifiStartRequest => 1,
            ProxyMessageId::WifiInfoRequest => 2,
            ProxyMessageId::WifiInfoResponse => 3,
            ProxyMessageId::WifiVersionRequest => 4,
            ProxyMessageId::WifiVersionResponse => 5,
            ProxyMessageId::WifiConnectStatus => 6,
            ProxyMessageId::WifiStartResponse => 7,
            ProxyMessageId::WifiPingRequest => 8,
            ProxyMessageId::WifiPingResponse => 9,
            ProxyMessageId::WifiSetupInfo => 11,
        }
    }

    pub fn as_u16(self) -> (r: u16)
        ensures
            r == self.number(),
    {
        match self {
            ProxyMessageId::WifiStartRequest => 1,
            ProxyMessageId::WifiInfoRequest => 2,
            ProxyMessageId::WifiInfoResponse => 3,
            ProxyMessageId::WifiVersionRequest => 4,
            ProxyMessageId::WifiVersionResponse => 5,
            ProxyMessageId::WifiConnectStatus => 6,
            ProxyMessageId::WifiStartResponse => 7,
            ProxyMessageId::WifiPingRequest => 8,
            ProxyMessageId::WifiPingResponse => 9,
            ProxyMessageId::WifiSetupInfo => 11,
        }
    }

    pub open spec fn label(id: u16) -> Seq<char> {
        if id == 1 {
            "WifiStartRequest"@
        } else if id == 2 {
            "WifiInfoRequest"@
        } else if id == 3 {
            "WifiInfoResponse"@
        } else if id == 4 {
            "WifiVersionRequest"@
        } else if id == 5 {
            "WifiVersionResponse"@
        } else if id == 6 {
            "WifiConnectStatus"@
        } else if id == 7 {
            "WifiStartResponse"@
        } else if id == 8 {
            "WifiPingRequest"@
        } else if id == 9 {
            "WifiPingResponse"@
        } else if id == 11 {
            "WifiSetupInfo"@
        } else {
            "Unknown"@
        }
    }

    /// The name of a message id.
    pub fn name(id: u16) -> (r: &'static str)
        ensures
            r@ == Self::label(id),
    {
        if id == 1 {
            "WifiStartRequest"
        } else if id == 2 {
            "WifiInfoRequest"
        } else if id == 3 {
            "WifiInfoResponse"
        } else if id == 4 {
            "WifiVersionRequest"
        } else if id == 5 {
            "WifiVersionResponse"
        } else if id == 6 {
            "WifiConnectStatus"
        } else if id == 7 {
            "WifiStartResponse"
        } else if id == 8 {
            "WifiPingRequest"
        } else if id == 9 {
            "WifiPingResponse"
        } else if id == 11 {
            "WifiSetupInfo"
        } else {
            "Unknown"
        }
    }
}

/// No two messages share an id.
pub proof fn law_message_ids_differ(a: ProxyMessageId, b: ProxyMessageId)
    ensures
        a.number() == b.number() ==> a == b,
{
}

// ---------------------------------------------------------------------
// Big-endian numbers

pub open spec fn be16(x: u16) -> Seq<u8> {
    seq![(x / 256) as u8, (x % 256) as u8]
}

pub open spec fn from_be16(hi: u8, lo: u8) -> u16 {
    (hi as u16 * 256 + lo as u16) as u16
}

pub fn push_be16(out: &mut Vec<u8>, x: u16)
    ensures
        final(out)@ == old(out)@ + be16(x),
{
    let ghost before = out@;
    out.push((x / 256) as u8);
    out.push((x % 256) as u8);
    assert(out@ =~= before + be16(x));
}

pub fn read_be16(hi: u8, lo: u8) -> (r: u16)
    ensures
        r == from_be16(hi, lo),
        r == hi * 256 + lo,
{
    hi as u16 * 256 + lo as u16
}

// ---------------------------------------------------------------------
// Frames

pub struct Frame<B> {
    pub id: u16,
    pub payload: B,
}

pub type ProxyFrame = Frame<Vec<u8>>;

pub type FrameModel = Frame<Seq<u8>>;

impl View for Frame<Vec<u8>> {
    type V = Frame<Seq<u8>>;

    open spec fn view(&self) -> Frame<Seq<u8>> {
        Frame { id: self.id, payload: self.payload@ }
    }
}

impl DeepView for Frame<Vec<u8>> {
    type V = Frame<Seq<u8>>;

    open spec fn deep_view(&self) -> Frame<Seq<u8>> {
        self@
    }
}

/// A frame on the wire. A payload of 65536 bytes or more does not fit: the
/// length in the header is then that of its low sixteen bits.
pub open spec fn frame_bytes(f: FrameModel) -> Seq<u8> {
    be16((f.payload.len() % 0x1_0000) as u16) + be16(f.id) + f.payload
}

pub fn encode_frame(message_id: u16, payload: &[u8]) -> (r: Vec<u8>)
    ensures
        r@ == frame_bytes(Frame { id: message_id, payload: payload@ }),
{
    let mut out: Vec<u8> = Vec::new();
    push_be16(&mut out, (payload.len() % 0x1_0000) as u16);
    push_be16(&mut out, message_id);
    out.extend_from_slice(payload);
    assert(out@ =~= frame_bytes(Frame { id: message_id, payload: payload@ }));
    out
}

/// The payload length and the message id that a header announces.
pub fn decode_header(header: &[u8; 4]) -> (r: (usize, u16))
    ensures
        r.0 == from_be16(header@[0], header@[1]),
        r.1 == from_be16(header@[2], header@[3]),
{
    let len: u16 = read_be16(header[0], header[1]);
    (len as usize, read_be16(header[2], header[3]))
}

pub open spec fn announced_len(buf: Seq<u8>) -> int {
    from_be16(buf[0], buf[1]) as int
}

pub open spec fn has_frame(buf: Seq<u8>) -> bool {
    buf.len() >= 4 && buf.len() >= 4 + announced_len(buf)
}

pub open spec fn first_frame(buf: Seq<u8>) -> FrameModel {
    Frame { id: from_be16(buf[2], buf[3]), payload: buf.subrange(4, 4 + announced_len(buf)) }
}

pub open spec fn after_first(buf: Seq<u8>) -> Seq<u8> {
    buf.subrange(4 + announced_len(buf), buf.len() as int)
}

/// The whole frames at the front of a buffer.
pub open spec fn whole_frames(buf: Seq<u8>) -> Seq<FrameModel>
    decreases buf.len(),
{
    if has_frame(buf) {
        seq![first_frame(buf)] + whole_frames(after_first(buf))
    } else {
        Seq::empty()
    }
}

/// What is left of a buffer behind its whole frames.
pub open spec fn partial_frame(buf: Seq<u8>) -> Seq<u8>
    decreases buf.len(),
{
    if has_frame(buf) {
        partial_frame(after_first(buf))
    } else {
        buf
    }
}

/// Finds the frames in a byte stream that arrives in chunks.
pub struct ProxyFrameSniffer {
    buf: Vec<u8>,
}

impl View for ProxyFrameSniffer {
    type V = Seq<u8>;

    closed spec fn view(&self) -> Seq<u8> {
        self.buf@
    }
}

impl ProxyFrameSniffer {
    pub fn new() -> (r: Self)
        ensures
            r@ == Seq::<u8>::empty(),
    {
        ProxyFrameSniffer { buf: Vec::new() }
    }

    /// Takes a chunk and returns the frames that are now complete. The bytes of
    /// an unfinished frame are kept.
    pub fn push(&mut self, chunk: &[u8]) -> (r: Vec<ProxyFrame>)
        ensures
            r.deep_view() == whole_frames(old(self)@ + chunk@),
            final(self)@ == partial_frame(old(self)@ + chunk@),
    {
        self.buf.extend_from_slice(chunk);
        let ghost all = old(self)@ + chunk@;
        assert(self.buf@ =~= all);
        let mut out: Vec<ProxyFrame> = Vec::new();
        let mut start: usize = 0;
        assert(all.subrange(0, all.len() as int) =~= all);
        assert(out.deep_view() + whole_frames(all) =~= whole_frames(all));
        while self.buf.len() - start >= 4
            invariant_except_break
                start <= self.buf@.len(),
                self.buf@ == all,
                whole_frames(all) == out.deep_view() + whole_frames(
                    all.subrange(start as int, all.len() as int),
                ),
                partial_frame(all) == partial_frame(
                    all.subrange(start as int, all.len() as int),
                ),
            invariant
                all == old(self)@ + chunk@,
            ensures
                start <= self.buf@.len(),
                self.buf@ == all,
                whole_frames(all) == out.deep_view(),
                partial_frame(all) == all.subrange(start as int, all.len() as int),
            decreases self.buf@.len() - start,
        {
            let ghost rest = all.subrange(start as int, all.len() as int);
            let len: u16 = read_be16(self.buf[start], self.buf[start + 1]);
            if self.buf.len() - start - 4 < len as usize {
                assert(out.deep_view() + whole_frames(rest) =~= out.deep_view());
                break ;
            }
            let id: u16 = read_be16(self.buf[start + 2], self.buf[start + 3]);
            let end: usize = start + 4 + len as usize;
            let payload = vstd::slice::slice_to_vec(
                vstd::slice::slice_subrange(&self.buf, start + 4, end),
            );
            assert(payload@ =~= first_frame(rest).payload);
            assert(all.subrange(end as int, all.len() as int) =~= after_first(rest));
            let ghost before = out.deep_view();
            out.push(Frame { id, payload });
            assert(out.deep_view() =~= before.push(first_frame(rest)));
            assert(before + whole_frames(rest) =~= out.deep_view() + whole_frames(
                after_first(rest),
            ));
            start = end;
        }
        assert(out.deep_view() + Seq::<FrameModel>::empty() =~= out.deep_view());
        let kept = vstd::slice::slice_to_vec(
            vstd::slice::slice_subrange(&self.buf, start, self.buf.len()),
        );
        self.buf = kept;
        out
    }
}

// ---------------------------------------------------------------------
// Laws

proof fn lemma_chunks(buf: Seq<u8>, more: Seq<u8>)
    ensures
        whole_frames(buf + more) == whole_frames(buf) + whole_frames(partial_frame(buf) + more),
        partial_frame(buf + more) == partial_frame(partial_frame(buf) + more),
    decreases buf.len(),
{
    let all = buf + more;
    if has_frame(buf) {
        assert(all[0] == buf[0] && all[1] == buf[1] && all[2] == buf[2] && all[3] == buf[3]);
        assert(first_frame(all).payload =~= first_frame(buf).payload);
        assert(after_first(all) =~= after_first(buf) + more);
        lemma_chunks(after_first(buf), more);
        assert(whole_frames(all) =~= whole_frames(buf) + whole_frames(partial_frame(buf) + more));
    } else {
        assert(whole_frames(all) =~= whole_frames(buf) + whole_frames(partial_frame(buf) + more));
    }
}

/// It does not matter how a stream is cut into chunks: the frames found in
/// two chunks are those found in the two as one.
pub proof fn law_chunking_does_not_matter(kept: Seq<u8>, a: Seq<u8>, b: Seq<u8>)
    ensures
        whole_frames(kept + (a + b)) == whole_frames(kept + a) + whole_frames(
            partial_frame(kept + a) + b,
        ),
        partial_frame(kept + (a + b)) == partial_frame(partial_frame(kept + a) + b),
{
    assert(kept + (a + b) =~= (kept + a) + b);
    lemma_chunks(kept + a, b);
}

/// Behind the whole frames less than one frame is left, so the sniffer never
/// holds more than a header and the longest payload.
pub proof fn law_partial_frame_is_short(buf: Seq<u8>)
    ensures
        !has_frame(partial_frame(buf)),
        partial_frame(buf).len() < 4 + 0x1_0000,
    decreases buf.len(),
{
    if has_frame(buf) {
        law_partial_frame_is_short(after_first(buf));
    }
}

/// A frame that fits is found again, whole, with what follows it left over.
pub proof fn law_frame_round_trip(f: FrameModel, rest: Seq<u8>)
    requires
        f.payload.len() < 0x1_0000,
    ensures
        whole_frames(frame_bytes(f) + rest) == seq![f] + whole_frames(rest),
        partial_frame(frame_bytes(f) + rest) == partial_frame(rest),
{
    let len = f.payload.len() as u16;
    let buf = frame_bytes(f) + rest;
    assert(buf[0] == (len / 256) as u8 && buf[1] == (len % 256) as u8);
    assert(buf[2] == (f.id / 256) as u8 && buf[3] == (f.id % 256) as u8);
    assert((len / 256) * 256 + len % 256 == len);
    assert((f.id / 256) * 256 + f.id % 256 == f.id);
    assert(announced_len(buf) == f.payload.len());
    assert(first_frame(buf).payload =~= f.payload);
    assert(after_first(buf) =~= rest);
}

/// A frame, byte for byte: the length of the payload, the message id, both with
/// the high byte first, and the payload.
pub proof fn law_frame_is_laid_out(id: u16, payload: Seq<u8>)
    ensures
        payload.len() < 0x1_0000 ==> frame_bytes(Frame { id, payload }) == seq![
            (payload.len() / 256) as u8,
            (payload.len() % 256) as u8,
            (id / 256) as u8,
            (id % 256) as u8,
        ] + payload,
{
}

/// The numbers of the messages.
pub proof fn law_messages_have_their_numbers()
    ensures
        ProxyMessageId::WifiStartRequest.number() == 1,
        ProxyMessageId::WifiInfoRequest.number() == 2,
        ProxyMessageId::WifiInfoResponse.number() == 3,
        ProxyMessageId::WifiVersionRequest.number() == 4,
        ProxyMessageId::WifiVersionResponse.number() == 5,
        ProxyMessageId::WifiConnectStatus.number() == 6,
        ProxyMessageId::WifiStartResponse.number() == 7,
        ProxyMessageId::WifiPingRequest.number() == 8,
        ProxyMessageId::WifiPingResponse.number() == 9,
        ProxyMessageId::WifiSetupInfo.number() == 11,
{
}

/// The names of the messages.
pub proof fn law_messages_have_their_names(id: u16)
    ensures
        id == 1 ==> ProxyMessageId::label(id) == "WifiStartRequest"@,
        id == 2 ==> ProxyMessageId::label(id) == "WifiInfoRequest"@,
        id == 3 ==> ProxyMessageId::label(id) == "WifiInfoResponse"@,
        id == 4 ==> ProxyMessageId::label(id) == "WifiVersionRequest"@,
        id == 5 ==> ProxyMessageId::label(id) == "WifiVersionResponse"@,
        id == 6 ==> ProxyMessageId::label(id) == "WifiConnectStatus"@,
        id == 7 ==> ProxyMessageId::label(id) == "WifiStartResponse"@,
        id == 8 ==> ProxyMessageId::label(id) == "WifiPingRequest"@,
        id == 9 ==> ProxyMessageId::label(id) == "WifiPingResponse"@,
        id == 11 ==> ProxyMessageId::label(id) == "WifiSetupInfo"@,
        id == 0 || id == 10 || id > 11 ==> ProxyMessageId::label(id) == "Unknown"@,
{
}

/// Two bytes are read back as the number that they were written for.
pub proof fn law_two_bytes_are_read_back(x: u16, hi: u8, lo: u8)
    ensures
        from_be16(hi, lo) == hi * 256 + lo,
        be16(x).len() == 2,
        from_be16(be16(x)[0], be16(x)[1]) == x,
{
}

} // verus!
