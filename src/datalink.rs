use vstd::prelude::*;

use crate::crc::{crc8_autosar, lemma_single_byte_change_detected, CRC8Autosar, CRC};

verus! {

/// The first start marker of every frame
pub const START_BYTE_0: u8 = 0xaa;

/// The second start marker of every frame
pub const START_BYTE_1: u8 = 0x55;

/// Bytes of a frame before the header checksum: two start markers, source,
/// destination and command (two bytes each, least significant first) and the
/// payload length.
pub const HEADER_LEN: usize = 9;

/// Bytes of a frame besides its payload: header, header checksum and the
/// four bytes of the frame checksum.
pub const FRAME_OVERHEAD: usize = 14;

/// The CRC-32/ISO-HDLC checksum of a byte sequence.
pub uninterp spec fn crc32_iso_hdlc(data: Seq<u8>) -> u32;

/// Relies on `crc::Crc::<u32>::checksum` over the `crc::CRC_32_ISO_HDLC` catalog
/// entry (the standard reflected CRC-32): a checksum that depends on the bytes
/// alone.
#[verifier::external_body]
fn crc32_checksum(data: &[u8]) -> (r: u32)
    ensures
        r == crc32_iso_hdlc(data@),
{
    crc::Crc::<u32>::new(&crc::CRC_32_ISO_HDLC).checksum(data)
}

/// A frame of the data link layer
///
/// Wire layout, multi-byte fields least significant byte first:
/// `[0xaa][0x55][src:2][dst:2][cmd:2][len:1][h_crc:1][payload:len][f_crc:4]`
#[derive(Clone, Copy)]
pub struct DataFrame {
    /// The source address
    pub src: u16,
    /// The destination address
    pub dst: u16,
    /// The message type / command
    pub cmd: u16,
    /// The amount of bytes in the payload
    pub payload_len: u8,
    /// The header checksum (AUTOSAR CRC8)
    pub h_crc: u8,
    /// The payload itself; only the first `payload_len` bytes are meaningful
    pub payload: [u8; 256],
    /// The frame checksum (CRC-32/ISO-HDLC)
    pub f_crc: u32,
    /// The number of bytes received so far of a frame being assembled
    pub in_len: u16,
}

/// A payload buffer whose first bytes are replaced by `data`; the bytes after
/// them keep their old values.
pub open spec fn overwrite(buf: Seq<u8>, data: Seq<u8>) -> Seq<u8> {
    data + buf.subrange(data.len() as int, buf.len() as int)
}

/// The four bytes of `v`, least significant first.
pub open spec fn le_bytes_u32(v: u32) -> Seq<u8> {
    seq![v as u8, (v >> 8u32) as u8, (v >> 16u32) as u8, (v >> 24u32) as u8]
}

/// The frame checksum byte `k` (0 to 3), least significant first.
pub open spec fn crc_byte(f_crc: u32, k: int) -> u8 {
    if k == 0 {
        f_crc as u8
    } else if k == 1 {
        (f_crc >> 8u32) as u8
    } else if k == 2 {
        (f_crc >> 16u32) as u8
    } else {
        (f_crc >> 24u32) as u8
    }
}

impl DataFrame {
    /// The byte at position `i` of this frame on the wire.
    pub open spec fn wire_byte(self, i: int) -> u8 {
        if i == 0 {
            START_BYTE_0
        } else if i == 1 {
            START_BYTE_1
        } else if i == 2 {
            self.src as u8
        } else if i == 3 {
            (self.src >> 8u16) as u8
        } else if i == 4 {
            self.dst as u8
        } else if i == 5 {
            (self.dst >> 8u16) as u8
        } else if i == 6 {
            self.cmd as u8
        } else if i == 7 {
            (self.cmd >> 8u16) as u8
        } else if i == 8 {
            self.payload_len
        } else if i == 9 {
            self.h_crc
        } else if i < 10 + self.payload_len {
            self.payload[i - 10]
        } else {
            crc_byte(self.f_crc, i - 10 - self.payload_len)
        }
    }

    /// The number of bytes of this frame on the wire.
    pub open spec fn wire_len(self) -> nat {
        (FRAME_OVERHEAD + self.payload_len) as nat
    }

    /// This frame as it goes on the wire.
    pub open spec fn wire_bytes(self) -> Seq<u8> {
        Seq::new(self.wire_len(), |i: int| self.wire_byte(i))
    }

    /// The header: what the header checksum covers.
    pub open spec fn header_bytes(self) -> Seq<u8> {
        Seq::new(HEADER_LEN as nat, |i: int| self.wire_byte(i))
    }

    /// Header, header checksum and payload: what the frame checksum covers.
    pub open spec fn body_bytes(self) -> Seq<u8> {
        Seq::new((HEADER_LEN + 1 + self.payload_len) as nat, |i: int| self.wire_byte(i))
    }

    /// The meaningful prefix of the payload.
    pub open spec fn payload_bytes(self) -> Seq<u8> {
        self.payload@.subrange(0, self.payload_len as int)
    }

    /// The header checksum this frame should carry.
    pub open spec fn header_checksum(self) -> u8 {
        crc8_autosar(self.header_bytes())
    }

    /// The frame checksum this frame should carry.
    pub open spec fn frame_checksum(self) -> u32 {
        crc32_iso_hdlc(self.body_bytes())
    }

    /// This frame with both checksums recomputed.
    pub open spec fn sealed(self) -> DataFrame {
        let h = DataFrame { h_crc: self.header_checksum(), ..self };
        DataFrame { f_crc: h.frame_checksum(), ..h }
    }

    /// The bytes received so far of the frame being assembled.
    pub open spec fn received(self) -> Seq<u8> {
        Seq::new(self.in_len as nat, |i: int| self.wire_byte(i))
    }

    /// The fields hold a consistent partial frame: `received()` is a valid,
    /// incomplete frame prefix, and the bytes of multi-byte fields that are
    /// still to come are zero.
    pub open spec fn assembling(self) -> bool {
        &&& self.in_len < FRAME_OVERHEAD + self.payload_len
        &&& valid_prefix(self.received())
        &&& self.in_len == 3 ==> self.src < 0x100
        &&& self.in_len == 5 ==> self.dst < 0x100
        &&& self.in_len == 7 ==> self.cmd < 0x100
        &&& self.in_len == 11 + self.payload_len ==> self.f_crc < 0x100
        &&& self.in_len == 12 + self.payload_len ==> self.f_crc < 0x1_0000
        &&& self.in_len == 13 + self.payload_len ==> self.f_crc < 0x100_0000
    }
}

/// `s` can begin a frame: correct start markers, a header checksum that
/// matches the header, and no more bytes than the declared length allows.
pub open spec fn valid_prefix(s: Seq<u8>) -> bool {
    &&& s.len() >= 1 ==> s[0] == START_BYTE_0
    &&& s.len() >= 2 ==> s[1] == START_BYTE_1
    &&& s.len() >= 10 ==> s[9] == crc8_autosar(s.subrange(0, HEADER_LEN as int))
    &&& s.len() >= 9 ==> s.len() <= FRAME_OVERHEAD + s[8]
}

/// `s` is a whole frame.
pub open spec fn is_complete(s: Seq<u8>) -> bool {
    s.len() >= 9 && s.len() == FRAME_OVERHEAD + s[8]
}

/// One step of frame assembly: the partial frame `s` receives `byte`. Returns
/// the new partial frame and the frame completed by this byte, if any. A byte
/// that cannot continue a frame discards everything received.
pub open spec fn accept(s: Seq<u8>, byte: u8) -> (Seq<u8>, Option<Seq<u8>>) {
    let t = s.push(byte);
    if !valid_prefix(t) {
        (Seq::empty(), None)
    } else if is_complete(t) {
        (Seq::empty(), Some(t))
    } else {
        (t, None)
    }
}

/// Feeds `bytes` one at a time into a partial frame `s`. Returns the partial
/// frame left over and the frames completed, in order.
pub open spec fn feed(s: Seq<u8>, bytes: Seq<u8>) -> (Seq<u8>, Seq<Seq<u8>>)
    decreases bytes.len(),
{
    if bytes.len() == 0 {
        (s, Seq::empty())
    } else {
        let (p, frames) = feed(s, bytes.drop_last());
        let (q, out) = accept(p, bytes.last());
        (q, if let Some(t) = out { frames.push(t) } else { frames })
    }
}

impl DataFrame {
    /// The header bytes of this frame
    fn header_vec(&self) -> (r: Vec<u8>)
        ensures
            r@ == self.header_bytes(),
    {
        let mut v: Vec<u8> = Vec::new();
        v.push(START_BYTE_0);
        v.push(START_BYTE_1);
        v.push(self.src as u8);
        v.push((self.src >> 8u16) as u8);
        v.push(self.dst as u8);
        v.push((self.dst >> 8u16) as u8);
        v.push(self.cmd as u8);
        v.push((self.cmd >> 8u16) as u8);
        v.push(self.payload_len);
        assert(v@ =~= self.header_bytes());
        v
    }

    /// The bytes covered by the frame checksum: header, header checksum and payload
    fn body_vec(&self) -> (r: Vec<u8>)
        ensures
            r@ == self.body_bytes(),
    {
        let mut v = self.header_vec();
        v.push(self.h_crc);
        let mut i: usize = 0;
        while i < self.payload_len as usize
            invariant
                i <= self.payload_len,
                v@ =~= self.body_bytes().subrange(0, HEADER_LEN + 1 + i),
            decreases self.payload_len - i,
        {
            v.push(self.payload[i]);
            i = i + 1;
        }
        v
    }

    /// Computes the frame checksum (CRC-32/ISO-HDLC) of this frame
    pub fn crc(&self) -> (r: u32)
        ensures
            r == self.frame_checksum(),
    {
        let body = self.body_vec();
        crc32_checksum(body.as_slice())
    }

    /// Computes the header checksum (AUTOSAR CRC8) of this frame
    pub fn h_crc(&self) -> (r: u8)
        ensures
            r == self.header_checksum(),
    {
        let header = self.header_vec();
        let mut digest = CRC8Autosar::new();
        digest.update(header.as_slice());
        digest.finalize()
    }

    /// Updates both checksums to the values for the frame in this state
    pub fn update_crc(&mut self)
        ensures
            *final(self) == old(self).sealed(),
    {
        self.h_crc = self.h_crc();
        self.f_crc = self.crc();
    }

    /// Checks if the received frame checksum matches the computed one
    pub fn check_crc(&self) -> (r: bool)
        ensures
            r == (self.f_crc == self.frame_checksum()),
    {
        self.f_crc == self.crc()
    }

    /// Passes the frame on if its frame checksum is valid, else discards it
    pub fn crc_guard(self) -> (r: Option<Self>)
        ensures
            r == (if self.f_crc == self.frame_checksum() {
                Some(self)
            } else {
                None
            }),
    {
        if self.check_crc() {
            Some(self)
        } else {
            None
        }
    }

    /// Passes the frame on if it is addressed to `addr`, else discards it
    pub fn addr_guard(self, addr: u16) -> (r: Option<Self>)
        ensures
            r == (if self.dst == addr {
                Some(self)
            } else {
                None
            }),
    {
        if self.dst == addr {
            Some(self)
        } else {
            None
        }
    }

    /// Recomputes both checksums and returns the bytes to send, in wire order
    pub fn encode(self) -> (r: Vec<u8>)
        ensures
            r@ == self.sealed().wire_bytes(),
    {
        let mut frame = self;
        frame.update_crc();
        let mut v = frame.body_vec();
        v.push(frame.f_crc as u8);
        v.push((frame.f_crc >> 8u32) as u8);
        v.push((frame.f_crc >> 16u32) as u8);
        v.push((frame.f_crc >> 24u32) as u8);
        assert(v@ =~= frame.wire_bytes());
        v
    }

    /// Abandons the frame being assembled
    pub fn reset(&mut self)
        ensures
            *final(self) == (DataFrame { in_len: 0, ..*old(self) }),
    {
        self.in_len = 0;
    }

    /// Processes one received byte of the frame being assembled.
    ///
    /// Returns true when the byte completes the frame: the fields then hold
    /// the whole frame and `in_len` is zero again. A byte that cannot continue
    /// a frame (a wrong start marker, a header checksum that does not match)
    /// abandons the frame.
    #[verifier::rlimit(40)]
    pub fn handle_byte(&mut self, byte: u8) -> (r: bool)
        requires
            old(self).assembling(),
        ensures
            final(self).assembling(),
            final(self).received() == accept(old(self).received(), byte).0,
            r == accept(old(self).received(), byte).1 is Some,
            r ==> accept(old(self).received(), byte).1 == Some(final(self).wire_bytes()),
    {
        let ghost s = self.received();
        let ghost t = s.push(byte);
        let ghost old_frame = *self;
        let n = self.in_len;
        if n == 0 {
            if byte != START_BYTE_0 {
                self.reset();
                assert(self.received() =~= Seq::<u8>::empty());
                return false;
            }
        } else if n == 1 {
            if byte != START_BYTE_1 {
                self.reset();
                assert(self.received() =~= Seq::<u8>::empty());
                return false;
            }
        } else if n == 2 {
            self.src = byte as u16;
            assert((byte as u16) as u8 == byte && (byte as u16) < 0x100) by (bit_vector);
        } else if n == 3 {
            let lo = self.src;
            self.src = lo | ((byte as u16) << 8u16);
            assert(lo < 0x100 ==> (lo | ((byte as u16) << 8u16)) as u8 == lo as u8 && ((lo | (
            (byte as u16) << 8u16)) >> 8u16) as u8 == byte) by (bit_vector);
        } else if n == 4 {
            self.dst = byte as u16;
            assert((byte as u16) as u8 == byte && (byte as u16) < 0x100) by (bit_vector);
        } else if n == 5 {
            let lo = self.dst;
            self.dst = lo | ((byte as u16) << 8u16);
            assert(lo < 0x100 ==> (lo | ((byte as u16) << 8u16)) as u8 == lo as u8 && ((lo | (
            (byte as u16) << 8u16)) >> 8u16) as u8 == byte) by (bit_vector);
        } else if n == 6 {
            self.cmd = byte as u16;
            assert((byte as u16) as u8 == byte && (byte as u16) < 0x100) by (bit_vector);
        } else if n == 7 {
            let lo = self.cmd;
            self.cmd = lo | ((byte as u16) << 8u16);
            assert(lo < 0x100 ==> (lo | ((byte as u16) << 8u16)) as u8 == lo as u8 && ((lo | (
            (byte as u16) << 8u16)) >> 8u16) as u8 == byte) by (bit_vector);
        } else if n == 8 {
            self.payload_len = byte;
        } else if n == 9 {
            assert(t.subrange(0, HEADER_LEN as int) =~= self.header_bytes());
            if byte != self.h_crc() {
                self.reset();
                assert(self.received() =~= Seq::<u8>::empty());
                return false;
            }
            self.h_crc = byte;
        } else {
            let payload_last: u16 = 9 + self.payload_len as u16;
            let crc_last: u16 = payload_last + 4;
            if n <= payload_last {
                self.payload[(n - 10) as usize] = byte;
            } else {
                let k: u16 = n - 10 - self.payload_len as u16;
                let c = self.f_crc;
                let b = byte as u32;
                if k == 0 {
                    self.f_crc = b;
                    assert(b < 0x100 && b as u8 == byte) by (bit_vector)
                        requires
                            b == byte as u32,
                    ;
                } else if k == 1 {
                    self.f_crc = c | (b << 8u32);
                    assert(c < 0x100 && b < 0x100 ==> (c | (b << 8u32)) < 0x1_0000 && (c | (b
                        << 8u32)) as u8 == c as u8 && ((c | (b << 8u32)) >> 8u32) as u8 == b as u8)
                        by (bit_vector);
                    assert(b < 0x100 && b as u8 == byte) by (bit_vector)
                        requires
                            b == byte as u32,
                    ;
                } else if k == 2 {
                    self.f_crc = c | (b << 16u32);
                    assert(c < 0x1_0000 && b < 0x100 ==> (c | (b << 16u32)) < 0x100_0000 && (c | (b
                        << 16u32)) as u8 == c as u8 && ((c | (b << 16u32)) >> 8u32) as u8 == (c
                        >> 8u32) as u8 && ((c | (b << 16u32)) >> 16u32) as u8 == b as u8)
                        by (bit_vector);
                    assert(b < 0x100 && b as u8 == byte) by (bit_vector)
                        requires
                            b == byte as u32,
                    ;
                } else {
                    self.f_crc = c | (b << 24u32);
                    assert(c < 0x100_0000 && b < 0x100 ==> (c | (b << 24u32)) as u8 == c as u8 && ((c
                        | (b << 24u32)) >> 8u32) as u8 == (c >> 8u32) as u8 && ((c | (b << 24u32))
                        >> 16u32) as u8 == (c >> 16u32) as u8 && ((c | (b << 24u32)) >> 24u32) as u8
                        == b as u8) by (bit_vector);
                    assert(b < 0x100 && b as u8 == byte) by (bit_vector)
                        requires
                            b == byte as u32,
                    ;
                }
            }
            if n == crc_last {
                assert(t.subrange(0, HEADER_LEN as int) =~= s.subrange(0, HEADER_LEN as int));
                assert(t[8] == old_frame.payload_len);
                assert(valid_prefix(t) && is_complete(t));
                self.in_len = 0;
                assert(self.wire_bytes() =~= t);
                assert(self.received() =~= Seq::<u8>::empty());
                return true;
            }
        }
        self.in_len = n + 1;
        assert(self.received() =~= t);
        proof {
            if n >= 10 {
                assert(t.subrange(0, HEADER_LEN as int) =~= s.subrange(0, HEADER_LEN as int));
            }
            if n >= 8 {
                assert(t[8] == self.payload_len);
            }
            assert(valid_prefix(t));
        }
        false
    }
}

impl Default for DataFrame {
    fn default() -> (r: Self)
        ensures
            r.src == 0,
            r.dst == 0,
            r.cmd == 0,
            r.payload_len == 0,
            r.h_crc == 0,
            r.payload@ == Seq::new(256, |i: int| 0u8),
            r.f_crc == 0,
            r.in_len == 0,
    {
        let r = DataFrame {
            src: 0,
            dst: 0,
            cmd: 0,
            payload_len: 0,
            h_crc: 0,
            payload: [0u8; 256],
            f_crc: 0,
            in_len: 0,
        };
        assert(r.payload@ =~= Seq::new(256, |i: int| 0u8));
        r
    }
}

/// Represents a data link layer in any stack
pub struct DataLinkLayer {
    /// The frame that is currently being assembled
    cur_frame: DataFrame,
}

impl View for DataLinkLayer {
    type V = Seq<u8>;

    /// The bytes received so far of the frame being assembled.
    closed spec fn view(&self) -> Seq<u8> {
        self.cur_frame.received()
    }
}

impl DataLinkLayer {
    /// The frame being assembled is consistent with the bytes received.
    #[verifier::type_invariant]
    spec fn wf(&self) -> bool {
        self.cur_frame.assembling()
    }

    /// Processes a received byte. Returns the frame that this byte completes,
    /// if any; such a frame has not been checked against its frame checksum
    /// or its destination yet.
    pub fn handle_byte(&mut self, data: u8) -> (r: Option<DataFrame>)
        ensures
            final(self)@ == accept(old(self)@, data).0,
            match accept(old(self)@, data).1 {
                None => r is None,
                Some(t) => r is Some && r->0.wire_bytes() == t && r->0.in_len == 0,
            },
    {
        proof {
            use_type_invariant(&*self);
        }
        let mut frame = self.cur_frame;
        if frame.handle_byte(data) {
            self.reset();
            Some(frame)
        } else {
            self.cur_frame = frame;
            None
        }
    }

    /// Resets the frame that is being assembled to an empty one
    pub fn reset(&mut self)
        ensures
            final(self)@ == Seq::<u8>::empty(),
    {
        self.cur_frame = DataFrame::default();
        assert(self@ =~= Seq::<u8>::empty());
    }
}

impl Default for DataLinkLayer {
    fn default() -> (r: Self)
        ensures
            r@ == Seq::<u8>::empty(),
    {
        let r = DataLinkLayer { cur_frame: DataFrame::default() };
        assert(r@ =~= Seq::<u8>::empty());
        r
    }
}

proof fn lemma_sealed_prefixes(g: DataFrame, k: int)
    requires
        g.h_crc == g.header_checksum(),
        0 <= k <= g.wire_len(),
    ensures
        valid_prefix(g.wire_bytes().take(k)),
        is_complete(g.wire_bytes().take(k)) <==> k == g.wire_len(),
{
    let p = g.wire_bytes().take(k);
    if k >= 10 {
        assert(p.subrange(0, HEADER_LEN as int) =~= g.header_bytes());
    }
}

proof fn lemma_feed_sealed(g: DataFrame, k: int)
    requires
        g.h_crc == g.header_checksum(),
        0 <= k <= g.wire_len(),
    ensures
        k < g.wire_len() ==> feed(Seq::empty(), g.wire_bytes().take(k)) == (
        g.wire_bytes().take(k),
        Seq::<Seq<u8>>::empty(),
        ),
        k == g.wire_len() ==> feed(Seq::empty(), g.wire_bytes().take(k)) == (
        Seq::<u8>::empty(),
        seq![g.wire_bytes()],
        ),
    decreases k,
{
    let w = g.wire_bytes();
    if k == 0 {
        assert(w.take(0) =~= Seq::<u8>::empty());
    } else {
        lemma_feed_sealed(g, k - 1);
        lemma_sealed_prefixes(g, k);
        assert(w.take(k).drop_last() =~= w.take(k - 1));
        assert(w.take(k - 1).push(w[k - 1]) =~= w.take(k));
        if k == g.wire_len() {
            assert(w.take(k) =~= w);
            assert(Seq::<Seq<u8>>::empty().push(w) =~= seq![w]);
        }
    }
}

/// Round trip, stream side: the bytes that `encode` emits for any frame, fed
/// one at a time into an idle assembler, complete exactly one frame, made of
/// exactly those bytes, and leave the assembler idle.
pub proof fn lemma_round_trip(f: DataFrame)
    ensures
        feed(Seq::empty(), f.sealed().wire_bytes()) == (
        Seq::<u8>::empty(),
        seq![f.sealed().wire_bytes()],
        ),
{
    let g = f.sealed();
    assert(g.header_bytes() =~= f.header_bytes());
    lemma_feed_sealed(g, g.wire_len() as int);
    assert(g.wire_bytes().take(g.wire_len() as int) =~= g.wire_bytes());
}

/// Round trip, frame side: two frames with the same bytes on the wire have the
/// same addresses, command, payload length, payload and checksums.
pub proof fn lemma_wire_bytes_determine_frame(f: DataFrame, g: DataFrame)
    requires
        f.wire_bytes() == g.wire_bytes(),
    ensures
        f.src == g.src,
        f.dst == g.dst,
        f.cmd == g.cmd,
        f.payload_len == g.payload_len,
        f.payload_bytes() == g.payload_bytes(),
        f.h_crc == g.h_crc,
        f.f_crc == g.f_crc,
{
    let w = f.wire_bytes();
    assert(w[2] == g.wire_byte(2) && w[3] == g.wire_byte(3));
    assert(w[4] == g.wire_byte(4) && w[5] == g.wire_byte(5));
    assert(w[6] == g.wire_byte(6) && w[7] == g.wire_byte(7));
    assert(w[8] == g.wire_byte(8) && w[9] == g.wire_byte(9));
    let (a, b) = (f.src, g.src);
    assert(a as u8 == b as u8 && (a >> 8u16) as u8 == (b >> 8u16) as u8 ==> a == b) by (bit_vector);
    let (a, b) = (f.dst, g.dst);
    assert(a as u8 == b as u8 && (a >> 8u16) as u8 == (b >> 8u16) as u8 ==> a == b) by (bit_vector);
    let (a, b) = (f.cmd, g.cmd);
    assert(a as u8 == b as u8 && (a >> 8u16) as u8 == (b >> 8u16) as u8 ==> a == b) by (bit_vector);
    let n = 10 + f.payload_len;
    assert forall|i: int| 0 <= i < f.payload_len implies f.payload@[i] == g.payload@[i] by {
        assert(w[10 + i] == g.wire_byte(10 + i));
    }
    assert(f.payload_bytes() =~= g.payload_bytes());
    assert(w[n] == g.wire_byte(n) && w[n + 1] == g.wire_byte(n + 1));
    assert(w[n + 2] == g.wire_byte(n + 2) && w[n + 3] == g.wire_byte(n + 3));
    let (c, d) = (f.f_crc, g.f_crc);
    assert(c as u8 == d as u8 && (c >> 8u32) as u8 == (d >> 8u32) as u8 && (c >> 16u32) as u8 == (d
        >> 16u32) as u8 && (c >> 24u32) as u8 == (d >> 24u32) as u8 ==> c == d) by (bit_vector);
}

/// A change to any one byte of a sealed frame's header or header checksum is
/// caught by the header checksum: the first ten bytes stop being a valid frame
/// prefix, so the assembler drops the frame before reading its payload.
pub proof fn lemma_header_corruption_detected(f: DataFrame, i: int, b: u8)
    requires
        0 <= i < 10,
        b != f.sealed().wire_bytes()[i],
    ensures
        !valid_prefix(f.sealed().wire_bytes().update(i, b).take(10)),
{
    let g = f.sealed();
    let w = g.wire_bytes();
    let c = w.update(i, b).take(10);
    assert(g.header_bytes() =~= f.header_bytes());
    let h1 = w.subrange(0, HEADER_LEN as int);
    let h2 = c.subrange(0, HEADER_LEN as int);
    assert(h1 =~= g.header_bytes());
    assert(w[9] == crc8_autosar(h1));
    assert(c[i] == b);
    if i < 2 {
        assert(w[i] == g.wire_byte(i));
    } else if i < 9 {
        lemma_single_byte_change_detected(h1, h2, i);
        assert(c[9] == w[9]);
    } else {
        assert(h2 =~= h1);
    }
}

} // verus!
