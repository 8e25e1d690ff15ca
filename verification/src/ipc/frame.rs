use vstd::prelude::*;

verus! {

/// The opcode of the handshake that opens a connection.
pub const OP_HANDSHAKE: u32 = 0;

/// The opcode of a command frame.
pub const OP_FRAME: u32 = 1;

/// The eight bytes in front of every IPC message: the opcode and the
/// length of the JSON payload, both little-endian.
#[derive(Clone, Copy, Debug, Default, PartialEq, Eq, Structural)]
pub struct Header {
    pub opcode: u32,
    pub len: u32,
}

/// Why a frame cannot be built.
#[derive(Clone, Copy, Debug, PartialEq, Eq, Structural)]
pub enum FrameError {
    /// The payload is longer than a `u32` can count.
    TooLong,
}

/// The four bytes of `x`, least significant first.
pub open spec fn le_bytes(x: u32) -> Seq<u8> {
    seq![
        (x & 0xff) as u8,
        ((x >> 8u32) & 0xff) as u8,
        ((x >> 16u32) & 0xff) as u8,
        ((x >> 24u32) & 0xff) as u8,
    ]
}

/// The number whose little-endian bytes are `b0 b1 b2 b3`.
pub open spec fn le_value(b0: u8, b1: u8, b2: u8, b3: u8) -> u32 {
    (b0 as u32) | ((b1 as u32) << 8u32) | ((b2 as u32) << 16u32) | ((b3 as u32) << 24u32)
}

/// The header bytes.
pub open spec fn header_bytes(h: Header) -> Seq<u8> {
    le_bytes(h.opcode) + le_bytes(h.len)
}

/// A whole frame: header, then payload.
pub open spec fn frame_bytes(opcode: u32, payload: Seq<u8>) -> Seq<u8> {
    header_bytes(Header { opcode, len: payload.len() as u32 }) + payload
}

/// The header that eight bytes hold.
pub open spec fn header_of(b: Seq<u8>) -> Header {
    Header { opcode: le_value(b[0], b[1], b[2], b[3]), len: le_value(b[4], b[5], b[6], b[7]) }
}

/// A number read back from its bytes is the number.
pub proof fn lemma_le_roundtrip(x: u32)
    ensures
        le_value(le_bytes(x)[0], le_bytes(x)[1], le_bytes(x)[2], le_bytes(x)[3]) == x,
{
    assert(((x & 0xff) as u8 as u32) | ((((x >> 8u32) & 0xff) as u8 as u32) << 8u32) | ((((x
        >> 16u32) & 0xff) as u8 as u32) << 16u32) | ((((x >> 24u32) & 0xff) as u8 as u32)
        << 24u32) == x) by (bit_vector);
}

/// Bytes written back from the number they hold are the bytes.
proof fn lemma_bytes_roundtrip(b0: u8, b1: u8, b2: u8, b3: u8)
    ensures
        le_bytes(le_value(b0, b1, b2, b3)) == seq![b0, b1, b2, b3],
{
    let x = le_value(b0, b1, b2, b3);
    assert((((b0 as u32) | ((b1 as u32) << 8u32) | ((b2 as u32) << 16u32) | ((b3 as u32)
        << 24u32)) & 0xff) as u8 == b0) by (bit_vector);
    assert(((((b0 as u32) | ((b1 as u32) << 8u32) | ((b2 as u32) << 16u32) | ((b3 as u32)
        << 24u32)) >> 8u32) & 0xff) as u8 == b1) by (bit_vector);
    assert(((((b0 as u32) | ((b1 as u32) << 8u32) | ((b2 as u32) << 16u32) | ((b3 as u32)
        << 24u32)) >> 16u32) & 0xff) as u8 == b2) by (bit_vector);
    assert(((((b0 as u32) | ((b1 as u32) << 8u32) | ((b2 as u32) << 16u32) | ((b3 as u32)
        << 24u32)) >> 24u32) & 0xff) as u8 == b3) by (bit_vector);
    assert(le_bytes(x) =~= seq![b0, b1, b2, b3]);
}

fn push_le(out: &mut Vec<u8>, x: u32)
    ensures
        final(out)@ == old(out)@ + le_bytes(x),
{
    out.push((x & 0xff) as u8);
    out.push(((x >> 8) & 0xff) as u8);
    out.push(((x >> 16) & 0xff) as u8);
    out.push(((x >> 24) & 0xff) as u8);
    assert(final(out)@ =~= old(out)@ + le_bytes(x));
}

impl Header {
    /// The eight bytes of the header.
    pub fn to_bytes(&self) -> (r: Vec<u8>)
        ensures
            r@ == header_bytes(*self),
    {
        let mut r: Vec<u8> = Vec::new();
        push_le(&mut r, self.opcode);
        push_le(&mut r, self.len);
        assert(r@ =~= header_bytes(*self));
        r
    }

    /// The header that eight bytes hold; nothing for any other length.
    pub fn from_bytes(b: &[u8]) -> (r: Option<Header>)
        ensures
            b@.len() == 8 ==> r == Some(header_of(b@)),
            b@.len() != 8 ==> r is None,
    {
        if b.len() != 8 {
            return None;
        }
        let opcode = (b[0] as u32) | ((b[1] as u32) << 8) | ((b[2] as u32) << 16) | ((b[3] as u32)
            << 24);
        let len = (b[4] as u32) | ((b[5] as u32) << 8) | ((b[6] as u32) << 16) | ((b[7] as u32)
            << 24);
        Some(Header { opcode, len })
    }
}

/// The frame that carries `payload` under `opcode`; an error where the
/// payload's length does not fit in a `u32`.
pub fn encode_frame(opcode: u32, payload: &[u8]) -> (r: Result<Vec<u8>, FrameError>)
    ensures
        payload@.len() > u32::MAX ==> r == Err::<Vec<u8>, FrameError>(FrameError::TooLong),
        payload@.len() <= u32::MAX ==> (r matches Ok(bytes) && bytes@ == frame_bytes(
            opcode,
            payload@,
        )),
{
    if payload.len() > 0xffff_ffff {
        return Err(FrameError::TooLong);
    }
    let header = Header { opcode, len: payload.len() as u32 };
    let mut bytes = header.to_bytes();
    let mut k: usize = 0;
    while k < payload.len()
        invariant
            k <= payload@.len(),
            bytes@ == header_bytes(header) + payload@.take(k as int),
        decreases payload.len() - k,
    {
        bytes.push(payload[k]);
        assert(header_bytes(header) + payload@.take(k + 1) =~= (header_bytes(header)
            + payload@.take(k as int)).push(payload@[k as int]));
        k = k + 1;
    }
    assert(payload@.take(payload@.len() as int) =~= payload@);
    Ok(bytes)
}

/// The opcode and payload of the frame at the start of `bytes`; nothing
/// where the bytes are shorter than the header says.
pub fn decode_frame(bytes: &[u8]) -> (r: Option<(u32, Vec<u8>)>)
    ensures
        bytes@.len() < 8 ==> r is None,
        bytes@.len() >= 8 ==> ({
            let h = header_of(bytes@);
            if 8 + h.len <= bytes@.len() {
                r matches Some(p) && p.0 == h.opcode && p.1@ == bytes@.subrange(8, 8 + h.len)
            } else {
                r is None
            }
        }),
{
    if bytes.len() < 8 {
        return None;
    }
    let head = vstd::slice::slice_subrange(bytes, 0, 8);
    assert(head@ =~= bytes@.subrange(0, 8));
    let h = match Header::from_bytes(head) {
        Some(h) => h,
        None => return None,
    };
    assert(header_of(head@) == header_of(bytes@));
    let len = h.len as usize;
    if len > bytes.len() - 8 {
        return None;
    }
    let mut payload: Vec<u8> = Vec::new();
    let mut k: usize = 0;
    while k < len
        invariant
            8 + len <= bytes@.len(),
            k <= len,
            payload@ == bytes@.subrange(8, 8 + k),
        decreases len - k,
    {
        assert(8 + k < bytes.len());
        payload.push(bytes[8 + k]);
        assert(payload@ =~= bytes@.subrange(8, 8 + k + 1));
        k = k + 1;
    }
    Some((h.opcode, payload))
}

/// Reading back a frame gives the opcode and payload it was built from:
/// `decode_frame` of what `encode_frame` built returns them.
pub proof fn law_frame_roundtrip(opcode: u32, payload: Seq<u8>)
    requires
        payload.len() <= u32::MAX,
    ensures
        ({
            let f = frame_bytes(opcode, payload);
            &&& f.len() >= 8
            &&& header_of(f) == (Header { opcode, len: payload.len() as u32 })
            &&& f.subrange(8, 8 + payload.len() as int) == payload
        }),
{
    let f = frame_bytes(opcode, payload);
    let len = payload.len() as u32;
    lemma_le_roundtrip(opcode);
    lemma_le_roundtrip(len);
    assert(f[0] == le_bytes(opcode)[0] && f[1] == le_bytes(opcode)[1] && f[2] == le_bytes(
        opcode,
    )[2] && f[3] == le_bytes(opcode)[3]);
    assert(f[4] == le_bytes(len)[0] && f[5] == le_bytes(len)[1] && f[6] == le_bytes(len)[2]
        && f[7] == le_bytes(len)[3]);
    assert(f.subrange(8, 8 + payload.len() as int) =~= payload);
}


/// A header read back from its bytes is the header.
pub proof fn law_header_roundtrip(h: Header)
    ensures
        header_of(header_bytes(h)) == h,
{
    lemma_le_roundtrip(h.opcode);
    lemma_le_roundtrip(h.len);
    let b = header_bytes(h);
    assert(b[0] == le_bytes(h.opcode)[0] && b[1] == le_bytes(h.opcode)[1] && b[2] == le_bytes(
        h.opcode,
    )[2] && b[3] == le_bytes(h.opcode)[3]);
    assert(b[4] == le_bytes(h.len)[0] && b[5] == le_bytes(h.len)[1] && b[6] == le_bytes(h.len)[2]
        && b[7] == le_bytes(h.len)[3]);
}

/// Eight bytes read as a header and written back are the same bytes.
pub proof fn law_header_bytes_roundtrip(b: Seq<u8>)
    requires
        b.len() == 8,
    ensures
        header_bytes(header_of(b)) == b,
{
    lemma_bytes_roundtrip(b[0], b[1], b[2], b[3]);
    lemma_bytes_roundtrip(b[4], b[5], b[6], b[7]);
    assert(header_bytes(header_of(b)) =~= b);
}

} // verus!
