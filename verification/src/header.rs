//! The fixed 24-byte header shared by queries and responses: six 32-bit
//! words in network (big-endian) byte order.

use vstd::prelude::*;
use crate::token::token_count;
use crate::token::tokens_announced;

verus! {

/// Number of bytes in a message header.
pub const HSIZE: usize = 24;

/// The four bytes of a word, most significant first.
pub open spec fn word_bytes(v: u32) -> Seq<u8> {
    seq![
        (v / 0x100_0000) as u8,
        (v / 0x1_0000 % 0x100) as u8,
        (v / 0x100 % 0x100) as u8,
        (v % 0x100) as u8,
    ]
}

/// The word whose big-endian bytes are `b0 b1 b2 b3`.
pub open spec fn word_value(b0: u8, b1: u8, b2: u8, b3: u8) -> u32 {
    (b0 * 0x100_0000 + b1 * 0x1_0000 + b2 * 0x100 + b3) as u32
}

/// The word stored in `bytes` at `at`.
pub open spec fn word_at(bytes: Seq<u8>, at: int) -> u32 {
    word_value(bytes[at], bytes[at + 1], bytes[at + 2], bytes[at + 3])
}

/// A 32-bit word read as a two's complement signed number.
pub open spec fn signed_of(u: u32) -> i32 {
    if u < 0x8000_0000 {
        u as i32
    } else {
        (u - 0x1_0000_0000) as i32
    }
}

/// The 32-bit word that holds a signed number in two's complement.
pub open spec fn unsigned_of(i: i32) -> u32 {
    if i >= 0 {
        i as u32
    } else {
        (i + 0x1_0000_0000) as u32
    }
}

/// A signed number is read back from its word as it was.
pub proof fn lemma_signed_round_trip(i: i32)
    ensures
        signed_of(unsigned_of(i)) == i,
{
}

/// Reads a word as a signed number without changing its bits.
pub fn to_signed(u: u32) -> (i: i32)
    ensures
        i == signed_of(u),
        unsigned_of(i) == u,
{
    if u < 0x8000_0000 {
        u as i32
    } else {
        let low: u32 = u - 0x8000_0000;
        (low as i32) + i32::MIN
    }
}

/// Reads a signed number as a word without changing its bits.
pub fn to_unsigned(i: i32) -> (u: u32)
    ensures
        u == unsigned_of(i),
        signed_of(u) == i,
{
    if i >= 0 {
        i as u32
    } else {
        let low: i32 = i - i32::MIN;
        (low as u32) + 0x8000_0000
    }
}

/// The number of content bytes that follow a header on the wire.
pub open spec fn content_length(h: Header) -> nat {
    if signed_of(h.payload) > 0 {
        signed_of(h.payload) as nat
    } else {
        0
    }
}

/// The number of token bytes that follow the content of a query.
pub open spec fn token_length(h: Header) -> nat {
    (token_count(h.version) * 16) as nat
}

/// The six words of a message header, in wire order.
///
/// The third word is the operation of a query and the return code of a
/// response; the second is a signed payload length. Both are kept here as
/// raw words.
#[derive(Clone, Copy, Debug, PartialEq, Eq, Structural)]
pub struct Header {
    pub version: u32,
    pub payload: u32,
    pub kind: u32,
    pub flags: u32,
    pub size: u32,
    pub offset: u32,
}

/// The 24 bytes that carry a header on the wire.
pub open spec fn header_bytes(h: Header) -> Seq<u8> {
    word_bytes(h.version) + word_bytes(h.payload) + word_bytes(h.kind) + word_bytes(h.flags)
        + word_bytes(h.size) + word_bytes(h.offset)
}

/// The header carried by the first 24 bytes of `bytes`.
pub open spec fn header_of(bytes: Seq<u8>) -> Header {
    Header {
        version: word_at(bytes, 0),
        payload: word_at(bytes, 4),
        kind: word_at(bytes, 8),
        flags: word_at(bytes, 12),
        size: word_at(bytes, 16),
        offset: word_at(bytes, 20),
    }
}

/// Splitting a word into bytes and putting them together again gives the
/// word back.
pub proof fn lemma_word_round_trip(v: u32)
    ensures
        word_bytes(v).len() == 4,
        word_at(word_bytes(v), 0) == v,
{
    let b = word_bytes(v);
    assert(v == (v / 0x100_0000) * 0x100_0000 + (v / 0x1_0000 % 0x100) * 0x1_0000 + (v / 0x100
        % 0x100) * 0x100 + v % 0x100);
    assert(v / 0x100_0000 < 0x100);
}

/// Putting four bytes together and splitting the word again gives the bytes
/// back.
pub proof fn lemma_bytes_round_trip(b0: u8, b1: u8, b2: u8, b3: u8)
    ensures
        word_bytes(word_value(b0, b1, b2, b3)) == seq![b0, b1, b2, b3],
{
    let v = word_value(b0, b1, b2, b3);
    let (w0, w1, w2, w3) = (b0 as u32, b1 as u32, b2 as u32, b3 as u32);
    let w: u32 = (w0 * 0x100_0000 + w1 * 0x1_0000 + w2 * 0x100 + w3) as u32;
    assert(v == w);
    assert(w0 < 0x100 && w1 < 0x100 && w2 < 0x100 && w3 < 0x100 && w == w0 * 0x100_0000 + w1
        * 0x1_0000 + w2 * 0x100 + w3 ==> w / 0x100_0000 == w0 && w / 0x1_0000 % 0x100 == w1 && w
        / 0x100 % 0x100 == w2 && w % 0x100 == w3) by (bit_vector);
    assert(word_bytes(v) =~= seq![b0, b1, b2, b3]);
}

/// Appends the big-endian bytes of `v` to `out`.
pub fn push_word(out: &mut Vec<u8>, v: u32)
    ensures
        final(out)@ == old(out)@ + word_bytes(v),
{
    let b0: u8 = (v >> 24) as u8;
    let b1: u8 = ((v >> 16) & 0xff) as u8;
    let b2: u8 = ((v >> 8) & 0xff) as u8;
    let b3: u8 = (v & 0xff) as u8;
    assert(v >> 24 == v / 0x100_0000 && (v >> 24) < 0x100) by (bit_vector);
    assert((v >> 16) & 0xff == v / 0x1_0000 % 0x100) by (bit_vector);
    assert((v >> 8) & 0xff == v / 0x100 % 0x100) by (bit_vector);
    assert(v & 0xff == v % 0x100) by (bit_vector);
    out.push(b0);
    out.push(b1);
    out.push(b2);
    out.push(b3);
    assert(out@ =~= old(out)@ + word_bytes(v));
}

/// Appends `more` to `out`.
pub fn push_bytes(out: &mut Vec<u8>, more: &[u8])
    ensures
        final(out)@ == old(out)@ + more@,
{
    out.extend_from_slice(more);
    assert(out@ =~= old(out)@ + more@);
}

/// Reads the big-endian word stored in `bytes` at `at`.
pub fn read_word(bytes: &[u8], at: usize) -> (v: u32)
    requires
        at + 4 <= bytes@.len(),
    ensures
        v == word_at(bytes@, at as int),
{
    let b0: u32 = bytes[at] as u32;
    let b1: u32 = bytes[at + 1] as u32;
    let b2: u32 = bytes[at + 2] as u32;
    let b3: u32 = bytes[at + 3] as u32;
    assert(b0 < 0x100 && b1 < 0x100 && b2 < 0x100 && b3 < 0x100 ==> (b0 << 24) | (b1 << 16) | (b2
        << 8) | b3 == b0 * 0x100_0000 + b1 * 0x1_0000 + b2 * 0x100 + b3) by (bit_vector);
    (b0 << 24) | (b1 << 16) | (b2 << 8) | b3
}

impl Header {
    /// The payload length as the signed number it is on the wire.
    pub fn payload_length(&self) -> (n: i32)
        ensures
            n == signed_of(self.payload),
    {
        to_signed(self.payload)
    }

    /// The third word read as a response's return code.
    pub fn return_code(&self) -> (n: i32)
        ensures
            n == signed_of(self.kind),
    {
        to_signed(self.kind)
    }

    /// Encodes the header as 24 bytes in network order. Decoding them gives
    /// the header back.
    pub fn encode(&self) -> (bytes: Vec<u8>)
        ensures
            bytes@ == header_bytes(*self),
            bytes@.len() == HSIZE,
            header_of(bytes@) == *self,
    {
        proof {
            lemma_header_round_trip(*self);
        }
        let mut out: Vec<u8> = Vec::with_capacity(HSIZE);
        push_word(&mut out, self.version);
        push_word(&mut out, self.payload);
        push_word(&mut out, self.kind);
        push_word(&mut out, self.flags);
        push_word(&mut out, self.size);
        push_word(&mut out, self.offset);
        assert(out@ =~= header_bytes(*self));
        out
    }

    /// Decodes a header from its 24 bytes. Every 24 bytes are a header:
    /// nothing is checked here. Encoding the header gives the bytes back.
    pub fn decode(bytes: &[u8; 24]) -> (h: Header)
        ensures
            h == header_of(bytes@),
            header_bytes(h) == bytes@,
    {
        proof {
            lemma_header_bytes_round_trip(bytes@);
        }
        let bytes = bytes.as_slice();
        Header {
            version: read_word(bytes, 0),
            payload: read_word(bytes, 4),
            kind: read_word(bytes, 8),
            flags: read_word(bytes, 12),
            size: read_word(bytes, 16),
            offset: read_word(bytes, 20),
        }
    }

    /// Decodes the header that starts `bytes`; `None` if there are fewer
    /// than 24 bytes.
    pub fn read(bytes: &[u8]) -> (r: Option<Header>)
        ensures
            r == if bytes@.len() >= HSIZE {
                Some(header_of(bytes@))
            } else {
                None
            },
            r is Some ==> header_bytes(r.unwrap()) == bytes@.subrange(0, 24),
    {
        proof {
            if bytes@.len() >= HSIZE {
                let head = bytes@.subrange(0, 24);
                lemma_header_prefix(bytes@, head);
                lemma_header_bytes_round_trip(head);
            }
        }
        if bytes.len() < HSIZE {
            None
        } else {
            Some(
                Header {
                    version: read_word(bytes, 0),
                    payload: read_word(bytes, 4),
                    kind: read_word(bytes, 8),
                    flags: read_word(bytes, 12),
                    size: read_word(bytes, 16),
                    offset: read_word(bytes, 20),
                },
            )
        }
    }

    /// The number of content bytes that follow this header on the wire:
    /// the payload where it is positive.
    pub fn content_len(&self) -> (n: usize)
        ensures
            n == content_length(*self),
            n <= i32::MAX,
    {
        let payload = to_signed(self.payload);
        if payload > 0 {
            payload as usize
        } else {
            0
        }
    }

    /// The number of token bytes that follow the content of a query with
    /// this header: sixteen for each token that the version announces.
    pub fn token_len(&self) -> (n: usize)
        ensures
            n == token_length(*self),
            n <= 0xFFFF * 16,
    {
        let count: u32 = tokens_announced(self.version);
        (count as usize) * 16
    }
}

/// Header round trip: decoding the encoding of a header gives the header
/// back, whatever its six words are.
pub proof fn lemma_header_round_trip(h: Header)
    ensures
        header_bytes(h).len() == HSIZE,
        header_of(header_bytes(h)) == h,
{
    lemma_word_round_trip(h.version);
    lemma_word_round_trip(h.payload);
    lemma_word_round_trip(h.kind);
    lemma_word_round_trip(h.flags);
    lemma_word_round_trip(h.size);
    lemma_word_round_trip(h.offset);
    let b = header_bytes(h);
    assert(b.subrange(0, 4) =~= word_bytes(h.version));
    assert(b.subrange(4, 8) =~= word_bytes(h.payload));
    assert(b.subrange(8, 12) =~= word_bytes(h.kind));
    assert(b.subrange(12, 16) =~= word_bytes(h.flags));
    assert(b.subrange(16, 20) =~= word_bytes(h.size));
    assert(b.subrange(20, 24) =~= word_bytes(h.offset));
    assert(word_at(b, 0) == word_at(b.subrange(0, 4), 0));
    assert(word_at(b, 4) == word_at(b.subrange(4, 8), 0));
    assert(word_at(b, 8) == word_at(b.subrange(8, 12), 0));
    assert(word_at(b, 12) == word_at(b.subrange(12, 16), 0));
    assert(word_at(b, 16) == word_at(b.subrange(16, 20), 0));
    assert(word_at(b, 20) == word_at(b.subrange(20, 24), 0));
}

/// Encoding the header decoded from 24 bytes gives the 24 bytes back.
pub proof fn lemma_header_bytes_round_trip(bytes: Seq<u8>)
    requires
        bytes.len() == HSIZE,
    ensures
        header_bytes(header_of(bytes)) == bytes,
{
    lemma_bytes_round_trip(bytes[0], bytes[1], bytes[2], bytes[3]);
    lemma_bytes_round_trip(bytes[4], bytes[5], bytes[6], bytes[7]);
    lemma_bytes_round_trip(bytes[8], bytes[9], bytes[10], bytes[11]);
    lemma_bytes_round_trip(bytes[12], bytes[13], bytes[14], bytes[15]);
    lemma_bytes_round_trip(bytes[16], bytes[17], bytes[18], bytes[19]);
    lemma_bytes_round_trip(bytes[20], bytes[21], bytes[22], bytes[23]);
    assert(header_bytes(header_of(bytes)) =~= bytes);
}

/// The header read from a run of bytes depends on its first 24 bytes only.
pub proof fn lemma_header_prefix(bytes: Seq<u8>, head: Seq<u8>)
    requires
        head.len() == HSIZE,
        bytes.len() >= HSIZE,
        bytes.subrange(0, 24) == head,
    ensures
        header_of(bytes) == header_of(head),
{
    assert forall|i: int| 0 <= i < 24 implies bytes[i] == head[i] by {
        assert(bytes.subrange(0, 24)[i] == bytes[i]);
    }
}

} // verus!
