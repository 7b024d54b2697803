//! Responses: the messages with which a server answers a query.

use vstd::prelude::*;
use vstd::slice::slice_subrange;
use vstd::slice::slice_to_vec;
use crate::error::OwError;
use crate::header::content_length;
use crate::header::header_bytes;
use crate::header::header_of;
use crate::header::push_bytes;
use crate::header::signed_of;
use crate::header::to_signed;
use crate::header::to_unsigned;
use crate::header::unsigned_of;
use crate::header::Header;
use crate::header::HSIZE;
use crate::query::advanced;
use crate::query::Got;

verus! {

/// A response as the values it holds.
pub struct ResponseView {
    pub version: u32,
    pub payload: i32,
    pub ret: i32,
    pub flags: u32,
    pub size: u32,
    pub offset: u32,
    pub content: Seq<u8>,
}

/// An answer of a server: a header and the content. A negative payload marks
/// a keep-alive, which carries nothing; the return code means something only
/// where the payload is not negative.
#[derive(Debug, Clone, PartialEq, Eq)]
pub struct OwResponse {
    /// Protocol version.
    pub version: u32,
    /// Length of the content in bytes; negative for a keep-alive.
    pub payload: i32,
    /// Zero or a length for success, negative for an error of the server.
    pub ret: i32,
    /// The flags of the query, as the server saw them.
    pub flags: u32,
    /// Length of the value that was read or written.
    pub size: u32,
    /// Where in the property the value starts.
    pub offset: u32,
    /// The value read, or a directory listing.
    pub content: Vec<u8>,
}

/// The response under the name that the receiving side of a client knows
/// it by.
pub type OwMessageReceive = OwResponse;

impl View for OwResponse {
    type V = ResponseView;

    open spec fn view(&self) -> ResponseView {
        ResponseView {
            version: self.version,
            payload: self.payload,
            ret: self.ret,
            flags: self.flags,
            size: self.size,
            offset: self.offset,
            content: self.content@,
        }
    }
}

/// The header of a response.
pub open spec fn response_header(r: ResponseView) -> Header {
    Header {
        version: r.version,
        payload: unsigned_of(r.payload),
        kind: unsigned_of(r.ret),
        flags: r.flags,
        size: r.size,
        offset: r.offset,
    }
}

/// The bytes of a response on the wire: the header, then the content where
/// the payload is positive.
pub open spec fn response_bytes(r: ResponseView) -> Seq<u8> {
    header_bytes(response_header(r)) + (if r.payload > 0 {
        r.content
    } else {
        Seq::empty()
    })
}

/// A response whose parts agree: the content has as many bytes as a positive
/// payload says, and none otherwise, so a keep-alive is empty.
pub open spec fn response_wf(r: ResponseView) -> bool {
    r.content.len() == if r.payload > 0 {
        r.payload as int
    } else {
        0
    }
}

/// The response made of a header and of the content bytes that followed it.
pub open spec fn frame_response(h: Header, content: Seq<u8>) -> ResponseView {
    ResponseView {
        version: h.version,
        payload: signed_of(h.payload),
        ret: signed_of(h.kind),
        flags: h.flags,
        size: h.size,
        offset: h.offset,
        content,
    }
}

/// The response that starts `bytes`, with the number of bytes it takes;
/// `None` if `bytes` ends before the response does.
pub open spec fn parse_response(bytes: Seq<u8>) -> Option<(ResponseView, int)> {
    if bytes.len() < HSIZE {
        None
    } else {
        let h = header_of(bytes);
        let end = HSIZE + content_length(h);
        if bytes.len() < end {
            None
        } else {
            Some((frame_response(h, bytes.subrange(HSIZE as int, end)), end))
        }
    }
}

/// The number of bytes still to be read before `bytes` holds a whole
/// response: what is missing of the header, or else of the content that the
/// header announces.
pub open spec fn response_missing(bytes: Seq<u8>) -> nat {
    if bytes.len() < HSIZE {
        (HSIZE - bytes.len()) as nat
    } else {
        let end = HSIZE + content_length(header_of(bytes));
        if bytes.len() < end {
            (end - bytes.len()) as nat
        } else {
            0
        }
    }
}

/// The response that starts `bytes`, keep-alives included.
pub open spec fn answered(bytes: Seq<u8>) -> Got<ResponseView> {
    match parse_response(bytes) {
        None => Got::Short,
        Some((r, n)) => Got::Frame(r, n),
    }
}

/// The first response in `bytes` that is no keep-alive.
pub open spec fn answered_past_pings(bytes: Seq<u8>) -> Got<ResponseView>
    decreases bytes.len(),
{
    match parse_response(bytes) {
        None => Got::Short,
        Some((r, n)) => if r.payload >= 0 {
            Got::Frame(r, n)
        } else if 0 < n <= bytes.len() {
            advanced(answered_past_pings(bytes.skip(n)), n)
        } else {
            Got::Short
        },
    }
}

impl OwResponse {
    /// An empty successful response with the given flags.
    pub fn new(flags: u32) -> (r: OwResponse)
        ensures
            r@ == (ResponseView {
                version: 1,
                payload: 0,
                ret: 0,
                flags,
                size: 0,
                offset: 0,
                content: Seq::empty(),
            }),
            response_wf(r@),
    {
        let r = OwResponse {
            version: 1,
            payload: 0,
            ret: 0,
            flags,
            size: 0,
            offset: 0,
            content: Vec::new(),
        };
        assert(r@.content =~= Seq::<u8>::empty());
        r
    }

    /// Puts a response together from its header and from the content bytes
    /// that followed it on the wire.
    ///
    /// Fails with `General` if the content has another length than the
    /// header announces: the frame is malformed.
    pub fn assemble(h: &Header, content: Vec<u8>) -> (r: Result<OwResponse, OwError>)
        ensures
            r is Ok <==> content@.len() == content_length(*h),
            r is Ok ==> r.unwrap()@ == frame_response(*h, content@) && response_wf(r.unwrap()@),
            r is Err ==> r.unwrap_err() is General,
    {
        if content.len() != h.content_len() {
            return Err(OwError::General("Malformed frame".to_owned()));
        }
        Ok(
            OwResponse {
                version: h.version,
                payload: to_signed(h.payload),
                ret: to_signed(h.kind),
                flags: h.flags,
                size: h.size,
                offset: h.offset,
                content,
            },
        )
    }

    /// Reads the response that starts `bytes`, and says how many bytes it
    /// took; `None` if `bytes` ends before the response does.
    pub fn parse(bytes: &[u8]) -> (r: Option<(OwResponse, usize)>)
        ensures
            match parse_response(bytes@) {
                Some((v, n)) => r is Some && r.unwrap().0@ == v && r.unwrap().1 == n
                    && response_wf(v),
                None => r is None,
            },
    {
        let h = match Header::read(bytes) {
            Some(h) => h,
            None => {
                return None;
            },
        };
        let content_len = h.content_len();
        if bytes.len() - HSIZE < content_len {
            return None;
        }
        let end = HSIZE + content_len;
        let content = slice_to_vec(slice_subrange(bytes, HSIZE, end));
        match OwResponse::assemble(&h, content) {
            Ok(r) => Some((r, end)),
            Err(_) => None,
        }
    }

    /// The number of bytes still to be read before `bytes` holds a whole
    /// response; zero when `parse` will find one.
    pub fn missing(bytes: &[u8]) -> (n: usize)
        ensures
            n == response_missing(bytes@),
            n == 0 <==> parse_response(bytes@) is Some,
    {
        match Header::read(bytes) {
            None => HSIZE - bytes.len(),
            Some(h) => {
                let content_len = h.content_len();
                if bytes.len() - HSIZE < content_len {
                    content_len - (bytes.len() - HSIZE)
                } else {
                    0
                }
            },
        }
    }

    /// Reads the response that starts `bytes`, keep-alives included, and
    /// says how many bytes it took. Fails with `General` if `bytes` ends
    /// before the response does.
    pub fn get_plus_ping(bytes: &[u8]) -> (r: Result<(OwResponse, usize), OwError>)
        ensures
            match answered(bytes@) {
                Got::Frame(v, n) => r is Ok && r.unwrap().0@ == v && r.unwrap().1 == n
                    && response_wf(v),
                _ => r matches Err(OwError::General(_)),
            },
    {
        match OwResponse::parse(bytes) {
            None => Err(OwError::General("Short frame".to_owned())),
            Some((r, n)) => Ok((r, n)),
        }
    }

    /// Reads responses from the start of `bytes` until one is no keep-alive,
    /// and says how many bytes were taken in all. Fails with `General` if
    /// `bytes` ends before such a response does.
    pub fn get(bytes: &[u8]) -> (r: Result<(OwResponse, usize), OwError>)
        ensures
            match answered_past_pings(bytes@) {
                Got::Frame(v, n) => r is Ok && r.unwrap().0@ == v && r.unwrap().1 == n
                    && response_wf(v),
                _ => r matches Err(OwError::General(_)),
            },
    {
        let mut at: usize = 0;
        assert(bytes@.skip(0) =~= bytes@);
        loop
            invariant
                at <= bytes@.len(),
                answered_past_pings(bytes@) == advanced(
                    answered_past_pings(bytes@.skip(at as int)),
                    at as int,
                ),
            decreases bytes@.len() - at,
        {
            let rest = slice_subrange(bytes, at, bytes.len());
            assert(rest@ =~= bytes@.skip(at as int));
            match OwResponse::get_plus_ping(rest) {
                Err(e) => {
                    return Err(e);
                },
                Ok((r, n)) => {
                    if r.payload >= 0 {
                        return Ok((r, at + n));
                    }
                    assert(bytes@.skip(at as int).skip(n as int) =~= bytes@.skip(at + n));
                    at = at + n;
                },
            }
        }
    }

    /// True for a keep-alive: a frame with a negative payload, which carries
    /// nothing.
    pub fn is_ping(&self) -> (b: bool)
        ensures
            b == (self.payload < 0),
    {
        self.payload < 0
    }

    /// The header of the response.
    pub fn header(&self) -> (h: Header)
        ensures
            h == response_header(self@),
    {
        Header {
            version: self.version,
            payload: to_unsigned(self.payload),
            kind: to_unsigned(self.ret),
            flags: self.flags,
            size: self.size,
            offset: self.offset,
        }
    }

    /// The bytes that carry the response on the wire, to be written in one
    /// piece: header, then content.
    pub fn to_bytes(&self) -> (bytes: Vec<u8>)
        ensures
            bytes@ == response_bytes(self@),
    {
        let mut msg: Vec<u8> = self.header().encode();
        if self.payload > 0 {
            push_bytes(&mut msg, self.content.as_slice());
        }
        assert(msg@ =~= response_bytes(self@));
        msg
    }
}

/// A well-formed response is read back from its bytes as it was, whatever
/// follows them.
pub proof fn lemma_response_round_trip(r: ResponseView, rest: Seq<u8>)
    requires
        response_wf(r),
    ensures
        parse_response(response_bytes(r) + rest) == Some((r, response_bytes(r).len() as int)),
{
    let h = response_header(r);
    let bytes = response_bytes(r) + rest;
    crate::header::lemma_header_round_trip(h);
    assert(bytes.subrange(0, 24) =~= header_bytes(h));
    crate::header::lemma_header_prefix(bytes, header_bytes(h));
    assert(header_of(bytes) == h);
    crate::header::lemma_signed_round_trip(r.payload);
    crate::header::lemma_signed_round_trip(r.ret);
    let end = HSIZE + content_length(h);
    assert(bytes.subrange(HSIZE as int, end) =~= r.content);
}

} // verus!
