//! Queries: the messages that a client sends to a server, and a relay
//! forwards.

use vstd::prelude::*;
use vstd::slice::slice_subrange;
use vstd::slice::slice_to_vec;
use vstd::string::StringSliceAdditionalSpecFns;
use crate::error::OwError;
use crate::header::content_length;
use crate::header::header_bytes;
use crate::header::token_length;
use crate::header::header_of;
use crate::header::push_bytes;
use crate::header::signed_of;
use crate::header::to_signed;
use crate::header::to_unsigned;
use crate::header::unsigned_of;
use crate::header::Header;
use crate::header::HSIZE;
use crate::token::has_token;
use crate::token::lemma_token_views_contains;
use crate::token::cut_tokens;
use crate::token::flat_tokens;
use crate::token::token_bytes;
use crate::token::token_count;
use crate::token::token_version;
use crate::token::token_views;
use crate::token::tokens_announced;
use crate::token::tokens_in;
use crate::token::Token;
use crate::token::SERVERMESSAGE;

verus! {

/// A query as the values it holds.
pub struct QueryView {
    pub version: u32,
    pub payload: i32,
    pub mtype: u32,
    pub flags: u32,
    pub size: u32,
    pub offset: u32,
    pub content: Seq<u8>,
    pub tokens: Seq<Seq<u8>>,
}

/// A message for a server: a header, the content (a path that ends in a zero
/// byte, then for a write the value), and the tokens of the relays that it
/// went through.
#[derive(Debug, Clone, PartialEq, Eq)]
pub struct OwQuery {
    /// Protocol version; holds the token count where tokens follow.
    pub version: u32,
    /// Length of the content in bytes.
    pub payload: i32,
    /// Operation tag.
    pub mtype: u32,
    /// Units, formats and options, passed through to the server.
    pub flags: u32,
    /// Length of the value of a write; else the longest answer wanted.
    pub size: u32,
    /// Where in the property a partial read or write starts.
    pub offset: u32,
    /// Path, zero byte, and the value of a write.
    pub content: Vec<u8>,
    /// Tokens of the relays passed so far.
    pub tokenlist: Vec<Token>,
}

/// The query under the name that the sending side of a client knows it
/// by.
pub type OwMessageSend = OwQuery;

impl View for OwQuery {
    type V = QueryView;

    open spec fn view(&self) -> QueryView {
        QueryView {
            version: self.version,
            payload: self.payload,
            mtype: self.mtype,
            flags: self.flags,
            size: self.size,
            offset: self.offset,
            content: self.content@,
            tokens: token_views(self.tokenlist@),
        }
    }
}

/// The header of a query.
pub open spec fn query_header(q: QueryView) -> Header {
    Header {
        version: q.version,
        payload: unsigned_of(q.payload),
        kind: q.mtype,
        flags: q.flags,
        size: q.size,
        offset: q.offset,
    }
}

/// The bytes of a query on the wire: the header, the content where the
/// payload is positive, then the tokens end to end.
pub open spec fn query_bytes(q: QueryView) -> Seq<u8> {
    header_bytes(query_header(q)) + (if q.payload > 0 {
        q.content
    } else {
        Seq::empty()
    }) + token_bytes(q.tokens)
}

/// A query whose parts agree: the content has as many bytes as a positive
/// payload says and none otherwise, and the version announces as many tokens
/// as there are.
pub open spec fn query_wf(q: QueryView) -> bool {
    &&& q.content.len() == if q.payload > 0 {
        q.payload as int
    } else {
        0
    }
    &&& q.tokens.len() == token_count(q.version)
    &&& forall|k: int| 0 <= k < q.tokens.len() ==> (#[trigger] q.tokens[k]).len() == 16
}

/// The query with nothing in it yet.
pub open spec fn blank_query(flag: u32, mtype: u32) -> QueryView {
    QueryView {
        version: 0,
        payload: 0,
        mtype,
        flags: flag,
        size: 65536,
        offset: 0,
        content: Seq::empty(),
        tokens: Seq::empty(),
    }
}

/// The query with `path` and its closing zero byte as the content.
pub open spec fn with_path(q: QueryView, path: Seq<u8>) -> QueryView {
    QueryView {
        version: q.version,
        payload: (path.len() + 1) as i32,
        mtype: q.mtype,
        flags: q.flags,
        size: q.size,
        offset: q.offset,
        content: path.push(0u8),
        tokens: q.tokens,
    }
}

/// The query with `data` added behind the content: `size` is the length of
/// the data, and the payload grows by it.
pub open spec fn with_data(q: QueryView, data: Seq<u8>) -> QueryView {
    QueryView {
        version: q.version,
        payload: (q.payload + data.len()) as i32,
        mtype: q.mtype,
        flags: q.flags,
        size: data.len() as u32,
        offset: q.offset,
        content: q.content + data,
        tokens: q.tokens,
    }
}

/// The number of tokens that the version announces for a list of `len`
/// tokens: the count has sixteen bits.
pub open spec fn counted(len: nat) -> u32 {
    (len % 0x1_0000) as u32
}

/// The query with one more token, and the version that announces the tokens
/// it then holds.
pub open spec fn with_token(q: QueryView, token: Seq<u8>) -> QueryView {
    QueryView {
        version: token_version(counted(q.tokens.len() + 1)),
        payload: q.payload,
        mtype: q.mtype,
        flags: q.flags,
        size: q.size,
        offset: q.offset,
        content: q.content,
        tokens: q.tokens.push(token),
    }
}

/// The bytes that a path and a value take in the content.
pub open spec fn content_size(path: Option<Seq<u8>>, value: Option<Seq<u8>>) -> int {
    (match path {
        Some(p) => p.len() + 1,
        None => 0,
    }) + (match value {
        Some(v) => v.len() as int,
        None => 0,
    })
}

/// The query that `OwQuery::new` builds.
pub open spec fn new_query(
    flag: u32,
    mtype: u32,
    path: Option<Seq<u8>>,
    value: Option<Seq<u8>>,
    token: Seq<u8>,
) -> QueryView {
    let blank = blank_query(flag, mtype);
    let pathed = match path {
        Some(p) => with_path(blank, p),
        None => blank,
    };
    let valued = match value {
        Some(v) => with_data(pathed, v),
        None => pathed,
    };
    with_token(valued, token)
}

/// True if `r` is what building a query from these parts comes to: the
/// query of `new_query`; or `Text` where the path holds a zero byte, which
/// the wire format cannot carry; or else `Input` where path and value are
/// too long for a payload.
pub open spec fn built(
    r: Result<OwQuery, OwError>,
    flag: u32,
    mtype: u32,
    path: Option<Seq<u8>>,
    value: Option<Seq<u8>>,
    token: Seq<u8>,
) -> bool {
    if path is Some && path.unwrap().contains(0u8) {
        r matches Err(OwError::Text(_))
    } else if content_size(path, value) > i32::MAX {
        r matches Err(OwError::Input(_))
    } else {
        &&& r is Ok
        &&& r.unwrap()@ == new_query(flag, mtype, path, value, token)
        &&& query_wf(r.unwrap()@)
    }
}

/// The bytes of an optional path.
pub open spec fn path_bytes(path: Option<&str>) -> Option<Seq<u8>> {
    match path {
        Some(p) => Some(p.spec_bytes()),
        None => None,
    }
}

/// The bytes of an optional value.
pub open spec fn value_bytes(value: Option<&[u8]>) -> Option<Seq<u8>> {
    match value {
        Some(v) => Some(v@),
        None => None,
    }
}

/// The query made of a header and of the content and token bytes that
/// followed it.
pub open spec fn frame_query(h: Header, content: Seq<u8>, tokens: Seq<u8>) -> QueryView {
    QueryView {
        version: h.version,
        payload: signed_of(h.payload),
        mtype: h.kind,
        flags: h.flags,
        size: h.size,
        offset: h.offset,
        content,
        tokens: tokens_in(tokens),
    }
}

/// The query that starts `bytes`, with the number of bytes it takes; `None`
/// if `bytes` ends before the query does.
pub open spec fn parse_query(bytes: Seq<u8>) -> Option<(QueryView, int)> {
    if bytes.len() < HSIZE {
        None
    } else {
        let h = header_of(bytes);
        let content_end = HSIZE + content_length(h);
        let end = content_end + token_length(h);
        if bytes.len() < end {
            None
        } else {
            Some(
                (
                    frame_query(
                        h,
                        bytes.subrange(HSIZE as int, content_end),
                        bytes.subrange(content_end, end),
                    ),
                    end,
                ),
            )
        }
    }
}

/// The number of bytes still to be read before `bytes` holds a whole query:
/// what is missing of the header, or else of the content and the tokens
/// that the header announces.
pub open spec fn query_missing(bytes: Seq<u8>) -> nat {
    if bytes.len() < HSIZE {
        (HSIZE - bytes.len()) as nat
    } else {
        let h = header_of(bytes);
        let end = HSIZE + content_length(h) + token_length(h);
        if bytes.len() < end {
            (end - bytes.len()) as nat
        } else {
            0
        }
    }
}

/// The number of bytes still to be read before `bytes` holds a whole query
/// that is no keep-alive, the keep-alives before it included.
pub open spec fn query_missing_past_pings(bytes: Seq<u8>) -> nat
    decreases bytes.len(),
{
    match parse_query(bytes) {
        None => query_missing(bytes),
        Some((q, n)) => if q.payload < 0 && 0 < n <= bytes.len() {
            query_missing_past_pings(bytes.skip(n))
        } else {
            0
        },
    }
}

/// Where nothing is missing, a relay's reading does not come up short.
pub proof fn lemma_nothing_missing(bytes: Seq<u8>, own: Seq<u8>)
    requires
        query_missing_past_pings(bytes) == 0,
    ensures
        !(relayed_past_pings(bytes, own) is Short),
    decreases bytes.len(),
{
    match parse_query(bytes) {
        None => {},
        Some((q, n)) => {
            if q.payload < 0 && !q.tokens.contains(own) {
                lemma_nothing_missing(bytes.skip(n), own);
            }
        },
    }
}

/// What reading a message from a run of bytes comes to: a message and the
/// number of bytes it took, too few bytes, or a query that went through its
/// reader before.
pub enum Got<T> {
    Frame(T, int),
    Short,
    Loop,
}

/// The outcome with the count of bytes moved on by `by`.
pub open spec fn advanced<T>(got: Got<T>, by: int) -> Got<T> {
    match got {
        Got::Frame(q, n) => Got::Frame(q, n + by),
        other => other,
    }
}

/// What a relay with the token `own` makes of the query that starts `bytes`:
/// a query that holds `own` already is a loop; any other gets `own`
/// appended.
pub open spec fn relayed(bytes: Seq<u8>, own: Seq<u8>) -> Got<QueryView> {
    match parse_query(bytes) {
        None => Got::Short,
        Some((q, n)) => if q.tokens.contains(own) {
            Got::Loop
        } else {
            Got::Frame(with_token(q, own), n)
        },
    }
}

/// As `relayed`, but a query with a negative payload, a keep-alive, is
/// passed over and the next one is taken.
pub open spec fn relayed_past_pings(bytes: Seq<u8>, own: Seq<u8>) -> Got<QueryView>
    decreases bytes.len(),
{
    match relayed(bytes, own) {
        Got::Frame(q, n) => if q.payload >= 0 {
            Got::Frame(q, n)
        } else if 0 < n <= bytes.len() {
            advanced(relayed_past_pings(bytes.skip(n), own), n)
        } else {
            Got::Short
        },
        other => other,
    }
}

/// The operations of the protocol.
#[derive(Clone, Copy, Debug, PartialEq, Eq, Structural)]
pub enum Operation {
    Nop,
    Read,
    Write,
    Dir,
    Size,
    Present,
    DirAll,
    Get,
    DirAllSlash,
    GetSlash,
}

/// The operation that a tag of the wire stands for.
pub open spec fn operation_of(tag: u32) -> Option<Operation> {
    if tag == 1 {
        Some(Operation::Nop)
    } else if tag == 2 {
        Some(Operation::Read)
    } else if tag == 3 {
        Some(Operation::Write)
    } else if tag == 4 {
        Some(Operation::Dir)
    } else if tag == 5 {
        Some(Operation::Size)
    } else if tag == 6 {
        Some(Operation::Present)
    } else if tag == 7 {
        Some(Operation::DirAll)
    } else if tag == 8 {
        Some(Operation::Get)
    } else if tag == 9 {
        Some(Operation::DirAllSlash)
    } else if tag == 10 {
        Some(Operation::GetSlash)
    } else {
        None
    }
}

/// The name of an operation in traces.
pub open spec fn operation_name(op: Option<Operation>) -> Seq<char> {
    match op {
        Some(Operation::Nop) => "NOP"@,
        Some(Operation::Read) => "READ"@,
        Some(Operation::Write) => "WRITE"@,
        Some(Operation::Dir) => "DIR"@,
        Some(Operation::Size) => "SIZE"@,
        Some(Operation::Present) => "PRESENT"@,
        Some(Operation::DirAll) => "DIRALL"@,
        Some(Operation::Get) => "GET"@,
        Some(Operation::DirAllSlash) => "DIRALLSLASH"@,
        Some(Operation::GetSlash) => "GETSLASH"@,
        None => "UNKNOWN"@,
    }
}

impl Operation {
    /// The tag of the operation on the wire.
    pub open spec fn spec_tag(self) -> u32 {
        match self {
            Operation::Nop => 1,
            Operation::Read => 2,
            Operation::Write => 3,
            Operation::Dir => 4,
            Operation::Size => 5,
            Operation::Present => 6,
            Operation::DirAll => 7,
            Operation::Get => 8,
            Operation::DirAllSlash => 9,
            Operation::GetSlash => 10,
        }
    }

    /// True for the operations whose answer is a directory listing that may
    /// come in several frames.
    pub open spec fn spec_is_directory(self) -> bool {
        self == Operation::Dir || self == Operation::DirAll || self == Operation::DirAllSlash
    }

    /// The tag of the operation on the wire.
    #[verifier::when_used_as_spec(spec_tag)]
    pub fn tag(self) -> (t: u32)
        ensures
            t == self.spec_tag(),
            operation_of(t) == Some(self),
    {
        match self {
            Operation::Nop => OwQuery::NOP,
            Operation::Read => OwQuery::READ,
            Operation::Write => OwQuery::WRITE,
            Operation::Dir => OwQuery::DIR,
            Operation::Size => OwQuery::SIZE,
            Operation::Present => OwQuery::PRESENT,
            Operation::DirAll => OwQuery::DIRALL,
            Operation::Get => OwQuery::GET,
            Operation::DirAllSlash => OwQuery::DIRALLSLASH,
            Operation::GetSlash => OwQuery::GETSLASH,
        }
    }

    /// The operation that `tag` stands for, if it is one of the ten.
    pub fn from_tag(tag: u32) -> (op: Option<Operation>)
        ensures
            op == operation_of(tag),
            op is Some ==> op.unwrap().spec_tag() == tag,
    {
        if tag == OwQuery::NOP {
            Some(Operation::Nop)
        } else if tag == OwQuery::READ {
            Some(Operation::Read)
        } else if tag == OwQuery::WRITE {
            Some(Operation::Write)
        } else if tag == OwQuery::DIR {
            Some(Operation::Dir)
        } else if tag == OwQuery::SIZE {
            Some(Operation::Size)
        } else if tag == OwQuery::PRESENT {
            Some(Operation::Present)
        } else if tag == OwQuery::DIRALL {
            Some(Operation::DirAll)
        } else if tag == OwQuery::GET {
            Some(Operation::Get)
        } else if tag == OwQuery::DIRALLSLASH {
            Some(Operation::DirAllSlash)
        } else if tag == OwQuery::GETSLASH {
            Some(Operation::GetSlash)
        } else {
            None
        }
    }

    /// True for the operations whose answer is a directory listing that may
    /// come in several frames.
    #[verifier::when_used_as_spec(spec_is_directory)]
    pub fn is_directory(self) -> (b: bool)
        ensures
            b == self.spec_is_directory(),
    {
        match self {
            Operation::Dir | Operation::DirAll | Operation::DirAllSlash => true,
            _ => false,
        }
    }
}

impl OwQuery {
    /// Operation tags.
    pub const NOP: u32 = 1;

    pub const READ: u32 = 2;

    pub const WRITE: u32 = 3;

    pub const DIR: u32 = 4;

    pub const SIZE: u32 = 5;

    pub const PRESENT: u32 = 6;

    pub const DIRALL: u32 = 7;

    pub const GET: u32 = 8;

    pub const DIRALLSLASH: u32 = 9;

    pub const GETSLASH: u32 = 10;

    /// The version that a client sends.
    pub const SENDVERSION: u32 = 0;

    /// The longest answer asked for where the caller names none.
    pub const DEFAULTSIZE: u32 = 65536;

    /// The name of the operation with the tag `mtype`, `UNKNOWN` for a tag that
    /// stands for none.
    pub fn message_name(mtype: u32) -> (name: &'static str)
        ensures
            name@ == operation_name(operation_of(mtype)),
    {
        match Operation::from_tag(mtype) {
            Some(Operation::Nop) => "NOP",
            Some(Operation::Read) => "READ",
            Some(Operation::Write) => "WRITE",
            Some(Operation::Dir) => "DIR",
            Some(Operation::Size) => "SIZE",
            Some(Operation::Present) => "PRESENT",
            Some(Operation::DirAll) => "DIRALL",
            Some(Operation::Get) => "GET",
            Some(Operation::DirAllSlash) => "DIRALLSLASH",
            Some(Operation::GetSlash) => "GETSLASH",
            None => "UNKNOWN",
        }
    }

    /// Builds a query for the operation `mtype` on `path`, with `value` for a
    /// write, signed with `token`.
    ///
    /// Fails with `Text` if the path holds a zero byte, which the wire
    /// format cannot carry, and with `Input` if path and value are too long
    /// for a payload.
    pub fn new(
        flag: u32,
        mtype: u32,
        path: Option<&str>,
        value: Option<&[u8]>,
        token: Token,
    ) -> (r: Result<OwQuery, OwError>)
        ensures
            built(r, flag, mtype, path_bytes(path), value_bytes(value), token@),
    {
        let mut msg = OwQuery {
            version: OwQuery::SENDVERSION,
            payload: 0,
            mtype,
            flags: flag,
            size: OwQuery::DEFAULTSIZE,
            offset: 0,
            content: Vec::new(),
            tokenlist: Vec::new(),
        };
        assert(msg@.content =~= Seq::<u8>::empty());
        assert(msg@.tokens =~= Seq::<Seq<u8>>::empty());
        assert(msg@ == blank_query(flag, mtype));
        if let Some(p) = path {
            match msg.add_path(p) {
                Ok(()) => {},
                Err(e) => {
                    return Err(e);
                },
            }
        }
        if let Some(v) = value {
            if v.len() > (i32::MAX - msg.payload) as usize {
                return Err(OwError::Input("Path and value too long for a message".to_owned()));
            }
            msg.add_data(v);
        }
        proof {
            assert(0x0u32 & 0x1_0000u32 != 0x1_0000u32) by (bit_vector);
        }
        match msg.add_token(token) {
            Ok(()) => Ok(msg),
            Err(e) => Err(e),
        }
    }

    /// Makes `path` and its closing zero byte the content.
    ///
    /// Fails with `Text` if the path holds a zero byte, and with `Input` if
    /// it is too long for a payload; the query is then unchanged.
    pub fn add_path(&mut self, path: &str) -> (r: Result<(), OwError>)
        ensures
            match r {
                Ok(()) => final(self)@ == with_path(old(self)@, path.spec_bytes()),
                Err(OwError::Text(_)) => path.spec_bytes().contains(0u8) && *final(self) == *old(
                    self,
                ),
                Err(OwError::Input(_)) => !path.spec_bytes().contains(0u8) && path.spec_bytes().len()
                    + 1 > i32::MAX && *final(self) == *old(self),
                Err(_) => false,
            },
            r is Ok <==> !path.spec_bytes().contains(0u8) && path.spec_bytes().len() + 1
                <= i32::MAX,
    {
        let bytes = path.as_bytes();
        let mut content: Vec<u8> = Vec::new();
        let mut i: usize = 0;
        while i < bytes.len()
            invariant
                i <= bytes@.len(),
                bytes@ == path.spec_bytes(),
                content@ == bytes@.take(i as int),
                forall|k: int| 0 <= k < i ==> bytes@[k] != 0,
            decreases bytes@.len() - i,
        {
            if bytes[i] == 0 {
                return Err(OwError::Text("Nul Error".to_owned()));
            }
            content.push(bytes[i]);
            assert(content@ =~= bytes@.take(i + 1));
            i = i + 1;
        }
        assert(bytes@.take(i as int) =~= bytes@);
        if content.len() >= i32::MAX as usize {
            return Err(OwError::Input("Path too long for a message".to_owned()));
        }
        content.push(0);
        self.payload = content.len() as i32;
        self.content = content;
        Ok(())
    }

    /// Adds the value of a write behind the path: `size` becomes its length,
    /// and the payload grows by it.
    pub fn add_data(&mut self, data: &[u8])
        requires
            old(self).payload + data@.len() <= i32::MAX,
        ensures
            final(self)@ == with_data(old(self)@, data@),
    {
        push_bytes(&mut self.content, data);
        self.size = data.len() as u32;
        let total: i64 = self.payload as i64 + data.len() as i64;
        self.payload = total as i32;
    }

    /// Appends `token`, and sets the version to announce the tokens that the
    /// query then holds. The count has sixteen bits, so it is right as long
    /// as there are fewer than 65536 tokens.
    ///
    /// Fails with `TopologyLoop` if the query holds `token` already: it then
    /// went through the owner of the token before. The query is left as it
    /// was.
    pub fn add_token(&mut self, token: Token) -> (r: Result<(), OwError>)
        ensures
            old(self).tokenlist@.contains(token) ==> {
                &&& r matches Err(OwError::TopologyLoop)
                &&& *final(self) == *old(self)
            },
            !old(self).tokenlist@.contains(token) ==> {
                &&& r is Ok
                &&& final(self)@ == with_token(old(self)@, token@)
                &&& final(self).tokenlist@ == old(self).tokenlist@.push(token)
            },
            old(self)@.tokens.contains(token@) == old(self).tokenlist@.contains(token),
            r is Ok && query_wf(old(self)@) && old(self).tokenlist@.len() < 0xFFFF ==> query_wf(
                final(self)@,
            ),
    {
        proof {
            lemma_token_views_contains(self.tokenlist@, token);
        }
        if has_token(&self.tokenlist, &token) {
            return Err(OwError::TopologyLoop);
        }
        let held: usize = self.tokenlist.len() % 0x1_0000;
        let count: u32 = if held == 0xFFFF {
            0
        } else {
            held as u32 + 1
        };
        assert(count == counted(self.tokenlist@.len() + 1));
        self.version = SERVERMESSAGE | count;
        self.tokenlist.push(token);
        assert(token_views(self.tokenlist@) =~= token_views(old(self).tokenlist@).push(token@));
        proof {
            crate::token::lemma_token_version(count);
        }
        Ok(())
    }

    /// Puts a query together from its header and from the content and token
    /// bytes that followed it on the wire.
    ///
    /// Fails with `General` if either run of bytes has another length than
    /// the header announces: the frame is malformed.
    pub fn assemble(h: &Header, content: Vec<u8>, tokens: &[u8]) -> (r: Result<OwQuery, OwError>)
        ensures
            r is Ok <==> content@.len() == content_length(*h) && tokens@.len() == token_length(*h),
            r is Ok ==> r.unwrap()@ == frame_query(*h, content@, tokens@) && query_wf(
                r.unwrap()@,
            ),
            r is Err ==> r.unwrap_err() is General,
    {
        if content.len() != h.content_len() || tokens.len() != h.token_len() {
            return Err(OwError::General("Malformed frame".to_owned()));
        }
        let tokenlist = cut_tokens(tokens);
        Ok(
            OwQuery {
                version: h.version,
                payload: to_signed(h.payload),
                mtype: h.kind,
                flags: h.flags,
                size: h.size,
                offset: h.offset,
                content,
                tokenlist,
            },
        )
    }

    /// Reads the query that starts `bytes`, and says how many bytes it took;
    /// `None` if `bytes` ends before the query does.
    pub fn parse(bytes: &[u8]) -> (r: Option<(OwQuery, usize)>)
        ensures
            match parse_query(bytes@) {
                Some((q, n)) => r is Some && r.unwrap().0@ == q && r.unwrap().1 == n && query_wf(q),
                None => r is None,
            },
    {
        let h = match Header::read(bytes) {
            Some(h) => h,
            None => {
                return None;
            },
        };
        let content_len = h.content_len();
        let token_len = h.token_len();
        if bytes.len() - HSIZE < content_len {
            return None;
        }
        let content_end = HSIZE + content_len;
        if bytes.len() - content_end < token_len {
            return None;
        }
        let end = content_end + token_len;
        let content = slice_to_vec(slice_subrange(bytes, HSIZE, content_end));
        match OwQuery::assemble(&h, content, slice_subrange(bytes, content_end, end)) {
            Ok(q) => Some((q, end)),
            Err(_) => None,
        }
    }

    /// The number of bytes still to be read before `bytes` holds a whole
    /// query; zero when `parse` will find one.
    pub fn missing(bytes: &[u8]) -> (n: usize)
        ensures
            n == query_missing(bytes@),
            n == 0 <==> parse_query(bytes@) is Some,
    {
        match Header::read(bytes) {
            None => HSIZE - bytes.len(),
            Some(h) => {
                let rest = h.content_len() + h.token_len();
                if bytes.len() - HSIZE < rest {
                    rest - (bytes.len() - HSIZE)
                } else {
                    0
                }
            },
        }
    }

    /// The number of bytes still to be read before `bytes` holds a whole
    /// query that is no keep-alive; zero when `get` will not come up short.
    pub fn missing_past_pings(bytes: &[u8]) -> (n: usize)
        ensures
            n == query_missing_past_pings(bytes@),
    {
        let mut at: usize = 0;
        assert(bytes@.skip(0) =~= bytes@);
        loop
            invariant
                at <= bytes@.len(),
                query_missing_past_pings(bytes@) == query_missing_past_pings(
                    bytes@.skip(at as int),
                ),
            decreases bytes@.len() - at,
        {
            let rest = slice_subrange(bytes, at, bytes.len());
            assert(rest@ =~= bytes@.skip(at as int));
            match OwQuery::parse(rest) {
                None => {
                    return OwQuery::missing(rest);
                },
                Some((q, n)) => {
                    if q.payload >= 0 {
                        return 0;
                    }
                    assert(bytes@.skip(at as int).skip(n as int) =~= bytes@.skip(at + n));
                    at = at + n;
                },
            }
        }
    }

    /// What a relay with the token `own` does with a query read from the
    /// wire: refuses it as a loop if it holds `own` already, since it then
    /// went through this relay before, and else appends `own`.
    pub fn relay(self, own: Token) -> (r: Result<OwQuery, OwError>)
        ensures
            self@.tokens.contains(own@) ==> r matches Err(OwError::TopologyLoop),
            !self@.tokens.contains(own@) ==> r is Ok && r.unwrap()@ == with_token(self@, own@),
            r is Ok && query_wf(self@) && self@.tokens.len() < 0xFFFF ==> query_wf(r.unwrap()@),
    {
        let mut q = self;
        match q.add_token(own) {
            Ok(()) => Ok(q),
            Err(e) => Err(e),
        }
    }

    /// Reads the query that starts `bytes` as a relay with the token `token`
    /// does, keep-alives included, and says how many bytes it took.
    ///
    /// Fails with `General` if `bytes` ends before the query does, and with
    /// `TopologyLoop` if the query holds `token` already.
    pub fn get_plus_ping(bytes: &[u8], token: Token) -> (r: Result<(OwQuery, usize), OwError>)
        ensures
            match relayed(bytes@, token@) {
                Got::Frame(q, n) => r is Ok && r.unwrap().0@ == q && r.unwrap().1 == n,
                Got::Short => r matches Err(OwError::General(_)),
                Got::Loop => r matches Err(OwError::TopologyLoop),
            },
    {
        match OwQuery::parse(bytes) {
            None => Err(OwError::General("Short frame".to_owned())),
            Some((q, n)) => match q.relay(token) {
                Ok(q) => Ok((q, n)),
                Err(e) => Err(e),
            },
        }
    }

    /// Reads queries from the start of `bytes` until one is no keep-alive,
    /// each as `get_plus_ping` does, and says how many bytes were taken in
    /// all.
    pub fn get(bytes: &[u8], token: Token) -> (r: Result<(OwQuery, usize), OwError>)
        ensures
            match relayed_past_pings(bytes@, token@) {
                Got::Frame(q, n) => r is Ok && r.unwrap().0@ == q && r.unwrap().1 == n,
                Got::Short => r matches Err(OwError::General(_)),
                Got::Loop => r matches Err(OwError::TopologyLoop),
            },
    {
        let mut at: usize = 0;
        assert(bytes@.skip(0) =~= bytes@);
        loop
            invariant
                at <= bytes@.len(),
                relayed_past_pings(bytes@, token@) == advanced(
                    relayed_past_pings(bytes@.skip(at as int), token@),
                    at as int,
                ),
            decreases bytes@.len() - at,
        {
            let rest = slice_subrange(bytes, at, bytes.len());
            assert(rest@ =~= bytes@.skip(at as int));
            match OwQuery::get_plus_ping(rest, token) {
                Err(e) => {
                    return Err(e);
                },
                Ok((q, n)) => {
                    if q.payload >= 0 {
                        return Ok((q, at + n));
                    }
                    assert(bytes@.skip(at as int).skip(n as int) =~= bytes@.skip(at + n));
                    at = at + n;
                },
            }
        }
    }

    /// True for a keep-alive: a frame with a negative payload, which carries
    /// nothing.
    pub fn is_ping(&self) -> (b: bool)
        ensures
            b == (self.payload < 0),
    {
        self.payload < 0
    }

    /// The operation asked for, if the tag stands for one.
    pub fn operation(&self) -> (op: Option<Operation>)
        ensures
            op == operation_of(self.mtype),
    {
        Operation::from_tag(self.mtype)
    }

    /// The header of the query.
    pub fn header(&self) -> (h: Header)
        ensures
            h == query_header(self@),
    {
        Header {
            version: self.version,
            payload: to_unsigned(self.payload),
            kind: self.mtype,
            flags: self.flags,
            size: self.size,
            offset: self.offset,
        }
    }

    /// The bytes that carry the query on the wire, to be written in one
    /// piece: header, content, tokens.
    pub fn to_bytes(&self) -> (bytes: Vec<u8>)
        ensures
            bytes@ == query_bytes(self@),
    {
        let mut msg: Vec<u8> = self.header().encode();
        if self.payload > 0 {
            push_bytes(&mut msg, self.content.as_slice());
        }
        let mut tokens: Vec<u8> = flat_tokens(&self.tokenlist);
        msg.append(&mut tokens);
        assert(msg@ =~= query_bytes(self@));
        msg
    }
}

/// The sizes of a query that was built on a path: the payload counts the
/// path and its closing zero byte, so it is never zero; with a value, `size`
/// is the length of the value, and the payload is the length of path, zero
/// byte and value, which is never less than `size`.
pub proof fn lemma_query_sizes(
    flag: u32,
    mtype: u32,
    path: Seq<u8>,
    value: Option<Seq<u8>>,
    token: Seq<u8>,
)
    requires
        content_size(Some(path), value) <= i32::MAX,
    ensures
        ({
            let q = new_query(flag, mtype, Some(path), value, token);
            &&& q.payload == content_size(Some(path), value)
            &&& q.payload >= 1
            &&& q.content.len() == q.payload
            &&& value is Some ==> q.size == value.unwrap().len() && q.payload >= q.size
            &&& value is None ==> q.size == 65536
        }),
{
}

/// No second pass: a query that a relay has forwarded is refused as a loop
/// when it comes back to the same relay.
pub proof fn lemma_no_second_pass(q: QueryView, own: Seq<u8>, rest: Seq<u8>)
    requires
        query_wf(q),
        q.tokens.len() < 0xFFFF,
        own.len() == 16,
    ensures
        relayed(query_bytes(with_token(q, own)) + rest, own) is Loop,
{
    let sent = with_token(q, own);
    lemma_with_token_wf(q, own);
    lemma_query_round_trip(sent, rest);
    assert(sent.tokens[sent.tokens.len() - 1] == own);
    assert(sent.tokens.contains(own));
}

/// A well-formed query with room in the count stays well-formed when a
/// token is appended.
pub proof fn lemma_with_token_wf(q: QueryView, token: Seq<u8>)
    requires
        query_wf(q),
        q.tokens.len() < 0xFFFF,
        token.len() == 16,
    ensures
        query_wf(with_token(q, token)),
{
    let sent = with_token(q, token);
    let count = counted(q.tokens.len() + 1);
    assert(count == q.tokens.len() + 1);
    crate::token::lemma_token_version(count);
    assert(token_count(sent.version) == sent.tokens.len());
    assert forall|k: int| 0 <= k < sent.tokens.len() implies (#[trigger] sent.tokens[k]).len()
        == 16 by {
        if k < q.tokens.len() {
            assert(sent.tokens[k] == q.tokens[k]);
        }
    }
}

/// A well-formed query is read back from its bytes as it was, whatever
/// follows them.
pub proof fn lemma_query_round_trip(q: QueryView, rest: Seq<u8>)
    requires
        query_wf(q),
    ensures
        parse_query(query_bytes(q) + rest) == Some((q, query_bytes(q).len() as int)),
{
    let h = query_header(q);
    let bytes = query_bytes(q) + rest;
    crate::header::lemma_header_round_trip(h);
    assert(bytes.subrange(0, 24) =~= header_bytes(h));
    crate::header::lemma_header_prefix(bytes, header_bytes(h));
    assert(header_of(bytes) == h);
    crate::header::lemma_signed_round_trip(q.payload);
    crate::token::lemma_tokens_round_trip(q.tokens);
    let content_end = HSIZE + content_length(h);
    let end = content_end + token_length(h);
    assert(bytes.subrange(HSIZE as int, content_end) =~= q.content);
    assert(bytes.subrange(content_end, end) =~= token_bytes(q.tokens));
}

} // verus!
