//! The relay: a server that forwards each query to another server and the
//! answer back, and shows both as text.
//!
//! The program owns the sockets and the threads. For each connection that it
//! accepts it reads one query, hands its bytes to `OwServer::begin`, sends
//! what `Relay::outbound` gives to the server behind, and then hands each
//! response that it reads from there to `Relay::forward`, which says what to
//! print, what to write back, and whether to read on.

use vstd::prelude::*;
use crate::error::OwError;
use crate::flags::PERSISTENCE;
use crate::print_message::PrintMessage;
use crate::query::operation_of;
use crate::query::query_bytes;
use crate::query::relayed_past_pings;
use crate::query::Got;
use crate::query::OwQuery;
use crate::receive::run;
use crate::receive::Progress;
use crate::response::response_bytes;
use crate::response::OwResponse;
use crate::response::ResponseView;
use crate::text::texts;
use crate::token::Token;

verus! {

/// True if the query asks for a listing that may come in several frames.
pub open spec fn asks_listing(mtype: u32) -> bool {
    match operation_of(mtype) {
        Some(op) => op.spec_is_directory(),
        None => false,
    }
}

/// True if more frames are to be fetched after a frame with this payload
/// was forwarded: after a keep-alive always; after another frame only where
/// a listing is relayed and the frame did not close it.
pub open spec fn reads_on(listing: bool, payload: i32) -> bool {
    payload < 0 || (listing && payload != 0)
}

/// True if one of the frames ends the relaying.
pub open spec fn closed_by(listing: bool, frames: Seq<ResponseView>) -> bool
    decreases frames.len(),
{
    frames.len() > 0 && (closed_by(listing, frames.drop_last()) || !reads_on(
        listing,
        frames.last().payload,
    ))
}

/// The frames that a relay forwards of those that the server behind it
/// sends: all of them, keep-alives too, up to the first that ends the
/// relaying.
pub open spec fn forwarded(listing: bool, frames: Seq<ResponseView>) -> Seq<ResponseView>
    decreases frames.len(),
{
    if frames.len() == 0 {
        frames
    } else if closed_by(listing, frames.drop_last()) {
        forwarded(listing, frames.drop_last())
    } else {
        forwarded(listing, frames.drop_last()).push(frames.last())
    }
}

/// Frames that do not end the relaying are all forwarded.
pub proof fn lemma_open_forwards_all(listing: bool, frames: Seq<ResponseView>)
    requires
        !closed_by(listing, frames),
    ensures
        forwarded(listing, frames) == frames,
    decreases frames.len(),
{
    if frames.len() > 0 {
        lemma_open_forwards_all(listing, frames.drop_last());
        assert(frames.drop_last().push(frames.last()) =~= frames);
    }
}

/// A receiver of a plain call never gathers.
pub proof fn lemma_single_never_gathers(frames: Seq<ResponseView>)
    ensures
        !(run(false, Progress::Waiting, frames) is Gathering),
    decreases frames.len(),
{
    if frames.len() > 0 {
        lemma_single_never_gathers(frames.drop_last());
    }
}

/// Once the relaying has ended, a receiver of the same kind is done.
pub proof fn lemma_closed_is_done(listing: bool, frames: Seq<ResponseView>)
    requires
        closed_by(listing, frames),
    ensures
        run(listing, Progress::Waiting, frames) is Done || run(
            listing,
            Progress::Waiting,
            frames,
        ) is TooLong,
    decreases frames.len(),
{
    let init = frames.drop_last();
    if closed_by(listing, init) {
        lemma_closed_is_done(listing, init);
    } else if !listing {
        lemma_single_never_gathers(init);
    }
}

/// Relay transparency: a client behind a relay gets the answer that it
/// would get from the server itself. A receiver stands after the frames
/// that the relay forwards where it stands after all the frames.
pub proof fn lemma_relay_transparency(listing: bool, frames: Seq<ResponseView>)
    ensures
        run(listing, Progress::Waiting, forwarded(listing, frames)) == run(
            listing,
            Progress::Waiting,
            frames,
        ),
    decreases frames.len(),
{
    if frames.len() > 0 {
        let init = frames.drop_last();
        lemma_relay_transparency(listing, init);
        if closed_by(listing, init) {
            lemma_closed_is_done(listing, init);
        } else {
            lemma_open_forwards_all(listing, init);
            assert(init.push(frames.last()) =~= frames);
        }
    }
}

/// A relay: the address it listens on and the token by which it knows the
/// queries that it has forwarded.
#[derive(Debug, Clone, PartialEq, Eq)]
pub struct OwServer {
    pub address: String,
    pub token: Token,
}

/// One query on its way through a relay.
#[derive(Debug, PartialEq, Eq)]
pub struct Relay {
    /// The query, with the relay's token appended.
    pub query: OwQuery,
    /// True where the answer is a listing that may come in several frames.
    pub listing: bool,
    /// True while frames of the answer are still to be fetched.
    pub open: bool,
}

/// What to do with a response that came from the server behind.
#[derive(Debug, PartialEq, Eq)]
pub struct Forward {
    /// The trace of the response, to print.
    pub lines: Vec<String>,
    /// The response, to write back to the client as it came.
    pub bytes: Vec<u8>,
    /// True if another response is to be read.
    pub more: bool,
}

impl OwServer {
    /// A relay that listens on `address` and marks queries with `token`.
    pub fn new(address: &str, token: Token) -> (server: OwServer)
        ensures
            server.address@ == address@,
            server.token == token,
    {
        OwServer { address: address.to_owned(), token }
    }

    /// Takes the query that a client sent, `bytes` as read from its socket:
    /// keep-alives are passed over, a query that holds this relay's token is
    /// refused as a loop, and any other gets the token appended.
    ///
    /// Fails with `General` if `bytes` ends before the query does, and with
    /// `TopologyLoop` for a query that went through this relay before.
    pub fn begin(&self, bytes: &[u8]) -> (r: Result<Relay, OwError>)
        ensures
            match relayed_past_pings(bytes@, self.token@) {
                Got::Frame(q, _) => {
                    &&& r is Ok
                    &&& r.unwrap().query@ == q
                    &&& r.unwrap().listing == asks_listing(q.mtype)
                    &&& r.unwrap().open
                },
                Got::Short => r matches Err(OwError::General(_)),
                Got::Loop => r matches Err(OwError::TopologyLoop),
            },
    {
        match OwQuery::get(bytes, self.token) {
            Ok((query, _)) => {
                let listing = match query.operation() {
                    Some(op) => op.is_directory(),
                    None => false,
                };
                Ok(Relay { query, listing, open: true })
            },
            Err(e) => Err(e),
        }
    }
}

impl Relay {
    /// The trace of the query, to print.
    pub fn trace(&self) -> (lines: Vec<String>)
        ensures
            texts(lines@) == self.query.trace("Query Message incoming"@),
    {
        self.query.print_all("Query Message incoming")
    }

    /// True if the client asked to keep the connection: the connection to
    /// the server behind is then kept as well.
    pub fn wants_persistence(&self) -> (persist: bool)
        ensures
            persist == (self.query.flags & PERSISTENCE != 0),
    {
        self.query.flags & PERSISTENCE != 0
    }

    /// The bytes to send to the server behind: the query with this relay's
    /// token.
    pub fn outbound(&self) -> (bytes: Vec<u8>)
        ensures
            bytes@ == query_bytes(self.query@),
    {
        self.query.to_bytes()
    }

    /// Takes a response from the server behind: it goes back to the client
    /// as it came, keep-alives too, and the relaying goes on after a
    /// keep-alive and, for a listing, up to the frame with a payload of zero.
    pub fn forward(&mut self, response: &OwResponse) -> (out: Forward)
        ensures
            texts(out.lines@) == response.trace("Response Message Incoming"@),
            out.bytes@ == response_bytes(response@),
            out.more == reads_on(old(self).listing, response.payload),
            final(self).open == out.more,
            final(self).listing == old(self).listing,
            final(self).query == old(self).query,
    {
        let lines = response.print_all("Response Message Incoming");
        let bytes = response.to_bytes();
        let more = response.payload < 0 || (self.listing && response.payload != 0);
        self.open = more;
        Forward { lines, bytes, more }
    }
}

} // verus!
