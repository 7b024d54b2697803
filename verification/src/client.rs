//! The client: its configuration, the queries it sends, and what it makes of
//! the frames that come back.
//!
//! Every call of the protocol has two halves here. The `make_` functions
//! build the query to send. The function named after the call (`read`,
//! `write`, `dir`, ...) takes the frames that the server sent in answer and
//! decodes the result. Between the two the program sends the query and
//! reads the frames.

use vstd::prelude::*;
use vstd::string::StringSliceAdditionalSpecFns;
use vstd::utf8::decode_utf8;
use vstd::utf8::valid_utf8;
use crate::error::OwError;
use crate::flags::flags_of;
use crate::flags::make_flag_word;
use crate::flags::Format;
use crate::flags::Pressure;
use crate::flags::Temperature;
use crate::query::built;
use crate::query::value_bytes;
use crate::query::Operation;
use crate::query::OwQuery;
use crate::receive::receive;
use crate::receive::received;
use crate::receive::response_views;
use crate::receive::without_pings;
use crate::receive::Progress;
use crate::response::OwResponse;
use crate::response::ResponseView;
use crate::stream::Stream;
use crate::text::all_hex;
use crate::text::hex_bytes;
use crate::text::hex_dump;
use crate::text::hex_text;
use crate::text::parse_hex;
use crate::text::same_text;
use crate::text::split;
use crate::text::split_text;
use crate::text::texts;
use crate::token::Token;

verus! {

/// The configuration of a client: where the server is, what units and
/// formats to ask for, and how to show results. `flags` is the flag word
/// made from it by `make_flags`, which goes out with every query.
#[derive(Debug, Clone, PartialEq, Eq)]
pub struct OwClient {
    /// Address of the server, `host:port`.
    pub owserver: String,
    /// Address to listen on when relaying, if any.
    pub listener: Option<String>,
    /// The mark of this instance in the queries it sends.
    pub token: Token,
    pub temperature: Temperature,
    pub pressure: Pressure,
    pub format: Format,
    /// Longest value wanted, in bytes.
    pub size: u32,
    /// Where in a property a value starts.
    pub offset: u32,
    /// Ask for a slash behind the name of a directory.
    pub slash: bool,
    /// Show and take values in hexadecimal.
    pub hex: bool,
    /// Bare display: the server is asked to list devices only, without the
    /// virtual directories, and the convenience properties are left out of
    /// listings.
    pub bare: bool,
    /// Bare display, asked for as pruning.
    pub prune: bool,
    /// Keep the connection open between queries.
    pub persistence: bool,
    /// How much to tell about the work in progress.
    pub debug: u32,
    /// The flag word of this configuration.
    pub flags: u32,
}

/// Makes a client with the default configuration.
pub fn new(token: Token) -> (client: OwClient)
    ensures
        client.token == token,
        client.owserver@ == "localhost:4304"@,
        client.listener is None,
        client.temperature == Temperature::DEFAULT,
        client.pressure == Pressure::DEFAULT,
        client.format == Format::DEFAULT,
        !client.slash && !client.hex && !client.bare && !client.prune && !client.persistence,
        client.size == 0 && client.offset == 0 && client.debug == 0,
        client.flags == flags_of(
            false,
            false,
            Temperature::DEFAULT,
            Pressure::DEFAULT,
            Format::DEFAULT,
        ),
{
    OwClient::new(token)
}

/// What a call can fail with, apart from the transport.
pub enum Failure {
    /// The frames do not hold a whole answer.
    Incomplete,
    /// The listing is longer than a payload can count.
    TooLong,
    /// The server answered with this return code.
    Server(i32),
    /// The content is no valid UTF-8.
    Encoding,
}

/// True if the error is the one that stands for the failure.
pub open spec fn failed_with(e: OwError, f: Failure) -> bool {
    match f {
        Failure::Incomplete => e is General,
        Failure::TooLong => e is Input,
        Failure::Server(code) => e == OwError::Output(code),
        Failure::Encoding => e is Text,
    }
}

/// The answer that a run of frames holds, or why it holds none.
pub open spec fn answer(many: bool, frames: Seq<ResponseView>) -> Result<ResponseView, Failure> {
    match received(many, frames) {
        Progress::Done(a) => Ok(a),
        Progress::TooLong => Err(Failure::TooLong),
        _ => Err(Failure::Incomplete),
    }
}

/// The value that a response carries: its content where the payload is
/// positive, else nothing.
pub open spec fn value_of(a: ResponseView) -> Seq<u8> {
    if a.payload > 0 {
        a.content
    } else {
        Seq::empty()
    }
}

/// The result of a read or a get.
pub open spec fn value_outcome(frames: Seq<ResponseView>) -> Result<Seq<u8>, Failure> {
    match answer(false, frames) {
        Ok(a) => Ok(value_of(a)),
        Err(f) => Err(f),
    }
}

/// The result of a write: success for the return code zero, else the code.
pub open spec fn write_outcome(frames: Seq<ResponseView>) -> Result<(), Failure> {
    match answer(false, frames) {
        Ok(a) => if a.ret == 0 {
            Ok(())
        } else {
            Err(Failure::Server(a.ret))
        },
        Err(f) => Err(f),
    }
}

/// The result of a presence test: true for the return code zero.
pub open spec fn present_outcome(frames: Seq<ResponseView>) -> Result<bool, Failure> {
    match answer(false, frames) {
        Ok(a) => Ok(a.ret == 0),
        Err(f) => Err(f),
    }
}

/// The result of a size query: the return code where it is not negative.
pub open spec fn size_outcome(frames: Seq<ResponseView>) -> Result<i32, Failure> {
    match answer(false, frames) {
        Ok(a) => if a.ret < 0 {
            Err(Failure::Server(a.ret))
        } else {
            Ok(a.ret)
        },
        Err(f) => Err(f),
    }
}

/// The last piece that is not empty, or the empty text if there is none.
pub open spec fn last_filled(pieces: Seq<Seq<char>>) -> Seq<char>
    decreases pieces.len(),
{
    if pieces.len() == 0 {
        Seq::empty()
    } else if pieces.last().len() > 0 {
        pieces.last()
    } else {
        last_filled(pieces.drop_last())
    }
}

/// The final segment of a path: its last segment that is not empty, or the
/// empty text for a path without one.
pub open spec fn final_segment(path: Seq<char>) -> Seq<char> {
    last_filled(split(path, '/'))
}

/// The name of what a path leads to: its final segment up to the first dot.
pub open spec fn basename_of(path: Seq<char>) -> Seq<char> {
    split(final_segment(path), '.')[0]
}

/// True for the names of the properties that every device has and that say
/// nothing new about it.
pub open spec fn is_convenience(name: Seq<char>) -> bool {
    ||| name == "address"@
    ||| name == "crc8"@
    ||| name == "family"@
    ||| name == "id"@
    ||| name == "locator"@
    ||| name == "r_address"@
    ||| name == "r_id"@
    ||| name == "r_locator"@
    ||| name == "type"@
}

/// The bytes of a listing without the zero bytes among them.
pub open spec fn without_nul(raw: Seq<u8>) -> Seq<u8> {
    raw.filter(|b: u8| b != 0)
}

/// The entries of a listing that are shown: all of them, or in a bare
/// listing those whose final path segment is no convenience property, in
/// their order and as they are.
pub open spec fn shown(bare: bool, entries: Seq<Seq<char>>) -> Seq<Seq<char>> {
    if bare {
        entries.filter(|e: Seq<char>| !is_convenience(final_segment(e)))
    } else {
        entries
    }
}

/// The listing that a directory content holds: the content without its zero
/// bytes, read as UTF-8, split at the commas, and filtered where the listing
/// is `bare`; `Encoding` where the content is no UTF-8.
pub open spec fn listing(bare: bool, raw: Seq<u8>) -> Result<Seq<Seq<char>>, Failure> {
    let clean = without_nul(raw);
    if valid_utf8(clean) {
        Ok(shown(bare, split(decode_utf8(clean), ',')))
    } else {
        Err(Failure::Encoding)
    }
}

/// The result of a directory call.
pub open spec fn dir_outcome(bare: bool, frames: Seq<ResponseView>) -> Result<
    Seq<Seq<char>>,
    Failure,
> {
    match answer(true, frames) {
        Ok(a) => listing(bare, a.content),
        Err(f) => Err(f),
    }
}

/// True if the result of a call is the outcome `want`.
pub open spec fn is_outcome<T, V>(
    r: Result<T, OwError>,
    want: Result<V, Failure>,
    same: spec_fn(T, V) -> bool,
) -> bool {
    match want {
        Ok(v) => r is Ok && same(r->Ok_0, v),
        Err(f) => r is Err && failed_with(r->Err_0, f),
    }
}

/// Ping transparency of the client: the result of every call is the same
/// for a run of frames and for the run without its keep-alives.
pub proof fn lemma_client_ping_transparency(bare: bool, frames: Seq<ResponseView>)
    ensures
        value_outcome(frames) == value_outcome(without_pings(frames)),
        write_outcome(frames) == write_outcome(without_pings(frames)),
        present_outcome(frames) == present_outcome(without_pings(frames)),
        size_outcome(frames) == size_outcome(without_pings(frames)),
        dir_outcome(bare, frames) == dir_outcome(bare, without_pings(frames)),
{
    crate::receive::lemma_ping_transparency(false, Progress::Waiting, frames);
    crate::receive::lemma_ping_transparency(true, Progress::Waiting, frames);
}

fn single_answer(frames: Vec<OwResponse>) -> (r: Result<OwResponse, OwError>)
    ensures
        is_outcome(
            r,
            answer(false, response_views(frames@)),
            |a: OwResponse, v: ResponseView| a@ == v,
        ),
{
    receive(false, frames)
}

fn listing_answer(frames: Vec<OwResponse>) -> (r: Result<OwResponse, OwError>)
    ensures
        is_outcome(
            r,
            answer(true, response_views(frames@)),
            |a: OwResponse, v: ResponseView| a@ == v,
        ),
{
    receive(true, frames)
}

fn value_in(frames: Vec<OwResponse>) -> (r: Result<Vec<u8>, OwError>)
    ensures
        is_outcome(
            r,
            value_outcome(response_views(frames@)),
            |v: Vec<u8>, want: Seq<u8>| v@ == want,
        ),
{
    match single_answer(frames) {
        Ok(rcv) => {
            if rcv.payload > 0 {
                Ok(rcv.content)
            } else {
                Ok(Vec::new())
            }
        },
        Err(e) => Err(e),
    }
}

/// The final segment of a path: its last segment that is not empty, or the
/// empty text for a path without one.
pub fn last_segment(path: &str) -> (name: String)
    ensures
        name@ == final_segment(path@),
{
    let mut segments = split_text(path, '/');
    let ghost all = texts(segments@);
    let mut n: usize = segments.len();
    assert(all.take(n as int) =~= all);
    while n > 0
        invariant
            n <= segments@.len(),
            all == texts(segments@),
            all == split(path@, '/'),
            final_segment(path@) == last_filled(all.take(n as int)),
        decreases n,
    {
        proof {
            let upto = all.take(n as int);
            assert(upto.last() == segments@[n - 1]@);
            assert(upto.drop_last() =~= all.take(n - 1));
        }
        if !segments[n - 1].as_str().is_empty() {
            return segments.swap_remove(n - 1);
        }
        n = n - 1;
    }
    assert(all.take(0) =~= Seq::<Seq<char>>::empty());
    String::new()
}

/// The name of what a path leads to: its final segment up to the first dot.
pub fn basename(path: &str) -> (name: String)
    ensures
        name@ == basename_of(path@),
{
    let segment = last_segment(path);
    let mut parts = split_text(segment.as_str(), '.');
    parts.swap_remove(0)
}

fn convenience(name: &str) -> (b: bool)
    ensures
        b == is_convenience(name@),
{
    same_text(name, "address") || same_text(name, "crc8") || same_text(name, "family")
        || same_text(name, "id") || same_text(name, "locator") || same_text(name, "r_address")
        || same_text(name, "r_id") || same_text(name, "r_locator") || same_text(name, "type")
}

impl OwClient {
    /// Makes a client with the default configuration: the server at
    /// `localhost:4304`, default units and format, nothing switched on.
    pub fn new(token: Token) -> (client: OwClient)
        ensures
            client.token == token,
            client.owserver@ == "localhost:4304"@,
            client.listener is None,
            client.temperature == Temperature::DEFAULT,
            client.pressure == Pressure::DEFAULT,
            client.format == Format::DEFAULT,
            !client.slash && !client.hex && !client.bare && !client.prune && !client.persistence,
            client.size == 0 && client.offset == 0 && client.debug == 0,
            client.flags == flags_of(
                false,
                false,
                Temperature::DEFAULT,
                Pressure::DEFAULT,
                Format::DEFAULT,
            ),
    {
        let mut owc = OwClient {
            owserver: "localhost:4304".to_owned(),
            listener: None,
            token,
            temperature: Temperature::DEFAULT,
            pressure: Pressure::DEFAULT,
            format: Format::DEFAULT,
            size: 0,
            offset: 0,
            slash: false,
            hex: false,
            bare: false,
            prune: false,
            persistence: false,
            debug: 0,
            flags: 0,
        };
        owc.make_flags();
        owc
    }

    /// True where listings are bare: the convenience properties are left
    /// out of them. `prune` asks for a bare listing as `bare` does.
    pub open spec fn bare_listing(&self) -> bool {
        self.bare || self.prune
    }

    /// The flag word that this configuration asks for.
    pub open spec fn wanted_flags(&self) -> u32 {
        flags_of(self.bare, self.persistence, self.temperature, self.pressure, self.format)
    }

    /// Makes the flag word from the configuration. Nothing else changes.
    pub fn make_flags(&mut self)
        ensures
            final(self).flags == old(self).wanted_flags(),
            final(self).owserver == old(self).owserver,
            final(self).listener == old(self).listener,
            final(self).token == old(self).token,
            final(self).temperature == old(self).temperature,
            final(self).pressure == old(self).pressure,
            final(self).format == old(self).format,
            final(self).size == old(self).size,
            final(self).offset == old(self).offset,
            final(self).slash == old(self).slash,
            final(self).hex == old(self).hex,
            final(self).bare == old(self).bare,
            final(self).prune == old(self).prune,
            final(self).persistence == old(self).persistence,
            final(self).debug == old(self).debug,
    {
        self.flags = make_flag_word(
            self.bare,
            self.persistence,
            self.temperature,
            self.pressure,
            self.format,
        );
    }

    /// Builds the query for `op` on `path`, with `value` for a write, under
    /// the flags and the token of this client.
    ///
    /// Fails with `Text` if the path holds a zero byte, and with `Input` if
    /// path and value are too long for a payload.
    pub fn make_query(&self, op: Operation, path: &str, value: Option<&[u8]>) -> (r: Result<
        OwQuery,
        OwError,
    >)
        ensures
            built(
                r,
                self.flags,
                op.spec_tag(),
                Some(path.spec_bytes()),
                value_bytes(value),
                self.token@,
            ),
    {
        OwQuery::new(self.flags, op.tag(), Some(path), value, self.token)
    }

    /// The query that writes `value` to the property at `text`.
    pub fn make_write(&self, text: &str, value: &[u8]) -> (r: Result<OwQuery, OwError>)
        ensures
            built(r, self.flags, 3, Some(text.spec_bytes()), Some(value@), self.token@),
    {
        self.make_query(Operation::Write, text, Some(value))
    }

    /// The query that reads the property at `text`.
    pub fn make_read(&self, text: &str) -> (r: Result<OwQuery, OwError>)
        ensures
            built(r, self.flags, 2, Some(text.spec_bytes()), None, self.token@),
    {
        self.make_query(Operation::Read, text, None)
    }

    /// The query that lists the directory at `text` entry by entry.
    pub fn make_dir(&self, text: &str) -> (r: Result<OwQuery, OwError>)
        ensures
            built(r, self.flags, 4, Some(text.spec_bytes()), None, self.token@),
    {
        self.make_query(Operation::Dir, text, None)
    }

    /// The query that asks for the length of the property at `text`.
    pub fn make_size(&self, text: &str) -> (r: Result<OwQuery, OwError>)
        ensures
            built(r, self.flags, 5, Some(text.spec_bytes()), None, self.token@),
    {
        self.make_query(Operation::Size, text, None)
    }

    /// The query that asks whether the device at `text` is there.
    pub fn make_present(&self, text: &str) -> (r: Result<OwQuery, OwError>)
        ensures
            built(r, self.flags, 6, Some(text.spec_bytes()), None, self.token@),
    {
        self.make_query(Operation::Present, text, None)
    }

    /// The query that lists the directory at `text` in batches, with a
    /// slash behind each directory where the client is set so.
    pub fn make_dirall(&self, text: &str) -> (r: Result<OwQuery, OwError>)
        ensures
            built(
                r,
                self.flags,
                if self.slash {
                    9
                } else {
                    7
                },
                Some(text.spec_bytes()),
                None,
                self.token@,
            ),
    {
        if self.slash {
            self.make_dirallslash(text)
        } else {
            self.make_query(Operation::DirAll, text, None)
        }
    }

    /// The query that reads what is at `text`, property or directory, with a
    /// slash behind each directory where the client is set so.
    pub fn make_get(&self, text: &str) -> (r: Result<OwQuery, OwError>)
        ensures
            built(
                r,
                self.flags,
                if self.slash {
                    10
                } else {
                    8
                },
                Some(text.spec_bytes()),
                None,
                self.token@,
            ),
    {
        if self.slash {
            self.make_getslash(text)
        } else {
            self.make_query(Operation::Get, text, None)
        }
    }

    /// The query that lists the directory at `text` in batches, with a
    /// slash behind each directory.
    pub fn make_dirallslash(&self, text: &str) -> (r: Result<OwQuery, OwError>)
        ensures
            built(r, self.flags, 9, Some(text.spec_bytes()), None, self.token@),
    {
        self.make_query(Operation::DirAllSlash, text, None)
    }

    /// The query that reads what is at `text`, with a slash behind each
    /// directory.
    pub fn make_getslash(&self, text: &str) -> (r: Result<OwQuery, OwError>)
        ensures
            built(r, self.flags, 10, Some(text.spec_bytes()), None, self.token@),
    {
        self.make_query(Operation::GetSlash, text, None)
    }

    /// A connection for this client: to its server, persistent where the
    /// client is, and without a socket.
    pub fn connection<S>(&self) -> (stream: Stream<S>)
        ensures
            stream@.socket is None,
            stream@.persist == self.persistence,
            stream@.target == self.owserver@,
    {
        let mut stream = Stream::new();
        stream.set_target(self.owserver.as_str());
        stream.set_persistence(self.persistence);
        stream
    }

    /// The result of a read: the value in the first frame that is no
    /// keep-alive.
    pub fn read(&self, frames: Vec<OwResponse>) -> (r: Result<Vec<u8>, OwError>)
        ensures
            is_outcome(
                r,
                value_outcome(response_views(frames@)),
                |v: Vec<u8>, want: Seq<u8>| v@ == want,
            ),
    {
        value_in(frames)
    }

    /// The result of a get: the value or the listing in the first frame that
    /// is no keep-alive, as the server sent it.
    pub fn get(&self, frames: Vec<OwResponse>) -> (r: Result<Vec<u8>, OwError>)
        ensures
            is_outcome(
                r,
                value_outcome(response_views(frames@)),
                |v: Vec<u8>, want: Seq<u8>| v@ == want,
            ),
    {
        value_in(frames)
    }

    /// The result of a write: success if the server's return code is zero,
    /// else `Output` with the code.
    pub fn write(&self, frames: Vec<OwResponse>) -> (r: Result<(), OwError>)
        ensures
            is_outcome(r, write_outcome(response_views(frames@)), |v: (), want: ()| true),
    {
        match single_answer(frames) {
            Ok(rcv) => {
                if rcv.ret == 0 {
                    Ok(())
                } else {
                    Err(OwError::Output(rcv.ret))
                }
            },
            Err(e) => Err(e),
        }
    }

    /// The result of a presence test: true if the server's return code is
    /// zero.
    pub fn present(&self, frames: Vec<OwResponse>) -> (r: Result<bool, OwError>)
        ensures
            is_outcome(
                r,
                present_outcome(response_views(frames@)),
                |v: bool, want: bool| v == want,
            ),
    {
        match single_answer(frames) {
            Ok(rcv) => Ok(rcv.ret == 0),
            Err(e) => Err(e),
        }
    }

    /// The result of a size query: the length that the server returned, or
    /// `Output` with its code where that is negative.
    pub fn size(&self, frames: Vec<OwResponse>) -> (r: Result<i32, OwError>)
        ensures
            is_outcome(r, size_outcome(response_views(frames@)), |v: i32, want: i32| v == want),
    {
        match single_answer(frames) {
            Ok(rcv) => {
                if rcv.ret < 0 {
                    Err(OwError::Output(rcv.ret))
                } else {
                    Ok(rcv.ret)
                }
            },
            Err(e) => Err(e),
        }
    }

    /// The result of a directory call that the server answers entry by
    /// entry: the frames up to the closing one joined, and the listing in
    /// them as `dirboth` gives it.
    pub fn dir(&self, frames: Vec<OwResponse>) -> (r: Result<Vec<String>, OwError>)
        ensures
            is_outcome(
                r,
                dir_outcome(self.bare_listing(), response_views(frames@)),
                |v: Vec<String>, want: Seq<Seq<char>>| texts(v@) == want,
            ),
    {
        match listing_answer(frames) {
            Ok(rcv) => {
                let mut content = rcv.content;
                self.dirboth(&mut content)
            },
            Err(e) => Err(e),
        }
    }

    /// The result of a directory call that the server answers in batches:
    /// the frames up to the closing one joined, and the listing in them as
    /// `dirboth` gives it.
    pub fn dirall(&self, frames: Vec<OwResponse>) -> (r: Result<Vec<String>, OwError>)
        ensures
            is_outcome(
                r,
                dir_outcome(self.bare_listing(), response_views(frames@)),
                |v: Vec<String>, want: Seq<Seq<char>>| texts(v@) == want,
            ),
    {
        self.dir(frames)
    }

    /// Makes a listing of a directory content: takes the zero bytes out of
    /// `raw_dir`, reads the rest as text, and splits it at the commas. Where
    /// the client is set to a bare listing, by `bare` or by `prune`, the
    /// entries whose final path segment is a convenience property (`address`,
    /// `crc8`, `family`, `id`, `locator`, `r_address`, `r_id`, `r_locator`,
    /// `type`) are left out.
    ///
    /// Fails with `Text` if the content without its zero bytes is no UTF-8.
    pub fn dirboth(&self, raw_dir: &mut Vec<u8>) -> (r: Result<Vec<String>, OwError>)
        ensures
            final(raw_dir)@ == without_nul(old(raw_dir)@),
            is_outcome(
                r,
                listing(self.bare_listing(), old(raw_dir)@),
                |v: Vec<String>, want: Seq<Seq<char>>| texts(v@) == want,
            ),
    {
        let mut clean: Vec<u8> = Vec::new();
        let mut i: usize = 0;
        while i < raw_dir.len()
            invariant
                i <= raw_dir@.len(),
                raw_dir@ == old(raw_dir)@,
                clean@ == without_nul(raw_dir@.take(i as int)),
            decreases raw_dir@.len() - i,
        {
            let b: u8 = raw_dir[i];
            proof {
                reveal(Seq::filter);
                let upto = raw_dir@.take(i + 1);
                assert(upto.drop_last() =~= raw_dir@.take(i as int));
                assert(upto.last() == b);
            }
            if b != 0 {
                clean.push(b);
            }
            i = i + 1;
        }
        assert(raw_dir@.take(i as int) =~= raw_dir@);
        *raw_dir = clean;
        let text = match core::str::from_utf8(raw_dir.as_slice()) {
            Ok(text) => text,
            Err(_) => {
                return Err(OwError::Text("Utf8 Error".to_owned()));
            },
        };
        let entries = split_text(text, ',');
        if !(self.bare || self.prune) {
            return Ok(entries);
        }
        let ghost all = texts(entries@);
        let ghost keep = |e: Seq<char>| !is_convenience(final_segment(e));
        let mut kept: Vec<String> = Vec::new();
        for entry in it: entries
            invariant
                it.seq() == entries@,
                all == texts(entries@),
                keep == |e: Seq<char>| !is_convenience(final_segment(e)),
                texts(kept@) == all.take(it.index() as int).filter(keep),
        {
            proof {
                reveal(Seq::filter);
                let upto = all.take(it.index() + 1);
                assert(upto.drop_last() =~= all.take(it.index() as int));
                assert(upto.last() == entry@);
            }
            let name = last_segment(entry.as_str());
            if !convenience(name.as_str()) {
                kept.push(entry);
                assert(texts(kept@) =~= all.take(it.index() + 1).filter(keep));
            }
        }
        assert(all.take(all.len() as int) =~= all);
        Ok(kept)
    }

    /// Renders a value for the user: in hexadecimal where the client is set
    /// so, else as the text it is.
    ///
    /// Fails with `Text` if the value is to be shown as text and is no UTF-8.
    pub fn show_result(&self, v: Vec<u8>) -> (r: Result<String, OwError>)
        ensures
            self.hex ==> r is Ok && r.unwrap()@ == hex_dump(v@),
            !self.hex && valid_utf8(v@) ==> r is Ok && r.unwrap()@ == decode_utf8(v@),
            !self.hex && !valid_utf8(v@) ==> r matches Err(OwError::Text(_)),
    {
        if self.hex {
            Ok(hex_text(v.as_slice()))
        } else {
            match core::str::from_utf8(v.as_slice()) {
                Ok(text) => Ok(text.to_owned()),
                Err(_) => Err(OwError::Text("Utf8 Error".to_owned())),
            }
        }
    }

    /// Turns the value that the user typed for a write into bytes: the bytes
    /// of the text itself, or where the client is set to hexadecimal the
    /// bytes that the text writes, two digits to a byte.
    ///
    /// Fails with `Numeric` if hexadecimal text has an odd number of digits
    /// or holds anything but hexadecimal digits.
    pub fn input_to_write(&self, s: &str) -> (r: Result<Vec<u8>, OwError>)
        ensures
            !self.hex ==> r is Ok && r.unwrap()@ == s.spec_bytes(),
            self.hex ==> (r is Ok <==> s.spec_bytes().len() % 2 == 0 && all_hex(s.spec_bytes())),
            self.hex && r is Ok ==> r.unwrap()@ == hex_bytes(s.spec_bytes()),
            r is Err ==> r.unwrap_err() is Numeric,
    {
        let bytes = s.as_bytes();
        if !self.hex {
            return Ok(vstd::slice::slice_to_vec(bytes));
        }
        if bytes.len() % 2 != 0 {
            return Err(OwError::Numeric("Hex string should be an even length".to_owned()));
        }
        match parse_hex(bytes) {
            Some(v) => Ok(v),
            None => Err(OwError::Numeric("Bad hex characters".to_owned())),
        }
    }
}

} // verus!
