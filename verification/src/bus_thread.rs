//! The bus actor: one hardware adapter behind a queue of commands, each
//! answered on the channel that came with it.
//!
//! The library holds the messages and says which operation of the adapter a
//! command stands for; the program runs the thread and moves the messages.

use vstd::prelude::*;
use std::sync::mpsc::Receiver;
use std::sync::mpsc::Sender;
use crate::error::OwError;

verus! {

/// The sending half of a std channel; the library passes it on and never
/// looks inside.
#[verifier::external_type_specification]
#[verifier::external_body]
#[verifier::reject_recursive_types(T)]
pub struct ExSender<T>(std::sync::mpsc::Sender<T>);

/// The receiving half of a std channel; the library passes it on and never
/// looks inside.
#[verifier::external_type_specification]
#[verifier::external_body]
#[verifier::reject_recursive_types(T)]
pub struct ExReceiver<T>(std::sync::mpsc::Receiver<T>);

/// What a bus can be asked to do.
#[derive(Debug, Clone, PartialEq, Eq)]
pub enum BusCmd {
    /// Reset the bus and look for a presence pulse.
    Reset,
    /// Report the state of the adapter.
    Status,
    /// Name the adapter.
    Description,
    /// Write the bytes to the bus.
    Write(Vec<u8>),
    /// Reset the bus, then write the bytes.
    RWrite(Vec<u8>),
}

/// What a bus answers.
#[derive(Debug, Clone, PartialEq, Eq)]
pub enum BusReturn {
    /// The command failed.
    Bad,
    Bool(bool),
    Bytes(Vec<u8>),
    String(String),
}

/// A command on its way to a bus, with the channel for the answer.
pub struct BusQuery {
    pub cmd: BusCmd,
    pub my_tx: Sender<BusReturn>,
}

/// The outside of a bus: the channel on which it takes commands.
pub struct BusHandle {
    pub tx: Sender<BusQuery>,
}

/// The buses of a server.
pub struct BusList {
    pub list: Vec<BusHandle>,
}

/// `std::sync::mpsc::channel` makes a channel: what is sent into the first
/// half comes out of the second.
#[verifier::external_body]
fn reply_channel() -> (ends: (Sender<BusReturn>, Receiver<BusReturn>)) {
    std::sync::mpsc::channel()
}

/// `Sender::send` of std puts a value into a channel; it fails when the
/// receiving half is gone. The answer says whether it went in.
#[verifier::external_body]
fn post(tx: &Sender<BusQuery>, query: BusQuery) -> (sent: bool) {
    tx.send(query).is_ok()
}

/// `Receiver::recv` of std waits for the next value of a channel; it fails
/// when every sending half is gone and nothing is left. Which value comes is
/// up to the thread at the other end.
#[verifier::external_body]
fn await_reply(rx: &Receiver<BusReturn>) -> (reply: Option<BusReturn>) {
    rx.recv().ok()
}

/// What `BusQuery::send` makes of what came back on the reply channel: the
/// answer, or `General` where the bus hung up without one.
pub fn reply_result(reply: Option<BusReturn>) -> (r: Result<BusReturn, OwError>)
    ensures
        match reply {
            Some(v) => r == Ok::<BusReturn, OwError>(v),
            None => r matches Err(OwError::General(_)),
        },
{
    match reply {
        Some(v) => Ok(v),
        None => Err(OwError::General("No answer from the bus".to_owned())),
    }
}

impl BusQuery {
    /// A command with the channel on which its answer is awaited.
    pub fn new(cmd: BusCmd, my_tx: Sender<BusReturn>) -> (query: BusQuery)
        ensures
            query.cmd == cmd,
            query.my_tx == my_tx,
    {
        BusQuery { cmd, my_tx }
    }

    /// Sends a command to a bus and waits for its answer. What the answer
    /// is, the bus decides. Fails with `General` if the bus is gone, before
    /// or after it took the command.
    pub fn send(cmd: BusCmd, bus: &BusHandle) -> (r: Result<BusReturn, OwError>)
        ensures
            r is Err ==> r.unwrap_err() is General,
    {
        let (my_tx, my_rx) = reply_channel();
        let query = BusQuery::new(cmd, my_tx);
        if !post(&bus.tx, query) {
            return Err(OwError::General("Unable to reach the bus".to_owned()));
        }
        reply_result(await_reply(&my_rx))
    }
}

impl BusList {
    /// A list without buses.
    pub fn new() -> (buses: BusList)
        ensures
            buses.list@ == Seq::<BusHandle>::empty(),
    {
        BusList { list: Vec::new() }
    }

    /// Adds a bus at the end of the list.
    pub fn add(&mut self, bus: BusHandle)
        ensures
            final(self).list@ == old(self).list@.push(bus),
    {
        self.list.push(bus)
    }

    /// The number of buses.
    pub fn len(&self) -> (n: usize)
        ensures
            n == self.list@.len(),
    {
        self.list.len()
    }
}

/// The name of an adapter that gives none.
pub open spec fn unnamed() -> Seq<char> {
    "Unspecified 1-wire bus"@
}

/// True for the description of an adapter that gives no name.
pub open spec fn is_unnamed(r: Result<BusReturn, OwError>) -> bool {
    r matches Ok(BusReturn::String(name)) && name@ == unnamed()
}

/// What an adapter answers to `Description` unless it knows better.
pub fn default_description() -> (r: BusReturn)
    ensures
        r matches BusReturn::String(name) && name@ == unnamed(),
{
    BusReturn::String("Unspecified 1-wire bus".to_owned())
}

/// The answer that goes back for a command: what the adapter answered, or
/// `Bad` where the command failed.
pub fn reply_of(r: Result<BusReturn, OwError>) -> (reply: BusReturn)
    ensures
        reply == reply_value(r),
{
    match r {
        Ok(v) => v,
        Err(_) => BusReturn::Bad,
    }
}

/// A hardware adapter. An implementation gives `reset`, `status` and
/// `write`, and may say in the `_spec` functions what they do; where it says
/// nothing, nothing is claimed. `reset_write` and `command` are built from
/// these operations, and what they do is stated in terms of them.
pub trait BusThread: Sized {
    /// What a reset may make of the adapter, and answer.
    open spec fn reset_spec(&self, after: &Self, r: Result<BusReturn, OwError>) -> bool {
        true
    }

    /// What a status query may answer.
    open spec fn status_spec(&self, r: Result<BusReturn, OwError>) -> bool {
        true
    }

    /// What an adapter that names itself may answer when asked for its
    /// name.
    open spec fn description_spec(&self, r: Result<BusReturn, OwError>) -> bool {
        true
    }

    /// What writing `data` may make of the adapter, and answer.
    open spec fn write_spec(
        &self,
        data: Seq<u8>,
        after: &Self,
        r: Result<BusReturn, OwError>,
    ) -> bool {
        true
    }

    /// Resets the bus; the answer says whether a device showed itself.
    fn reset(&mut self) -> (r: Result<BusReturn, OwError>)
        ensures
            old(self).reset_spec(final(self), r),
    ;

    /// Reports the state of the adapter.
    fn status(&self) -> (r: Result<BusReturn, OwError>)
        ensures
            self.status_spec(r),
    ;

    /// Names the adapter: with the name of an adapter that gives none,
    /// unless the implementation names it itself.
    fn description(&self) -> (r: Result<BusReturn, OwError>)
        ensures
            is_unnamed(r) || self.description_spec(r),
    {
        Ok(default_description())
    }

    /// Writes `data` to the bus.
    fn write(&mut self, data: Vec<u8>) -> (r: Result<BusReturn, OwError>)
        ensures
            old(self).write_spec(data@, final(self), r),
    ;

    /// Resets the bus and, unless that failed, writes `data` to the adapter
    /// as the reset left it. A failed reset is the result, and nothing is
    /// written.
    fn reset_write(&mut self, data: Vec<u8>) -> (r: Result<BusReturn, OwError>)
        ensures
            exists|mid: Self, first: Result<BusReturn, OwError>| #[trigger]
                old(self).reset_spec(&mid, first) && match first {
                    Ok(_) => mid.write_spec(data@, final(self), r),
                    Err(e) => *final(self) == mid && r == Err::<BusReturn, OwError>(e),
                },
    {
        match self.reset() {
            Ok(_) => self.write(data),
            Err(e) => Err(e),
        }
    }

    /// Carries out a command by the operation that it names: the result and
    /// the adapter afterwards are what that operation makes of them. A
    /// status query and a description leave the adapter as it was.
    fn command(&mut self, cmd: BusCmd) -> (r: Result<BusReturn, OwError>)
        ensures
            match cmd {
                BusCmd::Reset => old(self).reset_spec(final(self), r),
                BusCmd::Status => *final(self) == *old(self) && old(self).status_spec(r),
                BusCmd::Description => *final(self) == *old(self) && (is_unnamed(r) || old(
                    self,
                ).description_spec(r)),
                BusCmd::Write(data) => old(self).write_spec(data@, final(self), r),
                BusCmd::RWrite(data) => exists|mid: Self, first: Result<BusReturn, OwError>|
                    #[trigger] old(self).reset_spec(&mid, first) && match first {
                        Ok(_) => mid.write_spec(data@, final(self), r),
                        Err(e) => *final(self) == mid && r == Err::<BusReturn, OwError>(e),
                    },
            },
    {
        match cmd {
            BusCmd::Reset => self.reset(),
            BusCmd::Status => self.status(),
            BusCmd::Description => self.description(),
            BusCmd::Write(data) => self.write(data),
            BusCmd::RWrite(data) => self.reset_write(data),
        }
    }
}

/// Carries out a command on a bus and gives the answer that goes back: what
/// the operation that the command names answered, or `Bad` where it failed.
/// The adapter is left as that operation left it.
pub fn answer<B: BusThread>(bus: &mut B, cmd: BusCmd) -> (reply: BusReturn)
    ensures
        exists|r: Result<BusReturn, OwError>| #[trigger]
            command_spec(*old(bus), cmd, *final(bus), r) && reply == reply_value(r),
{
    let r = bus.command(cmd);
    assert(command_spec(*old(bus), cmd, *bus, r));
    reply_of(r)
}

/// The answer that goes back for the result of a command.
pub open spec fn reply_value(r: Result<BusReturn, OwError>) -> BusReturn {
    match r {
        Ok(v) => v,
        Err(_) => BusReturn::Bad,
    }
}

/// What a reset followed by a write may make of an adapter: the error of
/// the reset, with the adapter as the reset left it; or what the write
/// makes of the adapter that the reset left.
pub open spec fn reset_write_spec<B: BusThread>(
    before: B,
    data: Seq<u8>,
    after: B,
    r: Result<BusReturn, OwError>,
) -> bool {
    exists|mid: B, first: Result<BusReturn, OwError>| #[trigger]
        before.reset_spec(&mid, first) && match first {
            Ok(_) => mid.write_spec(data, &after, r),
            Err(e) => after == mid && r == Err::<BusReturn, OwError>(e),
        }
}

/// What a command may make of an adapter, and answer: what the operation
/// that it names makes of them.
pub open spec fn command_spec<B: BusThread>(
    before: B,
    cmd: BusCmd,
    after: B,
    r: Result<BusReturn, OwError>,
) -> bool {
    match cmd {
        BusCmd::Reset => before.reset_spec(&after, r),
        BusCmd::Status => after == before && before.status_spec(r),
        BusCmd::Description => after == before && (is_unnamed(r) || before.description_spec(r)),
        BusCmd::Write(data) => before.write_spec(data@, &after, r),
        BusCmd::RWrite(data) => reset_write_spec(before, data@, after, r),
    }
}

} // verus!
