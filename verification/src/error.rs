//! The error type shared by every part of the library.

use vstd::prelude::*;
use crate::text::push_decimal;
use crate::text::decimal;

verus! {

/// What a call of this library can fail with.
///
/// * `Io`: the transport failed (connect, read, write, timeout).
/// * `General` and `TopologyLoop`: the protocol was broken, by a malformed
///   frame or by a query that came back to a relay it already went through.
/// * `Output`: the server answered with this negative return code.
/// * `Text`, `Numeric`, `Input`, `Args`: a value handed in or received could
///   not be encoded or decoded.
#[derive(Debug, PartialEq, Eq)]
pub enum OwError {
    General(String),
    Input(String),
    Output(i32),
    Io(String),
    Args(String),
    Numeric(String),
    Text(String),
    TopologyLoop,
}

/// The message that `describe` gives for an error.
pub open spec fn description(e: OwError) -> Seq<char> {
    match e {
        OwError::General(m) => "An error: "@ + m@,
        OwError::Input(m) => "Input error: "@ + m@,
        OwError::Output(code) => "Output error: Return code from owserver is error "@ + decimal(
            code as int,
        ),
        OwError::Io(m) => "IO error: "@ + m@,
        OwError::Args(m) => "Args error: "@ + m@,
        OwError::Numeric(m) => "Non-numeric characters: "@ + m@,
        OwError::Text(m) => "Text conversion error: "@ + m@,
        OwError::TopologyLoop => "An error: Loop in owserver topology"@,
    }
}

impl OwError {
    /// The error as a line of text for the user.
    pub fn describe(&self) -> (text: String)
        ensures
            text@ == description(*self),
    {
        match self {
            OwError::General(m) => "An error: ".to_owned().concat(m.as_str()),
            OwError::Input(m) => "Input error: ".to_owned().concat(m.as_str()),
            OwError::Output(code) => {
                let mut text = "Output error: Return code from owserver is error ".to_owned();
                push_decimal(&mut text, *code as i64);
                text
            },
            OwError::Io(m) => "IO error: ".to_owned().concat(m.as_str()),
            OwError::Args(m) => "Args error: ".to_owned().concat(m.as_str()),
            OwError::Numeric(m) => "Non-numeric characters: ".to_owned().concat(m.as_str()),
            OwError::Text(m) => "Text conversion error: ".to_owned().concat(m.as_str()),
            OwError::TopologyLoop => "An error: Loop in owserver topology".to_owned(),
        }
    }

    /// True for the errors of the transport, after which a connection is
    /// dropped.
    pub fn is_transport(&self) -> (b: bool)
        ensures
            b == (*self is Io),
    {
        match self {
            OwError::Io(_) => true,
            _ => false,
        }
    }
}

} // verus!
