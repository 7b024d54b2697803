//! Client, relay and message codec for the owserver protocol, the TCP
//! protocol by which the 1-wire file system serves directory listings and
//! property reads and writes of the attached devices.
//!
//! Everything here works on plain values: bytes, integers, strings and the
//! message types of this crate. Sockets, the command line and the console
//! belong to the program that links the library.

pub mod bus_thread;
pub mod client;
pub mod error;
pub mod flags;
pub mod header;
pub mod parse_args;
pub mod print_message;
pub mod query;
pub mod receive;
pub mod response;
pub mod rom_id;
pub mod server;
pub mod stream;
pub mod text;
pub mod token;
pub mod tree;

pub use crate::client::new;
pub use crate::client::OwClient;
pub use crate::error::OwError;
pub use crate::flags::Format;
pub use crate::flags::Pressure;
pub use crate::flags::Temperature;
pub use crate::print_message::PrintMessage;
pub use crate::query::OwQuery;
pub use crate::response::OwResponse;
pub use crate::token::Token;
