//! A two-route greeting service: the routing table, the replies of its
//! handlers, and the address it listens on, as plain values with proved
//! contracts. Binding a socket and writing replies to the wire is left to
//! the program that embeds the library.
use vstd::prelude::*;

pub mod reply;
pub mod routing;

verus! {

/// The address the service listens on: every network interface.
pub const LISTEN_HOST: &'static str = "0.0.0.0";

/// The port the service listens on.
pub const LISTEN_PORT: u16 = 8090;

} // verus!
