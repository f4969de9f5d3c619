//! Echo servers and a datagram client over TCP and UDP.
//!
//! The socket calls live with the program that drives these types. The
//! library holds the decisions: what each connection or datagram gets back,
//! when a worker or a loop stops, and which failure ends it.
use vstd::prelude::*;

pub mod tcp_server;
pub mod text;
pub mod udp_client;
pub mod udp_server;

verus! {

/// Size of the scratch buffer that every read or receive fills.
pub const BUFFER_LEN: usize = 1024;

/// The failures that end a server, a worker or the client.
#[derive(Clone, Copy, Debug, PartialEq, Eq, Structural)]
pub enum Failure {
    /// The local address could not be bound.
    Bind,
    /// Accepting a connection failed.
    Accept,
    /// A read or write on one TCP connection failed.
    ConnectionIo,
    /// A payload that is shown as text was not UTF-8.
    Decode,
    /// Sending or receiving a datagram failed.
    DatagramIo,
    /// Standard input failed or ended.
    Input,
}

/// A zeroed scratch buffer of `BUFFER_LEN` bytes.
pub fn fresh_buffer() -> (r: Vec<u8>)
    ensures
        r@ == Seq::new(BUFFER_LEN as nat, |i: int| 0u8),
{
    let mut r: Vec<u8> = Vec::new();
    let mut i: usize = 0;
    while i < BUFFER_LEN
        invariant
            i <= BUFFER_LEN,
            r@ == Seq::new(i as nat, |k: int| 0u8),
        decreases BUFFER_LEN - i,
    {
        r.push(0u8);
        i = i + 1;
        assert(r@ =~= Seq::new(i as nat, |k: int| 0u8));
    }
    r
}

} // verus!
