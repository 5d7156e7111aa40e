//! A connection to a peer: where the peer is, and the stream to it.

use crate::text::{decimal_text, push_decimal};
use vstd::prelude::*;
use vstd::string::StringExecFns;

verus! {

/// The address of a peer: an IPv4 host and a port.
#[derive(Clone, Copy, Debug, PartialEq, Eq, Structural)]
pub struct PeerAddress {
    /// The four bytes of the host, the first of them the most significant.
    pub host: u32,
    pub port: u16,
}

/// The byte of `host` at `place`, counted from the most significant, which is
/// at place 0.
pub open spec fn host_byte(host: u32, place: int) -> nat
    recommends
        0 <= place < 4,
{
    if place == 0 {
        (host as nat / 0x100_0000) % 0x100
    } else if place == 1 {
        (host as nat / 0x1_0000) % 0x100
    } else if place == 2 {
        (host as nat / 0x100) % 0x100
    } else {
        host as nat % 0x100
    }
}

/// An address as it is shown: the four bytes of the host in decimal with dots
/// between them, a colon and the port.
pub open spec fn shown(address: PeerAddress) -> Seq<char> {
    decimal_text(host_byte(address.host, 0)) + seq!['.'] + decimal_text(
        host_byte(address.host, 1),
    ) + seq!['.'] + decimal_text(host_byte(address.host, 2)) + seq!['.'] + decimal_text(
        host_byte(address.host, 3),
    ) + seq![':'] + decimal_text(address.port as nat)
}

impl PeerAddress {
    /// The address as it is shown, such as `127.0.0.1:9090`.
    pub fn to_string(&self) -> (line: String)
        ensures
            line@ == shown(*self),
    {
        proof {
            reveal_strlit(".");
            reveal_strlit(":");
            assert("."@ == seq!['.']);
            assert(":"@ == seq![':']);
        }
        let host = self.host;
        let mut line = String::new();
        push_decimal(((host / 0x100_0000) % 0x100) as u64, &mut line);
        line.append(".");
        push_decimal(((host / 0x1_0000) % 0x100) as u64, &mut line);
        line.append(".");
        push_decimal(((host / 0x100) % 0x100) as u64, &mut line);
        line.append(".");
        push_decimal((host % 0x100) as u64, &mut line);
        line.append(":");
        push_decimal(self.port as u64, &mut line);
        line
    }
}

/// One end of a byte stream to a peer, together with the peer's address.
///
/// The library never reads or writes the stream `S`. It only passes it on:
/// from whoever accepted or dialled it, through the waiting room, into a chat.
#[derive(Debug, PartialEq, Eq)]
pub struct Connection<S> {
    pub peer_address: PeerAddress,
    pub stream: S,
}

impl<S> Connection<S> {
    /// The connection over `stream` to the peer at `peer_address`.
    pub fn new(peer_address: PeerAddress, stream: S) -> (connection: Connection<S>)
        ensures
            connection == (Connection { peer_address, stream }),
    {
        Connection { peer_address, stream }
    }
}

} // verus!
