//! Error values of the library.

use vstd::prelude::*;

verus! {

/// What went wrong. The I/O and TLS variants carry the text of the
/// underlying error, which the network layer produces.
#[derive(Debug, Clone)]
pub enum Error {
    Io(String),
    Tls(String),
    Discovery(String),
    Protocol(String),
    Connection(String),
    Config(String),
    Platform(String),
    Clipboard(String),
    Certificate(String),
    Timeout,
    NotConnected,
    AlreadyConnected,
    InvalidMessage(String),
    PeerRejected(String),
    Unknown(String),
}

} // verus!
