//! The error type of every fallible operation of the library.

use vstd::prelude::*;

verus! {

#[verifier::external_type_specification]
#[verifier::external_body]
pub struct ExIoError(std::io::Error);

/// Why an S7 operation failed.
#[derive(Debug)]
pub enum S7Error {
    /// A network I/O error.
    Io(std::io::Error),
    /// The client is not connected.
    NotConnected,
    /// The TCP connection could not be established.
    TcpConnectionFailed,
    /// The peer closed the TCP connection.
    ConnectionClosed,
    /// The ISO-on-TCP connection request was refused.
    IsoConnectionFailed,
    /// The ISO packet is fragmented (no end-of-transmission mark).
    IsoFragmentedPacket,
    /// The TPKT/COTP header is not the expected one.
    IsoInvalidHeader,
    /// The telegram length is inconsistent.
    IsoInvalidTelegram,
    /// The S7 PDU negotiation failed.
    PduNegotiationFailed,
    /// The resource was not found in the CPU (e.g. a DB that does not exist).
    S7NotFound,
    /// Invalid address (out of range, or an optimized DB).
    S7InvalidAddress,
    /// Any other S7 error code.
    S7Unspecified,
    /// Free-text error.
    Other(String),
}

impl From<std::io::Error> for S7Error {
    fn from(err: std::io::Error) -> (r: S7Error) {
        S7Error::Io(err)
    }
}

impl vstd::std_specs::convert::FromSpecImpl<std::io::Error> for S7Error {
    open spec fn obeys_from_spec() -> bool {
        true
    }

    open spec fn from_spec(v: std::io::Error) -> S7Error {
        S7Error::Io(v)
    }
}

/// The fixed text of each error; `None` for the two variants whose text
/// depends on the value they carry.
pub open spec fn fixed_message(e: S7Error) -> Option<Seq<char>> {
    match e {
        S7Error::Io(_) => None,
        S7Error::NotConnected => Some("Not connected"@),
        S7Error::TcpConnectionFailed => Some("TCP connection failed"@),
        S7Error::ConnectionClosed => Some("TCP connection closed by the peer"@),
        S7Error::IsoConnectionFailed => Some("ISO-on-TCP connection failed"@),
        S7Error::IsoFragmentedPacket => Some("Fragmented ISO Packet"@),
        S7Error::IsoInvalidHeader => Some("Invalid ISO Header"@),
        S7Error::IsoInvalidTelegram => Some("Invalid ISO Telegram"@),
        S7Error::PduNegotiationFailed => Some("S7 PDU negotiation failed"@),
        S7Error::S7NotFound => Some("S7 Resource not found in the CPU"@),
        S7Error::S7InvalidAddress => Some("S7 Invalid address"@),
        S7Error::S7Unspecified => Some("S7 unspecified error"@),
        S7Error::Other(_) => None,
    }
}

impl S7Error {
    /// Human-readable description of the error.
    pub fn to_string(&self) -> (r: String)
        ensures
            fixed_message(*self) matches Some(m) ==> r@ == m,
            self matches S7Error::Other(msg) ==> r@ == msg@,
            self matches S7Error::Io(x) ==> exists|d: String|
                vstd::string::to_string_from_display_ensures::<std::io::Error>(&x, d) && r@ == "IO error: "@ + d@,
    {
        match self {
            S7Error::Io(e) => {
                let mut s = String::from_str("IO error: ");
                let detail = e.to_string();
                s.append(detail.as_str());
                assert(s@ =~= "IO error: "@ + detail@);
                s
            },
            S7Error::NotConnected => String::from_str("Not connected"),
            S7Error::TcpConnectionFailed => String::from_str("TCP connection failed"),
            S7Error::ConnectionClosed => String::from_str("TCP connection closed by the peer"),
            S7Error::IsoConnectionFailed => String::from_str("ISO-on-TCP connection failed"),
            S7Error::IsoFragmentedPacket => String::from_str("Fragmented ISO Packet"),
            S7Error::IsoInvalidHeader => String::from_str("Invalid ISO Header"),
            S7Error::IsoInvalidTelegram => String::from_str("Invalid ISO Telegram"),
            S7Error::PduNegotiationFailed => String::from_str("S7 PDU negotiation failed"),
            S7Error::S7NotFound => String::from_str("S7 Resource not found in the CPU"),
            S7Error::S7InvalidAddress => String::from_str("S7 Invalid address"),
            S7Error::S7Unspecified => String::from_str("S7 unspecified error"),
            S7Error::Other(msg) => msg.clone(),
        }
    }
}

} // verus!
