//! Client configuration and session state, and the connection handshake
//! (ISO-on-TCP connection request and S7 PDU negotiation).

use vstd::prelude::*;
use crate::codec::{be16, hi_byte, hi_part, lo_byte, lo_part, make_u16};
use crate::error::S7Error;
use crate::iso::ISO_ID;
use crate::userdata::S7_ID;

verus! {

/// Connection type: as a programming device (default).
pub const CT_PG: u16 = 0x0001;
/// Connection type: as an HMI.
pub const CT_OP: u16 = 0x0002;
/// Connection type: as a generic S7 device.
pub const CT_S7: u16 = 0x0003;

/// Area: process inputs.
pub const S7_AREA_PE: u8 = 0x81;
/// Area: process outputs.
pub const S7_AREA_PA: u8 = 0x82;
/// Area: merkers.
pub const S7_AREA_MK: u8 = 0x83;
/// Area: data block.
pub const S7_AREA_DB: u8 = 0x84;

/// Word length: bit access.
pub const S7_WL_BIT: u8 = 0x01;
/// Word length: byte access.
pub const S7_WL_BYTE: u8 = 0x02;

/// Default TCP port of the S7 protocol.
pub const DEFAULT_PORT: u16 = 102;
/// PDU length that the client asks for in the negotiation.
pub const PDU_LEN_REQ: u16 = 480;
/// Size of the ISO connection request telegram (and of its answer).
pub const ISO_CR_LEN: usize = 22;
/// COTP "connection request".
pub const ISO_CONN_REQ: u8 = 0xE0;
/// COTP "connection confirm".
pub const ISO_CONN_OK: u8 = 0xD0;
/// Size of the PDU negotiation request telegram.
pub const ISO_PN_REQ_LEN: usize = 25;
/// Size of the PDU negotiation response telegram.
pub const ISO_PN_RES_LEN: usize = 27;
/// Header overhead of an S7 read response.
pub const READ_RES_LEN: usize = 18;
/// Header overhead of an S7 write request.
pub const WRITE_REQ_OVERHEAD: u16 = 28;

/// The client's configuration and session state as a plain value.
pub struct ClientState {
    pub port: u16,
    pub co_timeout_ms: u64,
    pub rd_timeout_ms: u64,
    pub wr_timeout_ms: u64,
    pub conn_type: u16,
    /// Largest read payload per telegram.
    pub max_rd_pdu_data: u16,
    /// Largest write payload per telegram.
    pub max_wr_pdu_data: u16,
    /// PDU length negotiated by the CPU.
    pub pdu_length: u16,
    pub connected: bool,
    /// Number of telegrams that the last read or write was split into.
    pub chunks: usize,
}

/// Configuration and session state of an S7 client. The socket itself is
/// held by the caller, which performs the I/O that this state decides on.
pub struct S7Client {
    port: u16,
    co_timeout_ms: u64,
    rd_timeout_ms: u64,
    wr_timeout_ms: u64,
    conn_type: u16,
    max_rd_pdu_data: u16,
    max_wr_pdu_data: u16,
    pdu_length: u16,
    connected: bool,
    chunks: usize,
}

impl View for S7Client {
    type V = ClientState;

    closed spec fn view(&self) -> ClientState {
        ClientState {
            port: self.port,
            co_timeout_ms: self.co_timeout_ms,
            rd_timeout_ms: self.rd_timeout_ms,
            wr_timeout_ms: self.wr_timeout_ms,
            conn_type: self.conn_type,
            max_rd_pdu_data: self.max_rd_pdu_data,
            max_wr_pdu_data: self.max_wr_pdu_data,
            pdu_length: self.pdu_length,
            connected: self.connected,
            chunks: self.chunks,
        }
    }
}

/// A connected client always works with the payload limits derived from the
/// negotiated PDU length (18 bytes of read response header, 28 bytes of
/// write request header).
pub open spec fn client_wf(s: ClientState) -> bool {
    s.connected ==> {
        &&& s.pdu_length >= WRITE_REQ_OVERHEAD
        &&& s.max_rd_pdu_data == s.pdu_length - READ_RES_LEN
        &&& s.max_wr_pdu_data == s.pdu_length - WRITE_REQ_OVERHEAD
    }
}

/// The session state once the connection is closed (or a new one is being
/// opened).
pub open spec fn disconnected(s: ClientState) -> ClientState {
    ClientState { connected: false, ..s }
}

/// Whether a read or write job may start from state `s`.
pub open spec fn transfer_start(s: ClientState) -> Result<(), S7Error> {
    if s.connected {
        Ok(())
    } else {
        Err(S7Error::NotConnected)
    }
}

/// Once the client is disconnected, every read and write is refused with
/// `NotConnected` until a new connection succeeds.
pub proof fn lemma_disconnected_refuses_transfers(s: ClientState)
    ensures
        transfer_start(disconnected(s)) == Err::<(), S7Error>(S7Error::NotConnected),
{
}

/// The remote TSAP that a rack/slot connection asks for:
/// `(conn_type << 8) + rack * 0x20 + slot`, the shift keeping 16 bits.
pub open spec fn rack_slot_tsap(conn_type: u16, rack: u16, slot: u16) -> int {
    (conn_type as int * 256) % 65536 + rack as int * 32 + slot as int
}

impl S7Client {
    /// A disconnected client with the default settings: port 102, timeouts
    /// 3000 / 1000 / 500 ms, connection type `CT_PG`.
    pub fn new() -> (r: Self)
        ensures
            r@ == (ClientState {
                port: DEFAULT_PORT,
                co_timeout_ms: 3000,
                rd_timeout_ms: 1000,
                wr_timeout_ms: 500,
                conn_type: CT_PG,
                max_rd_pdu_data: 0,
                max_wr_pdu_data: 0,
                pdu_length: 0,
                connected: false,
                chunks: 0,
            }),
            client_wf(r@),
    {
        S7Client {
            port: DEFAULT_PORT,
            co_timeout_ms: 3000,
            rd_timeout_ms: 1000,
            wr_timeout_ms: 500,
            conn_type: CT_PG,
            max_rd_pdu_data: 0,
            max_wr_pdu_data: 0,
            pdu_length: 0,
            connected: false,
            chunks: 0,
        }
    }

    /// Sets the S7 connection type (`CT_PG`, `CT_OP` or `CT_S7`) used by the
    /// next rack/slot connection.
    pub fn set_connection_type(&mut self, connection_type: u16)
        ensures
            final(self)@ == (ClientState { conn_type: connection_type, ..old(self)@ }),
    {
        self.conn_type = connection_type;
    }

    /// Sets the connection, read and write timeouts (ms); a zero value
    /// leaves the corresponding timeout unchanged.
    pub fn set_timeout(&mut self, co_timeout_ms: u64, rd_timeout_ms: u64, wr_timeout_ms: u64)
        ensures
            final(self)@ == (ClientState {
                co_timeout_ms: if co_timeout_ms > 0 { co_timeout_ms } else { old(self)@.co_timeout_ms },
                rd_timeout_ms: if rd_timeout_ms > 0 { rd_timeout_ms } else { old(self)@.rd_timeout_ms },
                wr_timeout_ms: if wr_timeout_ms > 0 { wr_timeout_ms } else { old(self)@.wr_timeout_ms },
                ..old(self)@
            }),
    {
        if co_timeout_ms > 0 {
            self.co_timeout_ms = co_timeout_ms;
        }
        if rd_timeout_ms > 0 {
            self.rd_timeout_ms = rd_timeout_ms;
        }
        if wr_timeout_ms > 0 {
            self.wr_timeout_ms = wr_timeout_ms;
        }
    }

    /// Sets the TCP port; zero is ignored.
    pub fn set_connection_port(&mut self, port: u16)
        ensures
            final(self)@ == (ClientState {
                port: if port > 0 { port } else { old(self)@.port },
                ..old(self)@
            }),
    {
        if port > 0 {
            self.port = port;
        }
    }

    /// TCP port.
    pub fn port(&self) -> (r: u16)
        ensures
            r == self@.port,
    {
        self.port
    }

    /// TCP connection timeout (ms).
    pub fn co_timeout_ms(&self) -> (r: u64)
        ensures
            r == self@.co_timeout_ms,
    {
        self.co_timeout_ms
    }

    /// Read timeout (ms).
    pub fn rd_timeout_ms(&self) -> (r: u64)
        ensures
            r == self@.rd_timeout_ms,
    {
        self.rd_timeout_ms
    }

    /// Write timeout (ms).
    pub fn wr_timeout_ms(&self) -> (r: u64)
        ensures
            r == self@.wr_timeout_ms,
    {
        self.wr_timeout_ms
    }

    /// Connection type.
    pub fn connection_type(&self) -> (r: u16)
        ensures
            r == self@.conn_type,
    {
        self.conn_type
    }

    /// PDU length negotiated by the CPU.
    pub fn pdu_length(&self) -> (r: u16)
        ensures
            r == self@.pdu_length,
    {
        self.pdu_length
    }

    /// Whether the client is connected.
    pub fn connected(&self) -> (r: bool)
        ensures
            r == self@.connected,
    {
        self.connected
    }

    /// Number of telegrams that the last read or write was split into.
    pub fn chunks(&self) -> (r: usize)
        ensures
            r == self@.chunks,
    {
        self.chunks
    }

    /// Remote TSAP for a CPU at `rack` / `slot`, from the connection type.
    pub fn remote_tsap(&self, rack: u16, slot: u16) -> (r: u16)
        requires
            rack_slot_tsap(self@.conn_type, rack, slot) <= u16::MAX,
        ensures
            r == rack_slot_tsap(self@.conn_type, rack, slot),
    {
        let shifted: u16 = ((self.conn_type as u32 * 256) % 65536) as u16;
        shifted + rack * 0x20 + slot
    }

    /// Marks the start of a connection attempt: the client is disconnected
    /// until the PDU negotiation succeeds.
    pub fn begin_connect(&mut self)
        ensures
            final(self)@ == disconnected(old(self)@),
            client_wf(final(self)@),
    {
        self.connected = false;
    }

    /// Completes a connection from the PDU negotiation response (`size` bytes
    /// received into `resp`). On success the client is connected with the
    /// negotiated PDU length; otherwise it stays disconnected.
    pub fn accept_pdu_negotiation(&mut self, resp: &[u8; ISO_PN_RES_LEN], size: usize) -> (r: Result<(), S7Error>)
        requires
            negotiation_response_ok(resp@, size) ==> negotiated_pdu(resp@) == 0
                || negotiated_pdu(resp@) >= WRITE_REQ_OVERHEAD,
        ensures
            client_wf(final(self)@),
            !negotiation_response_ok(resp@, size) ==> {
                &&& r == Err::<(), S7Error>(S7Error::PduNegotiationFailed)
                &&& final(self)@ == disconnected(old(self)@)
            },
            negotiation_response_ok(resp@, size) && negotiated_pdu(resp@) == 0 ==> {
                &&& r == Err::<(), S7Error>(S7Error::PduNegotiationFailed)
                &&& final(self)@ == (ClientState { connected: false, pdu_length: 0, ..old(self)@ })
            },
            negotiation_response_ok(resp@, size) && negotiated_pdu(resp@) != 0 ==> {
                &&& r == Ok::<(), S7Error>(())
                &&& final(self)@ == (ClientState {
                    connected: true,
                    pdu_length: negotiated_pdu(resp@) as u16,
                    max_rd_pdu_data: (negotiated_pdu(resp@) - READ_RES_LEN) as u16,
                    max_wr_pdu_data: (negotiated_pdu(resp@) - WRITE_REQ_OVERHEAD) as u16,
                    ..old(self)@
                })
            },
    {
        self.connected = false;
        if !pdu_negotiation_response_ok(resp, size) {
            return Err(S7Error::PduNegotiationFailed);
        }
        let pdu = make_u16(resp[25], resp[26]);
        self.pdu_length = pdu;
        if pdu == 0 {
            return Err(S7Error::PduNegotiationFailed);
        }
        self.max_rd_pdu_data = pdu - 18;
        self.max_wr_pdu_data = pdu - 28;
        self.connected = true;
        Ok(())
    }

    /// Closes the session; returns whether a connection was open (and so
    /// its socket must be shut down).
    pub fn disconnect(&mut self) -> (r: bool)
        ensures
            r == old(self)@.connected,
            final(self)@ == disconnected(old(self)@),
            client_wf(final(self)@),
    {
        if self.connected {
            self.connected = false;
            true
        } else {
            false
        }
    }

    /// Resets the chunk counter at the start of a read or write job; fails
    /// when the client is not connected.
    pub(crate) fn begin_transfer(&mut self) -> (r: Result<(), S7Error>)
        ensures
            final(self)@ == (ClientState { chunks: 0, ..old(self)@ }),
            r == transfer_start(old(self)@),
    {
        self.chunks = 0;
        if !self.connected {
            return Err(S7Error::NotConnected);
        }
        Ok(())
    }

    /// Counts one more telegram of the current job.
    pub(crate) fn count_chunk(&mut self)
        requires
            old(self)@.chunks < usize::MAX,
        ensures
            final(self)@ == (ClientState { chunks: (old(self)@.chunks + 1) as usize, ..old(self)@ }),
    {
        self.chunks = self.chunks + 1;
    }

    /// Largest read payload per telegram.
    pub(crate) fn max_rd_pdu_data(&self) -> (r: u16)
        ensures
            r == self@.max_rd_pdu_data,
    {
        self.max_rd_pdu_data
    }

    /// Largest write payload per telegram.
    pub(crate) fn max_wr_pdu_data(&self) -> (r: u16)
        ensures
            r == self@.max_wr_pdu_data,
    {
        self.max_wr_pdu_data
    }
}

/// The ISO connection request telegram (TPKT + COTP CR with the two TSAPs).
pub open spec fn iso_connection_request_bytes(local_tsap: u16, remote_tsap: u16) -> Seq<u8> {
    seq![
        ISO_ID, 0x00, 0x00, 0x16,
        0x11, ISO_CONN_REQ, 0x00, 0x00, 0x00, 0x01, 0x00,
        0xC0, 0x01, 0x0A,
        0xC1, 0x02, hi_byte(local_tsap as nat), lo_byte(local_tsap as nat),
        0xC2, 0x02, hi_byte(remote_tsap as nat), lo_byte(remote_tsap as nat),
    ]
}

/// Builds the ISO-on-TCP connection request for the given TSAPs.
pub fn iso_connection_request(local_tsap: u16, remote_tsap: u16) -> (r: [u8; ISO_CR_LEN])
    ensures
        r@ == iso_connection_request_bytes(local_tsap, remote_tsap),
{
    let r: [u8; ISO_CR_LEN] = [
        ISO_ID, 0x00, hi_part(ISO_CR_LEN), lo_part(ISO_CR_LEN),
        0x11, ISO_CONN_REQ, 0x00, 0x00, 0x00, 0x01, 0x00,
        0xC0, 0x01, 0x0A,
        0xC1, 0x02, hi_part(local_tsap as usize), lo_part(local_tsap as usize),
        0xC2, 0x02, hi_part(remote_tsap as usize), lo_part(remote_tsap as usize),
    ];
    assert(r@ =~= iso_connection_request_bytes(local_tsap, remote_tsap));
    r
}

/// The ISO connection is accepted when the full answer arrived and it is a
/// connection confirm.
pub open spec fn iso_connection_accepted(resp: Seq<u8>, size: usize) -> bool {
    size >= ISO_CR_LEN && resp[5] == ISO_CONN_OK
}

/// Checks the answer (`size` bytes received into `resp`) to the ISO
/// connection request.
pub fn check_iso_connection_response(resp: &[u8; ISO_CR_LEN], size: usize) -> (r: Result<(), S7Error>)
    ensures
        r == (if iso_connection_accepted(resp@, size) {
            Ok::<(), S7Error>(())
        } else {
            Err(S7Error::IsoConnectionFailed)
        }),
{
    if size < ISO_CR_LEN || resp[5] != ISO_CONN_OK {
        return Err(S7Error::IsoConnectionFailed);
    }
    Ok(())
}

/// The S7 PDU negotiation request, asking for `PDU_LEN_REQ` bytes.
pub open spec fn pdu_negotiation_request_bytes() -> Seq<u8> {
    seq![
        ISO_ID, 0x00, 0x00, 0x19, 0x02, 0xF0, 0x80,
        S7_ID, 0x01, 0x00, 0x00, 0x04, 0x00, 0x00, 0x08, 0x00,
        0x00, 0xF0, 0x00, 0x00, 0x01, 0x00, 0x01,
        hi_byte(PDU_LEN_REQ as nat), lo_byte(PDU_LEN_REQ as nat),
    ]
}

/// Builds the S7 PDU negotiation request telegram.
pub fn pdu_negotiation_request() -> (r: [u8; ISO_PN_REQ_LEN])
    ensures
        r@ == pdu_negotiation_request_bytes(),
{
    let r: [u8; ISO_PN_REQ_LEN] = [
        ISO_ID, 0x00, 0x00, 0x19, 0x02, 0xF0, 0x80,
        S7_ID, 0x01, 0x00, 0x00, 0x04, 0x00, 0x00, 0x08, 0x00,
        0x00, 0xF0, 0x00, 0x00, 0x01, 0x00, 0x01,
        hi_part(PDU_LEN_REQ as usize), lo_part(PDU_LEN_REQ as usize),
    ];
    assert(r@ =~= pdu_negotiation_request_bytes());
    r
}

/// The negotiation answer is usable when it arrived in full and carries the
/// RFC 1006 and S7 identifiers and no error class.
pub open spec fn negotiation_response_ok(resp: Seq<u8>, size: usize) -> bool {
    size >= ISO_PN_RES_LEN && resp[0] == ISO_ID && resp[7] == S7_ID && resp[17] == 0x00
}

/// The PDU length that the CPU granted.
pub open spec fn negotiated_pdu(resp: Seq<u8>) -> nat {
    be16(resp[25], resp[26])
}

/// Whether the negotiation answer (`size` bytes in `resp`) is usable.
pub fn pdu_negotiation_response_ok(resp: &[u8; ISO_PN_RES_LEN], size: usize) -> (r: bool)
    ensures
        r == negotiation_response_ok(resp@, size),
{
    !(size < ISO_PN_RES_LEN || resp[0] != ISO_ID || resp[7] != S7_ID || resp[17] != 0x00)
}

/// The PDU length that the negotiation answer grants.
pub fn negotiated_pdu_length(resp: &[u8; ISO_PN_RES_LEN]) -> (r: u16)
    ensures
        r == negotiated_pdu(resp@),
{
    make_u16(resp[25], resp[26])
}

} // verus!
