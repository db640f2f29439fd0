//! TPKT (RFC 1006) + COTP framing shared by every telegram.

use vstd::prelude::*;
use crate::codec::{be16, hi_byte, lo_byte, lemma_be16_roundtrip, make_u16};
use crate::error::S7Error;

verus! {

/// Length of the TPKT + COTP header that starts every telegram.
pub const TPKT_ISO_LEN: usize = 7;
/// RFC 1006 protocol identifier.
pub const ISO_ID: u8 = 0x03;
/// ISO end-of-transmission mark.
pub const EOT: u8 = 0x80;
/// COTP header length of a data telegram.
pub const COTP_LEN: u8 = 0x02;
/// COTP PDU type "data transfer".
pub const COTP_DT: u8 = 0xF0;

/// The result that `check_iso_packet` owes for a header `h` when at most
/// `pdu_length` bytes of S7 payload may follow.
pub open spec fn iso_packet_result(pdu_length: u16, h: Seq<u8>) -> Result<usize, S7Error> {
    if h[0] != ISO_ID || h[4] != COTP_LEN || h[5] != COTP_DT {
        Err(S7Error::IsoInvalidHeader)
    } else if h[6] != EOT {
        Err(S7Error::IsoFragmentedPacket)
    } else {
        let telegram_length = be16(h[2], h[3]);
        if telegram_length < 7 || telegram_length - 7 > pdu_length || telegram_length - 7 == 0 {
            Err(S7Error::IsoInvalidTelegram)
        } else {
            Ok((telegram_length - 7) as usize)
        }
    }
}

/// The TPKT + COTP header of a data telegram whose total length is `total`.
pub open spec fn iso_header(total: nat) -> Seq<u8> {
    seq![ISO_ID, 0x00, hi_byte(total), lo_byte(total), COTP_LEN, COTP_DT, EOT]
}

/// Checks the coherence of an incoming TPKT + COTP header and returns the
/// number of telegram bytes that remain to be read after it.
///
/// Typically a PLC never sends incorrect values, but a fragmented
/// transmission can leave unrelated data in the buffer.
pub fn check_iso_packet(pdu_length: u16, iso_packet: &mut [u8; TPKT_ISO_LEN]) -> (r: Result<usize, S7Error>)
    ensures
        r == iso_packet_result(pdu_length, old(iso_packet)@),
        r matches Ok(n) ==> 0 < n <= pdu_length,
        final(iso_packet)@ == old(iso_packet)@,
{
    if iso_packet[0] != ISO_ID || iso_packet[4] != COTP_LEN || iso_packet[5] != COTP_DT {
        return Err(S7Error::IsoInvalidHeader);
    }
    if iso_packet[6] != EOT {
        return Err(S7Error::IsoFragmentedPacket);
    }
    let telegram_length: usize = make_u16(iso_packet[2], iso_packet[3]) as usize;
    if telegram_length < TPKT_ISO_LEN || telegram_length - TPKT_ISO_LEN > pdu_length as usize
        || telegram_length - TPKT_ISO_LEN == 0 {
        return Err(S7Error::IsoInvalidTelegram);
    }
    Ok(telegram_length - TPKT_ISO_LEN)
}

/// Every telegram header that the library writes is accepted on reception:
/// for a total length `total` in 8..=65535 whose payload fits in
/// `pdu_length`, the check reports exactly the payload length.
pub proof fn lemma_iso_header_accepted(total: nat, pdu_length: u16)
    requires
        8 <= total < 65536,
        total - 7 <= pdu_length,
    ensures
        iso_packet_result(pdu_length, iso_header(total)) == Ok::<usize, S7Error>((total - 7) as usize),
{
    lemma_be16_roundtrip(total);
}

} // verus!
