//! What the telegrams and decoded values of the library carry, stated byte
//! by byte with plain arithmetic: big-endian fields hold exactly the values
//! they were built from.

use vstd::prelude::*;
use crate::client::{
    client_wf, disconnected, iso_connection_accepted, iso_connection_request_bytes, negotiated_pdu,
    negotiation_response_ok, pdu_negotiation_request_bytes, rack_slot_tsap, transfer_start, ClientState,
};
use crate::error::fixed_message;
use crate::codec::{be16, be16_bytes, be32, hi_byte, lo_byte, top_byte};
use crate::error::S7Error;
use crate::iso::{iso_header, iso_packet_result};
use crate::tis::{
    cycle_time_result, timemeas_cycle_time_result, timemeas_payload_ok, tis_data_size, tis_param_size,
    CycleTimeInfo,
};
use crate::transfer::{
    addresses_fit, bit_index_fits, chunk_size, copy_into, element_address, item_error, read_copy_len,
    read_datasize, read_request_bytes, rw_body_result, rw_header_result, write_bits, write_chunk_fits,
    write_datasize, write_request_bytes, write_transport, WriteJobState,
};
use crate::userdata::userdata_request;

verus! {

/// Splitting a value into bytes and joining them back gives the value: two
/// bytes for values below 2^16, three for values below 2^24; and reading
/// bytes big-endian weighs them by 256.
pub proof fn law_byte_split(x: nat, h: u8, l: u8, b0: u8, b1: u8, b2: u8, b3: u8)
    ensures
        x < 65536 ==> hi_byte(x) as int * 256 + lo_byte(x) as int == x,
        x < 16777216 ==> top_byte(x) as int * 65536 + hi_byte(x) as int * 256 + lo_byte(x) as int == x,
        be16(h, l) == h as int * 256 + l as int,
        be32(b0, b1, b2, b3) == b0 as int * 16777216 + b1 as int * 65536 + b2 as int * 256 + b3 as int,
        be32(b0, b1, b2, b3) < 4294967296,
        be16_bytes(x).len() == 2,
        x < 65536 ==> be16_bytes(x)[0] as int * 256 + be16_bytes(x)[1] as int == x,
{
}

/// The OB1 statistics of a data block of at least 16 bytes are its four
/// big-endian 32-bit fields: cycle count, then min / max / current cycle
/// time in 0.1 ms units. A shorter block is rejected.
pub proof fn law_cycle_time_fields(d: Seq<u8>)
    ensures
        d.len() >= 16 ==> (cycle_time_result(d) matches Ok(c) && {
            &&& c.ob1_count as int == d[0] as int * 16777216 + d[1] as int * 65536 + d[2] as int * 256 + d[3] as int
            &&& c.min_tenths_ms as int == d[4] as int * 16777216 + d[5] as int * 65536 + d[6] as int * 256 + d[7] as int
            &&& c.max_tenths_ms as int == d[8] as int * 16777216 + d[9] as int * 65536 + d[10] as int * 256
                + d[11] as int
            &&& c.current_tenths_ms as int == d[12] as int * 16777216 + d[13] as int * 65536 + d[14] as int * 256
                + d[15] as int
        }),
        d.len() < 16 ==> cycle_time_result(d) == Err::<CycleTimeInfo, S7Error>(S7Error::IsoInvalidTelegram),
{
}

/// A TIMEMEAS payload with a 4-byte parameter block and a data block of at
/// least 16 bytes decodes to the four big-endian fields at payload bytes
/// 8..24.
pub proof fn law_cycle_time_from_payload(p: Seq<u8>)
    requires
        p.len() >= 8,
        p[0] == 0 && p[1] == 4,
        p[2] as int * 256 + p[3] as int >= 16,
        p.len() >= 8 + p[2] as int * 256 + p[3] as int,
    ensures
        timemeas_cycle_time_result(p) matches Ok(c) && {
            &&& c.ob1_count as int == p[8] as int * 16777216 + p[9] as int * 65536 + p[10] as int * 256
                + p[11] as int
            &&& c.min_tenths_ms as int == p[12] as int * 16777216 + p[13] as int * 65536 + p[14] as int * 256
                + p[15] as int
            &&& c.max_tenths_ms as int == p[16] as int * 16777216 + p[17] as int * 65536 + p[18] as int * 256
                + p[19] as int
            &&& c.current_tenths_ms as int == p[20] as int * 16777216 + p[21] as int * 65536 + p[22] as int
                * 256 + p[23] as int
        },
{
    let ds = p[2] as int * 256 + p[3] as int;
    let d = p.subrange(8, 8 + ds);
    law_cycle_time_fields(d);
}

/// The element address of a request: the bit index itself for bit access,
/// eight times the byte index otherwise.
pub proof fn law_element_address(wordlen: u8, index: nat)
    ensures
        wordlen == 0x01 ==> element_address(wordlen, index) == index,
        wordlen != 0x01 ==> element_address(wordlen, index) == 8 * index,
{
}

/// A chunk is what remains, capped at the payload limit.
pub proof fn law_chunk_size(remaining: nat, max: nat)
    ensures
        chunk_size(remaining, max) <= remaining,
        chunk_size(remaining, max) <= max,
        chunk_size(remaining, max) == remaining || chunk_size(remaining, max) == max,
{
}

/// A read request is 31 bytes with TPKT length 31, function 4 (read var),
/// and carries the word length, the element count, the DB number, the area
/// and the 24-bit start address big-endian.
pub proof fn law_read_request_fields(area: u8, db_number: u16, wordlen: u8, count: nat, address: nat)
    requires
        count < 65536,
        address < 16777216,
    ensures
        ({
            let r = read_request_bytes(area, db_number, wordlen, count, address);
            &&& r.len() == 31
            &&& r[0] == 0x03 && r[2] as int * 256 + r[3] as int == 31
            &&& r[7] == 0x32 && r[17] == 0x04
            &&& r[22] == wordlen
            &&& r[23] as int * 256 + r[24] as int == count
            &&& r[25] as int * 256 + r[26] as int == db_number
            &&& r[27] == area
            &&& r[28] as int * 65536 + r[29] as int * 256 + r[30] as int == address
        }),
{
}

/// A write request is its 35-byte header followed by the payload; the
/// header carries the total length, the data length (payload + 4),
/// function 5 (write var), the word length, the element count, the DB
/// number, the area, the 24-bit start address, the transport size, and the
/// payload size in bits (1 for a bit, 8 per byte otherwise, on 16 bits).
pub proof fn law_write_request_fields(
    area: u8,
    db_number: u16,
    wordlen: u8,
    transport: u8,
    address: nat,
    payload: Seq<u8>,
)
    requires
        payload.len() + 35 < 65536,
        address < 16777216,
    ensures
        ({
            let r = write_request_bytes(area, db_number, wordlen, transport, address, payload);
            let c = payload.len() as int;
            &&& r.len() == 35 + c
            &&& r[0] == 0x03 && r[2] as int * 256 + r[3] as int == 35 + c
            &&& r[7] == 0x32
            &&& r[15] as int * 256 + r[16] as int == c + 4
            &&& r[17] == 0x05
            &&& r[22] == wordlen
            &&& r[23] as int * 256 + r[24] as int == c
            &&& r[25] as int * 256 + r[26] as int == db_number
            &&& r[27] == area
            &&& r[28] as int * 65536 + r[29] as int * 256 + r[30] as int == address
            &&& r[32] == transport
            &&& wordlen == 0x01 ==> r[33] as int * 256 + r[34] as int == 1
            &&& wordlen != 0x01 ==> r[33] as int * 256 + r[34] as int == (8 * c) % 65536
            &&& wordlen != 0x01 && c <= 8191 ==> r[33] as int * 256 + r[34] as int == 8 * c
            &&& r.subrange(35, 35 + c) == payload
        }),
{
    let r = write_request_bytes(area, db_number, wordlen, transport, address, payload);
    assert(r.subrange(35, 35 + payload.len() as int) =~= payload);
}

/// The ISO connection request is 22 bytes with TPKT length 22, a COTP
/// connection request, and carries the local TSAP at bytes 16..18 and the
/// remote TSAP at bytes 20..22, big-endian.
pub proof fn law_iso_connection_request_fields(local_tsap: u16, remote_tsap: u16)
    ensures
        ({
            let r = iso_connection_request_bytes(local_tsap, remote_tsap);
            &&& r.len() == 22
            &&& r[0] == 0x03 && r[2] as int * 256 + r[3] as int == 22
            &&& r[5] == 0xE0
            &&& r[14] == 0xC1 && r[15] == 0x02
            &&& r[16] as int * 256 + r[17] as int == local_tsap
            &&& r[18] == 0xC2 && r[19] == 0x02
            &&& r[20] as int * 256 + r[21] as int == remote_tsap
        }),
{
}

/// The PDU negotiation request is 25 bytes with TPKT length 25 and asks for
/// a 480-byte PDU; the granted PDU is read big-endian at bytes 25..27 of the
/// answer.
pub proof fn law_pdu_negotiation_fields(resp: Seq<u8>)
    ensures
        ({
            let r = pdu_negotiation_request_bytes();
            &&& r.len() == 25
            &&& r[2] as int * 256 + r[3] as int == 25
            &&& r[7] == 0x32
            &&& r[23] as int * 256 + r[24] as int == 480
        }),
        negotiated_pdu(resp) == resp[25] as int * 256 + resp[26] as int,
{
}

/// The remote TSAP of a rack/slot connection: connection type in the high
/// byte, then `rack * 32 + slot`.
pub proof fn law_rack_slot_tsap(conn_type: u16, rack: u16, slot: u16)
    ensures
        conn_type < 256 ==> rack_slot_tsap(conn_type, rack, slot) == conn_type * 256 + rack * 32 + slot,
{
}

/// The header check accepts exactly a TPKT/COTP data header (0x03, .., 0x02,
/// 0xF0, 0x80) whose big-endian length leaves between 1 and `pdu_length`
/// bytes after it, and reports that number of bytes.
pub proof fn law_iso_packet(pdu_length: u16, h: Seq<u8>)
    requires
        h.len() == 7,
    ensures
        iso_packet_result(pdu_length, h) is Ok <==> {
            &&& h[0] == 0x03 && h[4] == 0x02 && h[5] == 0xF0 && h[6] == 0x80
            &&& 8 <= h[2] as int * 256 + h[3] as int <= pdu_length + 7
        },
        iso_packet_result(pdu_length, h) matches Ok(n) ==> n == h[2] as int * 256 + h[3] as int - 7,
        h[0] != 0x03 || h[4] != 0x02 || h[5] != 0xF0 ==> iso_packet_result(pdu_length, h) == Err::<usize, S7Error>(
            S7Error::IsoInvalidHeader,
        ),
        h[0] == 0x03 && h[4] == 0x02 && h[5] == 0xF0 && h[6] != 0x80 ==> iso_packet_result(pdu_length, h) == Err::<
            usize,
            S7Error,
        >(S7Error::IsoFragmentedPacket),
        forall|t: nat| t < 65536 ==> #[trigger] iso_header(t).len() == 7 && iso_header(t)[2] as int * 256
            + iso_header(t)[3] as int == t,
{
    assert forall|t: nat| t < 65536 implies #[trigger] iso_header(t).len() == 7 && iso_header(t)[2] as int * 256
        + iso_header(t)[3] as int == t by {
        law_byte_split(t, 0, 0, 0, 0, 0, 0);
    }
}

/// A userdata request carries its total length, PDU reference, parameter
/// length (8, or 12 for the continuation method 0x12), data length, method,
/// type|group, subfunction and sequence number at their fixed offsets, big-
/// endian, and ends with the data block.
pub proof fn law_userdata_request_fields(
    pdu_ref: u16,
    method: u8,
    type_group: u8,
    subfunc: u8,
    seq_num: u8,
    data: Seq<u8>,
)
    requires
        data.len() + 29 <= 65535,
    ensures
        ({
            let r = userdata_request(pdu_ref, method, type_group, subfunc, seq_num, data);
            let p: int = if method == 0x12 { 12 } else { 8 };
            &&& r.len() == 17 + p + data.len()
            &&& r[2] as int * 256 + r[3] as int == r.len()
            &&& r[7] == 0x32 && r[8] == 0x07
            &&& r[11] as int * 256 + r[12] as int == pdu_ref
            &&& r[13] as int * 256 + r[14] as int == p
            &&& r[15] as int * 256 + r[16] as int == data.len()
            &&& r[17] == 0x00 && r[18] == 0x01 && r[19] == 0x12
            &&& r[20] as int == p - 4
            &&& method == 0x12 ==> r[25] == 0 && r[26] == 0 && r[27] == 0 && r[28] == 0
            &&& r[21] == method && r[22] == type_group && r[23] == subfunc && r[24] == seq_num
            &&& r.subrange(17 + p, r.len() as int) == data
        }),
{
    let r = userdata_request(pdu_ref, method, type_group, subfunc, seq_num, data);
    let p: int = if method == 0x12 { 12 } else { 8 };
    law_byte_split((17 + p + data.len()) as nat, 0, 0, 0, 0, 0, 0);
    law_byte_split(pdu_ref as nat, 0, 0, 0, 0, 0, 0);
    law_byte_split(data.len(), 0, 0, 0, 0, 0, 0);
    assert(r.subrange(17 + p, r.len() as int) =~= data);
}

/// Item return codes: 0x0A is "not found", 0x05 "invalid address", any other
/// failure code is unspecified.
pub proof fn law_item_error(code: u8)
    ensures
        code == 0x0A ==> item_error(code) == S7Error::S7NotFound,
        code == 0x05 ==> item_error(code) == S7Error::S7InvalidAddress,
        code != 0x0A && code != 0x05 ==> item_error(code) == S7Error::S7Unspecified,
{
}

/// A byte transfer moves the whole buffer whenever it is addressable (in
/// particular every buffer of at most 65535 bytes); any other access moves
/// one element.
pub proof fn law_transfer_size(wordlen: u8, start: u16, len: usize)
    ensures
        wordlen == 0x02 && start as int + len as int <= 2097152 ==> read_datasize(wordlen, start, len) == len,
        wordlen == 0x02 && len <= 65535 ==> read_datasize(wordlen, start, len) == len,
        wordlen == 0x02 ==> read_datasize(wordlen, start, len) == len || read_datasize(wordlen, start, len) == 65535,
        wordlen != 0x02 ==> read_datasize(wordlen, start, len) == 1,
{
}

/// The payload size of a write in bits: 1 for a bit, 8 per byte otherwise.
pub proof fn law_write_bits(wordlen: u8, count: nat)
    ensures
        wordlen == 0x01 ==> write_bits(wordlen, count) == 1,
        wordlen != 0x01 && count <= 8191 ==> write_bits(wordlen, count) == 8 * count,
{
}

/// Copying `src` into `buf` at `off` replaces exactly the bytes
/// `off..off + src.len()` and keeps every other byte.
pub proof fn law_copy_into(buf: Seq<u8>, off: int, src: Seq<u8>)
    requires
        0 <= off,
        off + src.len() <= buf.len(),
    ensures
        copy_into(buf, off, src).len() == buf.len(),
        forall|k: int|
            0 <= k < buf.len() ==> #[trigger] copy_into(buf, off, src)[k] == if off <= k < off + src.len() {
                src[k - off]
            } else {
                buf[k]
            },
{
}

/// A read answer of `size` bytes contributes what follows its 18-byte
/// header, at most the chunk.
pub proof fn law_read_copy_len(size: usize, chunk: u16)
    requires
        size >= 18,
    ensures
        read_copy_len(size, chunk) == if size - 18 < chunk { size - 18 } else { chunk as int },
        0 <= read_copy_len(size, chunk) <= chunk,
        read_copy_len(size, chunk) <= size - 18,
{
}

/// The header of an answer is accepted exactly when the TPKT/COTP check
/// accepts it and announces at least `min` bytes.
pub proof fn law_rw_header(pdu_length: u16, h: Seq<u8>, min: usize)
    requires
        h.len() == 7,
    ensures
        rw_header_result(pdu_length, h, min) is Ok <==> {
            &&& h[0] == 0x03 && h[4] == 0x02 && h[5] == 0xF0 && h[6] == 0x80
            &&& 8 <= h[2] as int * 256 + h[3] as int <= pdu_length + 7
            &&& h[2] as int * 256 + h[3] as int - 7 >= min
        },
        rw_header_result(pdu_length, h, min) matches Ok(n) ==> n == h[2] as int * 256 + h[3] as int - 7,
        iso_packet_result(pdu_length, h) matches Err(e) ==> rw_header_result(pdu_length, h, min) == Err::<
            usize,
            S7Error,
        >(e),
{
    law_iso_packet(pdu_length, h);
}

/// The S7 part of an answer: too short for what the header announced is an
/// invalid telegram; otherwise the item return code at byte 14 decides:
/// 0xFF succeeds, 0x0A is "not found", 0x05 "invalid address", anything
/// else unspecified.
pub proof fn law_rw_body(resp: Seq<u8>, size: usize, expected: usize)
    requires
        resp.len() > 14,
    ensures
        size < expected ==> rw_body_result(resp, size, expected) == Err::<(), S7Error>(S7Error::IsoInvalidTelegram),
        size >= expected && resp[14] == 0xFF ==> rw_body_result(resp, size, expected) == Ok::<(), S7Error>(()),
        size >= expected && resp[14] == 0x0A ==> rw_body_result(resp, size, expected) == Err::<(), S7Error>(
            S7Error::S7NotFound,
        ),
        size >= expected && resp[14] == 0x05 ==> rw_body_result(resp, size, expected) == Err::<(), S7Error>(
            S7Error::S7InvalidAddress,
        ),
        size >= expected && resp[14] != 0xFF && resp[14] != 0x0A && resp[14] != 0x05 ==> rw_body_result(
            resp,
            size,
            expected,
        ) == Err::<(), S7Error>(S7Error::S7Unspecified),
{
}

/// A TIS response payload: parameter size at bytes 0..2, data size at 2..4
/// (big-endian); it is well formed when the 4-byte wrapper is there, the
/// parameter block holds at least the two registers, and both blocks are
/// complete.
pub proof fn law_timemeas_payload(p: Seq<u8>)
    requires
        p.len() >= 4,
    ensures
        tis_param_size(p) == p[0] as int * 256 + p[1] as int,
        tis_data_size(p) == p[2] as int * 256 + p[3] as int,
        timemeas_payload_ok(p) <==> {
            &&& p[0] as int * 256 + p[1] as int >= 4
            &&& p.len() >= 4 + p[0] as int * 256 + p[1] as int + p[2] as int * 256 + p[3] as int
        },
{
}

/// Answers to the handshake: the connection confirm (0xD0 at byte 5 of a
/// full 22-byte answer), and a negotiation answer of 27 bytes with the RFC
/// 1006 and S7 identifiers and no error class.
pub proof fn law_handshake_checks(resp: Seq<u8>, size: usize)
    ensures
        iso_connection_accepted(resp, size) <==> size >= 22 && resp[5] == 0xD0,
        negotiation_response_ok(resp, size) <==> size >= 27 && resp[0] == 0x03 && resp[7] == 0x32 && resp[17]
            == 0x00,
{
}

/// Session state: a job may start only on a connected client; closing keeps
/// every setting and only drops the connection; a connected client reads
/// `pdu_length - 18` and writes `pdu_length - 28` payload bytes per
/// telegram.
pub proof fn law_session(s: ClientState)
    ensures
        transfer_start(s) is Ok <==> s.connected,
        transfer_start(s) matches Err(e) ==> e == S7Error::NotConnected,
        !disconnected(s).connected,
        disconnected(s).port == s.port && disconnected(s).conn_type == s.conn_type && disconnected(s).pdu_length
            == s.pdu_length && disconnected(s).chunks == s.chunks && disconnected(s).co_timeout_ms == s.co_timeout_ms
            && disconnected(s).rd_timeout_ms == s.rd_timeout_ms && disconnected(s).wr_timeout_ms == s.wr_timeout_ms
            && disconnected(s).max_rd_pdu_data == s.max_rd_pdu_data && disconnected(s).max_wr_pdu_data
            == s.max_wr_pdu_data,
        client_wf(s) && s.connected ==> s.pdu_length >= 28 && s.max_rd_pdu_data + 18 == s.pdu_length
            && s.max_wr_pdu_data + 28 == s.pdu_length,
        !s.connected ==> client_wf(s),
{
}

/// Writes announce transport size 3 for a bit and 4 otherwise, move as many
/// elements as a read would, and the next chunk lies inside the source
/// buffer exactly when `offset + chunk <= len`.
pub proof fn law_write_job(wordlen: u8, start: u16, len: usize, j: WriteJobState, blen: nat)
    ensures
        wordlen == 0x01 ==> write_transport(wordlen) == 0x03,
        wordlen != 0x01 ==> write_transport(wordlen) == 0x04,
        write_datasize(wordlen, start, len) == read_datasize(wordlen, start, len),
        j.offset < j.datasize ==> (write_chunk_fits(j, blen) <==> j.offset + if j.datasize - j.offset
            < j.max_chunk { j.datasize - j.offset } else { j.max_chunk as int } <= blen),
        j.offset >= j.datasize ==> write_chunk_fits(j, blen),
{
}

/// Addresses: a transfer fits the 24-bit address field when its last
/// element's address does; a bit index is 16 bits when `byte * 8 + bit`
/// is.
pub proof fn law_addresses(wordlen: u8, start: u16, n: nat, byte_num: u16, bit_idx: u8)
    ensures
        n == 0 ==> addresses_fit(wordlen, start, n),
        n > 0 && wordlen == 0x01 ==> (addresses_fit(wordlen, start, n) <==> start + n - 1 <= 16777215),
        n > 0 && wordlen != 0x01 ==> (addresses_fit(wordlen, start, n) <==> 8 * (start + n - 1) <= 16777215),
        bit_index_fits(byte_num, bit_idx) <==> byte_num as int * 8 + bit_idx as int <= 65535,
{
}

/// The text of each error.
pub proof fn law_error_messages()
    ensures
        fixed_message(S7Error::NotConnected) == Some("Not connected"@),
        fixed_message(S7Error::TcpConnectionFailed) == Some("TCP connection failed"@),
        fixed_message(S7Error::ConnectionClosed) == Some("TCP connection closed by the peer"@),
        fixed_message(S7Error::IsoConnectionFailed) == Some("ISO-on-TCP connection failed"@),
        fixed_message(S7Error::IsoFragmentedPacket) == Some("Fragmented ISO Packet"@),
        fixed_message(S7Error::IsoInvalidHeader) == Some("Invalid ISO Header"@),
        fixed_message(S7Error::IsoInvalidTelegram) == Some("Invalid ISO Telegram"@),
        fixed_message(S7Error::PduNegotiationFailed) == Some("S7 PDU negotiation failed"@),
        fixed_message(S7Error::S7NotFound) == Some("S7 Resource not found in the CPU"@),
        fixed_message(S7Error::S7InvalidAddress) == Some("S7 Invalid address"@),
        fixed_message(S7Error::S7Unspecified) == Some("S7 unspecified error"@),
{
}

} // verus!
