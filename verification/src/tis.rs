//! TIS ("Test and Installation") TIMEMEAS support for S7-300/400 cycle-time
//! reads.
//!
//! S7-300/400 CPUs expose no SZL with OB1 scan-cycle statistics; STEP 7
//! reads them with the TIS userdata subfunction TIMEMEAS (0x06, function
//! group 1 "Programmer commands"). The request parameters and the layout of
//! the response data block are best-effort reconstructions that have not
//! been confirmed against real hardware: treat a decoded `CycleTimeInfo` as
//! provisional.

use vstd::prelude::*;
use vstd::slice::{slice_subrange, slice_to_vec};
use crate::codec::{be16, be16_bytes, be32, make_u16, make_u32};
use crate::error::S7Error;
use crate::userdata::{build_userdata_request, userdata_request, USERDATA_METHOD_SHORT};

verus! {

/// TIS function group ("Programmer commands").
pub const TIS_FUNCGROUP: u8 = 0x01;
/// TIS subfunction TIMEMEAS ("Time measurement from to").
pub const TIS_SUBFUNC_TIMEMEAS: u8 = 0x06;
/// Packed `(type << 6) | funcgroup` byte of a TIS request: type REQ (1),
/// group TIS (1).
pub const TIS_TYPE_GROUP_REQ: u8 = 0x41;
/// PDU reference of TIMEMEAS requests (client-chosen, only echoed back).
pub const TIS_PDU_REF: u16 = 0x0013;
/// Data-block return code that the request carries as a filler.
pub const RES_SUCCESS: u8 = 0xFF;
/// Transport size OCTET_STRING.
pub const TRANSPORT_OCTET_STRING: u8 = 0x09;

/// Data block of a TIMEMEAS request: the generic userdata preamble (return
/// code, transport size, length of what follows), then the TIS wrapper
/// (parametersize = 4, datasize = 0) and the two zeroed TIS parameter
/// registers.
pub open spec fn timemeas_data_block() -> Seq<u8> {
    seq![RES_SUCCESS, TRANSPORT_OCTET_STRING, 0x00, 0x08, 0x00, 0x04, 0x00, 0x00, 0x00, 0x00, 0x00, 0x00]
}

/// The TIMEMEAS request telegram.
pub open spec fn timemeas_request() -> Seq<u8> {
    userdata_request(
        TIS_PDU_REF,
        USERDATA_METHOD_SHORT,
        TIS_TYPE_GROUP_REQ,
        TIS_SUBFUNC_TIMEMEAS,
        0x00,
        timemeas_data_block(),
    )
}

/// Builds the single-shot TIS TIMEMEAS request telegram (37 bytes).
pub fn build_timemeas_request() -> (r: Vec<u8>)
    ensures
        r@ == timemeas_request(),
        r@ == seq![
            0x03u8, 0x00, 0x00, 0x25, 0x02, 0xF0, 0x80,
            0x32, 0x07, 0x00, 0x00, 0x00, 0x13, 0x00, 0x08, 0x00, 0x0C,
            0x00, 0x01, 0x12, 0x04, 0x11, 0x41, 0x06, 0x00,
            0xFF, 0x09, 0x00, 0x08,
            0x00, 0x04, 0x00, 0x00, 0x00, 0x00, 0x00, 0x00,
        ],
{
    // TIS wrapper: parametersize (BE) + datasize (BE) + parameter block.
    let mut data_block: Vec<u8> = Vec::new();
    data_block.push(RES_SUCCESS);
    data_block.push(TRANSPORT_OCTET_STRING);
    data_block.push(0x00);
    data_block.push(0x08);
    data_block.push(0x00);
    data_block.push(0x04);
    data_block.push(0x00);
    data_block.push(0x00);
    data_block.push(0x00);
    data_block.push(0x00);
    data_block.push(0x00);
    data_block.push(0x00);
    assert(data_block@ =~= timemeas_data_block());
    let r = build_userdata_request(
        TIS_PDU_REF,
        USERDATA_METHOD_SHORT,
        TIS_TYPE_GROUP_REQ,
        TIS_SUBFUNC_TIMEMEAS,
        0x00,
        data_block.as_slice(),
    );
    assert(r@ =~= seq![
        0x03u8, 0x00, 0x00, 0x25, 0x02, 0xF0, 0x80,
        0x32, 0x07, 0x00, 0x00, 0x00, 0x13, 0x00, 0x08, 0x00, 0x0C,
        0x00, 0x01, 0x12, 0x04, 0x11, 0x41, 0x06, 0x00,
        0xFF, 0x09, 0x00, 0x08,
        0x00, 0x04, 0x00, 0x00, 0x00, 0x00, 0x00, 0x00,
    ]);
    r
}

/// Raw result of a TIS TIMEMEAS response, before any interpretation of its
/// data block.
#[derive(Debug, Clone, PartialEq, Eq)]
pub struct TimeMeasRaw {
    /// TIS response parameter register 1 (meaning unknown).
    pub res_param1: u16,
    /// TIS response parameter register 2 (meaning unknown).
    pub res_param2: u16,
    /// Raw response data-block bytes (layout undocumented).
    pub data: Vec<u8>,
}

/// Declared size of the TIS parameter block of a response payload.
pub open spec fn tis_param_size(p: Seq<u8>) -> int {
    be16(p[0], p[1]) as int
}

/// Declared size of the TIS data block of a response payload.
pub open spec fn tis_data_size(p: Seq<u8>) -> int {
    be16(p[2], p[3]) as int
}

/// A TIS response payload is well formed when it holds the 4-byte wrapper,
/// a parameter block of at least the two result registers, and both blocks
/// in full.
pub open spec fn timemeas_payload_ok(p: Seq<u8>) -> bool {
    &&& p.len() >= 4
    &&& tis_param_size(p) >= 4
    &&& p.len() >= 4 + tis_param_size(p) + tis_data_size(p)
}

/// Parses a TIS response payload into its two result registers and its raw
/// data block.
pub fn parse_timemeas_response(payload: &[u8]) -> (r: Result<TimeMeasRaw, S7Error>)
    ensures
        match r {
            Ok(raw) => {
                &&& timemeas_payload_ok(payload@)
                &&& raw.res_param1 == be16(payload@[4], payload@[5])
                &&& raw.res_param2 == be16(payload@[6], payload@[7])
                &&& raw.data@ == payload@.subrange(
                    4 + tis_param_size(payload@),
                    4 + tis_param_size(payload@) + tis_data_size(payload@),
                )
            },
            Err(e) => !timemeas_payload_ok(payload@) && e == S7Error::IsoInvalidTelegram,
        },
{
    if payload.len() < 4 {
        return Err(S7Error::IsoInvalidTelegram);
    }
    let param_size = make_u16(payload[0], payload[1]) as usize;
    let data_size = make_u16(payload[2], payload[3]) as usize;
    if param_size < 4 {
        return Err(S7Error::IsoInvalidTelegram);
    }
    let param_start: usize = 4;
    let param_end = param_start + param_size;
    if payload.len() < param_end {
        return Err(S7Error::IsoInvalidTelegram);
    }
    let res_param1 = make_u16(payload[param_start], payload[param_start + 1]);
    let res_param2 = make_u16(payload[param_start + 2], payload[param_start + 3]);
    let data_start = param_end;
    let data_end = data_start + data_size;
    if payload.len() < data_end {
        return Err(S7Error::IsoInvalidTelegram);
    }
    let data = slice_to_vec(slice_subrange(payload, data_start, data_end));
    Ok(TimeMeasRaw { res_param1, res_param2, data })
}

/// OB1 scan-cycle statistics as decoded from a TIMEMEAS data block. Times are
/// in units of 0.1 ms, as the CPU reports them.
#[derive(Debug, Clone, Copy, PartialEq, Eq, Structural)]
pub struct CycleTimeInfo {
    /// Number of OB1 cycles.
    pub ob1_count: u32,
    /// Shortest cycle time (0.1 ms units).
    pub min_tenths_ms: u32,
    /// Longest cycle time (0.1 ms units).
    pub max_tenths_ms: u32,
    /// Last cycle time (0.1 ms units).
    pub current_tenths_ms: u32,
}

/// Big-endian `u32` at byte `i` of `d`.
pub open spec fn be32_at(d: Seq<u8>, i: int) -> nat {
    be32(d[i], d[i + 1], d[i + 2], d[i + 3])
}

/// What `decode_cycle_time_guess` owes for a data block `d`: four big-endian
/// `u32` fields (`ob1_count`, then min / max / current in 0.1 ms units).
pub open spec fn cycle_time_result(d: Seq<u8>) -> Result<CycleTimeInfo, S7Error> {
    if d.len() < 16 {
        Err(S7Error::IsoInvalidTelegram)
    } else {
        Ok(CycleTimeInfo {
            ob1_count: be32_at(d, 0) as u32,
            min_tenths_ms: be32_at(d, 4) as u32,
            max_tenths_ms: be32_at(d, 8) as u32,
            current_tenths_ms: be32_at(d, 12) as u32,
        })
    }
}

/// Best-effort mapping of a TIMEMEAS data block onto `CycleTimeInfo`,
/// assuming the layout of SZL 0x0194 on S7-1200/1500. A block shorter than
/// 16 bytes is rejected rather than decoded.
pub fn decode_cycle_time_guess(data: &[u8]) -> (r: Result<CycleTimeInfo, S7Error>)
    ensures
        r == cycle_time_result(data@),
{
    if data.len() < 16 {
        return Err(S7Error::IsoInvalidTelegram);
    }
    Ok(CycleTimeInfo {
        ob1_count: make_u32(data[0], data[1], data[2], data[3]),
        min_tenths_ms: make_u32(data[4], data[5], data[6], data[7]),
        max_tenths_ms: make_u32(data[8], data[9], data[10], data[11]),
        current_tenths_ms: make_u32(data[12], data[13], data[14], data[15]),
    })
}

/// What `cycle_time_from_timemeas_payload` owes for a TIS response payload
/// `p`: the decoded data block of a well-formed payload, else
/// `IsoInvalidTelegram`.
pub open spec fn timemeas_cycle_time_result(p: Seq<u8>) -> Result<CycleTimeInfo, S7Error> {
    if !timemeas_payload_ok(p) {
        Err(S7Error::IsoInvalidTelegram)
    } else {
        cycle_time_result(p.subrange(4 + tis_param_size(p), 4 + tis_param_size(p) + tis_data_size(p)))
    }
}

/// Decodes the cycle-time statistics carried by a TIS TIMEMEAS response
/// payload: the payload is parsed, then its data block decoded. Errors from
/// either step are returned as they are.
pub fn cycle_time_from_timemeas_payload(payload: &[u8]) -> (r: Result<CycleTimeInfo, S7Error>)
    ensures
        r == timemeas_cycle_time_result(payload@),
{
    let raw = parse_timemeas_response(payload)?;
    decode_cycle_time_guess(raw.data.as_slice())
}

/// The TIS response payload carrying result registers `r1`, `r2` and the
/// data block `data` (parametersize = 4).
pub open spec fn timemeas_payload(r1: u16, r2: u16, data: Seq<u8>) -> Seq<u8> {
    be16_bytes(4) + be16_bytes(data.len()) + be16_bytes(r1 as nat) + be16_bytes(r2 as nat) + data
}

/// Parsing recovers what a response payload carries: for any registers and
/// any data block of at most 65535 bytes, the payload is well formed and
/// its registers and data block are exactly the ones encoded.
pub proof fn lemma_timemeas_payload_roundtrip(r1: u16, r2: u16, data: Seq<u8>)
    requires
        data.len() < 65536,
    ensures
        ({
            let p = timemeas_payload(r1, r2, data);
            &&& timemeas_payload_ok(p)
            &&& be16(p[4], p[5]) == r1
            &&& be16(p[6], p[7]) == r2
            &&& p.subrange(4 + tis_param_size(p), 4 + tis_param_size(p) + tis_data_size(p)) == data
        }),
{
    let p = timemeas_payload(r1, r2, data);
    crate::codec::lemma_be16_roundtrip(4);
    crate::codec::lemma_be16_roundtrip(data.len());
    crate::codec::lemma_be16_roundtrip(r1 as nat);
    crate::codec::lemma_be16_roundtrip(r2 as nat);
    assert(p.subrange(8, 8 + data.len() as int) =~= data);
}

/// The decoded cycle time depends on the first 16 bytes of the data block
/// only: bytes after them are ignored.
pub proof fn lemma_cycle_time_ignores_trailing_bytes(d: Seq<u8>, extra: Seq<u8>)
    requires
        d.len() >= 16,
    ensures
        cycle_time_result(d + extra) == cycle_time_result(d),
{
    let e = d + extra;
    assert(e[0] == d[0] && e[1] == d[1] && e[2] == d[2] && e[3] == d[3]);
    assert(e[4] == d[4] && e[5] == d[5] && e[6] == d[6] && e[7] == d[7]);
    assert(e[8] == d[8] && e[9] == d[9] && e[10] == d[10] && e[11] == d[11]);
    assert(e[12] == d[12] && e[13] == d[13] && e[14] == d[14] && e[15] == d[15]);
}

/// The TIMEMEAS request is well-formed framing: its TPKT length is its size
/// (37) and its header passes the coherence check for any PDU of at least
/// 30 bytes.
pub proof fn lemma_timemeas_request_framed(pdu_length: u16)
    requires
        pdu_length >= 30,
    ensures
        timemeas_request().len() == 37,
        be16(timemeas_request()[2], timemeas_request()[3]) == 37,
        crate::iso::iso_packet_result(pdu_length, timemeas_request().subrange(0, 7)) == Ok::<usize, S7Error>(30),
{
    crate::userdata::lemma_userdata_request_framed(
        TIS_PDU_REF,
        USERDATA_METHOD_SHORT,
        TIS_TYPE_GROUP_REQ,
        TIS_SUBFUNC_TIMEMEAS,
        0x00,
        timemeas_data_block(),
        pdu_length,
    );
}

} // verus!
