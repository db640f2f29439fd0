//! The ROSCTR 0x07 ("Userdata") request envelope shared by every function
//! group (SZL reads, TIS programmer commands, ...).

use vstd::prelude::*;
use crate::codec::{append_bytes, be16, be16_bytes, hi_part, lo_part};
use crate::error::S7Error;
use crate::iso::{iso_header, iso_packet_result, lemma_iso_header_accepted, COTP_DT, COTP_LEN, EOT, ISO_ID};

verus! {

/// S7 protocol identifier.
pub const S7_ID: u8 = 0x32;
/// ROSCTR of a userdata telegram.
pub const ROSCTR_USERDATA: u8 = 0x07;
/// Single-shot (or first) request: 8-byte parameter block.
pub const USERDATA_METHOD_SHORT: u8 = 0x11;
/// Continuation request: 12-byte parameter block.
pub const USERDATA_METHOD_EXT: u8 = 0x12;

/// Parameter block of a userdata request: function, item count, item type,
/// item length, method, type|group, subfunction, sequence number, and for
/// the continuation method the four zeroed dataUnitRef / lastDataUnit /
/// errorCode bytes.
pub open spec fn userdata_param(method: u8, type_group: u8, subfunc: u8, seq_num: u8) -> Seq<u8> {
    if method == USERDATA_METHOD_EXT {
        seq![0x00u8, 0x01, 0x12, 0x08, method, type_group, subfunc, seq_num, 0x00, 0x00, 0x00, 0x00]
    } else {
        seq![0x00u8, 0x01, 0x12, 0x04, method, type_group, subfunc, seq_num]
    }
}

/// The complete userdata request telegram: TPKT + COTP header, 10-byte S7
/// header, parameter block, data block.
pub open spec fn userdata_request(
    pdu_ref: u16,
    method: u8,
    type_group: u8,
    subfunc: u8,
    seq_num: u8,
    data: Seq<u8>,
) -> Seq<u8> {
    let param = userdata_param(method, type_group, subfunc, seq_num);
    let total = 17 + param.len() + data.len();
    iso_header(total) + seq![S7_ID, ROSCTR_USERDATA, 0x00, 0x00] + be16_bytes(pdu_ref as nat)
        + be16_bytes(param.len()) + be16_bytes(data.len()) + param + data
}

/// Builds a userdata request telegram around the function-group-specific
/// data block `data`.
pub fn build_userdata_request(
    pdu_ref: u16,
    method: u8,
    type_group: u8,
    subfunc: u8,
    seq_num: u8,
    data: &[u8],
) -> (r: Vec<u8>)
    requires
        data@.len() + 29 <= 65535,
    ensures
        r@ == userdata_request(pdu_ref, method, type_group, subfunc, seq_num, data@),
{
    let ext = method == USERDATA_METHOD_EXT;
    let param_len: usize = if ext { 12 } else { 8 };
    let total: usize = 17 + param_len + data.len();
    let mut r: Vec<u8> = Vec::new();
    r.push(ISO_ID);
    r.push(0x00);
    r.push(hi_part(total));
    r.push(lo_part(total));
    r.push(COTP_LEN);
    r.push(COTP_DT);
    r.push(EOT);
    r.push(S7_ID);
    r.push(ROSCTR_USERDATA);
    r.push(0x00);
    r.push(0x00);
    r.push(hi_part(pdu_ref as usize));
    r.push(lo_part(pdu_ref as usize));
    r.push(hi_part(param_len));
    r.push(lo_part(param_len));
    r.push(hi_part(data.len()));
    r.push(lo_part(data.len()));
    r.push(0x00);
    r.push(0x01);
    r.push(0x12);
    r.push(if ext { 0x08 } else { 0x04 });
    r.push(method);
    r.push(type_group);
    r.push(subfunc);
    r.push(seq_num);
    if ext {
        r.push(0x00);
        r.push(0x00);
        r.push(0x00);
        r.push(0x00);
    }
    let ghost head = r@;
    append_bytes(&mut r, data);
    assert(head =~= iso_header(total as nat) + seq![S7_ID, ROSCTR_USERDATA, 0x00, 0x00]
        + be16_bytes(pdu_ref as nat) + be16_bytes(param_len as nat) + be16_bytes(data@.len())
        + userdata_param(method, type_group, subfunc, seq_num));
    r
}

/// Every userdata request is framed consistently: its TPKT length is its
/// size, and its header passes the coherence check of `check_iso_packet`
/// whenever its S7 part fits `pdu_length`.
pub proof fn lemma_userdata_request_framed(
    pdu_ref: u16,
    method: u8,
    type_group: u8,
    subfunc: u8,
    seq_num: u8,
    data: Seq<u8>,
    pdu_length: u16,
)
    requires
        data.len() + 29 <= 65535,
        userdata_request(pdu_ref, method, type_group, subfunc, seq_num, data).len() - 7 <= pdu_length,
    ensures
        ({
            let r = userdata_request(pdu_ref, method, type_group, subfunc, seq_num, data);
            &&& be16(r[2], r[3]) == r.len()
            &&& iso_packet_result(pdu_length, r.subrange(0, 7)) == Ok::<usize, S7Error>((r.len() - 7) as usize)
        }),
{
    let r = userdata_request(pdu_ref, method, type_group, subfunc, seq_num, data);
    let param = userdata_param(method, type_group, subfunc, seq_num);
    crate::codec::lemma_be16_roundtrip(17 + param.len() + data.len());
    assert(r.subrange(0, 7) =~= iso_header(r.len()));
    lemma_iso_header_accepted(r.len(), pdu_length);
}

} // verus!
