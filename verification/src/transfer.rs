//! Chunked read and write jobs on an S7 memory area.
//!
//! A job is a state machine: the client asks it for the next request
//! telegram, the caller sends it and hands back the 7-byte ISO header of the
//! answer, then the answer itself. Large blocks are split into chunks that
//! fit the negotiated PDU.

use vstd::prelude::*;
use vstd::slice::{slice_subrange, slice_to_vec};
use crate::client::{transfer_start, ClientState, S7Client, READ_RES_LEN, S7_WL_BIT, S7_WL_BYTE};
use crate::codec::{append_bytes, be16, hi_byte, hi_part, lo_byte, lo_part, top_byte, top_part};
use crate::error::S7Error;
use crate::iso::{check_iso_packet, iso_packet_result, ISO_ID, TPKT_ISO_LEN};
use crate::userdata::S7_ID;

verus! {

/// Size of a read request telegram (TPKT + ISO + S7 headers).
pub const READ_REQ_LEN: usize = 31;
/// Header size of a write request telegram (before the payload).
pub const WRITE_REQ_HEADER_LEN: usize = 35;
/// Shortest S7 part of a write answer.
pub const WRITE_RES_LEN: usize = 15;
/// Offset of the item return code in an answer.
pub const RW_RES_OFFSET: usize = 14;
/// Size of the buffer that an answer is received into.
pub const RESPONSE_BUF_LEN: usize = 480;
/// Item return code: success.
pub const RES_SUCCESS: u8 = 0xFF;
/// Item return code: invalid address.
pub const RES_INVALID_ADDRESS: u8 = 0x05;
/// Item return code: resource not found.
pub const RES_NOT_FOUND: u8 = 0x0A;
/// Transport size of a bit write.
pub const TS_RES_BIT: u8 = 0x03;
/// Transport size of a byte write.
pub const TS_RES_BYTE: u8 = 0x04;

/// Where a job stands in the exchange of one chunk.
#[derive(PartialEq, Eq, Structural, Clone, Copy, Debug)]
pub enum Phase {
    /// No chunk in flight: the next request may be built.
    Ready,
    /// A request was sent: the ISO header of its answer is awaited.
    AwaitingHeader,
    /// The header was accepted: the S7 part of the answer is awaited.
    AwaitingBody,
}

/// The S7 error reported by an item return code other than success.
pub open spec fn item_error(code: u8) -> S7Error {
    if code == RES_NOT_FOUND {
        S7Error::S7NotFound
    } else if code == RES_INVALID_ADDRESS {
        S7Error::S7InvalidAddress
    } else {
        S7Error::S7Unspecified
    }
}

/// Checks the ISO header of an answer; `min` is the shortest S7 part that
/// the job accepts.
pub open spec fn rw_header_result(pdu_length: u16, h: Seq<u8>, min: usize) -> Result<usize, S7Error> {
    match iso_packet_result(pdu_length, h) {
        Ok(n) => if n < min { Err(S7Error::IsoInvalidTelegram) } else { Ok(n) },
        Err(e) => Err(e),
    }
}

/// Checks the S7 part of an answer: `size` bytes were received into `resp`
/// and the ISO header announced `expected`.
pub open spec fn rw_body_result(resp: Seq<u8>, size: usize, expected: usize) -> Result<(), S7Error> {
    if size < expected {
        Err(S7Error::IsoInvalidTelegram)
    } else if resp[RW_RES_OFFSET as int] != RES_SUCCESS {
        Err(item_error(resp[RW_RES_OFFSET as int]))
    } else {
        Ok(())
    }
}

/// Address field of a request: a bit index for bit access, otherwise the
/// element index times 8.
pub open spec fn element_address(wordlen: u8, index: nat) -> nat {
    if wordlen == S7_WL_BIT { index } else { index * 8 }
}

/// Largest value of the 24-bit address field of a request.
pub const MAX_ADDRESS: u64 = 0xFF_FFFF;

/// Every element of a transfer of `datasize` elements from `start` has an
/// address that the 24-bit address field can carry.
pub open spec fn addresses_fit(wordlen: u8, start: u16, datasize: nat) -> bool {
    datasize == 0 || element_address(wordlen, (start + datasize - 1) as nat) <= MAX_ADDRESS
}

/// Number of elements that a read or write from element `start` transfers
/// for a buffer of `len` bytes: for byte access the whole buffer when every
/// byte of it is addressable by the 24-bit address field, and otherwise its
/// first 65535 bytes; one element for any other access.
pub open spec fn read_datasize(wordlen: u8, start: u16, len: usize) -> nat {
    if wordlen == S7_WL_BYTE {
        if addresses_fit(wordlen, start, len as nat) {
            len as nat
        } else {
            65535
        }
    } else {
        1
    }
}

/// Whether every element of a transfer of `datasize` elements from `start`
/// is addressable.
pub fn address_range_fits(wordlen: u8, start: u16, datasize: usize) -> (r: bool)
    ensures
        r == addresses_fit(wordlen, start, datasize as nat),
{
    if datasize == 0 {
        return true;
    }
    if datasize - 1 > MAX_ADDRESS as usize {
        return false;
    }
    let last: u64 = start as u64 + (datasize - 1) as u64;
    let address: u64 = if wordlen == S7_WL_BIT { last } else { last * 8 };
    address <= MAX_ADDRESS
}

/// Number of elements that a job transfers (see `read_datasize`).
fn transfer_datasize(wordlen: u8, start: u16, buffer_len: usize) -> (r: usize)
    ensures
        r == read_datasize(wordlen, start, buffer_len),
        addresses_fit(wordlen, start, r as nat),
{
    if wordlen != S7_WL_BYTE {
        1
    } else if address_range_fits(wordlen, start, buffer_len) {
        buffer_len
    } else {
        65535
    }
}

/// Size of the next chunk: what remains, capped at the payload limit.
pub open spec fn chunk_size(remaining: nat, max: nat) -> nat {
    if remaining < max { remaining } else { max }
}

/// Number of requests needed to move `remaining` elements with chunks of at
/// most `max` elements.
pub open spec fn chunk_steps(remaining: nat, max: nat) -> nat
    decreases remaining,
{
    if remaining == 0 || max == 0 {
        0
    } else {
        1 + chunk_steps((remaining - chunk_size(remaining, max)) as nat, max)
    }
}

/// `buf` with `src` copied in at `off`.
pub open spec fn copy_into(buf: Seq<u8>, off: int, src: Seq<u8>) -> Seq<u8> {
    buf.subrange(0, off) + src + buf.subrange(off + src.len(), buf.len() as int)
}

/// The read request telegram for `count` elements at `address`.
pub open spec fn read_request_bytes(area: u8, db_number: u16, wordlen: u8, count: nat, address: nat) -> Seq<u8> {
    seq![
        ISO_ID, 0x00, 0x00, 0x1f, 0x02, 0xf0, 0x80,
        S7_ID, 0x01, 0x00, 0x00, 0x05, 0x00, 0x00, 0x0e, 0x00, 0x00,
        0x04, 0x01, 0x12, 0x0a, 0x10, wordlen,
        hi_byte(count), lo_byte(count),
        hi_byte(db_number as nat), lo_byte(db_number as nat),
        area,
        top_byte(address), hi_byte(address), lo_byte(address),
    ]
}

/// Bit count field of a write request: 1 for a bit, otherwise the payload
/// size in bits, kept to 16 bits.
pub open spec fn write_bits(wordlen: u8, count: nat) -> nat {
    if wordlen == S7_WL_BIT { 1 } else { (count * 8) % 65536 }
}

/// The write request telegram carrying `payload` to `address`.
pub open spec fn write_request_bytes(
    area: u8,
    db_number: u16,
    wordlen: u8,
    transport: u8,
    address: nat,
    payload: Seq<u8>,
) -> Seq<u8> {
    let count = payload.len();
    let total = (WRITE_REQ_HEADER_LEN + count) as nat;
    let bits = write_bits(wordlen, count);
    seq![
        ISO_ID, 0x00, hi_byte(total), lo_byte(total), 0x02, 0xf0, 0x80,
        S7_ID, 0x01, 0x00, 0x00, 0x05, 0x00, 0x00, 0x0e,
        hi_byte((count + 4) as nat), lo_byte((count + 4) as nat),
        0x05, 0x01, 0x12, 0x0a, 0x10, wordlen,
        hi_byte(count), lo_byte(count),
        hi_byte(db_number as nat), lo_byte(db_number as nat),
        area,
        top_byte(address), hi_byte(address), lo_byte(address),
        0x00, transport, hi_byte(bits), lo_byte(bits),
    ] + payload
}

/// State of a read job as a plain value.
pub struct ReadJobState {
    pub area: u8,
    pub db_number: u16,
    pub wordlen: u8,
    pub start: u16,
    /// Number of elements to read.
    pub datasize: usize,
    /// Number of elements read so far.
    pub offset: usize,
    /// Size of the chunk in flight.
    pub chunk: u16,
    /// S7 part length announced by the ISO header of the answer.
    pub expected: usize,
    pub phase: Phase,
    /// Largest chunk (read payload limit of the session).
    pub max_chunk: u16,
    pub pdu_length: u16,
}

/// A read of `datasize` elements from an S7 memory area.
pub struct ReadJob {
    area: u8,
    db_number: u16,
    wordlen: u8,
    start: u16,
    datasize: usize,
    offset: usize,
    chunk: u16,
    expected: usize,
    phase: Phase,
    max_chunk: u16,
    pdu_length: u16,
}

impl View for ReadJob {
    type V = ReadJobState;

    closed spec fn view(&self) -> ReadJobState {
        ReadJobState {
            area: self.area,
            db_number: self.db_number,
            wordlen: self.wordlen,
            start: self.start,
            datasize: self.datasize,
            offset: self.offset,
            chunk: self.chunk,
            expected: self.expected,
            phase: self.phase,
            max_chunk: self.max_chunk,
            pdu_length: self.pdu_length,
        }
    }
}

/// Invariant of a read job: progress never passes the end, a chunk in
/// flight is the next slice of the block, and an accepted header announced
/// at least a read answer header.
pub open spec fn read_job_wf(j: ReadJobState) -> bool {
    &&& j.offset <= j.datasize
    &&& addresses_fit(j.wordlen, j.start, j.datasize as nat)
    &&& j.phase != Phase::Ready ==> {
        &&& j.offset < j.datasize
        &&& j.chunk == chunk_size((j.datasize - j.offset) as nat, j.max_chunk as nat)
    }
    &&& j.phase == Phase::AwaitingBody ==> j.expected >= READ_RES_LEN
}

/// Number of payload bytes that an accepted read answer of `size` bytes
/// contributes: what follows the header, capped at the chunk.
pub open spec fn read_copy_len(size: usize, chunk: u16) -> int {
    if size - READ_RES_LEN < chunk { size - READ_RES_LEN } else { chunk as int }
}

impl S7Client {
    /// Starts reading from `area` (DB `db_number` for `S7_AREA_DB`) at
    /// element `start` into a buffer of `buffer_len` bytes: as many bytes as
    /// the buffer holds for byte access (its first 65535 when the buffer
    /// reaches beyond the 24-bit address range), one element otherwise.
    /// Fails with `NotConnected` on a disconnected client; either way the
    /// chunk counter restarts from 0.
    pub fn start_read(&mut self, area: u8, db_number: u16, start: u16, wordlen: u8, buffer_len: usize)
        -> (r: Result<ReadJob, S7Error>)
        ensures
            final(self)@ == (ClientState { chunks: 0, ..old(self)@ }),
            match r {
                Ok(job) => {
                    &&& transfer_start(old(self)@) is Ok
                    &&& job@ == (ReadJobState {
                        area,
                        db_number,
                        wordlen,
                        start,
                        datasize: read_datasize(wordlen, start, buffer_len) as usize,
                        offset: 0,
                        chunk: 0,
                        expected: 0,
                        phase: Phase::Ready,
                        max_chunk: old(self)@.max_rd_pdu_data,
                        pdu_length: old(self)@.pdu_length,
                    })
                    &&& read_job_wf(job@)
                },
                Err(e) => transfer_start(old(self)@) == Err::<(), S7Error>(e),
            },
    {
        self.begin_transfer()?;
        let datasize: usize = transfer_datasize(wordlen, start, buffer_len);
        Ok(ReadJob {
            area,
            db_number,
            wordlen,
            start,
            datasize,
            offset: 0,
            chunk: 0,
            expected: 0,
            phase: Phase::Ready,
            max_chunk: self.max_rd_pdu_data(),
            pdu_length: self.pdu_length(),
        })
    }

    /// The request for the next chunk of `job`, or `None` when every element
    /// has been read. Each request counts one more chunk.
    pub fn next_read_request(&mut self, job: &mut ReadJob) -> (r: Option<Vec<u8>>)
        requires
            read_job_wf(old(job)@),
            old(job)@.phase == Phase::Ready,
            old(self)@.chunks < usize::MAX,
        ensures
            read_job_wf(final(job)@),
            old(job)@.offset == old(job)@.datasize ==> {
                &&& r is None
                &&& final(job)@ == old(job)@
                &&& final(self)@ == old(self)@
            },
            old(job)@.offset < old(job)@.datasize ==> {
                let j = old(job)@;
                let chunk = chunk_size((j.datasize - j.offset) as nat, j.max_chunk as nat);
                &&& r matches Some(req) && req@ == read_request_bytes(
                    j.area,
                    j.db_number,
                    j.wordlen,
                    chunk,
                    element_address(j.wordlen, (j.start + j.offset) as nat),
                )
                &&& final(job)@ == (ReadJobState { chunk: chunk as u16, phase: Phase::AwaitingHeader, ..j })
                &&& final(self)@ == (ClientState { chunks: (old(self)@.chunks + 1) as usize, ..old(self)@ })
            },
    {
        if job.offset >= job.datasize {
            return None;
        }
        let remaining: usize = job.datasize - job.offset;
        let chunk: u16 = if remaining < job.max_chunk as usize { remaining as u16 } else { job.max_chunk };
        self.count_chunk();
        let long_start: u64 = job.start as u64 + job.offset as u64;
        let wide: u64 = if job.wordlen == S7_WL_BIT { long_start } else { long_start * 8 };
        let address: u32 = wide as u32;
        let request: [u8; READ_REQ_LEN] = [
            ISO_ID, 0x00, 0x00, 0x1f, 0x02, 0xf0, 0x80,
            S7_ID, 0x01, 0x00, 0x00, 0x05, 0x00, 0x00, 0x0e, 0x00, 0x00,
            0x04, 0x01, 0x12, 0x0a, 0x10, job.wordlen,
            hi_part(chunk as usize), lo_part(chunk as usize),
            hi_part(job.db_number as usize), lo_part(job.db_number as usize),
            job.area,
            top_part(address), hi_part(address as usize), lo_part(address as usize),
        ];
        job.chunk = chunk;
        job.phase = Phase::AwaitingHeader;
        let v = slice_to_vec(request.as_slice());
        assert(v@ =~= read_request_bytes(
            job.area,
            job.db_number,
            job.wordlen,
            chunk as nat,
            element_address(job.wordlen, (job.start + job.offset) as nat),
        ));
        Some(v)
    }
}

impl ReadJob {
    /// Checks the ISO header of the answer to the chunk in flight and
    /// returns the length of the S7 part that follows.
    pub fn accept_header(&mut self, iso_packet: &mut [u8; TPKT_ISO_LEN]) -> (r: Result<usize, S7Error>)
        requires
            read_job_wf(old(self)@),
            old(self)@.phase == Phase::AwaitingHeader,
        ensures
            final(iso_packet)@ == old(iso_packet)@,
            read_job_wf(final(self)@),
            r == rw_header_result(old(self)@.pdu_length, old(iso_packet)@, READ_RES_LEN),
            match r {
                Ok(n) => final(self)@ == (ReadJobState { expected: n, phase: Phase::AwaitingBody, ..old(self)@ }),
                Err(_) => final(self)@ == old(self)@,
            },
    {
        let n = check_iso_packet(self.pdu_length, iso_packet)?;
        if n < READ_RES_LEN {
            return Err(S7Error::IsoInvalidTelegram);
        }
        self.expected = n;
        self.phase = Phase::AwaitingBody;
        Ok(n)
    }

    /// Whether the payload of an accepted answer (`size` bytes in `resp`)
    /// fits in a buffer of `buffer_len` bytes at the current offset.
    pub fn copy_fits(&self, resp: &[u8; RESPONSE_BUF_LEN], size: usize, buffer_len: usize) -> (r: bool)
        requires
            read_job_wf(self@),
            self@.phase == Phase::AwaitingBody,
        ensures
            r == (rw_body_result(resp@, size, self@.expected) is Ok ==> self@.offset + read_copy_len(size, self@.chunk)
                <= buffer_len),
    {
        if size < self.expected || resp[RW_RES_OFFSET] != RES_SUCCESS {
            return true;
        }
        let copy = if size - READ_RES_LEN < self.chunk as usize { size - READ_RES_LEN } else { self.chunk as usize };
        self.offset <= buffer_len && copy <= buffer_len - self.offset
    }

    /// Checks the S7 part of the answer (`size` bytes received into `resp`)
    /// and copies its payload into `buffer` at the current offset; the chunk
    /// is then done.
    pub fn accept_data(&mut self, resp: &[u8; RESPONSE_BUF_LEN], size: usize, buffer: &mut [u8])
        -> (r: Result<(), S7Error>)
        requires
            read_job_wf(old(self)@),
            old(self)@.phase == Phase::AwaitingBody,
            size <= RESPONSE_BUF_LEN,
            rw_body_result(resp@, size, old(self)@.expected) is Ok ==> old(self)@.offset + read_copy_len(
                size,
                old(self)@.chunk,
            ) <= old(buffer)@.len(),
        ensures
            read_job_wf(final(self)@),
            r == rw_body_result(resp@, size, old(self)@.expected),
            r is Ok ==> {
                let j = old(self)@;
                &&& final(buffer)@ == copy_into(
                    old(buffer)@,
                    j.offset as int,
                    resp@.subrange(READ_RES_LEN as int, READ_RES_LEN + read_copy_len(size, j.chunk)),
                )
                &&& final(self)@ == (ReadJobState { offset: (j.offset + j.chunk) as usize, phase: Phase::Ready, ..j })
            },
            r is Err ==> final(self)@ == old(self)@ && final(buffer)@ == old(buffer)@,
    {
        if size < self.expected {
            return Err(S7Error::IsoInvalidTelegram);
        }
        let code = resp[RW_RES_OFFSET];
        if code != RES_SUCCESS {
            if code == RES_NOT_FOUND {
                return Err(S7Error::S7NotFound);
            } else if code == RES_INVALID_ADDRESS {
                return Err(S7Error::S7InvalidAddress);
            } else {
                return Err(S7Error::S7Unspecified);
            }
        }
        let copy: usize = if size - READ_RES_LEN < self.chunk as usize { size - READ_RES_LEN } else { self.chunk as usize };
        let off: usize = self.offset;
        let ghost old_buf = buffer@;
        let blen: usize = buffer.len();
        let mut i: usize = 0;
        while i < copy
            invariant
                i <= copy,
                copy + READ_RES_LEN <= size <= RESPONSE_BUF_LEN,
                off + copy <= old_buf.len(),
                old_buf.len() == blen,
                buffer@.len() == old_buf.len(),
                forall|k: int| 0 <= k < buffer@.len() ==> #[trigger] buffer@[k] == if off <= k < off + i {
                    resp@[READ_RES_LEN + k - off]
                } else {
                    old_buf[k]
                },
            decreases copy - i,
        {
            buffer[off + i] = resp[READ_RES_LEN + i];
            i = i + 1;
        }
        assert(buffer@ =~= copy_into(
            old_buf,
            off as int,
            resp@.subrange(READ_RES_LEN as int, READ_RES_LEN + copy),
        ));
        self.offset = self.offset + self.chunk as usize;
        self.phase = Phase::Ready;
        Ok(())
    }
}

/// Number of elements that a write transfers from a buffer of `len` bytes.
pub open spec fn write_datasize(wordlen: u8, start: u16, len: usize) -> nat {
    read_datasize(wordlen, start, len)
}

/// Transport size field of a write request.
pub open spec fn write_transport(wordlen: u8) -> u8 {
    if wordlen == S7_WL_BIT { TS_RES_BIT } else { TS_RES_BYTE }
}

/// State of a write job as a plain value.
pub struct WriteJobState {
    pub area: u8,
    pub db_number: u16,
    pub wordlen: u8,
    pub transport: u8,
    pub start: u16,
    /// Number of elements to write.
    pub datasize: usize,
    /// Number of elements written so far.
    pub offset: usize,
    /// Size of the chunk in flight.
    pub chunk: usize,
    /// S7 part length announced by the ISO header of the answer.
    pub expected: usize,
    pub phase: Phase,
    /// Largest chunk (write payload limit of the session).
    pub max_chunk: u16,
    pub pdu_length: u16,
}

/// A write of `datasize` elements to an S7 memory area.
pub struct WriteJob {
    area: u8,
    db_number: u16,
    wordlen: u8,
    transport: u8,
    start: u16,
    datasize: usize,
    offset: usize,
    chunk: usize,
    expected: usize,
    phase: Phase,
    max_chunk: u16,
    pdu_length: u16,
}

impl View for WriteJob {
    type V = WriteJobState;

    closed spec fn view(&self) -> WriteJobState {
        WriteJobState {
            area: self.area,
            db_number: self.db_number,
            wordlen: self.wordlen,
            transport: self.transport,
            start: self.start,
            datasize: self.datasize,
            offset: self.offset,
            chunk: self.chunk,
            expected: self.expected,
            phase: self.phase,
            max_chunk: self.max_chunk,
            pdu_length: self.pdu_length,
        }
    }
}

/// Invariant of a write job (as for a read job, with the write answer
/// header as the shortest accepted answer).
pub open spec fn write_job_wf(j: WriteJobState) -> bool {
    &&& j.offset <= j.datasize
    &&& addresses_fit(j.wordlen, j.start, j.datasize as nat)
    &&& j.phase != Phase::Ready ==> {
        &&& j.offset < j.datasize
        &&& j.chunk == chunk_size((j.datasize - j.offset) as nat, j.max_chunk as nat)
    }
    &&& j.phase == Phase::AwaitingBody ==> j.expected >= WRITE_RES_LEN
}

/// The next chunk of a write job lies inside a source buffer of `len` bytes
/// (always true for byte access; for a bit write it asks for a non-empty
/// buffer unless the payload limit is 0).
pub open spec fn write_chunk_fits(j: WriteJobState, len: nat) -> bool {
    j.offset < j.datasize ==> j.offset + chunk_size((j.datasize - j.offset) as nat, j.max_chunk as nat) <= len
}

impl S7Client {
    /// Starts writing a buffer of `buffer_len` bytes to `area` (DB
    /// `db_number` for `S7_AREA_DB`) at element `start`: as many bytes as the
    /// buffer holds for byte access (its first 65535 when the buffer reaches
    /// beyond the 24-bit address range), one element otherwise. Fails with
    /// `NotConnected` on a disconnected client; either way the chunk counter
    /// restarts from 0.
    pub fn start_write(&mut self, area: u8, db_number: u16, start: u16, wordlen: u8, buffer_len: usize)
        -> (r: Result<WriteJob, S7Error>)
        ensures
            final(self)@ == (ClientState { chunks: 0, ..old(self)@ }),
            match r {
                Ok(job) => {
                    &&& transfer_start(old(self)@) is Ok
                    &&& job@ == (WriteJobState {
                        area,
                        db_number,
                        wordlen,
                        transport: write_transport(wordlen),
                        start,
                        datasize: write_datasize(wordlen, start, buffer_len) as usize,
                        offset: 0,
                        chunk: 0,
                        expected: 0,
                        phase: Phase::Ready,
                        max_chunk: old(self)@.max_wr_pdu_data,
                        pdu_length: old(self)@.pdu_length,
                    })
                    &&& write_job_wf(job@)
                },
                Err(e) => transfer_start(old(self)@) == Err::<(), S7Error>(e),
            },
    {
        self.begin_transfer()?;
        let datasize: usize = transfer_datasize(wordlen, start, buffer_len);
        let transport: u8 = if wordlen == S7_WL_BIT { TS_RES_BIT } else { TS_RES_BYTE };
        Ok(WriteJob {
            area,
            db_number,
            wordlen,
            transport,
            start,
            datasize,
            offset: 0,
            chunk: 0,
            expected: 0,
            phase: Phase::Ready,
            max_chunk: self.max_wr_pdu_data(),
            pdu_length: self.pdu_length(),
        })
    }

    /// The request carrying the next chunk of `buffer`, or `None` when every
    /// element has been written. Each request counts one more chunk.
    pub fn next_write_request(&mut self, job: &mut WriteJob, buffer: &[u8]) -> (r: Option<Vec<u8>>)
        requires
            write_job_wf(old(job)@),
            old(job)@.phase == Phase::Ready,
            write_chunk_fits(old(job)@, buffer@.len()),
            old(self)@.chunks < usize::MAX,
        ensures
            write_job_wf(final(job)@),
            old(job)@.offset == old(job)@.datasize ==> {
                &&& r is None
                &&& final(job)@ == old(job)@
                &&& final(self)@ == old(self)@
            },
            old(job)@.offset < old(job)@.datasize ==> {
                let j = old(job)@;
                let chunk = chunk_size((j.datasize - j.offset) as nat, j.max_chunk as nat);
                &&& r matches Some(req) && req@ == write_request_bytes(
                    j.area,
                    j.db_number,
                    j.wordlen,
                    j.transport,
                    element_address(j.wordlen, (j.start + j.offset) as nat),
                    buffer@.subrange(j.offset as int, j.offset + chunk),
                )
                &&& final(job)@ == (WriteJobState { chunk: chunk as usize, phase: Phase::AwaitingHeader, ..j })
                &&& final(self)@ == (ClientState { chunks: (old(self)@.chunks + 1) as usize, ..old(self)@ })
            },
    {
        if job.offset >= job.datasize {
            return None;
        }
        self.count_chunk();
        let remaining = job.datasize - job.offset;
        let chunk: usize = if remaining < job.max_chunk as usize { remaining } else { job.max_chunk as usize };
        let bits_payload: u16 = if job.wordlen == S7_WL_BIT { 1 } else { ((chunk * 8) % 65536) as u16 };
        let total: usize = WRITE_REQ_HEADER_LEN + chunk;
        let long_start: u64 = job.start as u64 + job.offset as u64;
        let wide: u64 = if job.wordlen == S7_WL_BIT { long_start } else { long_start * 8 };
        let address: u32 = wide as u32;
        let header: [u8; WRITE_REQ_HEADER_LEN] = [
            ISO_ID, 0x00, hi_part(total), lo_part(total), 0x02, 0xf0, 0x80,
            S7_ID, 0x01, 0x00, 0x00, 0x05, 0x00, 0x00, 0x0e,
            hi_part(chunk + 4), lo_part(chunk + 4),
            0x05, 0x01, 0x12, 0x0a, 0x10, job.wordlen,
            hi_part(chunk), lo_part(chunk),
            hi_part(job.db_number as usize), lo_part(job.db_number as usize),
            job.area,
            top_part(address), hi_part(address as usize), lo_part(address as usize),
            0x00, job.transport, hi_part(bits_payload as usize), lo_part(bits_payload as usize),
        ];
        let mut request = slice_to_vec(header.as_slice());
        let payload = slice_subrange(buffer, job.offset, job.offset + chunk);
        append_bytes(&mut request, payload);
        job.chunk = chunk;
        job.phase = Phase::AwaitingHeader;
        assert(request@ =~= write_request_bytes(
            job.area,
            job.db_number,
            job.wordlen,
            job.transport,
            element_address(job.wordlen, (job.start + job.offset) as nat),
            buffer@.subrange(job.offset as int, job.offset + chunk),
        ));
        Some(request)
    }
}

impl WriteJob {
    /// Whether the next chunk lies inside a source buffer of `buffer_len`
    /// bytes.
    pub fn chunk_fits(&self, buffer_len: usize) -> (r: bool)
        requires
            write_job_wf(self@),
        ensures
            r == write_chunk_fits(self@, buffer_len as nat),
    {
        if self.offset >= self.datasize {
            return true;
        }
        let remaining = self.datasize - self.offset;
        let chunk: usize = if remaining < self.max_chunk as usize { remaining } else { self.max_chunk as usize };
        chunk <= buffer_len && self.offset <= buffer_len - chunk
    }

    /// Checks the ISO header of the answer to the chunk in flight and
    /// returns the length of the S7 part that follows.
    pub fn accept_header(&mut self, iso_packet: &mut [u8; TPKT_ISO_LEN]) -> (r: Result<usize, S7Error>)
        requires
            write_job_wf(old(self)@),
            old(self)@.phase == Phase::AwaitingHeader,
        ensures
            final(iso_packet)@ == old(iso_packet)@,
            write_job_wf(final(self)@),
            r == rw_header_result(old(self)@.pdu_length, old(iso_packet)@, WRITE_RES_LEN),
            match r {
                Ok(n) => final(self)@ == (WriteJobState { expected: n, phase: Phase::AwaitingBody, ..old(self)@ }),
                Err(_) => final(self)@ == old(self)@,
            },
    {
        let n = check_iso_packet(self.pdu_length, iso_packet)?;
        if n < WRITE_RES_LEN {
            return Err(S7Error::IsoInvalidTelegram);
        }
        self.expected = n;
        self.phase = Phase::AwaitingBody;
        Ok(n)
    }

    /// Checks the S7 part of the answer (`size` bytes received into `resp`);
    /// the chunk is then done.
    pub fn accept_ack(&mut self, resp: &[u8; RESPONSE_BUF_LEN], size: usize) -> (r: Result<(), S7Error>)
        requires
            write_job_wf(old(self)@),
            old(self)@.phase == Phase::AwaitingBody,
        ensures
            write_job_wf(final(self)@),
            r == rw_body_result(resp@, size, old(self)@.expected),
            r is Ok ==> final(self)@ == (WriteJobState {
                offset: (old(self)@.offset + old(self)@.chunk) as usize,
                phase: Phase::Ready,
                ..old(self)@
            }),
            r is Err ==> final(self)@ == old(self)@,
    {
        if size < self.expected {
            return Err(S7Error::IsoInvalidTelegram);
        }
        let code = resp[RW_RES_OFFSET];
        if code != RES_SUCCESS {
            if code == RES_NOT_FOUND {
                return Err(S7Error::S7NotFound);
            } else if code == RES_INVALID_ADDRESS {
                return Err(S7Error::S7InvalidAddress);
            } else {
                return Err(S7Error::S7Unspecified);
            }
        }
        self.offset = self.offset + self.chunk;
        self.phase = Phase::Ready;
        Ok(())
    }
}

/// Whether `byte_num * 8 + bit_idx` is a 16-bit bit index (it always is
/// for bytes below 8192).
pub open spec fn bit_index_fits(byte_num: u16, bit_idx: u8) -> bool {
    byte_num * 8 + bit_idx <= u16::MAX
}

/// Whether a bit address can be computed for `byte_num` / `bit_idx` (an
/// out-of-range bit index is reported as an error instead).
pub fn bit_start_fits(byte_num: u16, bit_idx: u8) -> (r: bool)
    ensures
        r == (bit_idx > 7 || bit_index_fits(byte_num, bit_idx)),
{
    bit_idx > 7 || byte_num as u32 * 8 + bit_idx as u32 <= 65535
}

/// Bit index (`byte_num * 8 + bit_idx`) of bit `bit_idx` (0..7) of byte
/// `byte_num`, the start of a bit access.
pub fn bit_start(byte_num: u16, bit_idx: u8) -> (r: Result<u16, S7Error>)
    requires
        bit_idx > 7 || bit_index_fits(byte_num, bit_idx),
    ensures
        match r {
            Ok(s) => bit_idx <= 7 && s == byte_num * 8 + bit_idx,
            Err(e) => bit_idx > 7 && e == S7Error::S7InvalidAddress,
        },
{
    if bit_idx > 7 {
        return Err(S7Error::S7InvalidAddress);
    }
    Ok(byte_num * 8 + bit_idx as u16)
}

/// A bit address names the byte and the bit it was built from.
pub proof fn lemma_bit_start_decodes(byte_num: u16, bit_idx: u8)
    requires
        bit_idx <= 7,
    ensures
        (byte_num * 8 + bit_idx) / 8 == byte_num,
        (byte_num * 8 + bit_idx) % 8 == bit_idx,
{
}

/// With a positive payload limit a transfer of `n` elements takes
/// ceil(n / m) requests.
pub proof fn lemma_chunk_steps_closed_form(n: nat, m: nat)
    requires
        m > 0,
    ensures
        chunk_steps(n, m) == (n + m - 1) / (m as int),
    decreases n,
{
    if n == 0 {
        assert((m - 1) / (m as int) == 0) by (nonlinear_arith)
            requires
                m > 0,
        ;
    } else if n < m {
        assert((n + m - 1) / (m as int) == 1) by (nonlinear_arith)
            requires
                0 < n < m,
        ;
        assert(chunk_steps(0, m) == 0);
    } else {
        lemma_chunk_steps_closed_form((n - m) as nat, m);
        vstd::arithmetic::div_mod::lemma_div_plus_one((n - 1) as int, m as int);
        assert((n - m + m - 1) as int == (n - 1) as int);
        assert((m + (n - 1)) as int == (n + m - 1) as int);
    }
}

/// Each completed chunk moves at least one element and leaves exactly one
/// request fewer to make.
pub proof fn lemma_chunk_progress(remaining: nat, m: nat)
    requires
        remaining > 0,
        m > 0,
    ensures
        0 < chunk_size(remaining, m) <= remaining,
        chunk_size(remaining, m) <= m,
        chunk_steps((remaining - chunk_size(remaining, m)) as nat, m) + 1 == chunk_steps(remaining, m),
{
}

/// A connected session reads at least 10 and writes at least 0 payload
/// bytes per telegram, and a full chunk always fits the negotiated PDU: a
/// read answer of `18 + max_rd_pdu_data` bytes and a write request of
/// `28 + max_wr_pdu_data` bytes.
pub proof fn lemma_connected_limits(s: ClientState)
    requires
        crate::client::client_wf(s),
        s.connected,
    ensures
        s.max_rd_pdu_data >= 10,
        READ_RES_LEN + s.max_rd_pdu_data == s.pdu_length,
        28 + s.max_wr_pdu_data == s.pdu_length,
{
}

/// The three address bytes of a request encode the element address exactly
/// (every job keeps its addresses within the 24-bit range).
pub proof fn lemma_address_bytes(wordlen: u8, index: nat)
    requires
        element_address(wordlen, index) <= MAX_ADDRESS,
    ensures
        ({
            let a = element_address(wordlen, index);
            top_byte(a) as nat * 65536 + hi_byte(a) as nat * 256 + lo_byte(a) as nat == a
        }),
{
}

/// Every write request is framed consistently: its TPKT length is its size,
/// and when its payload fits the session limit (`pdu_length - 28`) its
/// header passes the coherence check of `check_iso_packet`. (Telegrams
/// longer than 65535 bytes, possible only for a PDU above 65528 bytes, have
/// a truncated length field.)
pub proof fn lemma_write_request_framed(
    area: u8,
    db_number: u16,
    wordlen: u8,
    transport: u8,
    address: nat,
    payload: Seq<u8>,
    pdu_length: u16,
)
    requires
        payload.len() + 28 <= pdu_length,
        WRITE_REQ_HEADER_LEN + payload.len() <= 65535,
    ensures
        ({
            let r = write_request_bytes(area, db_number, wordlen, transport, address, payload);
            &&& r.len() == WRITE_REQ_HEADER_LEN + payload.len()
            &&& be16(r[2], r[3]) == r.len()
            &&& iso_packet_result(pdu_length, r.subrange(0, 7)) == Ok::<usize, S7Error>((r.len() - 7) as usize)
        }),
{
    let r = write_request_bytes(area, db_number, wordlen, transport, address, payload);
    crate::codec::lemma_be16_roundtrip((WRITE_REQ_HEADER_LEN + payload.len()) as nat);
    assert(r.subrange(0, 7) =~= crate::iso::iso_header(r.len()));
    crate::iso::lemma_iso_header_accepted(r.len(), pdu_length);
}

/// Every read request is framed consistently: 31 bytes, TPKT length 31,
/// and its header passes the coherence check for any PDU of at least 24
/// bytes.
pub proof fn lemma_read_request_framed(area: u8, db_number: u16, wordlen: u8, count: nat, address: nat, pdu_length: u16)
    requires
        pdu_length >= 24,
    ensures
        ({
            let r = read_request_bytes(area, db_number, wordlen, count, address);
            &&& r.len() == READ_REQ_LEN
            &&& be16(r[2], r[3]) == r.len()
            &&& iso_packet_result(pdu_length, r.subrange(0, 7)) == Ok::<usize, S7Error>(24)
        }),
{
    let r = read_request_bytes(area, db_number, wordlen, count, address);
    assert(r.subrange(0, 7) =~= crate::iso::iso_header(31));
    crate::iso::lemma_iso_header_accepted(31, pdu_length);
}

} // verus!
