//! Verified core of an S7 (ISO-on-TCP) client for Siemens PLCs: telegram
//! construction, validation of the PLC's answers, the connection handshake
//! and the chunked read / write jobs. The caller owns the socket and moves
//! the bytes that this library builds and checks.

pub mod client;
pub mod codec;
pub mod error;
pub mod iso;
pub mod laws;
pub mod tis;
pub mod transfer;
pub mod userdata;

pub use client::{
    S7Client, CT_OP, CT_PG, CT_S7, S7_AREA_DB, S7_AREA_MK, S7_AREA_PA, S7_AREA_PE, S7_WL_BIT, S7_WL_BYTE,
};
pub use error::S7Error;
pub use iso::check_iso_packet;
pub use tis::{
    build_timemeas_request, cycle_time_from_timemeas_payload, decode_cycle_time_guess, parse_timemeas_response,
    CycleTimeInfo, TimeMeasRaw,
};
pub use transfer::{ReadJob, WriteJob};
