use rust7::client::{
    check_iso_connection_response, iso_connection_request, negotiated_pdu_length, pdu_negotiation_request,
    pdu_negotiation_response_ok,
};
use rust7::codec::{make_u16, make_u32};
use rust7::transfer::{bit_start, bit_start_fits};
use rust7::userdata::{build_userdata_request, USERDATA_METHOD_EXT};
use rust7::{check_iso_packet, S7Client, S7Error, CT_PG, CT_S7, S7_AREA_DB, S7_AREA_MK, S7_WL_BIT, S7_WL_BYTE};

fn negotiation_answer(pdu: u16) -> [u8; 27] {
    let mut r = [0u8; 27];
    r[0] = 0x03;
    r[7] = 0x32;
    r[25] = (pdu >> 8) as u8;
    r[26] = (pdu & 0xFF) as u8;
    r
}

fn connected_client(pdu: u16) -> S7Client {
    let mut c = S7Client::new();
    c.begin_connect();
    c.accept_pdu_negotiation(&negotiation_answer(pdu), 27).expect("negotiation");
    c
}

fn answer_header(s7_len: usize) -> [u8; 7] {
    let total = s7_len + 7;
    [0x03, 0x00, (total >> 8) as u8, (total & 0xFF) as u8, 0x02, 0xF0, 0x80]
}

#[test]
fn iso_packet_valid_header_gives_remaining_length() {
    let mut h = [0x03, 0x00, 0x00, 25, 0x02, 0xF0, 0x80];
    assert_eq!(check_iso_packet(480, &mut h).unwrap(), 18);
    assert_eq!(h, [0x03, 0x00, 0x00, 25, 0x02, 0xF0, 0x80]);
}

#[test]
fn iso_packet_invalid_header() {
    let mut h = [0x04, 0x00, 0x00, 25, 0x02, 0xF0, 0x80];
    assert!(matches!(check_iso_packet(480, &mut h), Err(S7Error::IsoInvalidHeader)));
    let mut h = [0x03, 0x00, 0x00, 25, 0x03, 0xF0, 0x80];
    assert!(matches!(check_iso_packet(480, &mut h), Err(S7Error::IsoInvalidHeader)));
    let mut h = [0x03, 0x00, 0x00, 25, 0x02, 0xE0, 0x80];
    assert!(matches!(check_iso_packet(480, &mut h), Err(S7Error::IsoInvalidHeader)));
}

#[test]
fn iso_packet_fragmented() {
    let mut h = [0x03, 0x00, 0x00, 25, 0x02, 0xF0, 0x00];
    assert!(matches!(check_iso_packet(480, &mut h), Err(S7Error::IsoFragmentedPacket)));
}

#[test]
fn iso_packet_invalid_lengths() {
    let mut h = [0x03, 0x00, 0x00, 0x06, 0x02, 0xF0, 0x80];
    assert!(matches!(check_iso_packet(480, &mut h), Err(S7Error::IsoInvalidTelegram)));
    let mut h = [0x03, 0x00, 0x00, 0x07, 0x02, 0xF0, 0x80];
    assert!(matches!(check_iso_packet(480, &mut h), Err(S7Error::IsoInvalidTelegram)));
    // 0x01E8 = 488 = 481 + 7: one byte more than the PDU
    let mut h = [0x03, 0x00, 0x01, 0xE8, 0x02, 0xF0, 0x80];
    assert!(matches!(check_iso_packet(480, &mut h), Err(S7Error::IsoInvalidTelegram)));
    let mut h = [0x03, 0x00, 0x01, 0xE7, 0x02, 0xF0, 0x80];
    assert_eq!(check_iso_packet(480, &mut h).unwrap(), 480);
}

#[test]
fn codec_big_endian() {
    assert_eq!(make_u16(0x12, 0x34), 0x1234);
    assert_eq!(make_u32(0x12, 0x34, 0x56, 0x78), 0x1234_5678);
}

#[test]
fn client_defaults() {
    let c = S7Client::new();
    assert_eq!(c.port(), 102);
    assert_eq!(c.co_timeout_ms(), 3000);
    assert_eq!(c.rd_timeout_ms(), 1000);
    assert_eq!(c.wr_timeout_ms(), 500);
    assert_eq!(c.connection_type(), CT_PG);
    assert_eq!(c.pdu_length(), 0);
    assert!(!c.connected());
    assert_eq!(c.chunks(), 0);
}

#[test]
fn client_setters_ignore_zero() {
    let mut c = S7Client::new();
    c.set_timeout(0, 2000, 0);
    assert_eq!(c.co_timeout_ms(), 3000);
    assert_eq!(c.rd_timeout_ms(), 2000);
    assert_eq!(c.wr_timeout_ms(), 500);
    c.set_timeout(10, 0, 20);
    assert_eq!(c.co_timeout_ms(), 10);
    assert_eq!(c.rd_timeout_ms(), 2000);
    assert_eq!(c.wr_timeout_ms(), 20);
    c.set_connection_port(0);
    assert_eq!(c.port(), 102);
    c.set_connection_port(1102);
    assert_eq!(c.port(), 1102);
    c.set_connection_type(CT_S7);
    assert_eq!(c.connection_type(), CT_S7);
}

#[test]
fn remote_tsap_from_rack_and_slot() {
    let mut c = S7Client::new();
    assert_eq!(c.remote_tsap(0, 0), 0x0100);
    assert_eq!(c.remote_tsap(0, 2), 0x0102);
    c.set_connection_type(CT_S7);
    assert_eq!(c.remote_tsap(1, 3), 0x0323);
}

#[test]
fn iso_connection_request_bytes() {
    let r = iso_connection_request(0x0100, 0x0102);
    assert_eq!(
        r,
        [
            0x03, 0x00, 0x00, 0x16, 0x11, 0xE0, 0x00, 0x00, 0x00, 0x01, 0x00, 0xC0, 0x01, 0x0A, 0xC1, 0x02, 0x01,
            0x00, 0xC2, 0x02, 0x01, 0x02
        ]
    );
}

#[test]
fn iso_connection_response_check() {
    let mut resp = [0u8; 22];
    resp[5] = 0xD0;
    assert!(check_iso_connection_response(&resp, 22).is_ok());
    assert!(matches!(check_iso_connection_response(&resp, 21), Err(S7Error::IsoConnectionFailed)));
    resp[5] = 0xE0;
    assert!(matches!(check_iso_connection_response(&resp, 22), Err(S7Error::IsoConnectionFailed)));
}

#[test]
fn pdu_negotiation_request_bytes() {
    let r = pdu_negotiation_request();
    assert_eq!(r.len(), 25);
    assert_eq!(&r[0..4], &[0x03, 0x00, 0x00, 0x19]);
    assert_eq!(r[7], 0x32);
    assert_eq!(&r[23..25], &[0x01, 0xE0]);
}

#[test]
fn pdu_negotiation_success() {
    let answer = negotiation_answer(240);
    assert!(pdu_negotiation_response_ok(&answer, 27));
    assert_eq!(negotiated_pdu_length(&answer), 240);
    let c = connected_client(240);
    assert!(c.connected());
    assert_eq!(c.pdu_length(), 240);
}

#[test]
fn pdu_negotiation_failures() {
    let mut c = S7Client::new();
    c.begin_connect();
    assert!(matches!(
        c.accept_pdu_negotiation(&negotiation_answer(240), 26),
        Err(S7Error::PduNegotiationFailed)
    ));
    assert!(!c.connected());
    let mut bad = negotiation_answer(240);
    bad[17] = 0x85;
    assert!(!pdu_negotiation_response_ok(&bad, 27));
    assert!(matches!(c.accept_pdu_negotiation(&bad, 27), Err(S7Error::PduNegotiationFailed)));
    assert!(matches!(
        c.accept_pdu_negotiation(&negotiation_answer(0), 27),
        Err(S7Error::PduNegotiationFailed)
    ));
    assert!(!c.connected());
    assert_eq!(c.pdu_length(), 0);
}

#[test]
fn disconnect_reports_open_connection() {
    let mut c = connected_client(480);
    assert!(c.disconnect());
    assert!(!c.connected());
    assert!(!c.disconnect());
}

#[test]
fn read_requires_connection() {
    let mut c = S7Client::new();
    assert!(matches!(c.start_read(S7_AREA_DB, 1, 0, S7_WL_BYTE, 10), Err(S7Error::NotConnected)));
    assert!(matches!(c.start_write(S7_AREA_DB, 1, 0, S7_WL_BYTE, 10), Err(S7Error::NotConnected)));
    assert_eq!(c.chunks(), 0);
}

#[test]
fn read_split_in_chunks() {
    // PDU 240: at most 222 payload bytes per answer.
    let mut c = connected_client(240);
    let mut buffer = vec![0u8; 300];
    let mut job = c.start_read(S7_AREA_DB, 7, 10, S7_WL_BYTE, buffer.len()).unwrap();

    let req = c.next_read_request(&mut job).expect("first chunk");
    assert_eq!(req.len(), 31);
    assert_eq!(&req[0..4], &[0x03, 0x00, 0x00, 0x1f]);
    assert_eq!(req[17], 0x04);
    assert_eq!(req[22], S7_WL_BYTE);
    assert_eq!(&req[23..25], &[0x00, 222]);
    assert_eq!(&req[25..27], &[0x00, 0x07]);
    assert_eq!(req[27], S7_AREA_DB);
    assert_eq!(&req[28..31], &[0x00, 0x00, 80]);

    let mut h = answer_header(18 + 222);
    assert_eq!(job.accept_header(&mut h).unwrap(), 240);
    let mut resp = [0u8; 480];
    resp[14] = 0xFF;
    for i in 0..222 {
        resp[18 + i] = (i % 251) as u8 + 1;
    }
    assert!(job.copy_fits(&resp, 240, buffer.len()));
    job.accept_data(&resp, 240, &mut buffer).unwrap();
    assert_eq!(buffer[0], 1);
    assert_eq!(buffer[221], 222);
    assert_eq!(buffer[222], 0);

    let req = c.next_read_request(&mut job).expect("second chunk");
    assert_eq!(&req[23..25], &[0x00, 78]);
    // (10 + 222) * 8 = 1856 = 0x000740
    assert_eq!(&req[28..31], &[0x00, 0x07, 0x40]);
    let mut h = answer_header(18 + 78);
    job.accept_header(&mut h).unwrap();
    let mut resp = [0u8; 480];
    resp[14] = 0xFF;
    resp[18] = 0xAA;
    resp[18 + 77] = 0xBB;
    job.accept_data(&resp, 18 + 78, &mut buffer).unwrap();
    assert_eq!(buffer[222], 0xAA);
    assert_eq!(buffer[299], 0xBB);

    assert!(c.next_read_request(&mut job).is_none());
    assert_eq!(c.chunks(), 2);
}

#[test]
fn read_bit_request_uses_bit_address() {
    let mut c = connected_client(480);
    let start = bit_start(71, 4).unwrap();
    assert_eq!(start, 572);
    let mut job = c.start_read(S7_AREA_MK, 0, start, S7_WL_BIT, 1).unwrap();
    let req = c.next_read_request(&mut job).unwrap();
    assert_eq!(req[22], S7_WL_BIT);
    assert_eq!(&req[23..25], &[0x00, 0x01]);
    assert_eq!(req[27], S7_AREA_MK);
    assert_eq!(&req[28..31], &[0x00, 0x02, 0x3C]);
}

#[test]
fn read_answer_errors() {
    let mut c = connected_client(480);
    let mut buffer = vec![0u8; 4];
    let mut job = c.start_read(S7_AREA_DB, 1, 0, S7_WL_BYTE, buffer.len()).unwrap();
    c.next_read_request(&mut job).unwrap();

    let mut short = answer_header(17);
    assert!(matches!(job.accept_header(&mut short), Err(S7Error::IsoInvalidTelegram)));
    let mut h = answer_header(22);
    assert_eq!(job.accept_header(&mut h).unwrap(), 22);

    let mut resp = [0u8; 480];
    resp[14] = 0xFF;
    assert!(matches!(job.accept_data(&resp, 21, &mut buffer), Err(S7Error::IsoInvalidTelegram)));
    resp[14] = 0x0A;
    assert!(matches!(job.accept_data(&resp, 22, &mut buffer), Err(S7Error::S7NotFound)));
    resp[14] = 0x05;
    assert!(matches!(job.accept_data(&resp, 22, &mut buffer), Err(S7Error::S7InvalidAddress)));
    resp[14] = 0x06;
    assert!(matches!(job.accept_data(&resp, 22, &mut buffer), Err(S7Error::S7Unspecified)));
    assert_eq!(buffer, vec![0u8; 4]);
}

#[test]
fn write_request_layout() {
    let mut c = connected_client(240);
    let data = [1u8, 2, 3, 4, 5];
    let mut job = c.start_write(S7_AREA_DB, 3, 2, S7_WL_BYTE, data.len()).unwrap();
    assert!(job.chunk_fits(data.len()));
    let req = c.next_write_request(&mut job, &data).unwrap();
    assert_eq!(req.len(), 40);
    assert_eq!(&req[0..4], &[0x03, 0x00, 0x00, 40]);
    assert_eq!(&req[15..17], &[0x00, 9]);
    assert_eq!(req[17], 0x05);
    assert_eq!(&req[23..25], &[0x00, 5]);
    assert_eq!(&req[25..27], &[0x00, 3]);
    assert_eq!(req[27], S7_AREA_DB);
    assert_eq!(&req[28..31], &[0x00, 0x00, 16]);
    assert_eq!(req[32], 0x04);
    assert_eq!(&req[33..35], &[0x00, 40]);
    assert_eq!(&req[35..40], &data);

    let mut h = answer_header(15);
    assert_eq!(job.accept_header(&mut h).unwrap(), 15);
    let mut resp = [0u8; 480];
    resp[14] = 0xFF;
    job.accept_ack(&resp, 15).unwrap();
    assert!(c.next_write_request(&mut job, &data).is_none());
    assert_eq!(c.chunks(), 1);
}

#[test]
fn write_split_in_chunks() {
    // PDU 240: at most 212 payload bytes per request.
    let mut c = connected_client(240);
    let data = vec![7u8; 500];
    let mut job = c.start_write(S7_AREA_DB, 1, 0, S7_WL_BYTE, data.len()).unwrap();
    let mut sizes = Vec::new();
    loop {
        assert!(job.chunk_fits(data.len()));
        let req = match c.next_write_request(&mut job, &data) {
            Some(r) => r,
            None => break,
        };
        sizes.push(req.len() - 35);
        let mut h = answer_header(15);
        job.accept_header(&mut h).unwrap();
        let mut resp = [0u8; 480];
        resp[14] = 0xFF;
        job.accept_ack(&resp, 15).unwrap();
    }
    assert_eq!(sizes, vec![212, 212, 76]);
    assert_eq!(c.chunks(), 3);
}

#[test]
fn write_bit_request() {
    let mut c = connected_client(480);
    let data = [1u8];
    let mut job = c.start_write(S7_AREA_DB, 10, 572, S7_WL_BIT, 1).unwrap();
    let req = c.next_write_request(&mut job, &data).unwrap();
    assert_eq!(req.len(), 36);
    assert_eq!(req[22], S7_WL_BIT);
    assert_eq!(&req[28..31], &[0x00, 0x02, 0x3C]);
    assert_eq!(req[32], 0x03);
    assert_eq!(&req[33..35], &[0x00, 0x01]);
    assert_eq!(req[35], 1);
}

#[test]
fn write_answer_errors() {
    let mut c = connected_client(480);
    let data = [0u8; 3];
    let mut job = c.start_write(S7_AREA_DB, 1, 0, S7_WL_BYTE, 3).unwrap();
    c.next_write_request(&mut job, &data).unwrap();
    let mut short = answer_header(14);
    assert!(matches!(job.accept_header(&mut short), Err(S7Error::IsoInvalidTelegram)));
    let mut frag = [0x03, 0x00, 0x00, 22, 0x02, 0xF0, 0x00];
    assert!(matches!(job.accept_header(&mut frag), Err(S7Error::IsoFragmentedPacket)));
    let mut h = answer_header(15);
    job.accept_header(&mut h).unwrap();
    let mut resp = [0u8; 480];
    resp[14] = 0x0A;
    assert!(matches!(job.accept_ack(&resp, 15), Err(S7Error::S7NotFound)));
    resp[14] = 0xFF;
    assert!(matches!(job.accept_ack(&resp, 14), Err(S7Error::IsoInvalidTelegram)));
}

#[test]
fn bit_write_needs_a_source_byte() {
    let mut c = connected_client(480);
    let job = c.start_write(S7_AREA_DB, 1, 0, S7_WL_BIT, 0).unwrap();
    assert!(!job.chunk_fits(0));
    assert!(job.chunk_fits(1));
}

#[test]
fn bit_addresses() {
    assert_eq!(bit_start(45, 3).unwrap(), 363);
    assert!(matches!(bit_start(45, 8), Err(S7Error::S7InvalidAddress)));
    assert!(bit_start_fits(8191, 7));
    assert!(!bit_start_fits(8192, 0));
    assert!(bit_start_fits(8192, 8));
}

#[test]
fn userdata_continuation_request() {
    let r = build_userdata_request(0x0012, USERDATA_METHOD_EXT, 0x44, 0x01, 0x05, &[0xAA, 0xBB]);
    assert_eq!(r.len(), 31);
    assert_eq!(&r[2..4], &[0x00, 31]);
    assert_eq!(&r[11..13], &[0x00, 0x12]);
    assert_eq!(&r[13..15], &[0x00, 12]);
    assert_eq!(&r[15..17], &[0x00, 2]);
    assert_eq!(&r[17..29], &[0x00, 0x01, 0x12, 0x08, 0x12, 0x44, 0x01, 0x05, 0x00, 0x00, 0x00, 0x00]);
    assert_eq!(&r[29..31], &[0xAA, 0xBB]);
}

#[test]
fn error_messages() {
    assert_eq!(S7Error::NotConnected.to_string(), "Not connected");
    assert_eq!(S7Error::IsoInvalidTelegram.to_string(), "Invalid ISO Telegram");
    assert_eq!(S7Error::S7NotFound.to_string(), "S7 Resource not found in the CPU");
    assert_eq!(S7Error::Other("custom".to_string()).to_string(), "custom");
    let io = std::io::Error::new(std::io::ErrorKind::Other, "boom");
    let e: S7Error = io.into();
    assert_eq!(e.to_string(), "IO error: boom");
}

#[test]
fn built_telegrams_pass_the_header_check() {
    let req = rust7::build_timemeas_request();
    let mut h = [0u8; 7];
    h.copy_from_slice(&req[0..7]);
    assert_eq!(check_iso_packet(480, &mut h).unwrap(), 30);

    let mut c = connected_client(240);
    let data = vec![9u8; 212];
    let mut job = c.start_write(S7_AREA_DB, 1, 0, S7_WL_BYTE, data.len()).unwrap();
    let req = c.next_write_request(&mut job, &data).unwrap();
    assert_eq!(req.len(), 247);
    h.copy_from_slice(&req[0..7]);
    assert_eq!(check_iso_packet(240, &mut h).unwrap(), 240);
}

#[test]
fn disconnect_then_read_is_refused() {
    let mut c = connected_client(480);
    assert!(c.start_read(S7_AREA_DB, 1, 0, S7_WL_BYTE, 4).is_ok());
    c.disconnect();
    assert!(matches!(c.start_read(S7_AREA_DB, 1, 0, S7_WL_BYTE, 4), Err(S7Error::NotConnected)));
    assert!(matches!(c.start_write(S7_AREA_DB, 1, 0, S7_WL_BYTE, 4), Err(S7Error::NotConnected)));
}

#[test]
fn read_longer_than_65535_bytes_fills_the_whole_buffer() {
    // PDU 480: at most 462 payload bytes per answer.
    let mut c = connected_client(480);
    let mut buffer = vec![0u8; 70000];
    let mut job = c.start_read(S7_AREA_DB, 1, 0, S7_WL_BYTE, buffer.len()).unwrap();
    let mut next = 0usize;
    while let Some(req) = c.next_read_request(&mut job) {
        let count = ((req[23] as usize) << 8) | req[24] as usize;
        let address = ((req[28] as usize) << 16) | ((req[29] as usize) << 8) | req[30] as usize;
        assert_eq!(address, next * 8);
        let mut h = answer_header(18 + count);
        job.accept_header(&mut h).unwrap();
        let mut resp = [0u8; 480];
        resp[14] = 0xFF;
        for i in 0..count {
            resp[18 + i] = ((next + i) % 253) as u8 + 1;
        }
        job.accept_data(&resp, 18 + count, &mut buffer).unwrap();
        next += count;
    }
    assert_eq!(next, 70000);
    assert_eq!(c.chunks(), (70000 + 461) / 462);
    assert!(buffer.iter().enumerate().all(|(i, b)| *b == (i % 253) as u8 + 1));
}

#[test]
fn write_longer_than_65535_bytes_sends_the_whole_buffer() {
    // PDU 480: at most 452 payload bytes per request.
    let mut c = connected_client(480);
    let data: Vec<u8> = (0..70000usize).map(|i| (i % 251) as u8).collect();
    let mut job = c.start_write(S7_AREA_DB, 1, 0, S7_WL_BYTE, data.len()).unwrap();
    let mut sent = Vec::new();
    loop {
        assert!(job.chunk_fits(data.len()));
        let req = match c.next_write_request(&mut job, &data) {
            Some(r) => r,
            None => break,
        };
        sent.extend_from_slice(&req[35..]);
        let mut h = answer_header(15);
        job.accept_header(&mut h).unwrap();
        let mut resp = [0u8; 480];
        resp[14] = 0xFF;
        job.accept_ack(&resp, 15).unwrap();
    }
    assert_eq!(sent, data);
    assert_eq!(c.chunks(), (70000 + 451) / 452);
}

#[test]
fn transfer_beyond_the_address_range_moves_65535_bytes() {
    let mut c = connected_client(480);
    // the last byte of 2^21 bytes from 0 has bit address 2^24 - 8: all addressable
    let job = c.start_read(S7_AREA_DB, 1, 0, S7_WL_BYTE, 1 << 21);
    assert!(job.is_ok());
    // one byte more is beyond the address range: the first 65535 bytes are read
    let mut job = c.start_read(S7_AREA_DB, 1, 0, S7_WL_BYTE, (1 << 21) + 1).unwrap();
    let mut requested = 0usize;
    while let Some(req) = c.next_read_request(&mut job) {
        let count = ((req[23] as usize) << 8) | req[24] as usize;
        let mut h = answer_header(18 + count);
        job.accept_header(&mut h).unwrap();
        let mut resp = [0u8; 480];
        resp[14] = 0xFF;
        let mut buffer = vec![0u8; 65535];
        job.accept_data(&resp, 18 + count, &mut buffer).unwrap();
        requested += count;
    }
    assert_eq!(requested, 65535);
    let mut c = connected_client(480);
    let data = vec![0u8; 1 << 21];
    let mut job = c.start_write(S7_AREA_DB, 1, 1, S7_WL_BYTE, data.len()).unwrap();
    let mut sent = 0usize;
    while let Some(req) = c.next_write_request(&mut job, &data) {
        sent += req.len() - 35;
        let mut h = answer_header(15);
        job.accept_header(&mut h).unwrap();
        let mut resp = [0u8; 480];
        resp[14] = 0xFF;
        job.accept_ack(&resp, 15).unwrap();
    }
    assert_eq!(sent, 65535);
    assert!(c.start_write(S7_AREA_DB, 1, 65535, S7_WL_BIT, 1).is_ok());
}
