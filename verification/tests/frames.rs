use protocols::ha::{
    join_be, split_be, ArgParser, Code, CodeCategory, MsgError, MsgFrame, FRAME_CAPACITY,
};
use protocols::payload::MAX_MSG_SIZE;

const ALL_CODES: [(Code, u16); 15] = [
    (Code::Ping, 0x0000),
    (Code::ItfType, 0x0001),
    (Code::Version, 0x0002),
    (Code::IdGet, 0x0003),
    (Code::GpioDirSet, 0x0100),
    (Code::GpioDirGet, 0x0101),
    (Code::GpioRead, 0x0102),
    (Code::GpioWrite, 0x0103),
    (Code::GpioValue, 0xFEFF),
    (Code::Good, 0xFFFF),
    (Code::ErrGeneric, 0xFFFE),
    (Code::ErrCRC, 0xFFFD),
    (Code::ErrUnknownCode, 0xFFFC),
    (Code::ErrInvalidArgs, 0xFFFB),
    (Code::ErrBusy, 0xFFFA),
];

/// The checksum, straight from the crate that computes it.
fn crc16(bytes: &[u8]) -> u16 {
    crc16::State::<crc16::CCITT_FALSE>::calculate(bytes)
}

/// The bytes of a frame, built by hand from a code number and a payload.
fn wire(code: u16, payload: &[u8]) -> Vec<u8> {
    let mut bytes: Vec<u8> = vec![(code >> 8) as u8, (code & 0xFF) as u8];
    bytes.extend_from_slice(payload);
    let crc: u16 = crc16(&bytes);
    bytes.push((crc >> 8) as u8);
    bytes.push((crc & 0xFF) as u8);
    bytes
}

/// Bytes that look arbitrary, the same on every run.
fn noise(len: usize, seed: u32) -> Vec<u8> {
    let mut state: u32 = seed.wrapping_mul(2654435761).wrapping_add(12345);
    let mut out: Vec<u8> = Vec::new();
    for _ in 0..len {
        state = state.wrapping_mul(1664525).wrapping_add(1013904223);
        out.push((state >> 24) as u8);
    }
    out
}

#[test]
fn code_numbers_match_the_table() {
    for (code, number) in ALL_CODES {
        assert_eq!(code.to_u16(), number);
        assert_eq!(Code::from_u16(number), Some(code));
    }
}

#[test]
fn code_read_is_below_write() {
    assert_eq!(Code::GpioRead.to_u16(), 0x0102);
    assert_eq!(Code::GpioWrite.to_u16(), 0x0103);
}

#[test]
fn only_fifteen_numbers_are_codes() {
    let mut known: u32 = 0;
    for number in 0..=u16::MAX {
        match Code::from_u16(number) {
            Some(code) => {
                known += 1;
                assert_eq!(code.to_u16(), number);
            }
            None => {}
        }
    }
    assert_eq!(known, 15);
    assert_eq!(Code::from_u16(0x0004), None);
    assert_eq!(Code::from_u16(0x0104), None);
    assert_eq!(Code::from_u16(0xFEFE), None);
    assert_eq!(Code::from_u16(0xFFF9), None);
}

#[test]
fn code_from_slice_reads_big_endian() {
    assert_eq!(Code::from_slice(&[0x01, 0x03]), Some(Code::GpioWrite));
    assert_eq!(Code::from_slice(&[0x03, 0x01]), None);
    assert_eq!(Code::from_slice(&[0xFE, 0xFF]), Some(Code::GpioValue));
    assert_eq!(Code::from_slice(&[0xFF, 0xFE]), Some(Code::ErrGeneric));
}

#[test]
fn big_endian_helpers() {
    assert_eq!(join_be(0x12, 0x34), 0x1234);
    assert_eq!(join_be(0xFF, 0xFF), 0xFFFF);
    assert_eq!(join_be(0x00, 0x01), 0x0001);
    assert_eq!(split_be(0x1234), [0x12, 0x34]);
    assert_eq!(split_be(0x00FF), [0x00, 0xFF]);
    for x in [0u16, 1, 255, 256, 0x8000, 0xFFFF] {
        let bytes: [u8; 2] = split_be(x);
        assert_eq!(bytes, x.to_be_bytes());
        assert_eq!(join_be(bytes[0], bytes[1]), x);
    }
}

#[test]
fn categories_partition_the_codes() {
    for code in [Code::Ping, Code::ItfType, Code::Version, Code::IdGet] {
        assert_eq!(CodeCategory::categorize(&code), CodeCategory::ReqGeneric);
    }
    for code in [Code::GpioDirSet, Code::GpioDirGet, Code::GpioWrite, Code::GpioRead] {
        assert_eq!(CodeCategory::categorize(&code), CodeCategory::ReqGpio);
    }
    for code in [
        Code::GpioValue,
        Code::Good,
        Code::ErrGeneric,
        Code::ErrCRC,
        Code::ErrUnknownCode,
        Code::ErrInvalidArgs,
        Code::ErrBusy,
    ] {
        assert_eq!(CodeCategory::categorize(&code), CodeCategory::Response);
    }
}

#[test]
fn checksum_is_ccitt_false() {
    // "123456789" has the checksum 0x29B1: the frame passes the checksum
    // and fails on its code.
    assert_eq!(MsgFrame::from_slice(b"123456789\x29\xB1").unwrap_err(), MsgError::UnknownCode);
    assert_eq!(
        MsgFrame::from_slice(b"123456789\x00\x00").unwrap_err(),
        MsgError::InvalidCRC(0x29B1, 0x0000)
    );
    assert_eq!(
        MsgFrame::from_slice(&[0x00, 0x00, 0x00, 0x00]).unwrap_err(),
        MsgError::InvalidCRC(0x1D0F, 0x0000)
    );
    assert_eq!(
        MsgFrame::from_slice(&[0x00, 0x00]).unwrap_err(),
        MsgError::InvalidLength
    );
    assert_eq!(crc16(b"123456789"), 0x29B1);
    assert_eq!(crc16(&[]), 0xFFFF);
    assert_eq!(crc16(&[0x01, 0x03, 0x05, 0x01]), 0x44F0);
}

#[test]
fn ping_frame_is_read() {
    let frame: MsgFrame = MsgFrame::from_slice(&[0x00, 0x00, 0x1D, 0x0F]).unwrap();
    assert_eq!(frame.code, Code::Ping);
    assert_eq!(frame.payload(), &[] as &[u8]);
    assert_eq!(frame.data.as_slice(), &[] as &[u8]);
}

#[test]
fn frame_with_payload_is_read() {
    let frame: MsgFrame = MsgFrame::from_slice(&[0x01, 0x03, 0x05, 0x01, 0x44, 0xF0]).unwrap();
    assert_eq!(frame.code, Code::GpioWrite);
    assert_eq!(frame.payload(), &[0x05, 0x01]);
}

#[test]
fn three_byte_frame_is_too_short() {
    assert_eq!(MsgFrame::from_slice(&[0x00, 0x00, 0x1D]).unwrap_err(), MsgError::InvalidLength);
    assert_eq!(MsgFrame::from_slice(&[]).unwrap_err(), MsgError::InvalidLength);
    assert_eq!(MsgFrame::from_slice(&[0xC0]).unwrap_err(), MsgError::InvalidLength);
}

#[test]
fn corrupted_crc_byte_is_reported_with_both_values() {
    assert_eq!(
        MsgFrame::from_slice(&[0x00, 0x00, 0x1D, 0x0E]).unwrap_err(),
        MsgError::InvalidCRC(0x1D0F, 0x1D0E)
    );
    assert_eq!(
        MsgFrame::from_slice(&[0x00, 0x00, 0x9D, 0x0F]).unwrap_err(),
        MsgError::InvalidCRC(0x1D0F, 0x9D0F)
    );
    assert_eq!(
        MsgFrame::from_slice(&[0x01, 0x03, 0x05, 0x00, 0x44, 0xF0]).unwrap_err(),
        MsgError::InvalidCRC(crc16(&[0x01, 0x03, 0x05, 0x00]), 0x44F0)
    );
}

#[test]
fn crc_is_checked_before_the_code() {
    assert_eq!(
        MsgFrame::from_slice(&[0x00, 0x04, 0x00, 0x00]).unwrap_err(),
        MsgError::InvalidCRC(0x5D8B, 0x0000)
    );
}

#[test]
fn unknown_code_is_rejected() {
    assert_eq!(
        MsgFrame::from_slice(&[0x00, 0x04, 0x5D, 0x8B]).unwrap_err(),
        MsgError::UnknownCode
    );
    assert_eq!(MsgFrame::from_slice(&wire(0x0200, &[1, 2, 3])).unwrap_err(), MsgError::UnknownCode);
}

#[test]
fn payload_capacity_is_enforced() {
    assert_eq!(MAX_MSG_SIZE, 128);
    assert_eq!(FRAME_CAPACITY, 132);
    let fits: Vec<u8> = noise(MAX_MSG_SIZE, 1);
    let frame: MsgFrame = MsgFrame::from_slice(&wire(0x0000, &fits)).unwrap();
    assert_eq!(frame.payload(), fits.as_slice());
    let too_long: Vec<u8> = noise(MAX_MSG_SIZE + 1, 2);
    assert_eq!(
        MsgFrame::from_slice(&wire(0x0000, &too_long)).unwrap_err(),
        MsgError::InvalidLength
    );
    assert!(MsgFrame::new(Code::Ping, &fits).is_ok());
    assert_eq!(MsgFrame::new(Code::Ping, &too_long).unwrap_err(), MsgError::InvalidLength);
}

#[test]
fn oversized_frame_with_unknown_code_reports_the_code() {
    let too_long: Vec<u8> = noise(MAX_MSG_SIZE + 1, 3);
    assert_eq!(
        MsgFrame::from_slice(&wire(0x0200, &too_long)).unwrap_err(),
        MsgError::UnknownCode
    );
}

#[test]
fn frame_crc_covers_code_and_payload() {
    let frame: MsgFrame = MsgFrame::new(Code::GpioWrite, &[0x05, 0x01]).unwrap();
    assert_eq!(frame.crc(), 0x44F0);
    assert_eq!(frame.crc(), crc16(&[0x01, 0x03, 0x05, 0x01]));
    assert_eq!(MsgFrame::empty(Code::Good).crc(), 0x0000);
    assert_eq!(MsgFrame::empty(Code::Ping).crc(), 0x1D0F);
}

#[test]
fn frame_bytes_are_code_payload_crc() {
    let frame: MsgFrame = MsgFrame::new(Code::GpioWrite, &[0x05, 0x01]).unwrap();
    assert_eq!(frame.to_bytes().slice(), &[0x01, 0x03, 0x05, 0x01, 0x44, 0xF0]);
    assert_eq!(MsgFrame::empty(Code::Good).to_bytes().slice(), &[0xFF, 0xFF, 0x00, 0x00]);
    assert_eq!(
        MsgFrame::new(Code::GpioValue, &[7, 1]).unwrap().to_bytes().slice(),
        &[0xFE, 0xFF, 0x07, 0x01, 0xFF, 0x02]
    );
}

#[test]
fn every_frame_reads_back() {
    let mut seed: u32 = 0;
    for (code, _) in ALL_CODES {
        for len in [0usize, 1, 2, 3, 17, 64, 127, 128] {
            seed += 1;
            let payload: Vec<u8> = noise(len, seed);
            let frame: MsgFrame = MsgFrame::new(code, &payload).unwrap();
            let bytes: Vec<u8> = frame.to_bytes().slice().to_vec();
            assert_eq!(bytes.len(), len + 4);
            let back: MsgFrame = MsgFrame::from_slice(&bytes).unwrap();
            assert_eq!(back.code, code);
            assert_eq!(back.payload(), payload.as_slice());
            assert_eq!(back.crc(), frame.crc());
        }
    }
}

#[test]
fn every_single_bit_flip_is_an_invalid_crc() {
    let frames: [Vec<u8>; 3] = [
        vec![0x00, 0x00, 0x1D, 0x0F],
        vec![0x01, 0x03, 0x05, 0x01, 0x44, 0xF0],
        wire(0x0100, &noise(40, 9)),
    ];
    for good in frames {
        assert!(MsgFrame::from_slice(&good).is_ok());
        for i in 0..good.len() {
            for bit in 0..8 {
                let mut bad: Vec<u8> = good.clone();
                bad[i] ^= 1u8 << bit;
                let n: usize = bad.len();
                let computed: u16 = crc16(&bad[..n - 2]);
                let received: u16 = u16::from_be_bytes([bad[n - 2], bad[n - 1]]);
                assert_ne!(computed, received);
                assert_eq!(
                    MsgFrame::from_slice(&bad).unwrap_err(),
                    MsgError::InvalidCRC(computed, received)
                );
            }
        }
    }
}

#[test]
fn text_frames_carry_the_text() {
    let frame: MsgFrame = MsgFrame::with_text(Code::ErrGeneric, "Error reading pin");
    assert_eq!(frame.code, Code::ErrGeneric);
    assert_eq!(frame.payload(), b"Error reading pin");
    let empty: MsgFrame = MsgFrame::with_text(Code::ErrGeneric, "");
    assert_eq!(empty.payload(), b"");
}

#[test]
fn long_text_is_cut_at_the_capacity() {
    let text: String = "x".repeat(200);
    let frame: MsgFrame = MsgFrame::with_text(Code::ErrInvalidArgs, &text);
    assert_eq!(frame.payload().len(), 128);
    assert_eq!(frame.payload(), &text.as_bytes()[..128]);
    let exact: String = "y".repeat(128);
    assert_eq!(MsgFrame::with_text(Code::ErrGeneric, &exact).payload(), exact.as_bytes());
}

#[test]
fn errors_become_response_frames() {
    let cases: [(MsgError, Code, &[u8]); 5] = [
        (MsgError::InvalidLength, Code::ErrGeneric, b"Invalid length"),
        (MsgError::InvalidCRC(1, 2), Code::ErrCRC, b""),
        (MsgError::UnknownCode, Code::ErrUnknownCode, b""),
        (MsgError::InvalidArg, Code::ErrInvalidArgs, b"Invalid argument"),
        (MsgError::NotARequest(Code::Good), Code::ErrGeneric, b"Not a request"),
    ];
    for (error, code, payload) in cases {
        let frame: MsgFrame = error.to_frame();
        assert_eq!(frame.code, code);
        assert_eq!(frame.payload(), payload);
        assert_eq!(CodeCategory::categorize(&frame.code), CodeCategory::Response);
    }
    assert_eq!(
        MsgError::InvalidLength.to_frame().to_bytes().slice(),
        wire(0xFFFE, b"Invalid length").as_slice()
    );
    assert_eq!(
        MsgError::InvalidCRC(7, 8).to_frame().to_bytes().slice(),
        &[0xFF, 0xFD, 0x20, 0x42]
    );
}

#[test]
fn parser_takes_bytes_in_order() {
    let buf: [u8; 3] = [10, 20, 30];
    let mut parser: ArgParser = ArgParser::new(&buf);
    assert_eq!(parser.consume_u8(), Some(10));
    assert_eq!(parser.consume_u8(), Some(20));
    assert_eq!(parser.consume_u8(), Some(30));
    assert_eq!(parser.consume_u8(), None);
    assert_eq!(parser.consume_u8(), None);
}

#[test]
fn parser_reads_u16_big_endian() {
    let buf: [u8; 5] = [0x12, 0x34, 0xAB, 0xCD, 0xEF];
    let mut parser: ArgParser = ArgParser::new(&buf);
    assert_eq!(parser.consume_u16(), Some(0x1234));
    assert_eq!(parser.consume_u16(), Some(0xABCD));
    assert_eq!(parser.consume_u16(), None);
    assert_eq!(parser.consume_u8(), Some(0xEF));
    assert_eq!(parser.consume_u16(), None);
    assert_eq!(parser.consume_u8(), None);
}

#[test]
fn parser_on_nothing_yields_nothing() {
    let mut parser: ArgParser = ArgParser::new(&[]);
    assert_eq!(parser.consume_u16(), None);
    assert_eq!(parser.consume_u8(), None);
    assert_eq!(parser.consume_u16(), None);
}

#[test]
fn parser_mixes_widths() {
    let buf: [u8; 4] = [1, 2, 3, 4];
    let mut parser: ArgParser = ArgParser::new(&buf);
    assert_eq!(parser.consume_u8(), Some(1));
    assert_eq!(parser.consume_u16(), Some(0x0203));
    assert_eq!(parser.consume_u16(), None);
    assert_eq!(parser.consume_u8(), Some(4));
}
