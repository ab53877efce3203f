use modbus_rtu::error::{Error, ProtocolFault};
use modbus_rtu::frame::{build_request, crc16, guess_frame_len, parse_response};

use rmodbus::client::ModbusRequest;
use rmodbus::ModbusProto;

/// The standard CRC-16/MODBUS check value.
#[test]
fn crc16_check_value() {
    assert_eq!(crc16(b"123456789", 9), 0x4B37);
}

#[test]
fn crc16_empty_is_initial_value() {
    assert_eq!(crc16(b"", 0), 0xFFFF);
}

/// Builds a response frame for the given registers with a valid CRC.
fn response_frame(addr: u8, registers: &[u16]) -> Vec<u8> {
    let mut f = vec![addr, 3, (registers.len() * 2) as u8];
    for r in registers {
        f.extend_from_slice(&r.to_be_bytes());
    }
    let c = crc16(&f, f.len());
    f.extend_from_slice(&c.to_le_bytes());
    f
}

/// The generated request frame matches the standard Modbus RTU encoder
/// byte for byte, for a spread of valid parameters.
#[test]
fn request_frame_matches_standard_encoder() {
    for (addr, register, count) in [
        (1u8, 1u16, 1u16),
        (3, 0x1234, 2),
        (17, 0xFFFF, 125),
        (247, 0, 16),
    ] {
        let ours = build_request(addr, register, count).unwrap();
        let mut reference = ModbusRequest::new(addr, ModbusProto::Rtu);
        let mut expected: Vec<u8> = Vec::new();
        reference
            .generate_get_holdings(register, count, &mut expected)
            .unwrap();
        assert_eq!(ours, expected);
    }
}

/// The generated frame decodes back to its own parameters and its CRC
/// validates over the first six bytes.
#[test]
fn request_frame_round_trips() {
    let f = build_request(9, 0x0102, 256).unwrap();
    assert_eq!(f.len(), 8);
    assert_eq!(f[0], 9);
    assert_eq!(f[1], 3);
    assert_eq!(u16::from_be_bytes([f[2], f[3]]), 0x0102);
    assert_eq!(u16::from_be_bytes([f[4], f[5]]), 256);
    assert_eq!(u16::from_le_bytes([f[6], f[7]]), crc16(&f, 6));
}

#[test]
fn request_count_zero_rejected() {
    assert_eq!(
        build_request(1, 1, 0),
        Err(Error::Protocol(ProtocolFault::InvalidCount))
    );
}

#[test]
fn request_count_over_span_rejected() {
    assert_eq!(
        build_request(1, 1, 257),
        Err(Error::Protocol(ProtocolFault::InvalidCount))
    );
    assert!(build_request(1, 1, 256).is_ok());
}

#[test]
fn guess_length_of_read_response() {
    // function 3 with a byte count of 4: 3 framing bytes + 4 + 2 CRC bytes
    assert_eq!(guess_frame_len(&vec![1, 3, 4, 0, 0, 0]), Ok(9));
}

#[test]
fn guess_length_of_exception_response() {
    assert_eq!(guess_frame_len(&vec![1, 0x83, 2, 0, 0, 0]), Ok(5));
}

#[test]
fn guess_length_of_write_echo() {
    assert_eq!(guess_frame_len(&vec![1, 6, 0, 1, 0, 2]), Ok(8));
}

#[test]
fn guess_length_unknown_function() {
    assert_eq!(
        guess_frame_len(&vec![1, 9, 0, 0, 0, 0]),
        Err(Error::Protocol(ProtocolFault::UnknownFunction))
    );
}

#[test]
fn guess_length_oversized_byte_count() {
    assert_eq!(
        guess_frame_len(&vec![1, 3, 251, 0, 0, 0]),
        Err(Error::Protocol(ProtocolFault::UnknownFunction))
    );
}

/// A well-formed response decodes to its registers, and the standard
/// decoder agrees with both the frame and the values.
#[test]
fn response_decodes_and_standard_decoder_agrees() {
    let frame = response_frame(1, &[0x1234, 0x0001]);
    let values = parse_response(1, 2, &frame).unwrap();
    assert_eq!(values, vec![0x1234, 0x0001]);

    let mut reference = ModbusRequest::new(1, ModbusProto::Rtu);
    let mut request: Vec<u8> = Vec::new();
    reference.generate_get_holdings(1, 2, &mut request).unwrap();
    let mut reference_values: Vec<u16> = Vec::new();
    reference.parse_u16(&frame, &mut reference_values).unwrap();
    assert_eq!(reference_values, values);
}

#[test]
fn response_bad_crc_rejected() {
    let mut frame = response_frame(1, &[7]);
    let last = frame.len() - 1;
    frame[last] ^= 0xFF;
    assert_eq!(
        parse_response(1, 1, &frame),
        Err(Error::Protocol(ProtocolFault::CrcMismatch))
    );
}

#[test]
fn response_address_mismatch_rejected() {
    let frame = response_frame(2, &[7]);
    assert_eq!(
        parse_response(1, 1, &frame),
        Err(Error::Protocol(ProtocolFault::AddressMismatch))
    );
}

#[test]
fn response_exception_reported_with_code() {
    let mut frame = vec![1, 0x83, 2];
    let c = crc16(&frame, 3);
    frame.extend_from_slice(&c.to_le_bytes());
    assert_eq!(
        parse_response(1, 1, &frame),
        Err(Error::Protocol(ProtocolFault::Exception(2)))
    );
}

#[test]
fn response_function_mismatch_rejected() {
    let mut frame = vec![1, 4, 2, 0, 7];
    let c = crc16(&frame, 5);
    frame.extend_from_slice(&c.to_le_bytes());
    assert_eq!(
        parse_response(1, 1, &frame),
        Err(Error::Protocol(ProtocolFault::FunctionMismatch))
    );
}

#[test]
fn response_inconsistent_length_rejected() {
    // byte-count field says 4 but only 2 payload bytes are present
    let mut frame = vec![1, 3, 4, 0, 7];
    let c = crc16(&frame, 5);
    frame.extend_from_slice(&c.to_le_bytes());
    assert_eq!(
        parse_response(1, 1, &frame),
        Err(Error::Protocol(ProtocolFault::LengthMismatch))
    );
}

#[test]
fn response_byte_count_for_wrong_span_rejected() {
    let frame = response_frame(1, &[7]);
    assert_eq!(
        parse_response(1, 2, &frame),
        Err(Error::Protocol(ProtocolFault::ByteCountMismatch))
    );
}

#[test]
fn response_too_short_rejected() {
    assert_eq!(
        parse_response(1, 1, &vec![1, 3, 0]),
        Err(Error::Protocol(ProtocolFault::TooShort))
    );
}
