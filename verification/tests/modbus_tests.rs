use modbus_rtu::error::{Error, IoFault, ProtocolFault};
use modbus_rtu::frame::crc16;
use modbus_rtu::modbus::{create, Modbus, ModbusRtu};
use modbus_rtu::pin::RecordingPin;
use modbus_rtu::transport::{LinkEvent, NoDelay, Rs485Transport, ScriptedLink};

/// A client over a scripted line; the responses arrive in the given order.
fn test_client(
    mut responses: Vec<Vec<u8>>,
) -> ModbusRtu<Rs485Transport<RecordingPin, ScriptedLink, NoDelay>> {
    responses.reverse();
    let transport = Rs485Transport::assemble(
        ScriptedLink::new(responses),
        RecordingPin::new(),
        NoDelay,
        0,
        0,
    );
    create(transport).unwrap()
}

/// The complete well-formed response frame carrying the given registers.
fn response_frame(addr: u8, registers: &[u16]) -> Vec<u8> {
    let mut f = vec![addr, 3, (registers.len() * 2) as u8];
    for r in registers {
        f.extend_from_slice(&r.to_be_bytes());
    }
    let c = crc16(&f, f.len());
    f.extend_from_slice(&c.to_le_bytes());
    f
}

/// A response stream encoding registers 0x1234 and 0x0001 decodes to
/// [4660, 1], in order, via a header read and one body read.
#[test]
fn request_register_decodes_two_registers() {
    let frame = response_frame(1, &[0x1234, 0x0001]);
    let header = frame[..6].to_vec();
    let body = frame[6..].to_vec();
    let mut client = test_client(vec![header.clone(), body.clone()]);
    assert_eq!(client.request_register(1, 1, 2), Ok(vec![4660, 1]));
    assert_eq!(
        client.transport.link.events,
        vec![
            LinkEvent::Sent(modbus_rtu::frame::build_request(1, 1, 2).unwrap()),
            LinkEvent::Received(6, header),
            LinkEvent::Received(3, body),
        ]
    );
}

/// A header read of fewer than six bytes fails at once, with no second
/// receive attempted.
#[test]
fn short_header_fails_without_second_receive() {
    let mut client = test_client(vec![vec![1, 3, 4]]);
    assert_eq!(client.request_register(1, 1, 2), Err(Error::InsufficientData));
    assert_eq!(
        client.transport.link.events,
        vec![
            LinkEvent::Sent(modbus_rtu::frame::build_request(1, 1, 2).unwrap()),
            LinkEvent::Received(6, vec![1, 3, 4]),
        ]
    );
}

/// A response fully contained in the header needs no second receive: an
/// exception response is five bytes, and the call reports the exception.
#[test]
fn exception_response_needs_no_second_receive() {
    let mut exception = vec![1, 0x83, 2];
    let c = crc16(&exception, 3);
    exception.extend_from_slice(&c.to_le_bytes());
    exception.push(0); // a stray sixth byte beyond the actual frame
    let mut client = test_client(vec![exception.clone()]);
    assert_eq!(
        client.request_register(1, 1, 2),
        Err(Error::Protocol(ProtocolFault::Exception(2)))
    );
    assert_eq!(
        client.transport.link.events,
        vec![
            LinkEvent::Sent(modbus_rtu::frame::build_request(1, 1, 2).unwrap()),
            LinkEvent::Received(6, exception),
        ]
    );
}

/// A guessed total length equal to the header length also skips the second
/// receive.
#[test]
fn header_sized_response_needs_no_second_receive() {
    // function 3 with byte count 1: guessed total of six bytes exactly
    let mut frame = vec![1, 3, 1, 7];
    let c = crc16(&frame, 4);
    frame.extend_from_slice(&c.to_le_bytes());
    let mut client = test_client(vec![frame.clone()]);
    assert_eq!(
        client.request_register(1, 1, 2),
        Err(Error::Protocol(ProtocolFault::ByteCountMismatch))
    );
    assert_eq!(client.transport.link.events.len(), 2);
}

/// A register count of zero fails before any I/O: nothing is sent and
/// nothing is read.
#[test]
fn zero_count_fails_before_any_io() {
    let mut client = test_client(vec![]);
    assert_eq!(
        client.request_register(1, 1, 0),
        Err(Error::Protocol(ProtocolFault::InvalidCount))
    );
    assert_eq!(client.transport.link.events, vec![]);
    assert_eq!(client.transport.pin.log, vec![]);
}

/// A register count above the RTU span fails before any I/O too.
#[test]
fn oversized_count_fails_before_any_io() {
    let mut client = test_client(vec![]);
    assert_eq!(
        client.request_register(1, 1, 300),
        Err(Error::Protocol(ProtocolFault::InvalidCount))
    );
    assert_eq!(client.transport.link.events, vec![]);
}

/// A second receive that comes up short fails the call.
#[test]
fn short_body_fails() {
    let frame = response_frame(1, &[0x1234, 0x0001]);
    let header = frame[..6].to_vec();
    let short_body = frame[6..8].to_vec();
    let mut client = test_client(vec![header, short_body]);
    assert_eq!(client.request_register(1, 1, 2), Err(Error::InsufficientData));
    assert_eq!(client.transport.link.events.len(), 3);
}

/// A response for the wrong slave address is rejected by name.
#[test]
fn wrong_address_rejected() {
    let frame = response_frame(2, &[7]);
    let header = frame[..6].to_vec();
    let body = frame[6..].to_vec();
    let mut client = test_client(vec![header, body]);
    assert_eq!(
        client.request_register(1, 1, 1),
        Err(Error::Protocol(ProtocolFault::AddressMismatch))
    );
}

/// A failing serial read surfaces unchanged.
#[test]
fn read_fault_propagates() {
    let mut client = test_client(vec![]);
    client.transport.link.fail_reads = true;
    assert_eq!(
        client.request_register(1, 1, 1),
        Err(Error::Io(IoFault::SerialRead))
    );
}

/// Two sequential calls on one transport never interleave: the first
/// call's send and receives stand unbroken before the second call's.
#[test]
fn sequential_calls_do_not_interleave() {
    let frame1 = response_frame(1, &[0x1234, 0x0001]);
    let frame2 = response_frame(1, &[0x00AA]);
    let mut client = test_client(vec![
        frame1[..6].to_vec(),
        frame1[6..].to_vec(),
        frame2[..6].to_vec(),
        frame2[6..].to_vec(),
    ]);
    assert_eq!(client.request_register(1, 1, 2), Ok(vec![0x1234, 1]));
    assert_eq!(client.request_register(1, 5, 1), Ok(vec![0x00AA]));
    assert_eq!(
        client.transport.link.events,
        vec![
            LinkEvent::Sent(modbus_rtu::frame::build_request(1, 1, 2).unwrap()),
            LinkEvent::Received(6, frame1[..6].to_vec()),
            LinkEvent::Received(3, frame1[6..].to_vec()),
            LinkEvent::Sent(modbus_rtu::frame::build_request(1, 5, 1).unwrap()),
            LinkEvent::Received(6, frame2[..6].to_vec()),
            LinkEvent::Received(1, frame2[6..].to_vec()),
        ]
    );
    assert_eq!(client.transport.pin.log, vec![true, false, true, false]);
}
