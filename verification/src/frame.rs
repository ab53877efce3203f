//! Byte-exact Modbus RTU framing: CRC-16, request building, response length
//! guessing, and response validation and decoding.
//!
//! Every frame this module speaks of follows the RTU wire format
//! `[address:1][function:1][payload][crc16:2]`, with the CRC transmitted low
//! byte first and every multi-byte payload value big-endian.

use vstd::prelude::*;

use crate::error::{Error, ProtocolFault};

verus! {

/// Function code for "read holding registers".
pub const READ_HOLDINGS: u8 = 3;

/// Largest register span a single RTU read request may ask for.
pub const MAX_READ_COUNT: u16 = 256;

/// Minimal number of response bytes needed before the total frame length can
/// be guessed.
pub const HEADER_LEN: usize = 6;

/// One shift-and-conditional-xor step of the standard Modbus CRC-16
/// (reflected polynomial 0xA001).
pub open spec fn crc16_bit(c: u16) -> u16 {
    if c & 1 == 0 {
        c >> 1
    } else {
        (c >> 1) ^ 0xA001
    }
}

/// Folding one byte into a running Modbus CRC-16: xor the byte into the low
/// half, then apply eight bit steps.
pub open spec fn crc16_byte(c: u16, b: u8) -> u16 {
    crc16_bit(crc16_bit(crc16_bit(crc16_bit(crc16_bit(crc16_bit(crc16_bit(crc16_bit(
        c ^ (b as u16),
    ))))))))
}

/// The Modbus CRC-16 of `data` continued from the accumulator `acc`.
pub open spec fn crc16_from(acc: u16, data: Seq<u8>) -> u16
    decreases data.len(),
{
    if data.len() == 0 {
        acc
    } else {
        crc16_from(crc16_byte(acc, data[0]), data.skip(1))
    }
}

/// The Modbus CRC-16 of `data`, started from the standard initial value.
pub open spec fn crc16_of(data: Seq<u8>) -> u16 {
    crc16_from(0xffff, data)
}

/// A 16-bit value read big-endian from two bytes.
pub open spec fn be16(hi: u8, lo: u8) -> u16 {
    ((hi as u16) << 8) | (lo as u16)
}

/// A 16-bit value read little-endian from two bytes, as the CRC trailer is.
pub open spec fn le16(lo: u8, hi: u8) -> u16 {
    ((hi as u16) << 8) | (lo as u16)
}

/// One bit step of the CRC, as executable code.
fn crc16_bit_step(c: u16) -> (r: u16)
    ensures
        r == crc16_bit(c),
{
    if c & 1 == 0 {
        c >> 1
    } else {
        (c >> 1) ^ 0xA001
    }
}

/// One byte step of the CRC, as executable code.
fn crc16_byte_step(c: u16, b: u8) -> (r: u16)
    ensures
        r == crc16_byte(c, b),
{
    let c0 = c ^ (b as u16);
    let c1 = crc16_bit_step(c0);
    let c2 = crc16_bit_step(c1);
    let c3 = crc16_bit_step(c2);
    let c4 = crc16_bit_step(c3);
    let c5 = crc16_bit_step(c4);
    let c6 = crc16_bit_step(c5);
    let c7 = crc16_bit_step(c6);
    crc16_bit_step(c7)
}

/// The Modbus CRC-16 over the first `len` bytes of a slice.
pub fn crc16(data: &[u8], len: usize) -> (r: u16)
    requires
        len <= data@.len(),
    ensures
        r == crc16_of(data@.take(len as int)),
{
    let mut crc: u16 = 0xffff;
    let mut i: usize = 0;
    proof {
        assert(data@.take(len as int).skip(0) =~= data@.take(len as int));
    }
    while i < len
        invariant
            i <= len <= data@.len(),
            crc16_from(crc, data@.take(len as int).skip(i as int)) == crc16_of(
                data@.take(len as int),
            ),
        decreases len - i,
    {
        proof {
            let rest = data@.take(len as int).skip(i as int);
            assert(rest[0] == data@[i as int]);
            assert(rest.skip(1) =~= data@.take(len as int).skip(i as int + 1));
        }
        crc = crc16_byte_step(crc, data[i]);
        i = i + 1;
    }
    proof {
        assert(data@.take(len as int).skip(len as int) =~= Seq::<u8>::empty());
    }
    crc
}

/// The request frame that asks slave `addr` for `count` holding registers
/// starting at `register`: address, function code, two big-endian fields,
/// and the CRC-16 trailer low byte first.
pub open spec fn request_frame(addr: u8, register: u16, count: u16) -> Seq<u8> {
    let body = seq![
        addr,
        READ_HOLDINGS,
        (register >> 8) as u8,
        register as u8,
        (count >> 8) as u8,
        count as u8,
    ];
    let c = crc16_of(body);
    body + seq![c as u8, (c >> 8) as u8]
}

/// Builds the read-holding-registers request frame, rejecting a register
/// count of zero or above [`MAX_READ_COUNT`] before any byte is produced.
pub fn build_request(addr: u8, register: u16, count: u16) -> (r: Result<Vec<u8>, Error>)
    ensures
        1 <= count <= MAX_READ_COUNT <==> r is Ok,
        r matches Ok(f) ==> f@ == request_frame(addr, register, count),
        r matches Err(e) ==> e == Error::Protocol(ProtocolFault::InvalidCount),
{
    if count == 0 || count > MAX_READ_COUNT {
        return Err(Error::Protocol(ProtocolFault::InvalidCount));
    }
    let mut f: Vec<u8> = Vec::new();
    f.push(addr);
    f.push(READ_HOLDINGS);
    f.push(#[verifier::truncate] ((register >> 8) as u8));
    f.push(#[verifier::truncate] (register as u8));
    f.push(#[verifier::truncate] ((count >> 8) as u8));
    f.push(#[verifier::truncate] (count as u8));
    proof {
        assert(f@ =~= seq![
            addr,
            READ_HOLDINGS,
            (register >> 8) as u8,
            register as u8,
            (count >> 8) as u8,
            count as u8,
        ]);
        assert(f@.take(6) =~= f@);
    }
    let c = crc16(f.as_slice(), 6);
    f.push(#[verifier::truncate] (c as u8));
    f.push(#[verifier::truncate] ((c >> 8) as u8));
    proof {
        assert(f@ =~= request_frame(addr, register, count));
    }
    Ok(f)
}

/// Every request frame this crate can generate round-trips through the
/// standard RTU request layout: it is eight bytes long, carries the slave
/// address, the read-holdings function code, then the starting register and
/// the register count big-endian, and ends in a CRC-16 trailer that
/// validates against the six bytes before it.
pub proof fn lemma_request_frame_round_trip(addr: u8, register: u16, count: u16)
    ensures
        ({
            let f = request_frame(addr, register, count);
            &&& f.len() == 8
            &&& f[0] == addr
            &&& f[1] == READ_HOLDINGS
            &&& be16(f[2], f[3]) == register
            &&& be16(f[4], f[5]) == count
            &&& crc16_of(f.take(6)) == le16(f[6], f[7])
        }),
{
    let f = request_frame(addr, register, count);
    let body = seq![
        addr,
        READ_HOLDINGS,
        (register >> 8) as u8,
        register as u8,
        (count >> 8) as u8,
        count as u8,
    ];
    let c = crc16_of(body);
    assert(f.take(6) =~= body);
    assert((((register >> 8) as u8 as u16) << 8) | (register as u8 as u16) == register)
        by (bit_vector);
    assert((((count >> 8) as u8 as u16) << 8) | (count as u8 as u16) == count) by (bit_vector);
    assert((((c >> 8) as u8 as u16) << 8) | (c as u8 as u16) == c) by (bit_vector);
}

/// The total response length the standard RTU rule guesses from a header:
/// a fixed five bytes for an exception response, the byte-count field plus
/// framing for a read response, a fixed eight bytes for single and bulk
/// write echoes, and no guess at all for an unrecognized function code or a
/// byte count that would overflow the one-byte frame length.
pub open spec fn guessed_total_len(header: Seq<u8>) -> Option<usize>
    recommends
        header.len() >= 3,
{
    let func = header[1];
    if func >= 0x80 {
        Some(5usize)
    } else if 1 <= func && func <= 4 {
        if header[2] <= 250 {
            Some((header[2] + 5) as usize)
        } else {
            None
        }
    } else if func == 5 || func == 6 || func == 15 || func == 16 {
        Some(8usize)
    } else {
        None
    }
}

/// Guesses the total response frame length from at least [`HEADER_LEN`]
/// received bytes, per the standard RTU length-guessing rule.
pub fn guess_frame_len(header: &Vec<u8>) -> (r: Result<usize, Error>)
    requires
        header@.len() >= 3,
    ensures
        r matches Ok(n) ==> guessed_total_len(header@) == Some(n),
        r matches Err(e) ==> guessed_total_len(header@) is None && e == Error::Protocol(
            ProtocolFault::UnknownFunction,
        ),
{
    let func = header[1];
    if func >= 0x80 {
        Ok(5)
    } else if 1 <= func && func <= 4 {
        let bc = header[2];
        if bc <= 250 {
            Ok(bc as usize + 5)
        } else {
            Err(Error::Protocol(ProtocolFault::UnknownFunction))
        }
    } else if func == 5 || func == 6 || func == 15 || func == 16 {
        Ok(8)
    } else {
        Err(Error::Protocol(ProtocolFault::UnknownFunction))
    }
}

/// The first check a read-holdings response frame fails, if any, in the
/// order the validator applies them: minimal length, CRC, slave address,
/// exception flag, function code, internal length consistency, and byte
/// count against the requested register span.
pub open spec fn frame_fault(addr: u8, count: u16, frame: Seq<u8>) -> Option<ProtocolFault> {
    if frame.len() < 5 {
        Some(ProtocolFault::TooShort)
    } else if crc16_of(frame.take(frame.len() - 2)) != le16(
        frame[frame.len() - 2],
        frame[frame.len() - 1],
    ) {
        Some(ProtocolFault::CrcMismatch)
    } else if frame[0] != addr {
        Some(ProtocolFault::AddressMismatch)
    } else if frame[1] & 0x80 != 0 {
        Some(ProtocolFault::Exception(frame[2]))
    } else if frame[1] != READ_HOLDINGS {
        Some(ProtocolFault::FunctionMismatch)
    } else if frame.len() != frame[2] + 5 {
        Some(ProtocolFault::LengthMismatch)
    } else if frame[2] != 2 * (count as int) {
        Some(ProtocolFault::ByteCountMismatch)
    } else {
        None
    }
}

/// The register values a well-formed read-holdings response carries: one
/// big-endian 16-bit value per requested register, in request order.
pub open spec fn decoded_registers(frame: Seq<u8>, count: u16) -> Seq<u16> {
    Seq::new(count as nat, |i: int| be16(frame[3 + 2 * i], frame[4 + 2 * i]))
}

/// Validates a complete response frame against the request it answers and
/// decodes its payload, reporting exactly which check failed otherwise.
pub fn parse_response(addr: u8, count: u16, frame: &Vec<u8>) -> (r: Result<Vec<u16>, Error>)
    ensures
        match frame_fault(addr, count, frame@) {
            Some(f) => r == Result::<Vec<u16>, Error>::Err(Error::Protocol(f)),
            None => r matches Ok(v) && v@ == decoded_registers(frame@, count),
        },
{
    let n = frame.len();
    if n < 5 {
        return Err(Error::Protocol(ProtocolFault::TooShort));
    }
    let c = crc16(frame.as_slice(), n - 2);
    if c != (((frame[n - 1] as u16) << 8) | (frame[n - 2] as u16)) {
        return Err(Error::Protocol(ProtocolFault::CrcMismatch));
    }
    if frame[0] != addr {
        return Err(Error::Protocol(ProtocolFault::AddressMismatch));
    }
    let func = frame[1];
    if func & 0x80 != 0 {
        return Err(Error::Protocol(ProtocolFault::Exception(frame[2])));
    }
    if func != READ_HOLDINGS {
        return Err(Error::Protocol(ProtocolFault::FunctionMismatch));
    }
    let bc = frame[2];
    if n != bc as usize + 5 {
        return Err(Error::Protocol(ProtocolFault::LengthMismatch));
    }
    if bc as u32 != 2 * (count as u32) {
        return Err(Error::Protocol(ProtocolFault::ByteCountMismatch));
    }
    let mut values: Vec<u16> = Vec::new();
    let mut i: usize = 0;
    proof {
        assert(values@ =~= decoded_registers(frame@, count).take(0));
    }
    while i < count as usize
        invariant
            i <= count,
            frame@.len() == 2 * count + 5,
            values@ == decoded_registers(frame@, count).take(i as int),
        decreases count - i,
    {
        let v = ((frame[3 + 2 * i] as u16) << 8) | (frame[4 + 2 * i] as u16);
        values.push(v);
        proof {
            assert(values@ =~= decoded_registers(frame@, count).take(i as int + 1));
        }
        i = i + 1;
    }
    proof {
        assert(values@ =~= decoded_registers(frame@, count));
    }
    Ok(values)
}

} // verus!
