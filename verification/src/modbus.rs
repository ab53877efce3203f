//! The Modbus RTU master: builds a read-holding-registers request, drives
//! the transport through a two-phase receive, validates the response and
//! decodes the register values.
//!
//! The client's contract pins the whole transaction down against the
//! transport's event log: which frame went out, which reads were issued,
//! and what is returned for every sequence of bytes the slave may have
//! answered.

use vstd::prelude::*;

use crate::error::{Error, ProtocolFault};
use crate::frame::{
    build_request, decoded_registers, frame_fault, guess_frame_len, guessed_total_len,
    parse_response, request_frame, HEADER_LEN, MAX_READ_COUNT,
};
use crate::transport::{LinkEventView, Transport};

verus! {

/// A queryable Modbus master.
pub trait Modbus: Sized {
    /// Queries `count` holding registers of slave `addr` starting at
    /// `register`, returning their values in request order. A register
    /// count of zero or above the RTU span is rejected by every master.
    fn request_register(&mut self, addr: u8, register: u16, count: u16) -> (r: Result<
        Vec<u16>,
        Error,
    >)
        ensures
            !(1 <= count <= MAX_READ_COUNT) ==> r == Result::<Vec<u16>, Error>::Err(
                Error::Protocol(ProtocolFault::InvalidCount),
            ),
    ;
}

/// What validating and decoding the complete response frame `frame` must
/// return: the error naming the first failed check, or the decoded
/// register values.
pub open spec fn parse_outcome(
    addr: u8,
    count: u16,
    frame: Seq<u8>,
    r: Result<Vec<u16>, Error>,
) -> bool {
    match frame_fault(addr, count, frame) {
        Some(fault) => r == Result::<Vec<u16>, Error>::Err(Error::Protocol(fault)),
        None => r matches Ok(v) && v@ == decoded_registers(frame, count),
    }
}

/// The exact shapes one read-holding-registers transaction may take,
/// relating the events `ap` it appended to the transport's log and its
/// result `r`: the request frame goes out first; a header read of
/// [`HEADER_LEN`] bytes follows; a short header stops the transaction with
/// no further read; a recognized header either completes the frame or asks
/// for exactly the missing bytes once; and a complete frame is validated
/// and decoded. Transport failures end the transaction with an I/O error
/// at whatever point they struck.
pub open spec fn transaction_events(
    addr: u8,
    register: u16,
    count: u16,
    ap: Seq<LinkEventView>,
    r: Result<Vec<u16>, Error>,
) -> bool {
    let f = request_frame(addr, register, count);
    if ap.len() == 0 {
        r matches Err(e) && e is Io
    } else if ap[0] != LinkEventView::Sent(f) {
        false
    } else if ap.len() == 1 {
        r matches Err(e) && e is Io
    } else {
        match ap[1] {
            LinkEventView::Received(n, h) => n == HEADER_LEN && if h.len() < HEADER_LEN {
                ap.len() == 2 && r == Result::<Vec<u16>, Error>::Err(Error::InsufficientData)
            } else {
                match guessed_total_len(h) {
                    None => ap.len() == 2 && r == Result::<Vec<u16>, Error>::Err(Error::Protocol(
                        ProtocolFault::UnknownFunction,
                    )),
                    Some(t) => if t <= HEADER_LEN {
                        ap.len() == 2 && parse_outcome(addr, count, h.take(t as int), r)
                    } else if ap.len() == 2 {
                        r matches Err(e) && e is Io
                    } else {
                        ap.len() == 3 && match ap[2] {
                            LinkEventView::Received(m, b) => m == t - HEADER_LEN && if b.len() < t
                                - HEADER_LEN {
                                r == Result::<Vec<u16>, Error>::Err(Error::InsufficientData)
                            } else {
                                parse_outcome(addr, count, h + b, r)
                            },
                            _ => false,
                        }
                    },
                }
            },
            _ => false,
        }
    }
}

/// Modbus RTU over a half-duplex transport.
pub struct ModbusRtu<T: Transport> {
    /// The exclusively owned transport the client drives.
    pub transport: T,
}

impl<T: Transport> ModbusRtu<T> {
    /// A client over the given transport.
    pub fn new(transport: T) -> (r: ModbusRtu<T>)
        ensures
            r.transport == transport,
    {
        ModbusRtu { transport }
    }
}

impl<T: Transport> Modbus for ModbusRtu<T> {
    /// Runs one full transaction: build, send, header receive, optional
    /// body receive, validate, decode. A register count outside the RTU
    /// span fails before any I/O; everything the call did to the line is
    /// pinned down by [`transaction_events`].
    fn request_register(&mut self, addr: u8, register: u16, count: u16) -> (r: Result<
        Vec<u16>,
        Error,
    >)
        ensures
            old(self).transport.log().is_prefix_of(final(self).transport.log()),
            !(1 <= count <= MAX_READ_COUNT) ==> final(self).transport.log() == old(
                self,
            ).transport.log() && r == Result::<Vec<u16>, Error>::Err(Error::Protocol(
                ProtocolFault::InvalidCount,
            )),
            1 <= count <= MAX_READ_COUNT ==> transaction_events(
                addr,
                register,
                count,
                final(self).transport.log().skip(old(self).transport.log().len() as int),
                r,
            ),
    {
        let ghost l0 = self.transport.log();
        let frame = match build_request(addr, register, count) {
            Ok(f) => f,
            Err(e) => {
                proof {
                    assert(l0 =~= l0.subrange(0, l0.len() as int));
                }
                return Err(e);
            },
        };
        let ghost f = frame@;
        if let Err(e) = self.transport.send(frame) {
            proof {
                let l1 = self.transport.log();
                if l1 == l0 {
                    assert(l1.skip(l0.len() as int) =~= Seq::<LinkEventView>::empty());
                } else {
                    assert(l1.skip(l0.len() as int) =~= seq![LinkEventView::Sent(f)]);
                }
                assert(l0 =~= l1.subrange(0, l0.len() as int));
            }
            return Err(e);
        }
        proof {
            assert(self.transport.log().skip(l0.len() as int) =~= seq![LinkEventView::Sent(f)]);
            assert(l0 =~= self.transport.log().subrange(0, l0.len() as int));
        }
        let header = match self.transport.receive(HEADER_LEN) {
            Ok(h) => h,
            Err(e) => {
                return Err(e);
            },
        };
        let ghost h = header@;
        proof {
            assert(self.transport.log().skip(l0.len() as int) =~= seq![
                LinkEventView::Sent(f),
                LinkEventView::Received(HEADER_LEN, h),
            ]);
            assert(l0 =~= self.transport.log().subrange(0, l0.len() as int));
        }
        if header.len() < HEADER_LEN {
            return Err(Error::InsufficientData);
        }
        let total = match guess_frame_len(&header) {
            Ok(t) => t,
            Err(e) => {
                return Err(e);
            },
        };
        let mut data = header;
        if total <= HEADER_LEN {
            data.truncate(total);
            proof {
                assert(data@ =~= h.take(total as int));
            }
            return parse_response(addr, count, &data);
        }
        let mut more = match self.transport.receive(total - HEADER_LEN) {
            Ok(m) => m,
            Err(e) => {
                return Err(e);
            },
        };
        let ghost b = more@;
        proof {
            assert(self.transport.log().skip(l0.len() as int) =~= seq![
                LinkEventView::Sent(f),
                LinkEventView::Received(HEADER_LEN, h),
                LinkEventView::Received((total - HEADER_LEN) as usize, b),
            ]);
            assert(l0 =~= self.transport.log().subrange(0, l0.len() as int));
        }
        if more.len() < total - HEADER_LEN {
            return Err(Error::InsufficientData);
        }
        data.append(&mut more);
        proof {
            assert(data@ =~= h + b);
        }
        parse_response(addr, count, &data)
    }
}

/// Constructs a Modbus RTU master over the given transport.
pub fn create<T: Transport>(port: T) -> (r: Result<ModbusRtu<T>, Error>)
    ensures
        r matches Ok(m) && m.transport == port,
{
    Ok(ModbusRtu::new(port))
}

/// Two sequential transactions on one transport never interleave: however
/// the log grew across the first call and then across the second, the
/// whole log is the old log followed by the first call's events standing
/// unbroken, followed by the second call's events.
pub proof fn lemma_sequential_transactions_contiguous(
    l0: Seq<LinkEventView>,
    l1: Seq<LinkEventView>,
    l2: Seq<LinkEventView>,
)
    requires
        l0.is_prefix_of(l1),
        l1.is_prefix_of(l2),
    ensures
        l2 == l0 + l1.skip(l0.len() as int) + l2.skip(l1.len() as int),
        l2.skip(l0.len() as int).take(l1.len() - l0.len()) == l1.skip(l0.len() as int),
{
    assert(l2 =~= l0 + l1.skip(l0.len() as int) + l2.skip(l1.len() as int));
    assert(l2.skip(l0.len() as int).take(l1.len() - l0.len()) =~= l1.skip(l0.len() as int));
}

} // verus!
