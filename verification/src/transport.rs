//! The half-duplex transport: byte-oriented send and receive over a serial
//! link, with the direction pin asserted around every write and guard
//! intervals so the transceiver settles before and drains after the bytes.
//!
//! Contracts speak about a log of serial events, so that the Modbus client
//! above can pin down exactly which frames went out and which bytes came
//! back, and in what order.

use vstd::prelude::*;

use serial::unix::TTYPort;
use serial::SerialPort;
use std::io::Read;
use std::io::Write;

use crate::error::{ConfigFault, Error, IoFault};
use crate::pin::{GpioPin, Pin};

verus! {

/// One serial operation, as contracts see it: a frame fully handed to the
/// driver, or a read that asked for `count` bytes and got the given ones.
pub enum LinkEventView {
    Sent(Seq<u8>),
    Received(usize, Seq<u8>),
}

/// One recorded serial operation, as test doubles store it.
#[derive(Debug, PartialEq, Eq)]
pub enum LinkEvent {
    Sent(Vec<u8>),
    Received(usize, Vec<u8>),
}

impl View for LinkEvent {
    type V = LinkEventView;

    open spec fn view(&self) -> LinkEventView {
        match self {
            LinkEvent::Sent(d) => LinkEventView::Sent(d@),
            LinkEvent::Received(n, d) => LinkEventView::Received(*n, d@),
        }
    }
}

/// One operation on the physical bus, in the order the transport performed
/// it: a direction-pin edge, a frame fully written, or a bounded read.
pub enum WireEventView {
    PinSet(bool),
    FrameWritten(Seq<u8>),
    BytesRead(usize, Seq<u8>),
}

/// A guard-interval pause around the serial write. Timing is invisible to
/// the contracts, so the method promises nothing; hardware compositions
/// block the calling thread, test compositions return at once.
pub trait Delay: Sized {
    /// Blocks for roughly the given number of milliseconds.
    fn pause(&mut self, millis: u64);
}

/// The delay used by loopback and test compositions: no waiting at all.
pub struct NoDelay;

impl Delay for NoDelay {
    fn pause(&mut self, _millis: u64) {
    }
}

/// The raw serial line under the transport: whole-frame writes and bounded
/// reads, each appended to the event log it maintains.
pub trait SerialLink: Sized {
    /// The serial operations performed so far, oldest first.
    spec fn log(&self) -> Seq<LinkEventView>;

    /// Writes the whole byte sequence to the line.
    fn write_frame(&mut self, data: &Vec<u8>) -> (r: Result<(), Error>)
        ensures
            r is Ok ==> final(self).log() == old(self).log().push(LinkEventView::Sent(data@)),
            r is Err ==> final(self).log() == old(self).log() && r == Result::<(), Error>::Err(
                Error::Io(IoFault::SerialWrite),
            ),
    ;

    /// Reads up to `count` bytes within the configured timeout. A timeout
    /// with no data is a short (possibly empty) read, not an error.
    fn read_up_to(&mut self, count: usize) -> (r: Result<Vec<u8>, Error>)
        ensures
            r matches Ok(d) ==> d@.len() <= count && final(self).log() == old(self).log().push(
                LinkEventView::Received(count, d@),
            ),
            r is Err ==> final(self).log() == old(self).log() && r == Result::<Vec<u8>, Error>::Err(
                Error::Io(IoFault::SerialRead),
            ),
    ;
}

#[verifier::external_type_specification]
#[verifier::external_body]
pub struct ExTTYPort(TTYPort);

/// Relies on serial's `open`: opens the serial device at `path` for
/// exclusive use.
#[verifier::external_body]
fn serial_open(path: &str) -> (r: Result<TTYPort, Error>)
    ensures
        r matches Err(e) ==> e == Error::Configuration(ConfigFault::SerialOpen),
{
    match serial::open(path) {
        Ok(port) => Ok(port),
        Err(_) => Err(Error::Configuration(ConfigFault::SerialOpen)),
    }
}

/// Relies on serial's `SerialPort::set_timeout`: bounds every later read
/// and write poll by the given duration.
#[verifier::external_body]
fn serial_set_timeout(port: &mut TTYPort, timeout_ms: u64) -> (r: Result<(), Error>)
    ensures
        r matches Err(e) ==> e == Error::Configuration(ConfigFault::SerialTimeout),
{
    match port.set_timeout(std::time::Duration::from_millis(timeout_ms)) {
        Ok(()) => Ok(()),
        Err(_) => Err(Error::Configuration(ConfigFault::SerialTimeout)),
    }
}

/// Relies on serial's `SerialPort::reconfigure` and
/// `SerialPortSettings::set_baud_rate`: applies the baud rate to the device.
#[verifier::external_body]
fn serial_set_baud(port: &mut TTYPort, baudrate: usize) -> (r: Result<(), Error>)
    ensures
        r matches Err(e) ==> e == Error::Configuration(ConfigFault::SerialBaud),
{
    let r = port.reconfigure(&|config| {
        config.set_baud_rate(serial::BaudRate::from_speed(baudrate))?;
        Ok(())
    });
    match r {
        Ok(()) => Ok(()),
        Err(_) => Err(Error::Configuration(ConfigFault::SerialBaud)),
    }
}

/// Relies on std's `Write::write_all` for the TTY port: returns `Ok` only
/// once every byte was handed to the driver.
#[verifier::external_body]
fn serial_write_all(port: &mut TTYPort, data: &Vec<u8>) -> (r: Result<(), Error>)
    ensures
        r matches Err(e) ==> e == Error::Io(IoFault::SerialWrite),
{
    match port.write_all(data.as_slice()) {
        Ok(()) => Ok(()),
        Err(_) => Err(Error::Io(IoFault::SerialWrite)),
    }
}

/// Relies on std's `Read::read` for the TTY port: reads at most `buf.len()`
/// bytes into the front of `buf`. A poll timeout with no data surfaces as a
/// zero-byte read, not as an error.
#[verifier::external_body]
fn serial_read(port: &mut TTYPort, buf: &mut Vec<u8>) -> (r: Result<usize, Error>)
    ensures
        r matches Ok(n) ==> n <= old(buf)@.len() && final(buf)@.len() == old(buf)@.len(),
        r matches Err(e) ==> e == Error::Io(IoFault::SerialRead),
{
    match port.read(buf.as_mut_slice()) {
        Ok(n) => Ok(n),
        Err(e) if e.kind() == std::io::ErrorKind::TimedOut => Ok(0),
        Err(_) => Err(Error::Io(IoFault::SerialRead)),
    }
}

/// A byte-for-byte copy of a buffer.
fn copy_bytes(src: &Vec<u8>) -> (r: Vec<u8>)
    ensures
        r@ == src@,
{
    let mut r: Vec<u8> = Vec::new();
    let mut i: usize = 0;
    while i < src.len()
        invariant
            i <= src@.len(),
            r@ == src@.take(i as int),
        decreases src@.len() - i,
    {
        r.push(src[i]);
        proof {
            assert(r@ =~= src@.take(i as int + 1));
        }
        i = i + 1;
    }
    proof {
        assert(r@ =~= src@);
    }
    r
}

/// The hardware serial line: a TTY device plus a ghost log of what was
/// written and read through it.
pub struct TtyLink {
    port: TTYPort,
    lg: Ghost<Seq<LinkEventView>>,
}

impl SerialLink for TtyLink {
    closed spec fn log(&self) -> Seq<LinkEventView> {
        self.lg@
    }

    fn write_frame(&mut self, data: &Vec<u8>) -> (r: Result<(), Error>) {
        match serial_write_all(&mut self.port, data) {
            Ok(()) => {
                self.lg = Ghost(self.lg@.push(LinkEventView::Sent(data@)));
                Ok(())
            },
            Err(e) => Err(e),
        }
    }

    fn read_up_to(&mut self, count: usize) -> (r: Result<Vec<u8>, Error>) {
        let mut buf: Vec<u8> = Vec::new();
        let mut i: usize = 0;
        while i < count
            invariant
                i <= count,
                buf@.len() == i,
            decreases count - i,
        {
            buf.push(0u8);
            i = i + 1;
        }
        match serial_read(&mut self.port, &mut buf) {
            Ok(n) => {
                buf.truncate(n);
                self.lg = Ghost(self.lg@.push(LinkEventView::Received(count, buf@)));
                Ok(buf)
            },
            Err(e) => Err(e),
        }
    }
}

/// A serial line double for tests: hands out scripted responses, records
/// every operation, and can be told to fail its writes or reads.
pub struct ScriptedLink {
    /// Responses still to hand out; the next one is the last element.
    pub script: Vec<Vec<u8>>,
    /// Every write fails with a serial write fault when set.
    pub fail_writes: bool,
    /// Every read fails with a serial read fault when set.
    pub fail_reads: bool,
    /// The operations performed so far, oldest first.
    pub events: Vec<LinkEvent>,
}

impl ScriptedLink {
    /// A scripted line that will answer reads with the given responses, the
    /// next one last, and never fail.
    pub fn new(script: Vec<Vec<u8>>) -> (r: ScriptedLink)
        ensures
            r.log() == Seq::<LinkEventView>::empty(),
            r.script == script,
            r.fail_writes == false,
            r.fail_reads == false,
    {
        let r = ScriptedLink { script, fail_writes: false, fail_reads: false, events: Vec::new() };
        proof {
            assert(r.log() =~= Seq::<LinkEventView>::empty());
        }
        r
    }
}

impl SerialLink for ScriptedLink {
    open spec fn log(&self) -> Seq<LinkEventView> {
        self.events@.map_values(|e: LinkEvent| e@)
    }

    fn write_frame(&mut self, data: &Vec<u8>) -> (r: Result<(), Error>)
        ensures
            !old(self).fail_writes <==> r is Ok,
            final(self).fail_writes == old(self).fail_writes,
            final(self).fail_reads == old(self).fail_reads,
            final(self).script@ == old(self).script@,
    {
        if self.fail_writes {
            return Err(Error::Io(IoFault::SerialWrite));
        }
        let copy = copy_bytes(data);
        self.events.push(LinkEvent::Sent(copy));
        proof {
            assert(self.log() =~= old(self).log().push(LinkEventView::Sent(data@)));
        }
        Ok(())
    }

    fn read_up_to(&mut self, count: usize) -> (r: Result<Vec<u8>, Error>)
        ensures
            !old(self).fail_reads <==> r is Ok,
            final(self).fail_reads == old(self).fail_reads,
            final(self).fail_writes == old(self).fail_writes,
            r is Err ==> final(self).script@ == old(self).script@,
            old(self).script@.len() == 0 && r is Ok ==> (r matches Ok(d) && d@
                == Seq::<u8>::empty() && final(self).script@ == old(self).script@),
            old(self).script@.len() > 0 && r is Ok ==> (r matches Ok(d) && ({
                let next = old(self).script@.last()@;
                if next.len() <= count {
                    d@ == next
                } else {
                    d@ == next.take(count as int)
                }
            }) && final(self).script@ == old(self).script@.drop_last()),
    {
        if self.fail_reads {
            return Err(Error::Io(IoFault::SerialRead));
        }
        let mut data = match self.script.pop() {
            Some(d) => d,
            None => Vec::new(),
        };
        if data.len() > count {
            data.truncate(count);
        }
        let copy = copy_bytes(&data);
        self.events.push(LinkEvent::Received(count, copy));
        proof {
            assert(self.log() =~= old(self).log().push(LinkEventView::Received(count, data@)));
        }
        Ok(data)
    }
}

/// Byte-oriented send and receive with direction sequencing.
///
/// `log` is the sequence of serial operations the transport performed; a
/// send that failed before the write leaves it unchanged, and one that
/// failed at the trailing pin edge may still have logged the write, which
/// callers must treat as "frame possibly sent".
pub trait Transport: Sized {
    /// The serial send/receive operations performed so far, oldest first.
    spec fn log(&self) -> Seq<LinkEventView>;

    /// Sends one frame down the line.
    fn send(&mut self, data: Vec<u8>) -> (r: Result<(), Error>)
        ensures
            r is Ok ==> final(self).log() == old(self).log().push(LinkEventView::Sent(data@)),
            r is Err ==> final(self).log() == old(self).log() || final(self).log() == old(
                self,
            ).log().push(LinkEventView::Sent(data@)),
            r matches Err(e) ==> e is Io,
    ;

    /// Reads up to `count` bytes; a short read is not an error.
    fn receive(&mut self, count: usize) -> (r: Result<Vec<u8>, Error>)
        ensures
            r matches Ok(d) ==> d@.len() <= count && final(self).log() == old(self).log().push(
                LinkEventView::Received(count, d@),
            ),
            r is Err ==> final(self).log() == old(self).log(),
            r matches Err(e) ==> e is Io,
    ;
}

/// The RS485 half-duplex transport: a serial line, the direction pin, and
/// the guard intervals around each write.
pub struct Rs485Transport<P: Pin, L: SerialLink, D: Delay> {
    /// The serial line driven while the pin is asserted.
    pub link: L,
    /// The transceiver direction pin: `true` drives the bus, `false`
    /// listens.
    pub pin: P,
    /// Performs the guard pauses.
    pub delay: D,
    /// Pause between asserting the pin and writing, for the driver to
    /// settle.
    pub pre_guard_ms: u64,
    /// Pause between writing and de-asserting the pin, for the last byte to
    /// drain onto the wire.
    pub post_guard_ms: u64,
    /// The bus operations performed, pin edges included, oldest first.
    pub wire: Ghost<Seq<WireEventView>>,
}

impl<P: Pin, L: SerialLink, D: Delay> Rs485Transport<P, L, D> {
    /// A transport over the given parts, with an empty record of bus
    /// operations.
    pub fn assemble(link: L, pin: P, delay: D, pre_guard_ms: u64, post_guard_ms: u64) -> (r:
        Rs485Transport<P, L, D>)
        ensures
            r.link == link,
            r.pin == pin,
            r.delay == delay,
            r.pre_guard_ms == pre_guard_ms,
            r.post_guard_ms == post_guard_ms,
            r.wire@ == Seq::<WireEventView>::empty(),
    {
        Rs485Transport { link, pin, delay, pre_guard_ms, post_guard_ms, wire: Ghost(Seq::empty()) }
    }
}

impl<P: Pin, L: SerialLink, D: Delay> Transport for Rs485Transport<P, L, D> {
    open spec fn log(&self) -> Seq<LinkEventView> {
        self.link.log()
    }

    /// Asserts the pin, waits the pre-write guard, writes the frame, waits
    /// the post-write guard, and de-asserts the pin. Every failure branch
    /// still reaches the de-assertion attempt, and a write failure is
    /// reported even when the de-assertion also fails.
    fn send(&mut self, data: Vec<u8>) -> (r: Result<(), Error>)
        ensures
            final(self).pin.history() == old(self).pin.history()
                || final(self).pin.history() == old(self).pin.history().push(true)
                || final(self).pin.history() == old(self).pin.history().push(true).push(false),
            final(self).pin.history() == old(self).pin.history()
                ==> final(self).link.log() == old(self).link.log()
                && r == Result::<(), Error>::Err(Error::Io(IoFault::PinWrite)),
            r is Ok ==> final(self).pin.history() == old(self).pin.history().push(true).push(false),
            final(self).pin.history() == old(self).pin.history().push(true) ==> r is Err,
            final(self).link.log() == old(self).link.log()
                && final(self).pin.history() != old(self).pin.history()
                ==> r == Result::<(), Error>::Err(Error::Io(IoFault::SerialWrite)),
            final(self).pin.history() == old(self).pin.history().push(true)
                && final(self).link.log() != old(self).link.log()
                ==> r == Result::<(), Error>::Err(Error::Io(IoFault::PinRelease)),
            final(self).wire@ == old(self).wire@
                || final(self).wire@ == old(self).wire@.push(WireEventView::PinSet(true))
                || final(self).wire@ == old(self).wire@.push(WireEventView::PinSet(true)).push(
                WireEventView::PinSet(false),
            ) || final(self).wire@ == old(self).wire@.push(WireEventView::PinSet(true)).push(
                WireEventView::FrameWritten(data@),
            ) || final(self).wire@ == old(self).wire@.push(WireEventView::PinSet(true)).push(
                WireEventView::FrameWritten(data@),
            ).push(WireEventView::PinSet(false)),
            final(self).wire@ == old(self).wire@ <==> final(self).pin.history() == old(
                self,
            ).pin.history(),
            r is Ok ==> final(self).wire@ == old(self).wire@.push(WireEventView::PinSet(
                true,
            )).push(WireEventView::FrameWritten(data@)).push(WireEventView::PinSet(false)),
            final(self).pin.history() == old(self).pin.history().push(true).push(false)
                && final(self).link.log() != old(self).link.log() ==> r is Ok,
            final(self).pre_guard_ms == old(self).pre_guard_ms,
            final(self).post_guard_ms == old(self).post_guard_ms,
    {
        if let Err(e) = self.pin.set_value(true) {
            return Err(e);
        }
        self.wire = Ghost(self.wire@.push(WireEventView::PinSet(true)));
        self.delay.pause(self.pre_guard_ms);
        let wrote = self.link.write_frame(&data);
        if wrote.is_ok() {
            self.wire = Ghost(self.wire@.push(WireEventView::FrameWritten(data@)));
        }
        self.delay.pause(self.post_guard_ms);
        let released = self.pin.set_value(false);
        if released.is_ok() {
            self.wire = Ghost(self.wire@.push(WireEventView::PinSet(false)));
        }
        proof {
            let h0 = old(self).pin.history();
            assert(h0.push(true).len() == h0.len() + 1);
            assert(h0.push(true).push(false).len() == h0.len() + 2);
            let l0 = old(self).link.log();
            assert(l0.push(LinkEventView::Sent(data@)).len() == l0.len() + 1);
            let w0 = old(self).wire@;
            assert(w0.push(WireEventView::PinSet(true)).len() == w0.len() + 1);
        }
        match wrote {
            Err(e) => Err(e),
            Ok(()) => match released {
                Ok(()) => Ok(()),
                Err(_) => Err(Error::Io(IoFault::PinRelease)),
            },
        }
    }

    fn receive(&mut self, count: usize) -> (r: Result<Vec<u8>, Error>)
        ensures
            r matches Ok(d) ==> final(self).wire@ == old(self).wire@.push(
                WireEventView::BytesRead(count, d@),
            ),
            r is Err ==> final(self).wire@ == old(self).wire@,
            final(self).pin.history() == old(self).pin.history(),
            r matches Err(e) ==> e == Error::Io(IoFault::SerialRead),
            final(self).pre_guard_ms == old(self).pre_guard_ms,
            final(self).post_guard_ms == old(self).post_guard_ms,
    {
        let r = self.link.read_up_to(count);
        if let Ok(d) = &r {
            self.wire = Ghost(self.wire@.push(WireEventView::BytesRead(count, d@)));
        }
        r
    }
}

/// Opens the hardware RS485 transport: the serial device at `path` with the
/// given baud rate and read timeout, and the direction pin on the given
/// GPIO line. The guard intervals and the delay that performs them are the
/// caller's choice.
pub fn new<D: Delay>(
    path: &str,
    pin: u16,
    baudrate: usize,
    timeout_ms: u64,
    delay: D,
    pre_guard_ms: u64,
    post_guard_ms: u64,
) -> (r: Result<Rs485Transport<GpioPin, TtyLink, D>, Error>)
    ensures
        r matches Ok(t) ==> t.log() == Seq::<LinkEventView>::empty() && t.pin.history()
            == Seq::<bool>::empty(),
        r matches Err(e) ==> e matches Error::Configuration(_),
{
    let mut port = match serial_open(path) {
        Ok(p) => p,
        Err(e) => return Err(e),
    };
    if let Err(e) = serial_set_timeout(&mut port, timeout_ms) {
        return Err(e);
    }
    if let Err(e) = serial_set_baud(&mut port, baudrate) {
        return Err(e);
    }
    let dir_pin = match crate::pin::new(pin) {
        Ok(p) => p,
        Err(e) => return Err(e),
    };
    let link = TtyLink { port, lg: Ghost(Seq::empty()) };
    Ok(Rs485Transport::assemble(link, dir_pin, delay, pre_guard_ms, post_guard_ms))
}

} // verus!
