//! The direction-control abstraction for an RS485 transceiver: a single
//! write-only digital output that switches the driver between transmit and
//! receive mode.
//!
//! Every implementation carries a ghost history of the values it
//! acknowledged, so that the transport's contracts can speak about the order
//! of pin operations.

use vstd::prelude::*;

use gpio::sysfs::SysFsGpioOutput;
use gpio::GpioOut;

use crate::error::{ConfigFault, Error, IoFault};

verus! {

/// A write-only digital output controlling the transceiver direction.
///
/// `history` is the sequence of values the hardware acknowledged, oldest
/// first; a failed write leaves it unchanged, because nothing is known about
/// the line after a failure.
pub trait Pin: Sized {
    /// The values successfully driven onto the line, oldest first.
    spec fn history(&self) -> Seq<bool>;

    /// Drives the output to `value`, returning once the write is
    /// acknowledged.
    fn set_value(&mut self, value: bool) -> (r: Result<(), Error>)
        ensures
            r is Ok ==> final(self).history() == old(self).history().push(value),
            r is Err ==> final(self).history() == old(self).history() && r == Result::<(), Error>::Err(
                Error::Io(IoFault::PinWrite),
            ),
    ;
}

#[verifier::external_type_specification]
#[verifier::external_body]
pub struct ExSysFsGpioOutput(SysFsGpioOutput);

/// Relies on gpio's `SysFsGpioOutput::open`: exports the GPIO line through
/// sysfs and configures it as an output.
#[verifier::external_body]
fn gpio_open(pin: u16) -> (r: Result<SysFsGpioOutput, Error>)
    ensures
        r matches Err(e) ==> e == Error::Configuration(ConfigFault::PinUnavailable),
{
    match SysFsGpioOutput::open(pin) {
        Ok(it) => Ok(it),
        Err(_) => Err(Error::Configuration(ConfigFault::PinUnavailable)),
    }
}

/// Relies on gpio's `GpioOut::set_value`: writes the logical level to the
/// sysfs value file and reports failure without retrying.
#[verifier::external_body]
fn gpio_set(gpio: &mut SysFsGpioOutput, value: bool) -> (r: Result<(), Error>)
    ensures
        r matches Err(e) ==> e == Error::Io(IoFault::PinWrite),
{
    match gpio.set_value(value) {
        Ok(()) => Ok(()),
        Err(_) => Err(Error::Io(IoFault::PinWrite)),
    }
}

/// The hardware direction pin: a GPIO line driven through sysfs.
pub struct GpioPin {
    gpio: SysFsGpioOutput,
    hist: Ghost<Seq<bool>>,
}

impl Pin for GpioPin {
    closed spec fn history(&self) -> Seq<bool> {
        self.hist@
    }

    fn set_value(&mut self, value: bool) -> (r: Result<(), Error>) {
        match gpio_set(&mut self.gpio, value) {
            Ok(()) => {
                self.hist = Ghost(self.hist@.push(value));
                Ok(())
            },
            Err(e) => Err(e),
        }
    }
}

/// Opens the hardware direction pin on the given GPIO line number.
pub fn new(pin: u16) -> (r: Result<GpioPin, Error>)
    ensures
        r matches Ok(p) ==> p.history() == Seq::<bool>::empty(),
        r matches Err(e) ==> e == Error::Configuration(ConfigFault::PinUnavailable),
{
    match gpio_open(pin) {
        Ok(gpio) => Ok(GpioPin { gpio, hist: Ghost(Seq::empty()) }),
        Err(e) => Err(e),
    }
}

/// A pin for environments without GPIO access: every write succeeds and
/// nothing is driven.
pub struct NoOpPin {
    hist: Ghost<Seq<bool>>,
}

impl NoOpPin {
    /// A fresh no-op pin with an empty history.
    pub fn new() -> (r: NoOpPin)
        ensures
            r.history() == Seq::<bool>::empty(),
    {
        NoOpPin { hist: Ghost(Seq::empty()) }
    }
}

impl Pin for NoOpPin {
    closed spec fn history(&self) -> Seq<bool> {
        self.hist@
    }

    fn set_value(&mut self, value: bool) -> (r: Result<(), Error>)
        ensures
            r is Ok,
    {
        self.hist = Ghost(self.hist@.push(value));
        Ok(())
    }
}

/// A test double that records every acknowledged write and can be told to
/// start failing after a chosen number of writes.
pub struct RecordingPin {
    /// The acknowledged writes, oldest first.
    pub log: Vec<bool>,
    /// Writes from this position on fail; earlier ones succeed.
    pub fail_from: usize,
}

impl RecordingPin {
    /// A recording pin whose writes always succeed.
    pub fn new() -> (r: RecordingPin)
        ensures
            r.history() == Seq::<bool>::empty(),
            r.fail_from == usize::MAX,
    {
        RecordingPin { log: Vec::new(), fail_from: usize::MAX }
    }

    /// A recording pin whose writes fail from the `fail_from`-th one on.
    pub fn failing_from(fail_from: usize) -> (r: RecordingPin)
        ensures
            r.history() == Seq::<bool>::empty(),
            r.fail_from == fail_from,
    {
        RecordingPin { log: Vec::new(), fail_from }
    }
}

impl Pin for RecordingPin {
    open spec fn history(&self) -> Seq<bool> {
        self.log@
    }

    fn set_value(&mut self, value: bool) -> (r: Result<(), Error>)
        ensures
            final(self).fail_from == old(self).fail_from,
            old(self).log@.len() < old(self).fail_from <==> r is Ok,
    {
        if self.log.len() < self.fail_from {
            self.log.push(value);
            Ok(())
        } else {
            Err(Error::Io(IoFault::PinWrite))
        }
    }
}

} // verus!
