//! The driver: frames written to and responses read from the sensor over a
//! caller-supplied bus transport.
use vstd::prelude::*;
use crate::command::{Command, encode, encode_with_u16_arg, spec_frame, spec_frame_with_arg};
use crate::measurement::{Measurement, decode_measurement, spec_decode, RESPONSE_LEN};

verus! {

/// The sensor's 7-bit bus address, shifted left by one as the bus expects.
pub const ADDRESS: u8 = 0x61 << 1;

/// One exchange on the bus, as the driver records it.
pub enum Exchange<E> {
    /// `bytes` were written to `address`, with the given outcome.
    Write { address: u8, bytes: Seq<u8>, result: Result<(), E> },
    /// A buffer was filled from `address`; `bytes` is its content afterwards.
    Read { address: u8, bytes: Seq<u8>, result: Result<(), E> },
}

/// A bus that writes bytes to and reads bytes from an addressed device.
///
/// `transcript` is the bus's history: each call appends one record of what
/// was asked and what came back.
pub trait Transport {
    type Error;

    /// The exchanges made on this bus, oldest first.
    ///
    /// An implementation checked by Verus defines it: the empty default
    /// cannot meet the contract of `write` or `read`, and is there so that
    /// implementations compiled without verification need not name it.
    closed spec fn transcript(&self) -> Seq<Exchange<Self::Error>> {
        Seq::empty()
    }

    /// Writes `bytes` to the device at `address`.
    fn write(&mut self, address: u8, bytes: &[u8]) -> (r: Result<(), Self::Error>)
        ensures
            final(self).transcript() == old(self).transcript().push(
                Exchange::Write { address, bytes: bytes@, result: r },
            ),
    ;

    /// Fills `buffer` from the device at `address`.
    fn read(&mut self, address: u8, buffer: &mut [u8]) -> (r: Result<(), Self::Error>)
        ensures
            final(buffer)@.len() == old(buffer)@.len(),
            final(self).transcript() == old(self).transcript().push(
                Exchange::Read { address, bytes: final(buffer)@, result: r },
            ),
    ;
}

/// The exchanges `ex` are those of one measurement read that returned `r`:
/// the read-measurement frame written to the sensor, then, if that write
/// succeeded, one read of a full response, decoded if it succeeded.
pub open spec fn is_read_transcript<E>(ex: Seq<Exchange<E>>, r: Result<Measurement, E>) -> bool {
    &&& ex.len() >= 1
    &&& match ex[0] {
        Exchange::Write { address, bytes, result } => {
            &&& address == ADDRESS
            &&& bytes == spec_frame(Command::ReadMeasurement)
            &&& match result {
                Err(e) => ex.len() == 1 && r == Err::<Measurement, E>(e),
                Ok(_) => {
                    &&& ex.len() == 2
                    &&& match ex[1] {
                        Exchange::Read { address, bytes, result } => {
                            &&& address == ADDRESS
                            &&& bytes.len() == RESPONSE_LEN
                            &&& match result {
                                Ok(_) => r == Ok::<Measurement, E>(spec_decode(bytes)),
                                Err(e) => r == Err::<Measurement, E>(e),
                            }
                        },
                        Exchange::Write { .. } => false,
                    }
                },
            }
        },
        Exchange::Read { .. } => false,
    }
}

/// A driver for one sensor, owning the transport it talks over.
pub struct Scd30<T: Transport> {
    i2c: T,
}

impl<T: Transport> Scd30<T> {
    /// The exchanges made on the driver's transport, oldest first.
    pub closed spec fn exchanges(&self) -> Seq<Exchange<T::Error>> {
        self.i2c.transcript()
    }

    /// A driver that talks over `i2c`.
    pub fn new(i2c: T) -> (r: Self)
        ensures
            r.exchanges() == i2c.transcript(),
    {
        Scd30 { i2c }
    }

    /// Writes one frame to the sensor and hands back the transport's outcome.
    fn send(&mut self, frame: &[u8]) -> (r: Result<(), T::Error>)
        ensures
            final(self).exchanges() == old(self).exchanges().push(
                Exchange::Write { address: ADDRESS, bytes: frame@, result: r },
            ),
    {
        self.i2c.write(ADDRESS, frame)
    }

    /// Restarts the sensor.
    pub fn soft_reset(&mut self) -> (r: Result<(), T::Error>)
        ensures
            final(self).exchanges() == old(self).exchanges().push(
                Exchange::Write { address: ADDRESS, bytes: spec_frame(Command::SoftReset), result: r },
            ),
    {
        let frame = encode(Command::SoftReset);
        self.send(&frame)
    }

    /// Starts continuous measurement without pressure compensation.
    pub fn start_measuring(&mut self) -> (r: Result<(), T::Error>)
        ensures
            final(self).exchanges() == old(self).exchanges().push(
                Exchange::Write {
                    address: ADDRESS,
                    bytes: spec_frame_with_arg(Command::StartContinuousMeasurement, 0),
                    result: r,
                },
            ),
    {
        self.start_measuring_with_mbar(0)
    }

    /// Turns the sensor's automatic self-calibration on or off.
    pub fn set_automatic_calibration(&mut self, enable: bool) -> (r: Result<(), T::Error>)
        ensures
            final(self).exchanges() == old(self).exchanges().push(
                Exchange::Write {
                    address: ADDRESS,
                    bytes: spec_frame_with_arg(
                        Command::SetAutomaticSelfCalibration,
                        if enable { 1 } else { 0 },
                    ),
                    result: r,
                },
            ),
    {
        let arg: u16 = if enable { 1 } else { 0 };
        let frame = encode_with_u16_arg(Command::SetAutomaticSelfCalibration, arg);
        self.send(&frame)
    }

    /// Starts continuous measurement, compensated for an ambient pressure of
    /// `pressure` mbar; 0 turns compensation off.
    pub fn start_measuring_with_mbar(&mut self, pressure: u16) -> (r: Result<(), T::Error>)
        ensures
            final(self).exchanges() == old(self).exchanges().push(
                Exchange::Write {
                    address: ADDRESS,
                    bytes: spec_frame_with_arg(Command::StartContinuousMeasurement, pressure),
                    result: r,
                },
            ),
    {
        let frame = encode_with_u16_arg(Command::StartContinuousMeasurement, pressure);
        self.send(&frame)
    }

    /// Requests the latest reading and reads it back.
    pub fn read(&mut self) -> (r: Result<Measurement, T::Error>)
        ensures
            final(self).exchanges().len() >= old(self).exchanges().len(),
            final(self).exchanges().subrange(0, old(self).exchanges().len() as int)
                == old(self).exchanges(),
            is_read_transcript(
                final(self).exchanges().subrange(
                    old(self).exchanges().len() as int,
                    final(self).exchanges().len() as int,
                ),
                r,
            ),
    {
        let frame = encode(Command::ReadMeasurement);
        let sent = self.send(&frame);
        match sent {
            Err(e) => {
                proof {
                    let ex = self.exchanges();
                    let n = old(self).exchanges().len() as int;
                    assert(ex.subrange(0, n) =~= old(self).exchanges());
                    assert(ex.subrange(n, ex.len() as int) =~= seq![ex[n]]);
                }
                Err(e)
            },
            Ok(()) => {
                let mut buf = [0u8; RESPONSE_LEN];
                let got = self.i2c.read(ADDRESS, &mut buf);
                proof {
                    let ex = self.exchanges();
                    let n = old(self).exchanges().len() as int;
                    assert(ex.subrange(0, n) =~= old(self).exchanges());
                    assert(ex.subrange(n, ex.len() as int) =~= seq![ex[n], ex[n + 1]]);
                }
                match got {
                    Err(e) => Err(e),
                    Ok(()) => Ok(decode_measurement(&buf)),
                }
            },
        }
    }
}

} // verus!
