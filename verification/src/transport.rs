//! The two capabilities the driver consumes from its environment: a
//! full-duplex byte transfer primitive over the bus, and a two-state
//! chip-select line.
//!
//! The host environment implements these traits for its concrete bus and
//! pin types; the driver is verified against the contracts below alone,
//! and an implementation outside this crate is responsible for meeting
//! them.  The contracts speak of the port's observable history
//! ([`BusHistory`]) and of the pin's line state: abstractions every real
//! port has, whether or not the implementation records them.  An
//! implementation that hands each call straight on to the hardware meets
//! the contracts by construction: each `transfer` or `write` hands on
//! exactly one frame, each successful `transfer` returns the exchanged
//! buffer as the response, each failure reports the error it returns.

use vstd::prelude::*;

verus! {

/// The observable history of a bus port: every frame handed to it, every
/// response a successful duplex transfer returned, and every error a
/// failed transaction reported — each oldest first.
///
/// A specification-level record: the one trait function returning it is
/// ghost, so no implementation builds one at run time; it only gives the
/// transfer contracts something to speak about.
#[verifier::reject_recursive_types(E)]
pub struct BusHistory<E> {
    /// The frames handed to the bus, oldest first.
    pub sent: Seq<Seq<u8>>,
    /// The responses returned by successful duplex transfers, oldest
    /// first.
    pub received: Seq<Seq<u8>>,
    /// The errors reported by failed transactions, oldest first.
    pub errors: Seq<E>,
}

/// A blocking, byte-oriented duplex bus.
///
/// One call is one transaction on the wire.  `transfer` sends the buffer
/// and overwrites it in place with the bytes the device clocked back;
/// `write` only sends.  Both fail with the transport's own error type,
/// which the driver propagates without interpreting it.
pub trait SpiBus {
    /// Whatever the bus reports when a transaction fails.
    type Error;

    /// The port's history so far.  A specification function: it is never
    /// called at run time, and an implementation outside this crate may
    /// give it a diverging body.
    spec fn history(&self) -> BusHistory<Self::Error>;

    /// Sends `buffer` and replaces its contents with the device's
    /// response.  The frame handed on is the buffer as given; on success
    /// the response is the buffer as returned, and an in-place exchange
    /// never changes its length; on failure the error returned is the
    /// one reported.
    fn transfer(&mut self, buffer: &mut Vec<u8>) -> (r: Result<(), Self::Error>)
        ensures
            final(self).history().sent == old(self).history().sent.push(old(buffer)@),
            r is Ok ==> final(buffer)@.len() == old(buffer)@.len(),
            r is Ok ==> final(self).history().received == old(self).history().received.push(
                final(buffer)@,
            ),
            r is Ok ==> final(self).history().errors == old(self).history().errors,
            r is Err ==> final(self).history().received == old(self).history().received,
            r matches Err(e) ==> final(self).history().errors == old(self).history().errors.push(
                e,
            ),
    ;

    /// Sends `buffer`; nothing is received.  The frame handed on is the
    /// buffer as given; on failure the error returned is the one
    /// reported.
    fn write(&mut self, buffer: &Vec<u8>) -> (r: Result<(), Self::Error>)
        ensures
            final(self).history().sent == old(self).history().sent.push(buffer@),
            final(self).history().received == old(self).history().received,
            r is Ok ==> final(self).history().errors == old(self).history().errors,
            r matches Err(e) ==> final(self).history().errors == old(self).history().errors.push(
                e,
            ),
    ;
}

/// A two-state digital output driving the sensor's chip-select line.
///
/// The line is active low: the device listens while the pin is low.
/// Neither operation can fail.
pub trait ChipSelect {
    /// Whether the line is driven low, addressing the device.  A
    /// specification function: it is never called at run time, and an
    /// implementation outside this crate may give it a diverging body.
    spec fn is_low(&self) -> bool;

    /// Drives the line low, addressing the device.
    fn set_low(&mut self)
        ensures
            final(self).is_low(),
    ;

    /// Drives the line high, releasing the device.
    fn set_high(&mut self)
        ensures
            !final(self).is_low(),
    ;
}

} // verus!
