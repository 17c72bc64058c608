//! The bus the driver talks through, and the record of what was asked of it.
//!
//! The driver is generic over [`Transport`]: any value that can perform a
//! write and a combined write-then-read on a two-wire bus. A bus carries the
//! record of the calls made on it, [`Transport::traffic`]: a sequence of
//! [`Transaction`]s, each with the bytes handed over and what came back.
//!
//! The contract of the two methods says one thing only: a call adds itself to
//! the record, with its own arguments and its own result. It promises nothing
//! of the result, so every bus can meet it. It is proved of
//! [`crate::script::ScriptedBus`]; of a bus implemented outside this crate it
//! is taken on trust, and what the driver promises about its traffic holds as
//! far as that bus's record is kept as the contract says.
use vstd::prelude::*;
use crate::types::Error;
use crate::wire::{config_frame_bytes, little_endian, DEVICE_ADDRESS};

verus! {

/// A record of calls made on a bus, oldest first.
pub type Traffic<E> = Seq<Transaction<E>>;

/// A two-wire serial bus, as far as the driver needs one.
pub trait Transport {
    /// What the bus reports when a transaction fails.
    type Error;

    /// Every call made on this bus so far, oldest first.
    ///
    /// This is ghost: it is never run. Compiled code that implements the
    /// trait gives it a body that cannot be reached.
    spec fn traffic(&self) -> Traffic<Self::Error>;

    /// Sends `bytes` to the device at `address`.
    fn write(&mut self, address: u8, bytes: &[u8]) -> (r: Result<(), Self::Error>)
        ensures
            final(self).traffic() == old(self).traffic().push(
                (Transaction::Write { address, bytes: bytes@, result: r }),
            ),
    ;

    /// Sends `request` to the device at `address` and then, in the same
    /// transaction, reads two bytes from it into `response`.
    fn write_read(&mut self, address: u8, request: &[u8], response: &mut [u8; 2]) -> (r: Result<
        (),
        Self::Error,
    >)
        ensures
            final(self).traffic() == old(self).traffic().push(
                (Transaction::WriteRead {
                    address,
                    request: request@,
                    response: final(response)@,
                    result: r,
                }),
            ),
    ;
}

/// One call made on a bus.
pub enum Transaction<E> {
    /// A call of [`Transport::write`].
    Write {
        /// The device address.
        address: u8,
        /// The bytes sent.
        bytes: Seq<u8>,
        /// What the bus returned.
        result: Result<(), E>,
    },
    /// A call of [`Transport::write_read`].
    WriteRead {
        /// The device address.
        address: u8,
        /// The bytes sent.
        request: Seq<u8>,
        /// The contents of the response buffer after the call.
        response: Seq<u8>,
        /// What the bus returned.
        result: Result<(), E>,
    },
}

impl<E> Transaction<E> {
    /// What the bus returned for this transaction.
    pub open spec fn result(self) -> Result<(), E> {
        match self {
            Transaction::Write { result, .. } => result,
            Transaction::WriteRead { result, .. } => result,
        }
    }
}

/// The write of a configuration frame for `value` to the sensor, answered by
/// the bus with `result`.
pub open spec fn config_write<E>(value: u8, result: Result<(), E>) -> Transaction<E> {
    Transaction::Write { address: DEVICE_ADDRESS, bytes: config_frame_bytes(value), result }
}

/// `t` is a read of the sensor's 16-bit register at `register`: the register
/// address was sent as the only request byte.
pub open spec fn is_register_read<E>(t: Transaction<E>, register: u8) -> bool {
    &&& t matches Transaction::WriteRead { address, request, response, .. }
    &&& address == DEVICE_ADDRESS
    &&& request == seq![register]
    &&& response.len() == 2
}

/// What a register read yields to the caller: the little-endian value of the
/// two response bytes if the bus reported success, else the error of the bus.
pub open spec fn reading<E>(t: Transaction<E>) -> Result<u16, Error<E>>
    recommends
        t is WriteRead,
{
    match t.result() {
        Ok(_) => Ok(little_endian(t->response[0], t->response[1])),
        Err(e) => Err(Error::I2C(e)),
    }
}

/// What the bus returned for a call, read back from what the driver made of
/// it: the driver wraps the error of the bus and changes nothing else.
pub open spec fn transport_result<T, E>(r: Result<T, Error<E>>) -> Result<(), E> {
    match r {
        Ok(_) => Ok(()),
        Err(Error::I2C(e)) => Err(e),
    }
}

} // verus!
