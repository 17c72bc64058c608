//! A bus that answers from a script and keeps every call it gets.
//!
//! [`ScriptedBus`] stands in for a sensor on a real bus: it is made with a
//! list of replies, answers the `n`-th call with the `n`-th reply, and fails
//! once the list is used up. Each call is stored as it came in, so what a
//! driver sent can be looked at afterwards. Its record of traffic is read off
//! the stored calls, and both methods are proved to keep it as
//! [`Transport`] asks.
use vstd::prelude::*;
use vstd::slice::slice_to_vec;
use crate::transport::{Traffic, Transaction, Transport};

verus! {

/// Why a scripted bus failed a call.
#[derive(Debug, Clone, Copy, PartialEq, Eq)]
pub enum ScriptError {
    /// The reply for this call says that it fails.
    Refused,
    /// There is no reply left for this call.
    Exhausted,
}

/// The answer to one call.
#[derive(Debug, Clone, Copy, PartialEq, Eq)]
pub struct Reply {
    /// Whether the call succeeds.
    pub ok: bool,
    /// The two bytes handed back if the call is a successful write-then-read.
    pub response: [u8; 2],
}

/// One call as a scripted bus got and answered it.
#[derive(Debug, PartialEq, Eq)]
pub enum Call {
    /// A write.
    Write {
        /// The device address.
        address: u8,
        /// The bytes sent.
        bytes: Vec<u8>,
        /// What the bus returned.
        result: Result<(), ScriptError>,
    },
    /// A write-then-read.
    WriteRead {
        /// The device address.
        address: u8,
        /// The bytes sent.
        request: Vec<u8>,
        /// The contents of the response buffer after the call.
        response: [u8; 2],
        /// What the bus returned.
        result: Result<(), ScriptError>,
    },
}

impl Call {
    /// This call as an entry of the record of traffic.
    pub open spec fn transaction(self) -> Transaction<ScriptError> {
        match self {
            Call::Write { address, bytes, result } => Transaction::Write {
                address,
                bytes: bytes@,
                result,
            },
            Call::WriteRead { address, request, response, result } => Transaction::WriteRead {
                address,
                request: request@,
                response: response@,
                result,
            },
        }
    }
}

/// What a bus with the replies `script` returns for its `n`-th call, counted
/// from 0.
pub open spec fn answer(script: Seq<Reply>, n: int) -> Result<(), ScriptError> {
    if n >= script.len() {
        Err(ScriptError::Exhausted)
    } else if script[n].ok {
        Ok(())
    } else {
        Err(ScriptError::Refused)
    }
}

/// A bus that answers from a script and keeps every call it gets.
pub struct ScriptedBus {
    script: Vec<Reply>,
    calls: Vec<Call>,
}

impl ScriptedBus {
    /// The replies the bus was made with.
    pub closed spec fn script(&self) -> Seq<Reply> {
        self.script@
    }

    /// The calls the bus has got so far, oldest first.
    pub closed spec fn recorded(&self) -> Seq<Call> {
        self.calls@
    }

    /// A bus that answers its calls with `script`, in order, and has got no
    /// call yet.
    pub fn new(script: Vec<Reply>) -> (bus: Self)
        ensures
            bus.script() == script@,
            bus.recorded() == Seq::<Call>::empty(),
            bus.traffic() == Traffic::<ScriptError>::empty(),
    {
        let bus = ScriptedBus { script, calls: Vec::new() };
        assert(bus.traffic() =~= Seq::empty());
        bus
    }

    /// The calls the bus has got so far, oldest first.
    pub fn calls(&self) -> (calls: &Vec<Call>)
        ensures
            calls@ == self.recorded(),
    {
        &self.calls
    }

    /// The answer to the call that comes next.
    fn next_answer(&self) -> (r: Result<Reply, ScriptError>)
        ensures
            match r {
                Ok(reply) => {
                    &&& answer(self.script(), self.recorded().len() as int) is Ok
                    &&& reply == self.script()[self.recorded().len() as int]
                },
                Err(e) => answer(self.script(), self.recorded().len() as int) == Err::<
                    (),
                    ScriptError,
                >(e),
            },
    {
        let n = self.calls.len();
        if n >= self.script.len() {
            Err(ScriptError::Exhausted)
        } else {
            let reply = self.script[n];
            if reply.ok {
                Ok(reply)
            } else {
                Err(ScriptError::Refused)
            }
        }
    }
}

impl Transport for ScriptedBus {
    type Error = ScriptError;

    /// The stored calls, each as an entry of the record.
    open spec fn traffic(&self) -> Traffic<ScriptError> {
        Seq::new(self.recorded().len(), |i: int| self.recorded()[i].transaction())
    }

    /// Stores the call and answers it from the script.
    fn write(&mut self, address: u8, bytes: &[u8]) -> (r: Result<(), ScriptError>)
        ensures
            r == answer(old(self).script(), old(self).recorded().len() as int),
            final(self).script() == old(self).script(),
            final(self).recorded().len() == old(self).recorded().len() + 1,
            final(self).recorded().drop_last() == old(self).recorded(),
    {
        let r = match self.next_answer() {
            Ok(_) => Ok(()),
            Err(e) => Err(e),
        };
        let call = Call::Write { address, bytes: slice_to_vec(bytes), result: r };
        self.calls.push(call);
        proof {
            assert(self.recorded().drop_last() =~= old(self).recorded());
            assert(self.traffic() =~= old(self).traffic().push(
                Transaction::Write { address, bytes: bytes@, result: r },
            ));
        }
        r
    }

    /// Stores the call and answers it from the script. On success the
    /// response is the one of the reply; on failure the buffer is left as it
    /// was.
    fn write_read(&mut self, address: u8, request: &[u8], response: &mut [u8; 2]) -> (r: Result<
        (),
        ScriptError,
    >)
        ensures
            r == answer(old(self).script(), old(self).recorded().len() as int),
            final(self).script() == old(self).script(),
            final(self).recorded().len() == old(self).recorded().len() + 1,
            final(self).recorded().drop_last() == old(self).recorded(),
            *final(response) == (if r is Ok {
                old(self).script()[old(self).recorded().len() as int].response
            } else {
                *old(response)
            }),
    {
        let r = match self.next_answer() {
            Ok(reply) => {
                *response = reply.response;
                Ok(())
            },
            Err(e) => Err(e),
        };
        let call = Call::WriteRead {
            address,
            request: slice_to_vec(request),
            response: *response,
            result: r,
        };
        self.calls.push(call);
        proof {
            assert(self.recorded().drop_last() =~= old(self).recorded());
            assert(self.traffic() =~= old(self).traffic().push(
                Transaction::WriteRead {
                    address,
                    request: request@,
                    response: response@,
                    result: r,
                },
            ));
        }
        r
    }
}

} // verus!
