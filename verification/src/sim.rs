//! A scripted bus transport for exercising the driver without hardware.
//!
//! The simulation serves scripted payloads to read transactions, can be told
//! to fail exactly one transaction by its position in the traffic, and keeps
//! the full record of attempted transactions for inspection.  Its log, the
//! view of that record, is exactly what the [`BusTransport`] contract
//! demands, so everything proved of the driver holds when it runs against
//! this transport.

use vstd::prelude::*;
use crate::bus::{BusOp, BusOpView, BusTransport, read_op, write_op};

verus! {

/// The error value of the simulated transport: the position (in the
/// transaction record) of the transaction that failed.
#[derive(Debug, Clone, Copy, PartialEq, Eq, Structural)]
pub struct SimFault {
    /// Index of the failed transaction in the record.
    pub step: usize,
}

/// Copy the bytes of a vector.
fn clone_bytes(v: &Vec<u8>) -> (r: Vec<u8>)
    ensures
        r@ == v@,
{
    let mut r: Vec<u8> = Vec::new();
    let mut i: usize = 0;
    while i < v.len()
        invariant
            i <= v@.len(),
            r@ == v@.subrange(0, i as int),
        decreases v@.len() - i,
    {
        r.push(v[i]);
        proof {
            assert(r@ =~= v@.subrange(0, i + 1 as int));
        }
        i += 1;
    }
    proof {
        assert(r@ =~= v@);
    }
    r
}

/// A scripted bus: serves queued payloads to reads, optionally fails one
/// transaction, and records all traffic.
pub struct SimBus {
    /// Every transaction attempted so far, oldest first.
    ops: Vec<BusOp>,
    /// Queued payloads still to be served to read transactions, in order.
    reads: Vec<Vec<u8>>,
    /// Position of the next queued payload to serve.
    next_read: usize,
    /// Position in `ops` of the one transaction that shall fail, if any.
    fail_step: Option<usize>,
}

impl SimBus {
    /// A fresh bus: nothing recorded, nothing scripted, every transaction
    /// succeeds.
    pub fn new() -> (s: SimBus)
        ensures
            s.log() == Seq::<BusOpView>::empty(),
    {
        let s = SimBus { ops: Vec::new(), reads: Vec::new(), next_read: 0, fail_step: None };
        proof {
            assert(s.log() =~= Seq::<BusOpView>::empty());
        }
        s
    }

    /// Queue a payload to be served to the next unserved read transaction.
    pub fn push_read(&mut self, data: Vec<u8>)
        ensures
            final(self).log() == old(self).log(),
    {
        self.reads.push(data);
    }

    /// Let the transaction at position `step` of the traffic fail.
    pub fn fail_at(&mut self, step: usize)
        ensures
            final(self).log() == old(self).log(),
    {
        self.fail_step = Some(step);
    }

    /// The record of every transaction attempted so far.
    pub fn ops(&self) -> (r: &Vec<BusOp>)
        ensures
            r@.map_values(|op: BusOp| op@) == self.log(),
    {
        &self.ops
    }

    /// Whether the transaction about to start (at position `step`) fails.
    fn fails_now(&self, step: usize) -> (r: bool)
        ensures
            r == (self.fail_step matches Some(s) && s == step),
    {
        match self.fail_step {
            Some(s) => s == step,
            None => false,
        }
    }
}

impl BusTransport<SimFault> for SimBus {
    closed spec fn log(&self) -> Seq<BusOpView> {
        self.ops@.map_values(|op: BusOp| op@)
    }

    fn bus_write(&mut self, addr: u8, data: &Vec<u8>) -> (r: Result<(), SimFault>) {
        let step = self.ops.len();
        let ok = !self.fails_now(step);
        let op = BusOp::Write { addr, data: clone_bytes(data), ok };
        self.ops.push(op);
        proof {
            assert(final(self).log() =~= old(self).log().push(write_op(addr, data@, ok)));
        }
        if ok {
            Ok(())
        } else {
            Err(SimFault { step })
        }
    }

    fn bus_read(&mut self, addr: u8, len: usize) -> (r: Result<Vec<u8>, SimFault>) {
        let step = self.ops.len();
        let ok = !self.fails_now(step);
        if !ok {
            let op = BusOp::Read { addr, data: Vec::new(), ok: false };
            self.ops.push(op);
            proof {
                assert(final(self).log() =~= old(self).log().push(
                    read_op(addr, Seq::empty(), false),
                ));
            }
            return Err(SimFault { step });
        }
        let mut data: Vec<u8> = Vec::new();
        if self.next_read < self.reads.len() && self.reads[self.next_read].len() == len {
            data = clone_bytes(&self.reads[self.next_read]);
            self.next_read = self.next_read + 1;
        } else {
            let mut i: usize = 0;
            while i < len
                invariant
                    i <= len,
                    data@.len() == i,
                decreases len - i,
            {
                data.push(0);
                i += 1;
            }
        }
        let out = clone_bytes(&data);
        let op = BusOp::Read { addr, data, ok: true };
        self.ops.push(op);
        proof {
            assert(final(self).log() =~= old(self).log().push(read_op(addr, out@, true)));
        }
        Ok(out)
    }
}

} // verus!
