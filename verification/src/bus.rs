//! The two-wire bus transport boundary.
//!
//! The driver consumes a transport capability: a pair of synchronous,
//! fallible byte transactions against a device address.  To make the
//! driver's sequencing provable, a transport carries a ghost log of every
//! transaction it was asked to perform, in order, each recorded with the
//! device address, the bytes moved and whether the transport reported
//! success.  The driver's contracts pin down exactly how each operation
//! extends that log.

use vstd::prelude::*;

verus! {

/// One attempted bus transaction, as a transport records it.
#[derive(Debug, PartialEq, Eq)]
pub enum BusOp {
    /// An attempted write of `data` to the device at `addr`; `ok` says
    /// whether the transport reported success.
    Write { addr: u8, data: Vec<u8>, ok: bool },
    /// An attempted read from the device at `addr`; `data` holds the bytes
    /// delivered (empty when the transport failed), `ok` whether it
    /// reported success.
    Read { addr: u8, data: Vec<u8>, ok: bool },
}

/// The mathematical value of one attempted bus transaction.
pub enum BusOpView {
    /// An attempted write of `data` to the device at `addr`.
    Write { addr: u8, data: Seq<u8>, ok: bool },
    /// An attempted read from the device at `addr` that delivered `data`.
    Read { addr: u8, data: Seq<u8>, ok: bool },
}

impl View for BusOp {
    type V = BusOpView;

    open spec fn view(&self) -> BusOpView {
        match self {
            BusOp::Write { addr, data, ok } => BusOpView::Write {
                addr: *addr,
                data: data@,
                ok: *ok,
            },
            BusOp::Read { addr, data, ok } => BusOpView::Read {
                addr: *addr,
                data: data@,
                ok: *ok,
            },
        }
    }
}

/// Whether the transport reported success for this transaction.
pub open spec fn op_ok(op: BusOpView) -> bool {
    match op {
        BusOpView::Write { ok, .. } => ok,
        BusOpView::Read { ok, .. } => ok,
    }
}

/// The bytes this transaction moved (the bytes delivered, for a read).
pub open spec fn op_data(op: BusOpView) -> Seq<u8> {
    match op {
        BusOpView::Write { data, .. } => data,
        BusOpView::Read { data, .. } => data,
    }
}

/// The transaction is a read of `len` bytes from the device at `addr`:
/// a successful one delivered exactly `len` bytes, a failed one none.
pub open spec fn is_read(op: BusOpView, addr: u8, len: nat) -> bool {
    match op {
        BusOpView::Write { .. } => false,
        BusOpView::Read { addr: a, data: d, ok } => a == addr && (if ok {
            d.len() == len
        } else {
            d == Seq::<u8>::empty()
        }),
    }
}

/// A write transaction view, as a transport must record it.
pub open spec fn write_op(addr: u8, data: Seq<u8>, ok: bool) -> BusOpView {
    BusOpView::Write { addr, data, ok }
}

/// A read transaction view, as a transport must record it.
pub open spec fn read_op(addr: u8, data: Seq<u8>, ok: bool) -> BusOpView {
    BusOpView::Read { addr, data, ok }
}

/// `post` is `pre` with zero or more transactions appended: no transaction
/// once attempted is ever dropped or rewritten.
pub open spec fn log_extends(pre: Seq<BusOpView>, post: Seq<BusOpView>) -> bool {
    pre.len() <= post.len() && post.subrange(0, pre.len() as int) == pre
}

/// A synchronous, fallible two-wire bus transport with an opaque error
/// value, the capability the driver consumes.
///
/// Nothing is promised about which transactions succeed: an implementation
/// may fail any of them, and a failure carries the transport's own error
/// value.  What every implementation must do is record each attempted
/// transaction on its log exactly as performed, so that the driver's
/// sequencing contracts speak about real bus traffic.
pub trait BusTransport<E>: Sized {
    /// All transactions attempted so far, oldest first.
    ///
    /// A transport that wants anything proved of code driving it must
    /// override this with its real record: with the default, an always-empty
    /// log, no implementation can meet the transaction contracts below.
    open spec fn log(&self) -> Seq<BusOpView> {
        Seq::empty()
    }

    /// Write `data` to the device at `addr`.
    fn bus_write(&mut self, addr: u8, data: &Vec<u8>) -> (r: Result<(), E>)
        ensures
            final(self).log() == old(self).log().push(write_op(addr, data@, r is Ok)),
    ;

    /// Read exactly `len` bytes from the device at `addr`.
    fn bus_read(&mut self, addr: u8, len: usize) -> (r: Result<Vec<u8>, E>)
        ensures
            (match r {
                Ok(data) => data@.len() == len && final(self).log() == old(self).log().push(
                    read_op(addr, data@, true),
                ),
                Err(_) => final(self).log() == old(self).log().push(
                    read_op(addr, Seq::empty(), false),
                ),
            }),
    ;
}

} // verus!
