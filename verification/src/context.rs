//! The ambient context store: the per-operation slot set.
//!
//! Each concurrently executing logical operation owns exactly one `Ctx`,
//! holding zero-or-one open transaction handle and zero-or-one authenticated
//! identity. Values published here are visible to the rest of the same
//! operation and to nothing else: isolation across operations comes from each
//! operation holding its own `Ctx` value, not from locking.
//!
//! `take` is destructive: it removes the slot's value and hands it to the
//! caller, who must publish it back if later calls are to see it. Absence of
//! a value is not an error at this layer; callers decide whether it means "no
//! transaction, run against the pool" or "not authenticated, reject".

use vstd::prelude::*;

use crate::identity::{Identity, IdentityView};
use crate::store::{DbState, DbView};

verus! {

/// An exclusive handle to one open transaction: the staged state it would
/// commit. Created at unit-of-work entry, destroyed (committed or rolled
/// back) at unit-of-work exit, and never shared across operations. A handle
/// dropped without commit — an operation cancelled mid-flight — simply
/// discards its staged state, which the committed store never saw: rollback
/// on drop, by construction.
pub struct Tx {
    pub staged: DbState,
}

impl View for Tx {
    type V = DbView;

    open spec fn view(&self) -> DbView {
        self.staged@
    }
}

/// Mathematical value of a context: the two slots.
#[verifier::ext_equal]
pub ghost struct CtxView {
    pub tx: Option<DbView>,
    pub identity: Option<IdentityView>,
}

/// The slot set of one logical operation.
pub struct Ctx {
    tx: Option<Tx>,
    identity: Option<Identity>,
}

impl View for Ctx {
    type V = CtxView;

    closed spec fn view(&self) -> CtxView {
        CtxView {
            tx: match self.tx {
                Some(ref t) => Some(t@),
                None => None,
            },
            identity: match self.identity {
                Some(ref i) => Some(i@),
                None => None,
            },
        }
    }
}

impl Ctx {
    /// The context a fresh operation starts from: both slots empty.
    pub fn new() -> (r: Ctx)
        ensures
            r@.tx is None,
            r@.identity is None,
    {
        Ctx { tx: None, identity: None }
    }

    /// Installs a transaction handle, visible for the remainder of this
    /// operation. Overwrites a handle already in the slot.
    pub fn publish_transaction(&mut self, tx: Tx)
        ensures
            final(self)@.tx == Some(tx@),
            final(self)@.identity == old(self)@.identity,
    {
        self.tx = Some(tx);
    }

    /// Atomically removes and returns the transaction handle, leaving the
    /// slot empty; `None` signals absence.
    pub fn take_transaction(&mut self) -> (r: Option<Tx>)
        ensures
            final(self)@.tx is None,
            final(self)@.identity == old(self)@.identity,
            r is Some <==> old(self)@.tx is Some,
            r matches Some(t) ==> old(self)@.tx == Some(t@),
    {
        self.tx.take()
    }

    /// Whether a transaction is currently published.
    pub fn has_transaction(&self) -> (r: bool)
        ensures
            r == (self@.tx is Some),
    {
        self.tx.is_some()
    }

    /// Inspects the transaction slot without emptying it: equivalent to a
    /// take followed immediately by a publish of the same handle.
    pub fn read_transaction(&self) -> (r: Option<&Tx>)
        ensures
            r is Some <==> self@.tx is Some,
            r matches Some(t) ==> self@.tx == Some(t@),
    {
        self.tx.as_ref()
    }

    /// Installs the authenticated identity for the remainder of this
    /// operation.
    pub fn publish_identity(&mut self, identity: Identity)
        ensures
            final(self)@.identity == Some(identity@),
            final(self)@.tx == old(self)@.tx,
    {
        self.identity = Some(identity);
    }

    /// Atomically removes and returns the identity, leaving the slot empty.
    pub fn take_identity(&mut self) -> (r: Option<Identity>)
        ensures
            final(self)@.identity is None,
            final(self)@.tx == old(self)@.tx,
            r is Some <==> old(self)@.identity is Some,
            r matches Some(i) ==> old(self)@.identity == Some(i@),
    {
        self.identity.take()
    }

    /// Inspects the identity slot without emptying it: equivalent to a take
    /// followed immediately by a publish of the same identity.
    pub fn read_identity(&self) -> (r: Option<&Identity>)
        ensures
            r is Some <==> self@.identity is Some,
            r matches Some(i) ==> self@.identity == Some(i@),
    {
        self.identity.as_ref()
    }
}

} // verus!
