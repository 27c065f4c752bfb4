//! The unit-of-work manager.
//!
//! A unit of work opens a transaction on the committed store, publishes the
//! handle into the ambient context for the extent of an operation, and
//! resolves it from the operation's outcome: commit on success, rollback on
//! any failure. Exactly one transaction exists per run; nested runs are not
//! supported and `begin` requires that no transaction is already published.
//!
//! The in-memory store cannot exhaust a pool and its commit and rollback
//! cannot fail, so `begin`, `commit` and `rollback` promise success. The
//! resolution policy for the failures a remote store could raise is kept in
//! [`complete_unit_of_work`]: a commit failure would be surfaced and the
//! operation's success discarded; a rollback failure would be surfaced and
//! shadow the operation's own error.

use vstd::prelude::*;

use crate::context::{Ctx, Tx};
use crate::error::Error;
use crate::store::{statement_apply, statement_ok, Db, DbView, Statement, StatementView};

verus! {

/// The unit-of-work boundary offered to services.
pub trait Uow {
    /// Opens a transaction staged on the committed state and publishes its
    /// handle into the context.
    fn begin(&self, ctx: &mut Ctx, db: &Db) -> (r: Result<(), Error>)
        requires
            old(ctx)@.tx is None,
        ensures
            r is Ok,
            final(ctx)@.tx == Some(db@),
            final(ctx)@.identity == old(ctx)@.identity,
    ;

    /// Takes the published transaction and makes its staged state the
    /// committed state.
    fn commit(&self, ctx: &mut Ctx, db: &mut Db) -> (r: Result<(), Error>)
        requires
            old(ctx)@.tx is Some,
        ensures
            r is Ok,
            final(db)@ == old(ctx)@.tx->Some_0,
            final(ctx)@.tx is None,
            final(ctx)@.identity == old(ctx)@.identity,
    ;

    /// Takes the published transaction and discards its staged state; the
    /// committed store is untouched.
    fn rollback(&self, ctx: &mut Ctx, db: &mut Db) -> (r: Result<(), Error>)
        requires
            old(ctx)@.tx is Some,
        ensures
            r is Ok,
            final(db)@ == old(db)@,
            final(ctx)@.tx is None,
            final(ctx)@.identity == old(ctx)@.identity,
    ;
}

/// The manager of one store's transactions.
pub struct TransactionManager {}

impl TransactionManager {
    pub fn new() -> (r: TransactionManager) {
        TransactionManager {  }
    }
}

impl Uow for TransactionManager {
    fn begin(&self, ctx: &mut Ctx, db: &Db) -> (r: Result<(), Error>) {
        ctx.publish_transaction(Tx { staged: db.state.duplicate() });
        Ok(())
    }

    fn commit(&self, ctx: &mut Ctx, db: &mut Db) -> (r: Result<(), Error>) {
        let tx = ctx.take_transaction().unwrap();
        db.state = tx.staged;
        Ok(())
    }

    fn rollback(&self, ctx: &mut Ctx, db: &mut Db) -> (r: Result<(), Error>) {
        let _tx = ctx.take_transaction().unwrap();
        Ok(())
    }
}

/// Resolves the published transaction from an operation's outcome: commit
/// iff the outcome is success, rollback on any failure, and the outcome
/// handed back unchanged.
///
/// Were commit to fail, its error would be surfaced in place of the
/// operation's success; were rollback to fail, its error would shadow the
/// operation's own. With this store neither failure occurs, as the trait's
/// contracts state, so the outcome always survives.
pub fn complete_unit_of_work<T1: Uow, R>(
    uow: &T1,
    ctx: &mut Ctx,
    db: &mut Db,
    outcome: Result<R, Error>,
) -> (r: Result<R, Error>)
    requires
        old(ctx)@.tx is Some,
    ensures
        final(ctx)@.tx is None,
        final(ctx)@.identity == old(ctx)@.identity,
        outcome is Ok ==> final(db)@ == old(ctx)@.tx->Some_0,
        outcome is Err ==> final(db)@ == old(db)@,
        r == outcome,
{
    match outcome {
        Ok(value) => {
            match uow.commit(ctx, db) {
                Ok(_) => Ok(value),
                Err(e) => Err(e),
            }
        },
        Err(e) => {
            match uow.rollback(ctx, db) {
                Ok(_) => Err(e),
                Err(shadow) => Err(shadow),
            }
        },
    }
}

/// Views of a statement list.
pub open spec fn statements_views(stmts: Seq<Statement>) -> Seq<StatementView> {
    stmts.map(|i: int, s: Statement| s@)
}

/// The state after a statement list, each statement applied in order.
pub open spec fn apply_all(d: DbView, stmts: Seq<StatementView>) -> DbView
    decreases stmts.len(),
{
    if stmts.len() == 0 {
        d
    } else {
        statement_apply(apply_all(d, stmts.drop_last()), stmts.last())
    }
}

/// Whether every statement of the list applies, each against the state the
/// ones before it produced.
pub open spec fn all_ok(d: DbView, stmts: Seq<StatementView>) -> bool
    decreases stmts.len(),
{
    if stmts.len() == 0 {
        true
    } else {
        all_ok(d, stmts.drop_last()) && statement_ok(apply_all(d, stmts.drop_last()), stmts.last())
    }
}

/// A prefix of a list that applies, applies.
proof fn lemma_all_ok_prefix(d: DbView, stmts: Seq<StatementView>, j: int)
    requires
        all_ok(d, stmts),
        0 <= j <= stmts.len(),
    ensures
        all_ok(d, stmts.take(j)),
    decreases stmts.len(),
{
    if j == stmts.len() {
        assert(stmts.take(j) =~= stmts);
    } else {
        assert(stmts.drop_last().take(j) =~= stmts.take(j));
        lemma_all_ok_prefix(d, stmts.drop_last(), j);
    }
}

/// Runs a whole statement list as one unit of work.
///
/// Either every statement applies and all its writes are committed together,
/// or the run fails at the first statement that does not apply and the
/// committed store is left exactly as it was: no prefix of the writes
/// survives.
pub fn run_unit_of_work<T1: Uow>(
    uow: &T1,
    ctx: &mut Ctx,
    db: &mut Db,
    stmts: &Vec<Statement>,
) -> (r: Result<(), Error>)
    requires
        old(ctx)@.tx is None,
    ensures
        final(ctx)@.tx is None,
        final(ctx)@.identity == old(ctx)@.identity,
        r is Ok <==> all_ok(old(db)@, statements_views(stmts@)),
        r is Ok ==> final(db)@ == apply_all(old(db)@, statements_views(stmts@)),
        r is Err ==> final(db)@ == old(db)@,
        r matches Err(e) ==> e is Internal,
{
    let ghost views = statements_views(stmts@);
    if let Err(e) = uow.begin(ctx, db) {
        return Err(e);
    }
    let mut outcome: Result<(), Error> = Ok(());
    let mut i: usize = 0;
    while i < stmts.len()
        invariant_except_break
            outcome is Ok,
            ctx@.tx == Some(apply_all(old(db)@, views.take(i as int))),
            all_ok(old(db)@, views.take(i as int)),
        invariant
            i <= stmts.len(),
            views == statements_views(stmts@),
            views.len() == stmts@.len(),
            forall|k: int| 0 <= k < views.len() ==> views[k] == stmts@[k]@,
            ctx@.tx is Some,
            ctx@.identity == old(ctx)@.identity,
            db@ == old(db)@,
        ensures
            ctx@.tx is Some,
            ctx@.identity == old(ctx)@.identity,
            db@ == old(db)@,
            outcome is Ok ==> i == stmts.len() && ctx@.tx == Some(
                apply_all(old(db)@, views.take(i as int)),
            ) && all_ok(old(db)@, views.take(i as int)),
            outcome is Err ==> !all_ok(old(db)@, views) && outcome->Err_0 is Internal,
        decreases stmts.len() - i,
    {
        let step = crate::repository::execute(ctx, db, &stmts[i]);
        proof {
            assert(views.take(i as int + 1).drop_last() =~= views.take(i as int));
            assert(views.take(i as int + 1).last() == views[i as int]);
        }
        match step {
            Ok(_) => {
                i = i + 1;
            },
            Err(e) => {
                proof {
                    assert(!all_ok(old(db)@, views.take(i as int + 1)));
                    lemma_all_ok_not_prefix(old(db)@, views, i as int + 1);
                }
                outcome = Err(e);
                break;
            },
        }
    }
    proof {
        if outcome is Ok {
            assert(views.take(i as int) =~= views);
        }
    }
    complete_unit_of_work(uow, ctx, db, outcome)
}

/// A list whose prefix fails, fails.
proof fn lemma_all_ok_not_prefix(d: DbView, stmts: Seq<StatementView>, j: int)
    requires
        0 <= j <= stmts.len(),
        !all_ok(d, stmts.take(j)),
    ensures
        !all_ok(d, stmts),
{
    if all_ok(d, stmts) {
        lemma_all_ok_prefix(d, stmts, j);
    }
}

} // verus!
