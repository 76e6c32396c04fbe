//! The decisions of a transaction around a unit of work: how it ends, and
//! what it gives back.
use vstd::prelude::*;
use crate::base::error::DatabaseError;

verus! {

/// How a transaction ends.
#[derive(Clone, Copy, Debug, PartialEq, Eq, Structural)]
pub enum TxAction {
    Commit,
    Rollback,
}

/// A transaction is rolled back exactly when its work failed, and committed
/// otherwise.
pub fn finish_action<T>(body: &Result<T, DatabaseError>) -> (r: TxAction)
    ensures
        r == (if body is Err {
            TxAction::Rollback
        } else {
            TxAction::Commit
        }),
{
    match body {
        Ok(_) => TxAction::Commit,
        Err(_) => TxAction::Rollback,
    }
}

/// What a transaction gives back: the error of its commit or rollback where
/// that failed, else the result of its work.
pub fn transaction_result<T>(body: Result<T, DatabaseError>, finish: Result<(), DatabaseError>) -> (r: Result<T, DatabaseError>)
    ensures
        finish matches Err(e) ==> r == Err::<T, DatabaseError>(e),
        finish is Ok ==> r == body,
{
    match finish {
        Err(e) => Err(e),
        Ok(()) => body,
    }
}

} // verus!
