//! The transaction that a transaction manager holds for one request: at most one is
//! open at a time, and committing or rolling back closes it.
use vstd::prelude::*;

use crate::domain::error::DomainError;

verus! {

/// What taking the open transaction gives: the transaction, or a system error when
/// none is open.
pub open spec fn take_result<T>(tran: Option<T>) -> Result<T, DomainError> {
    match tran {
        Some(t) => Ok(t),
        None => Err(DomainError::SystemError),
    }
}

/// What the check before beginning gives: success only when no transaction is open.
pub open spec fn begin_check<T>(tran: Option<T>) -> Result<(), DomainError> {
    match tran {
        Some(_) => Err(DomainError::SystemError),
        None => Ok(()),
    }
}

/// The open transaction of a manager, if any.
#[derive(Debug)]
pub struct TransactionState<T> {
    pub tran: Option<T>,
}

impl<T> TransactionState<T> {
    /// No transaction is open.
    pub fn new() -> (s: Self)
        ensures
            s.tran is None,
    {
        TransactionState { tran: None }
    }

    /// Whether a transaction is open.
    pub fn is_transaction_started(&self) -> (b: bool)
        ensures
            b == self.tran is Some,
    {
        self.tran.is_some()
    }

    /// Whether a transaction may begin: only when none is open, else a system error.
    pub fn check_can_begin(&self) -> (r: Result<(), DomainError>)
        ensures
            r == begin_check(self.tran),
    {
        if self.tran.is_none() {
            Ok(())
        } else {
            Err(DomainError::SystemError)
        }
    }

    /// Keeps a transaction that has just begun.
    pub fn started(&mut self, tran: T)
        requires
            old(self).tran is None,
        ensures
            final(self).tran == Some(tran),
    {
        self.tran = Some(tran);
    }

    /// The open transaction, for use; a system error when none is open.
    pub fn get_transaction(&self) -> (r: Result<&T, DomainError>)
        ensures
            match self.tran {
                Some(t) => r == Ok::<&T, DomainError>(&t),
                None => r == Err::<&T, DomainError>(DomainError::SystemError),
            },
    {
        match &self.tran {
            Some(t) => Ok(t),
            None => Err(DomainError::SystemError),
        }
    }

    /// Closes the open transaction and hands it over to be committed or rolled back;
    /// a system error, with nothing changed, when none is open.
    pub fn take(&mut self) -> (r: Result<T, DomainError>)
        ensures
            final(self).tran is None,
            r == take_result(old(self).tran),
    {
        match self.tran.take() {
            Some(t) => Ok(t),
            None => Err(DomainError::SystemError),
        }
    }
}

/// A transaction that has begun is taken back exactly once: the first take gives it,
/// a second one is a system error, and once it is taken a new one may begin; while it
/// is open, beginning another is a system error.
pub proof fn lemma_take_once<T>(tran: T)
    ensures
        take_result(Some(tran)) == Ok::<T, DomainError>(tran),
        take_result(None::<T>) == Err::<T, DomainError>(DomainError::SystemError),
        begin_check(None::<T>) is Ok,
        begin_check(Some(tran)) == Err::<(), DomainError>(DomainError::SystemError),
{
}

} // verus!
