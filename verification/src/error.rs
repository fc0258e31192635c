//! The errors of the store.

use vstd::prelude::*;

verus! {

/// What went wrong, without the message.
#[derive(Debug, Clone, Copy, PartialEq, Eq, Structural)]
pub enum ErrorKind {
    /// A deployment, a shard placement or a subgraph name is absent.
    NotFound,
    /// Stored data violates an invariant of the data model.
    ConstraintViolation,
    /// The deployment exists but no block has been recorded for it yet.
    NotYetSyncing,
    /// A deployment is placed in a shard for which there is no store.
    UnknownShard,
    /// A batch of operations spans more than one shard.
    CrossShardContractViolation,
}

/// An error of the store, with a message for the operator.
#[derive(Debug, PartialEq, Eq)]
pub enum StoreError {
    NotFound(String),
    ConstraintViolation(String),
    NotYetSyncing(String),
    UnknownShard(String),
    CrossShardContractViolation(String),
}

impl StoreError {
    /// The kind of the error.
    pub open spec fn spec_kind(&self) -> ErrorKind {
        match self {
            StoreError::NotFound(_) => ErrorKind::NotFound,
            StoreError::ConstraintViolation(_) => ErrorKind::ConstraintViolation,
            StoreError::NotYetSyncing(_) => ErrorKind::NotYetSyncing,
            StoreError::UnknownShard(_) => ErrorKind::UnknownShard,
            StoreError::CrossShardContractViolation(_) => ErrorKind::CrossShardContractViolation,
        }
    }

    /// The kind of the error.
    #[verifier::when_used_as_spec(spec_kind)]
    pub fn kind(&self) -> (r: ErrorKind)
        ensures
            r == self.spec_kind(),
    {
        match self {
            StoreError::NotFound(_) => ErrorKind::NotFound,
            StoreError::ConstraintViolation(_) => ErrorKind::ConstraintViolation,
            StoreError::NotYetSyncing(_) => ErrorKind::NotYetSyncing,
            StoreError::UnknownShard(_) => ErrorKind::UnknownShard,
            StoreError::CrossShardContractViolation(_) => ErrorKind::CrossShardContractViolation,
        }
    }

    /// The message of the error.
    pub fn message(&self) -> (r: &str)
        ensures
            r@ == self.spec_message(),
    {
        match self {
            StoreError::NotFound(m) => m.as_str(),
            StoreError::ConstraintViolation(m) => m.as_str(),
            StoreError::NotYetSyncing(m) => m.as_str(),
            StoreError::UnknownShard(m) => m.as_str(),
            StoreError::CrossShardContractViolation(m) => m.as_str(),
        }
    }

    /// The message of the error.
    pub open spec fn spec_message(&self) -> Seq<char> {
        match self {
            StoreError::NotFound(m) => m@,
            StoreError::ConstraintViolation(m) => m@,
            StoreError::NotYetSyncing(m) => m@,
            StoreError::UnknownShard(m) => m@,
            StoreError::CrossShardContractViolation(m) => m@,
        }
    }
}

/// Whether `r` is the outcome `expected` once messages are left aside: the
/// same value on success, an error of the same kind on failure.
pub open spec fn same_outcome<T>(r: Result<T, StoreError>, expected: Result<T, ErrorKind>) -> bool {
    match expected {
        Ok(v) => r == Ok::<T, StoreError>(v),
        Err(k) => r is Err && r->Err_0.spec_kind() == k,
    }
}

/// Whether `r` is the outcome `expected` once messages are left aside: a
/// value with the expected view on success, an error of the same kind on
/// failure.
pub open spec fn yields<T: View>(r: Result<T, StoreError>, expected: Result<T::V, ErrorKind>) -> bool {
    match expected {
        Ok(v) => r is Ok && r->Ok_0@ == v,
        Err(k) => r is Err && r->Err_0.spec_kind() == k,
    }
}

} // verus!
