//! Verified core of a small regtest payment tool: idempotent wallet
//! provisioning decisions, coinbase-maturity accounting, address
//! reconstruction from locking scripts, transaction-output classification,
//! and rendering of the resulting payment summary.
//!
//! Node communication itself (RPC transport, authentication, file output)
//! is left to the surrounding binary; this crate holds every decision and
//! computation made on the data the node hands back.
use vstd::prelude::*;

pub mod address;
pub mod chain;
pub mod inspect;
pub mod render;
pub mod wallet;

verus! {

/// Everything that can go wrong inside the core logic.
///
/// Transport failures (an unreachable or refusing node) never arise here:
/// they belong to the caller that performs the node communication.
#[derive(Clone, Copy, Debug, PartialEq, Eq, Structural)]
pub enum CoreError {
    /// A transaction without a confirming block was handed to inspection.
    NotConfirmed,
    /// The inspected transaction has no input to resolve.
    MissingInput,
    /// An input's previous-output index points past the end of the
    /// referenced transaction's output list.
    MissingPreviousOutput,
    /// A locking script cannot be mapped to an address on the configured
    /// network.
    NonStandardScript,
    /// An address does not belong to the configured network.
    WrongNetwork,
}

/// The error taxonomy: which class of failure a [`CoreError`] reports.
#[derive(Clone, Copy, Debug, PartialEq, Eq, Structural)]
pub enum ErrorKind {
    /// An operation was attempted on a wallet or transaction not in the
    /// required state.
    Precondition,
    /// A script or an indexed input/output could not be resolved.
    Reconstruction,
    /// An address failed network validation.
    Validation,
}

/// The class each error belongs to.
pub open spec fn kind_of(e: CoreError) -> ErrorKind {
    match e {
        CoreError::NotConfirmed => ErrorKind::Precondition,
        CoreError::MissingInput => ErrorKind::Reconstruction,
        CoreError::MissingPreviousOutput => ErrorKind::Reconstruction,
        CoreError::NonStandardScript => ErrorKind::Reconstruction,
        CoreError::WrongNetwork => ErrorKind::Validation,
    }
}

impl CoreError {
    /// Which class of failure this error reports.
    pub fn kind(&self) -> (k: ErrorKind)
        ensures
            k == kind_of(*self),
    {
        match self {
            CoreError::NotConfirmed => ErrorKind::Precondition,
            CoreError::MissingInput => ErrorKind::Reconstruction,
            CoreError::MissingPreviousOutput => ErrorKind::Reconstruction,
            CoreError::NonStandardScript => ErrorKind::Reconstruction,
            CoreError::WrongNetwork => ErrorKind::Validation,
        }
    }
}

} // verus!
