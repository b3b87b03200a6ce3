//! The reasons for which a request is turned down.

use vstd::prelude::*;

verus! {

/// Why a request was rejected. Every rejection is final: the first check that
/// fails decides the error, and the enclosing batch is aborted as a whole.
#[derive(Clone, Copy, Debug, PartialEq, Eq, Structural)]
pub enum VaultError {
    /// The request came with the wrong number of accounts.
    AccountCount,
    /// An account is not held by the native-balance program.
    AccountOwnership,
    /// An account is in no state for the operation: a balance is empty where
    /// funds are expected, or funded where an empty account is expected, or
    /// the payer of a deposit did not sign.
    AccountState,
    /// The request body does not have exactly the length of its layout.
    InstructionDataLength,
    /// The declared vault is not the address derived from the public key.
    AddressDerivationMismatch,
    /// The sibling signature record is missing or cannot be decoded.
    SignatureRecord,
    /// The sibling signature record does not carry exactly one signature.
    SignatureCount,
    /// The signed message names another party than the one withdrawing.
    PayerMismatch,
    /// The ledger could not tell the time.
    Clock,
    /// The signed authorization has expired.
    ExpiredAuthorization,
    /// The request carries no operation tag, or one that is not known.
    UnknownInstruction,
}

/// The error of `pinocchio`, `pinocchio::program_error::ProgramError`, with
/// which the calls into the ledger's crates fail. Nothing is read out of one:
/// whatever such a call failed with, the request is rejected with the
/// [`VaultError`] of the step that made the call.
#[verifier::external_type_specification]
#[verifier::external_body]
pub struct ExProgramError(pinocchio::program_error::ProgramError);

} // verus!
