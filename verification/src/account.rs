//! Accounts of the ledger, as a request sees them.

use vstd::prelude::*;

use crate::bytes::bytes_eq;

verus! {

/// The address of an account.
pub type Pubkey = [u8; 32];

/// What a request may read of an account that was handed to it: its address,
/// the program that holds it, its balance, and whether it signed the batch.
#[derive(Clone, Copy, Debug, PartialEq, Eq)]
pub struct Account {
    /// The address of the account.
    pub key: Pubkey,
    /// The program that holds the account.
    pub owner: Pubkey,
    /// The balance of the account.
    pub lamports: u64,
    /// Whether the account signed the batch that the request belongs to.
    pub is_signer: bool,
}

/// The address of the native-balance program, which holds every account that
/// carries funds and nothing else: thirty-two zero bytes.
pub open spec fn system_program() -> Seq<u8> {
    Seq::new(32, |i: int| 0u8)
}

/// The address of the native-balance program, as `pinocchio_system::ID` gives
/// it. That constant is the base-58 string of thirty-two `1`s decoded, and a
/// `1` is the base-58 digit zero, so every byte of the address is zero.
#[verifier::external_body]
pub(crate) fn system_program_id() -> (id: Pubkey)
    ensures
        id@ == system_program(),
{
    pinocchio_system::ID
}

impl Account {
    /// Whether the native-balance program holds the account.
    pub open spec fn system_owned(&self) -> bool {
        self.owner@ == system_program()
    }

    /// Whether `program` holds the account.
    pub fn is_owned_by(&self, program: &Pubkey) -> (held: bool)
        ensures
            held == (self.owner@ == program@),
    {
        bytes_eq(&self.owner, program)
    }
}

} // verus!
