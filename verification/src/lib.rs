//! A custodial vault protocol for a ledger of balance-bearing accounts.
//!
//! A party deposits funds into a vault whose address is derived from a
//! secp256r1 public key, and later withdraws them by presenting, in the same
//! atomic batch, a record of a verified signature by that key over a message
//! that names the withdrawing party and an expiry time.
//!
//! The crate holds the decisions of the protocol: which accounts and request
//! bodies are accepted ([`instructions`]), which seeds bind a key to its
//! vault ([`seeds`]), how the signature record is cross-checked ([`record`]),
//! and which transfer follows ([`transfer`]). Accounts reach it as plain
//! values ([`account`]), and what it decides leaves it as a [`Transfer`] for
//! the ledger to carry out. What holds of the protocol as a whole is stated
//! and proved in [`laws`].
//!
//! Little is taken on trust: how `pinocchio_secp256r1_instruction` reads a
//! signature record, the addresses of two programs of the ledger, and the two
//! questions that only the ledger can answer ([`ledger`]): which address a
//! set of seeds derives, and what time it is. Each of these items says in its
//! documentation what is claimed of the code behind it.

pub mod account;
pub mod bytes;
pub mod error;
pub mod instructions;
pub mod laws;
pub mod ledger;
pub mod record;
pub mod seeds;
pub mod transfer;

pub use account::{Account, Pubkey};
pub use error::VaultError;
pub use instructions::{
    Deposit, DepositAccounts, DepositInstructionData, Withdraw, WithdrawAccounts,
    WithdrawInstructionData,
};
pub use record::{IntrospectedInstruction, Secp256r1Pubkey, SignatureRecord};
pub use transfer::Transfer;

use vstd::prelude::*;

verus! {

/// The address of this program on the ledger, under which every vault address
/// is derived: `91tm9dq8Q3bb73eKQJZqKYr5BzftiMuybrdvKeBy1U6x` in base 58.
pub const ID: Pubkey = [
    119, 24, 5, 159, 248, 61, 173, 102, 59, 228, 4, 235, 63, 66, 171, 172,
    194, 171, 96, 162, 198, 151, 43, 242, 104, 25, 172, 200, 34, 63, 141, 37,
];

/// A request that has been told apart by its tag and has passed the checks on
/// its accounts and its body.
#[derive(Clone, Copy, Debug, PartialEq, Eq)]
pub enum Request<'a> {
    /// A deposit.
    Deposit(Deposit<'a>),
    /// A withdrawal.
    Withdraw(Withdraw<'a>),
}

/// The body of a request: what follows its tag.
pub open spec fn body(instruction_data: Seq<u8>) -> Seq<u8> {
    instruction_data.subrange(1, instruction_data.len() as int)
}

/// The first reason, if any, for which a request is turned down before it is
/// processed. Its first byte must be the tag of a deposit or of a withdrawal;
/// what follows the tag, with the accounts, must then pass the checks of that
/// operation.
pub open spec fn request_rejection(instruction_data: Seq<u8>, accounts: Seq<Account>) -> Option<
    VaultError,
> {
    if instruction_data.len() == 0 {
        Some(VaultError::UnknownInstruction)
    } else if instruction_data[0] == *Deposit::DISCRIMINATOR {
        Deposit::rejection(body(instruction_data), accounts)
    } else if instruction_data[0] == *Withdraw::DISCRIMINATOR {
        Withdraw::rejection(body(instruction_data), accounts)
    } else {
        Some(VaultError::UnknownInstruction)
    }
}

/// Tells a request apart by its first byte and checks it as the operation
/// that the byte names: `0` for a deposit, `1` for a withdrawal. Any other
/// tag, and a request without one, is rejected.
pub fn process_instruction<'a>(
    _program_id: &Pubkey,
    accounts: &'a [Account],
    instruction_data: &'a [u8],
) -> (routed: Result<Request<'a>, VaultError>)
    ensures
        match routed {
            Ok(Request::Deposit(deposit)) => {
                &&& instruction_data@.len() > 0 && instruction_data@[0] == 0
                &&& request_rejection(instruction_data@, accounts@) is None
                &&& deposit.is_decoded_from(body(instruction_data@), accounts@)
            },
            Ok(Request::Withdraw(withdraw)) => {
                &&& instruction_data@.len() > 0 && instruction_data@[0] == 1
                &&& request_rejection(instruction_data@, accounts@) is None
                &&& withdraw.is_decoded_from(body(instruction_data@), accounts@)
            },
            Err(error) => request_rejection(instruction_data@, accounts@) == Some(error),
        },
{
    if instruction_data.len() == 0 {
        return Err(VaultError::UnknownInstruction);
    }
    let tag = instruction_data[0];
    let data = vstd::slice::slice_subrange(instruction_data, 1, instruction_data.len());
    if tag == *Deposit::DISCRIMINATOR {
        match Deposit::try_from((data, accounts)) {
            Ok(deposit) => Ok(Request::Deposit(deposit)),
            Err(error) => Err(error),
        }
    } else if tag == *Withdraw::DISCRIMINATOR {
        match Withdraw::try_from((data, accounts)) {
            Ok(withdraw) => Ok(Request::Withdraw(withdraw)),
            Err(error) => Err(error),
        }
    } else {
        Err(VaultError::UnknownInstruction)
    }
}

} // verus!
