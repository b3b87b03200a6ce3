//! What holds of the protocol as a whole.

use vstd::prelude::*;

use crate::account::Account;
use crate::bytes::le_value;
use crate::error::VaultError;
use crate::instructions::{Deposit, Withdraw};
use crate::record::{record_parses, secp256r1_program, IntrospectedInstruction, SignatureRecord};
use crate::transfer::Transfer;

verus! {

/// A deposit moves exactly its amount. Let a deposit pass every check, let
/// `transfer` be what it decides on once the ledger has derived the address
/// of its vault, and let the ledger carry that transfer out on the payer and
/// the vault. Then the vault, which was empty, holds the amount of the
/// request; the payer holds that much less; and nothing else about either
/// account has changed.
pub proof fn deposit_moves_amount(
    deposit: Deposit,
    data: Seq<u8>,
    accounts: Seq<Account>,
    derived: Option<Seq<u8>>,
    transfer: Transfer,
)
    requires
        Deposit::rejection(data, accounts) is None,
        deposit.is_decoded_from(data, accounts),
        deposit.decided(derived, Ok(transfer)),
        transfer.applies(accounts[0], accounts[1]),
    ensures
        transfer.credited(accounts[1]).lamports == accounts[1].lamports + le_value(
            data.subrange(33, 41),
        ),
        transfer.credited(accounts[1]).lamports == le_value(data.subrange(33, 41)),
        transfer.debited(accounts[0]).lamports == accounts[0].lamports - le_value(
            data.subrange(33, 41),
        ),
        transfer.credited(accounts[1]) == (Account {
            lamports: transfer.credited(accounts[1]).lamports,
            ..accounts[1]
        }),
        transfer.debited(accounts[0]) == (Account {
            lamports: transfer.debited(accounts[0]).lamports,
            ..accounts[0]
        }),
{
}

/// No deposit goes into a vault that holds funds. Whatever the body says, a
/// deposit whose vault has a balance is rejected; and where the accounts are
/// three, it is rejected for the state of the accounts unless the payer has
/// signed and the payer or the vault is held by another program than the
/// native-balance one.
pub proof fn deposit_into_funded_vault_fails(data: Seq<u8>, accounts: Seq<Account>)
    requires
        accounts[1].lamports != 0,
    ensures
        Deposit::rejection(data, accounts) is Some,
        accounts.len() == 3 && (!accounts[0].is_signer || (accounts[0].system_owned()
            && accounts[1].system_owned())) ==> Deposit::rejection(data, accounts) == Some(
            VaultError::AccountState,
        ),
{
}

/// No deposit is taken from a payer that has not signed. Whatever the body
/// says and whatever else holds of the accounts, such a deposit is rejected;
/// and where the accounts are three, it is rejected for the state of the
/// accounts.
pub proof fn deposit_needs_signed_payer(data: Seq<u8>, accounts: Seq<Account>)
    requires
        !accounts[0].is_signer,
    ensures
        Deposit::rejection(data, accounts) is Some,
        accounts.len() == 3 ==> Deposit::rejection(data, accounts) == Some(
            VaultError::AccountState,
        ),
{
}

/// No withdrawal goes through on a record that does not carry exactly one
/// signature. Where the sibling request is addressed to the verification
/// program and long enough for the count it states, the withdrawal is
/// rejected for that count.
pub proof fn withdraw_needs_one_signature(
    withdraw: Withdraw,
    sibling: Option<&IntrospectedInstruction>,
    now: Option<i64>,
)
    requires
        sibling is Some,
        sibling.unwrap().data@.len() > 0,
        sibling.unwrap().data@[0] != 1,
    ensures
        withdraw.refusal(sibling, now) is Some,
        sibling.unwrap().program_id@ == secp256r1_program() && record_parses(sibling.unwrap().data@)
            ==> withdraw.refusal(sibling, now) == Some(VaultError::SignatureCount),
{
}

/// No withdrawal goes to a party that the signed message does not name.
/// Where the sibling request is a usable signature record, the withdrawal is
/// rejected for that mismatch.
pub proof fn withdraw_needs_named_payer(
    withdraw: Withdraw,
    sibling: Option<&IntrospectedInstruction>,
    now: Option<i64>,
)
    requires
        sibling is Some,
        SignatureRecord::payer_of(sibling.unwrap().data@) != withdraw.accounts.payer.key@,
    ensures
        withdraw.refusal(sibling, now) is Some,
        SignatureRecord::rejection(sibling) is None ==> withdraw.refusal(sibling, now) == Some(
            VaultError::PayerMismatch,
        ),
{
}

/// No withdrawal goes through after the expiry of its authorization. Where
/// the sibling request is a usable signature record that names the payer,
/// the withdrawal is rejected as expired.
pub proof fn withdraw_needs_unexpired_authorization(
    withdraw: Withdraw,
    sibling: Option<&IntrospectedInstruction>,
    now: i64,
)
    requires
        sibling is Some,
        now > SignatureRecord::expiry_of(sibling.unwrap().data@),
    ensures
        withdraw.refusal(sibling, Some(now)) is Some,
        SignatureRecord::rejection(sibling) is None && SignatureRecord::payer_of(
            sibling.unwrap().data@,
        ) == withdraw.accounts.payer.key@ ==> withdraw.refusal(sibling, Some(now)) == Some(
            VaultError::ExpiredAuthorization,
        ),
{
}

/// A withdrawal drains the vault. Let a withdrawal be authorized, let
/// `transfer` be what it decides on, and let the ledger carry that transfer
/// out on the vault and the payer, which are two accounts. Then the vault is
/// empty; the payer holds what the vault held in addition to its own; and
/// nothing else about either account has changed.
pub proof fn withdraw_drains_vault(
    withdraw: Withdraw,
    sibling: Option<&IntrospectedInstruction>,
    now: Option<i64>,
    transfer: Transfer,
)
    requires
        withdraw.decided(sibling, now, Ok(transfer)),
        transfer.applies(*withdraw.accounts.vault, *withdraw.accounts.payer),
    ensures
        transfer.debited(*withdraw.accounts.vault).lamports == 0,
        transfer.credited(*withdraw.accounts.payer).lamports == withdraw.accounts.payer.lamports
            + withdraw.accounts.vault.lamports,
        transfer.debited(*withdraw.accounts.vault) == (Account {
            lamports: 0,
            ..*withdraw.accounts.vault
        }),
        transfer.credited(*withdraw.accounts.payer) == (Account {
            lamports: transfer.credited(*withdraw.accounts.payer).lamports,
            ..*withdraw.accounts.payer
        }),
{
}

/// No withdrawal is made from an empty vault. Whatever the body says, a
/// withdrawal whose vault has no balance is rejected; and where the accounts
/// are four and the vault is held by the native-balance program, it is
/// rejected for the state of the accounts.
pub proof fn withdraw_from_empty_vault_fails(data: Seq<u8>, accounts: Seq<Account>)
    requires
        accounts[1].lamports == 0,
    ensures
        Withdraw::rejection(data, accounts) is Some,
        accounts.len() == 4 && accounts[1].system_owned() ==> Withdraw::rejection(data, accounts)
            == Some(VaultError::AccountState),
{
}

} // verus!
