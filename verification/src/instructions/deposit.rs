//! Deposit: fund the vault of a public key.

use vstd::prelude::*;

use crate::account::{system_program_id, Account, Pubkey};
use crate::bytes::{bytes_eq, le_value, read_le_u64, take};
use crate::error::VaultError;
use crate::ledger::{find_program_address, program_address};
use crate::record::Secp256r1Pubkey;
use crate::seeds::{derivation_seeds, vault_seeds};
use crate::transfer::Transfer;

verus! {

/// The accounts of a deposit, checked.
#[derive(Clone, Copy, Debug, PartialEq, Eq)]
pub struct DepositAccounts<'a> {
    /// The party that funds the vault.
    pub payer: &'a Account,
    /// The vault that is funded.
    pub vault: &'a Account,
}

impl<'a> DepositAccounts<'a> {
    /// The first reason, if any, for which a deposit does not take these
    /// accounts. There must be three: the payer, the vault and the
    /// native-balance program. The payer must have signed, be held by the
    /// native-balance program and have funds; the vault must be held by the
    /// native-balance program and be empty.
    ///
    /// A payer that has not signed is in no state to deposit, whoever holds
    /// it: that is looked at first, and is an error of state, not of
    /// ownership.
    pub open spec fn rejection(accounts: Seq<Account>) -> Option<VaultError> {
        if accounts.len() != 3 {
            Some(VaultError::AccountCount)
        } else if !accounts[0].is_signer {
            Some(VaultError::AccountState)
        } else if !accounts[0].system_owned() {
            Some(VaultError::AccountOwnership)
        } else if accounts[0].lamports == 0 {
            Some(VaultError::AccountState)
        } else if !accounts[1].system_owned() {
            Some(VaultError::AccountOwnership)
        } else if accounts[1].lamports != 0 {
            Some(VaultError::AccountState)
        } else {
            None
        }
    }

    /// Checks the accounts of a deposit and names the payer and the vault
    /// among them.
    pub fn try_from(accounts: &'a [Account]) -> (checked: Result<Self, VaultError>)
        ensures
            match checked {
                Ok(named) => Self::rejection(accounts@) is None && *named.payer == accounts@[0]
                    && *named.vault == accounts@[1],
                Err(error) => Self::rejection(accounts@) == Some(error),
            },
    {
        if accounts.len() != 3 {
            return Err(VaultError::AccountCount);
        }
        let payer = &accounts[0];
        let vault = &accounts[1];
        let system = system_program_id();
        if !payer.is_signer {
            return Err(VaultError::AccountState);
        }
        if !payer.is_owned_by(&system) {
            return Err(VaultError::AccountOwnership);
        }
        if payer.lamports == 0 {
            return Err(VaultError::AccountState);
        }
        if !vault.is_owned_by(&system) {
            return Err(VaultError::AccountOwnership);
        }
        if vault.lamports != 0 {
            return Err(VaultError::AccountState);
        }
        Ok(Self { payer, vault })
    }
}

/// The body of a deposit: the public key whose vault is funded, and the
/// amount.
#[derive(Clone, Copy, Debug, PartialEq, Eq)]
pub struct DepositInstructionData {
    /// The compressed secp256r1 key that the vault belongs to.
    pub pubkey: Secp256r1Pubkey,
    /// The amount to deposit.
    pub amount: u64,
}

impl DepositInstructionData {
    /// The length of the body: 33 bytes of key, 8 bytes of amount.
    pub const LEN: usize = 41;

    /// Whether `self` holds the fields of `data`: the key in its first 33
    /// bytes, and the amount in the 8 that follow, least significant byte
    /// first.
    pub open spec fn is_decoded_from(&self, data: Seq<u8>) -> bool {
        &&& self.pubkey@ == data.subrange(0, 33)
        &&& self.amount == le_value(data.subrange(33, 41))
    }

    /// Decodes the body of a deposit, which must be exactly 41 bytes long.
    pub fn try_from(data: &[u8]) -> (decoded: Result<Self, VaultError>)
        ensures
            match decoded {
                Ok(body) => data@.len() == Self::LEN && body.is_decoded_from(data@),
                Err(error) => data@.len() != Self::LEN && error
                    == VaultError::InstructionDataLength,
            },
    {
        if data.len() != Self::LEN {
            return Err(VaultError::InstructionDataLength);
        }
        let pubkey: Secp256r1Pubkey = take(data, 0);
        let amount_bytes: [u8; 8] = take(data, 33);
        let amount = read_le_u64(&amount_bytes);
        Ok(Self { pubkey, amount })
    }
}

/// A deposit whose accounts and body have passed their checks.
#[derive(Clone, Copy, Debug, PartialEq, Eq)]
pub struct Deposit<'a> {
    /// The payer and the vault.
    pub accounts: DepositAccounts<'a>,
    /// The key and the amount.
    pub instruction_data: DepositInstructionData,
}

impl<'a> Deposit<'a> {
    /// The operation tag of a deposit.
    pub const DISCRIMINATOR: &'static u8 = &0;

    /// The first reason, if any, for which this body with these accounts is
    /// no deposit: the accounts are looked at first, then the body.
    pub open spec fn rejection(data: Seq<u8>, accounts: Seq<Account>) -> Option<VaultError> {
        if DepositAccounts::rejection(accounts) is Some {
            DepositAccounts::rejection(accounts)
        } else if data.len() != DepositInstructionData::LEN {
            Some(VaultError::InstructionDataLength)
        } else {
            None
        }
    }

    /// Whether `self` is the deposit that `data` and `accounts` spell.
    pub open spec fn is_decoded_from(&self, data: Seq<u8>, accounts: Seq<Account>) -> bool {
        &&& *self.accounts.payer == accounts[0]
        &&& *self.accounts.vault == accounts[1]
        &&& self.instruction_data.is_decoded_from(data)
    }

    /// Checks the accounts of a deposit, then decodes its body.
    pub fn try_from(request: (&'a [u8], &'a [Account])) -> (checked: Result<Self, VaultError>)
        ensures
            match checked {
                Ok(deposit) => Self::rejection(request.0@, request.1@) is None
                    && deposit.is_decoded_from(request.0@, request.1@),
                Err(error) => Self::rejection(request.0@, request.1@) == Some(error),
            },
    {
        let accounts = match DepositAccounts::try_from(request.1) {
            Ok(accounts) => accounts,
            Err(error) => return Err(error),
        };
        let instruction_data = match DepositInstructionData::try_from(request.0) {
            Ok(instruction_data) => instruction_data,
            Err(error) => return Err(error),
        };
        Ok(Self { accounts, instruction_data })
    }

    /// Whether `decision` is what a deposit comes to when the ledger has
    /// derived `derived` from the seeds of its key. The declared vault must
    /// be that address; the transfer then moves the amount from the payer,
    /// who has signed, to the vault. Where the ledger derived nothing, the
    /// declared vault is not what it derived.
    pub open spec fn decided(
        &self,
        derived: Option<Seq<u8>>,
        decision: Result<Transfer, VaultError>,
    ) -> bool {
        match decision {
            Ok(transfer) => derived == Some(self.accounts.vault.key@) && transfer.moves(
                self.accounts.payer.key@,
                self.accounts.vault.key@,
                self.instruction_data.amount,
                Seq::empty(),
            ),
            Err(error) => derived != Some(self.accounts.vault.key@) && error
                == VaultError::AddressDerivationMismatch,
        }
    }

    /// Decides on the transfer of a deposit, given the address that the
    /// ledger derived from the seeds of the deposit's key, if any.
    pub fn process_derived(&self, derived: Option<&Pubkey>) -> (decision: Result<
        Transfer,
        VaultError,
    >)
        ensures
            self.decided(
                match derived {
                    Some(address) => Some(address@),
                    None => None,
                },
                decision,
            ),
    {
        let matches = match derived {
            Some(address) => bytes_eq(address, &self.accounts.vault.key),
            None => false,
        };
        if !matches {
            return Err(VaultError::AddressDerivationMismatch);
        }
        let transfer = Transfer {
            from: self.accounts.payer.key,
            to: self.accounts.vault.key,
            lamports: self.instruction_data.amount,
            signer_seeds: Vec::new(),
        };
        proof {
            assert(transfer.signer_seeds.deep_view() =~= Seq::<Seq<u8>>::empty());
        }
        Ok(transfer)
    }

    /// The address that the ledger derives for the vault of the deposit's
    /// key under this program, if it derives one.
    pub open spec fn vault_address(&self) -> Option<Seq<u8>> {
        match program_address(vault_seeds(self.instruction_data.pubkey@), crate::ID@) {
            Some(found) => Some(found.0),
            None => None,
        }
    }

    /// Has the ledger derive the address of the vault of the deposit's key,
    /// and decides on the transfer of the deposit.
    ///
    /// The decision is the one that [`Self::process_derived`] comes to with
    /// the derived address, or with none: whether the ledger finds the
    /// address is not known beforehand. Either way, a deposit whose declared
    /// vault is not the derived address is rejected for that mismatch.
    pub fn process(&self) -> (decision: Result<Transfer, VaultError>)
        ensures
            self.decided(self.vault_address(), decision) || self.decided(None, decision),
            self.vault_address() != Some(self.accounts.vault.key@) ==> decision == Err::<
                Transfer,
                VaultError,
            >(VaultError::AddressDerivationMismatch),
    {
        let seeds = derivation_seeds(&self.instruction_data.pubkey);
        let program = crate::ID;
        match find_program_address(&seeds, &program) {
            Some(found) => self.process_derived(Some(&found.0)),
            None => self.process_derived(None),
        }
    }
}

} // verus!
