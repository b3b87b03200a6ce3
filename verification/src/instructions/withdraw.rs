//! Withdraw: drain a vault to the party that its key has authorized.

use vstd::prelude::*;

use crate::account::{system_program_id, Account};
use crate::bytes::bytes_eq;
use crate::error::VaultError;
use crate::ledger::unix_timestamp;
use crate::record::{IntrospectedInstruction, SignatureRecord};
use crate::seeds::{authority_seeds, signer_seeds};
use crate::transfer::Transfer;

verus! {

/// The accounts of a withdrawal, checked.
#[derive(Clone, Copy, Debug, PartialEq, Eq)]
pub struct WithdrawAccounts<'a> {
    /// The party that receives the funds.
    pub payer: &'a Account,
    /// The vault that is drained.
    pub vault: &'a Account,
    /// The account through which the ledger shows the requests of the batch.
    pub instructions: &'a Account,
}

impl<'a> WithdrawAccounts<'a> {
    /// The first reason, if any, for which a withdrawal does not take these
    /// accounts. There must be four: the payer, the vault, the view of the
    /// batch and the native-balance program. The vault must be held by the
    /// native-balance program and have funds.
    pub open spec fn rejection(accounts: Seq<Account>) -> Option<VaultError> {
        if accounts.len() != 4 {
            Some(VaultError::AccountCount)
        } else if !accounts[1].system_owned() {
            Some(VaultError::AccountOwnership)
        } else if accounts[1].lamports == 0 {
            Some(VaultError::AccountState)
        } else {
            None
        }
    }

    /// Checks the accounts of a withdrawal and names the payer, the vault and
    /// the view of the batch among them.
    pub fn try_from(accounts: &'a [Account]) -> (checked: Result<Self, VaultError>)
        ensures
            match checked {
                Ok(named) => Self::rejection(accounts@) is None && *named.payer == accounts@[0]
                    && *named.vault == accounts@[1] && *named.instructions == accounts@[2],
                Err(error) => Self::rejection(accounts@) == Some(error),
            },
    {
        if accounts.len() != 4 {
            return Err(VaultError::AccountCount);
        }
        let payer = &accounts[0];
        let vault = &accounts[1];
        let instructions = &accounts[2];
        let system = system_program_id();
        if !vault.is_owned_by(&system) {
            return Err(VaultError::AccountOwnership);
        }
        if vault.lamports == 0 {
            return Err(VaultError::AccountState);
        }
        Ok(Self { payer, vault, instructions })
    }
}

/// The body of a withdrawal: the bump of the vault's address.
#[derive(Clone, Copy, Debug, PartialEq, Eq)]
pub struct WithdrawInstructionData {
    /// The bump under which the program signs for the vault.
    pub bump: [u8; 1],
}

impl WithdrawInstructionData {
    /// The length of the body: the bump alone.
    pub const LEN: usize = 1;

    /// Decodes the body of a withdrawal, which must be exactly one byte long.
    pub fn try_from(data: &[u8]) -> (decoded: Result<Self, VaultError>)
        ensures
            match decoded {
                Ok(body) => data@.len() == Self::LEN && body.bump@ == data@,
                Err(error) => data@.len() != Self::LEN && error
                    == VaultError::InstructionDataLength,
            },
    {
        if data.len() != Self::LEN {
            return Err(VaultError::InstructionDataLength);
        }
        let bump: [u8; 1] = [data[0]];
        Ok(Self { bump })
    }
}

/// A withdrawal whose accounts and body have passed their checks.
#[derive(Clone, Copy, Debug, PartialEq, Eq)]
pub struct Withdraw<'a> {
    /// The payer, the vault and the view of the batch.
    pub accounts: WithdrawAccounts<'a>,
    /// The bump.
    pub instruction_data: WithdrawInstructionData,
}

impl<'a> Withdraw<'a> {
    /// The operation tag of a withdrawal.
    pub const DISCRIMINATOR: &'static u8 = &1;

    /// The first reason, if any, for which this body with these accounts is
    /// no withdrawal: the accounts are looked at first, then the body.
    pub open spec fn rejection(data: Seq<u8>, accounts: Seq<Account>) -> Option<VaultError> {
        if WithdrawAccounts::rejection(accounts) is Some {
            WithdrawAccounts::rejection(accounts)
        } else if data.len() != WithdrawInstructionData::LEN {
            Some(VaultError::InstructionDataLength)
        } else {
            None
        }
    }

    /// Whether `self` is the withdrawal that `data` and `accounts` spell.
    pub open spec fn is_decoded_from(&self, data: Seq<u8>, accounts: Seq<Account>) -> bool {
        &&& *self.accounts.payer == accounts[0]
        &&& *self.accounts.vault == accounts[1]
        &&& *self.accounts.instructions == accounts[2]
        &&& self.instruction_data.bump@ == data
    }

    /// Checks the accounts of a withdrawal, then decodes its body.
    pub fn try_from(request: (&'a [u8], &'a [Account])) -> (checked: Result<Self, VaultError>)
        ensures
            match checked {
                Ok(withdraw) => Self::rejection(request.0@, request.1@) is None
                    && withdraw.is_decoded_from(request.0@, request.1@),
                Err(error) => Self::rejection(request.0@, request.1@) == Some(error),
            },
    {
        let accounts = match WithdrawAccounts::try_from(request.1) {
            Ok(accounts) => accounts,
            Err(error) => return Err(error),
        };
        let instruction_data = match WithdrawInstructionData::try_from(request.0) {
            Ok(instruction_data) => instruction_data,
            Err(error) => return Err(error),
        };
        Ok(Self { accounts, instruction_data })
    }

    /// The first reason, if any, for which the withdrawal is not authorized
    /// by `sibling`, the request that follows it in the batch, at the time
    /// `now`. The sibling must be a usable signature record; its message must
    /// name the payer of the withdrawal; the time must be known; and the
    /// expiry of the message must not lie before it.
    pub open spec fn refusal(
        &self,
        sibling: Option<&IntrospectedInstruction>,
        now: Option<i64>,
    ) -> Option<VaultError> {
        if SignatureRecord::rejection(sibling) is Some {
            SignatureRecord::rejection(sibling)
        } else if SignatureRecord::payer_of(sibling.unwrap().data@) != self.accounts.payer.key@ {
            Some(VaultError::PayerMismatch)
        } else if now is None {
            Some(VaultError::Clock)
        } else if now.unwrap() > SignatureRecord::expiry_of(sibling.unwrap().data@) {
            Some(VaultError::ExpiredAuthorization)
        } else {
            None
        }
    }

    /// Whether `decision` is what a withdrawal comes to with `sibling` as the
    /// request that follows it and `now` as the ledger's time. Where nothing
    /// speaks against the withdrawal, the transfer moves the whole balance of
    /// the vault to the payer, and the program signs for the vault under the
    /// seeds of the key that signed the record, with the bump of the request.
    pub open spec fn decided(
        &self,
        sibling: Option<&IntrospectedInstruction>,
        now: Option<i64>,
        decision: Result<Transfer, VaultError>,
    ) -> bool {
        match decision {
            Ok(transfer) => self.refusal(sibling, now) is None && transfer.moves(
                self.accounts.vault.key@,
                self.accounts.payer.key@,
                self.accounts.vault.lamports,
                signer_seeds(
                    SignatureRecord::signer_of(sibling.unwrap().data@),
                    self.instruction_data.bump@,
                ),
            ),
            Err(error) => self.refusal(sibling, now) == Some(error),
        }
    }

    /// Reads the signature record out of `sibling` and holds the party it
    /// names against the payer of the withdrawal. The time plays no part in
    /// this.
    fn authorization(&self, sibling: Option<&IntrospectedInstruction>) -> (read: Result<
        SignatureRecord,
        VaultError,
    >)
        ensures
            match read {
                Ok(record) => {
                    &&& SignatureRecord::rejection(sibling) is None
                    &&& record.is_read_from(sibling.unwrap().data@)
                    &&& record.payer@ == self.accounts.payer.key@
                },
                Err(error) => error != VaultError::Clock && self.refusal(sibling, None) == Some(
                    error,
                ),
            },
    {
        let record = match SignatureRecord::read(sibling) {
            Ok(record) => record,
            Err(error) => return Err(error),
        };
        if !bytes_eq(&self.accounts.payer.key, &record.payer) {
            return Err(VaultError::PayerMismatch);
        }
        Ok(record)
    }

    /// Holds the expiry of `record` against the time and, where it has not
    /// passed, decides on the transfer that the record authorizes.
    fn release(&self, record: &SignatureRecord, now: Option<i64>) -> (decision: Result<
        Transfer,
        VaultError,
    >)
        ensures
            match decision {
                Ok(transfer) => now is Some && now.unwrap() <= record.expiry && transfer.moves(
                    self.accounts.vault.key@,
                    self.accounts.payer.key@,
                    self.accounts.vault.lamports,
                    signer_seeds(record.signer@, self.instruction_data.bump@),
                ),
                Err(error) => if now is None {
                    error == VaultError::Clock
                } else {
                    now.unwrap() > record.expiry && error == VaultError::ExpiredAuthorization
                },
            },
    {
        let now = match now {
            Some(now) => now,
            None => return Err(VaultError::Clock),
        };
        if now > record.expiry {
            return Err(VaultError::ExpiredAuthorization);
        }
        Ok(
            Transfer {
                from: self.accounts.vault.key,
                to: self.accounts.payer.key,
                lamports: self.accounts.vault.lamports,
                signer_seeds: authority_seeds(&record.signer, &self.instruction_data.bump),
            },
        )
    }

    /// Decides on the transfer of a withdrawal, given the request that
    /// follows it in the batch and the ledger's time, as far as either could
    /// be had.
    ///
    /// Whether the seeds of the transfer are the vault's is for the ledger to
    /// tell when it carries the transfer out.
    pub fn process_at(
        &self,
        sibling: Option<&IntrospectedInstruction>,
        now: Option<i64>,
    ) -> (decision: Result<Transfer, VaultError>)
        ensures
            self.decided(sibling, now, decision),
    {
        let record = match self.authorization(sibling) {
            Ok(record) => record,
            Err(error) => return Err(error),
        };
        self.release(&record, now)
    }

    /// Decides on the transfer of a withdrawal, given the request that
    /// follows it in the batch. The ledger's clock is read once the record
    /// has been found to authorize the payer, and not before.
    ///
    /// The decision is the one that [`Self::process_at`] comes to at the time
    /// that the clock gave, whatever that was. A withdrawal that is rejected
    /// whatever the time, because its sibling is no usable signature record
    /// or names another payer, is rejected for that reason.
    pub fn process(&self, sibling: Option<&IntrospectedInstruction>) -> (decision: Result<
        Transfer,
        VaultError,
    >)
        ensures
            exists|time: Option<i64>| self.decided(sibling, time, decision),
            self.refusal(sibling, None) != Some(VaultError::Clock) ==> self.decided(
                sibling,
                None,
                decision,
            ),
    {
        let record = match self.authorization(sibling) {
            Ok(record) => record,
            Err(error) => {
                proof {
                    assert(self.decided(sibling, None, Err(error)));
                }
                return Err(error);
            },
        };
        let time = match unix_timestamp() {
            Ok(time) => Some(time),
            Err(_) => None,
        };
        let decision = self.release(&record, time);
        proof {
            assert(self.decided(sibling, time, decision));
        }
        decision
    }
}

} // verus!
