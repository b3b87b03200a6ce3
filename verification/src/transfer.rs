//! The movement of funds that a request asks of the ledger.

use vstd::prelude::*;

use crate::account::{Account, Pubkey};
use crate::bytes::bytes_eq;

verus! {

/// A transfer for the ledger to carry out. The protocol only decides on it:
/// balances change when the ledger has accepted it, and not before.
#[derive(Clone, Debug, PartialEq, Eq)]
pub struct Transfer {
    /// The account that is debited.
    pub from: Pubkey,
    /// The account that is credited.
    pub to: Pubkey,
    /// The amount that moves.
    pub lamports: u64,
    /// The seeds under which the program signs for the debited account, or
    /// none where that account has signed the batch itself.
    pub signer_seeds: Vec<Vec<u8>>,
}

impl Transfer {
    /// Whether the transfer moves `lamports` from the account at `from` to
    /// the account at `to`, signed for under `seeds`.
    pub open spec fn moves(
        &self,
        from: Seq<u8>,
        to: Seq<u8>,
        lamports: u64,
        seeds: Seq<Seq<u8>>,
    ) -> bool {
        &&& self.from@ == from
        &&& self.to@ == to
        &&& self.lamports == lamports
        &&& self.signer_seeds.deep_view() == seeds
    }

    /// Whether the ledger's bookkeeping can carry the transfer out on `from`
    /// and `to`: they are the two accounts that it names, they are not one
    /// and the same, the funds are there, and the credited balance stays
    /// within what a balance can hold.
    pub open spec fn applies(&self, from: Account, to: Account) -> bool {
        &&& from.key@ == self.from@
        &&& to.key@ == self.to@
        &&& from.key@ != to.key@
        &&& self.lamports <= from.lamports
        &&& to.lamports + self.lamports <= u64::MAX
    }

    /// `from` after the amount has left it.
    pub open spec fn debited(&self, from: Account) -> Account {
        Account { lamports: (from.lamports - self.lamports) as u64, ..from }
    }

    /// `to` after the amount has reached it.
    pub open spec fn credited(&self, to: Account) -> Account {
        Account { lamports: (to.lamports + self.lamports) as u64, ..to }
    }

    /// What the ledger's bookkeeping does to the two balances once it has
    /// accepted the transfer: the amount leaves `from` and reaches `to`, and
    /// nothing else changes. Where the transfer cannot be carried out, both
    /// accounts stay as they are and the answer is `false`.
    ///
    /// Whether the ledger accepts the debit at all, by the account's own
    /// signature or by the seeds, is the ledger's decision and no part of
    /// this.
    pub fn settle(&self, from: &mut Account, to: &mut Account) -> (done: bool)
        ensures
            done == self.applies(*old(from), *old(to)),
            done ==> *final(from) == self.debited(*old(from)),
            done ==> *final(to) == self.credited(*old(to)),
            !done ==> *final(from) == *old(from) && *final(to) == *old(to),
    {
        if !bytes_eq(&from.key, &self.from) || !bytes_eq(&to.key, &self.to) {
            return false;
        }
        if bytes_eq(&from.key, &to.key) || from.lamports < self.lamports {
            return false;
        }
        match to.lamports.checked_add(self.lamports) {
            Some(credited) => {
                from.lamports = from.lamports - self.lamports;
                to.lamports = credited;
                true
            },
            None => false,
        }
    }
}

} // verus!
