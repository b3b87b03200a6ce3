//! What the protocol asks of the ledger while it decides.
//!
//! Two things cannot be worked out from a request alone: the address that the
//! ledger derives from a set of seeds, and the time. Both are the ledger's to
//! tell, and both may fail to be told.

use vstd::prelude::*;

use pinocchio::program_error::ProgramError;
use pinocchio::sysvars::clock::Clock;
use pinocchio::sysvars::Sysvar;

use crate::account::Pubkey;

verus! {

/// The address that the ledger derives from `seeds` for the program at
/// `program`, with the bump that it found for it: the first of the bumps
/// 255, 254, ... under which the seeds hash to an address that no key pair
/// can have. `None` where there is no such bump, or where there are more
/// seeds, or longer ones, than the ledger takes.
pub uninterp spec fn program_address(seeds: Seq<Seq<u8>>, program: Seq<u8>) -> Option<(Seq<u8>, u8)>;

/// Asks `pinocchio::pubkey::try_find_program_address` for the address that
/// `seeds` derive under `program_id`. What it finds is the ledger's
/// derivation, which depends on the seeds and the program alone. It may find
/// nothing where the derivation has a result: away from the ledger the
/// primitive is not there, and the call finds nothing at all.
#[verifier::external_body]
pub(crate) fn find_program_address(seeds: &Vec<Vec<u8>>, program_id: &Pubkey) -> (found: Option<
    (Pubkey, u8),
>)
    ensures
        found matches Some(pair) ==> program_address(seeds.deep_view(), program_id@) == Some(
            (pair.0@, pair.1),
        ),
{
    let seeds: Vec<&[u8]> = seeds.iter().map(Vec::as_slice).collect();
    pinocchio::pubkey::try_find_program_address(&seeds, program_id)
}

/// Reads the ledger's clock with `Clock::get` and takes the time of the
/// current slot from it, in seconds since the Unix epoch. Nothing is known of
/// the time before it is read, nor whether it can be read.
#[verifier::external_body]
pub(crate) fn unix_timestamp() -> Result<i64, ProgramError> {
    Clock::get().map(|clock| clock.unix_timestamp)
}

} // verus!
