//! The seeds that bind a public key to its vault.
//!
//! A vault's address is derived by the ledger from three seeds: a fixed label
//! and the public key in two parts, since no single seed may be as long as the
//! 33 bytes of a compressed key. The program signs for the vault with the same
//! three seeds and the bump that the derivation found.

use vstd::prelude::*;

use crate::bytes::{take, to_vec};
use crate::record::Secp256r1Pubkey;

verus! {

/// The label that every vault address is derived under: the bytes of `vault`.
pub open spec fn vault_label() -> Seq<u8> {
    seq![0x76u8, 0x61, 0x75, 0x6c, 0x74]
}

/// The seeds from which the address of the vault of `pubkey` is derived: the
/// label, the first byte of the key, and the remaining 32.
pub open spec fn vault_seeds(pubkey: Seq<u8>) -> Seq<Seq<u8>> {
    seq![vault_label(), pubkey.subrange(0, 1), pubkey.subrange(1, 33)]
}

/// The seeds under which the program signs for the vault of `pubkey`: those
/// of its address, and the bump.
pub open spec fn signer_seeds(pubkey: Seq<u8>, bump: Seq<u8>) -> Seq<Seq<u8>> {
    vault_seeds(pubkey).push(bump)
}

/// The seeds from which the ledger derives the address of the vault of
/// `pubkey`.
pub fn derivation_seeds(pubkey: &Secp256r1Pubkey) -> (seeds: Vec<Vec<u8>>)
    ensures
        seeds.deep_view() == vault_seeds(pubkey@),
{
    let label: [u8; 5] = [0x76, 0x61, 0x75, 0x6c, 0x74];
    let prefix: [u8; 1] = [pubkey[0]];
    let rest: [u8; 32] = take(pubkey, 1);
    let mut seeds: Vec<Vec<u8>> = Vec::new();
    seeds.push(to_vec(&label));
    seeds.push(to_vec(&prefix));
    seeds.push(to_vec(&rest));
    proof {
        assert(seeds.deep_view() =~~= vault_seeds(pubkey@));
    }
    seeds
}

/// The seeds under which the program signs for the vault of `pubkey`, with
/// the bump that the caller supplies.
pub fn authority_seeds(pubkey: &Secp256r1Pubkey, bump: &[u8; 1]) -> (seeds: Vec<Vec<u8>>)
    ensures
        seeds.deep_view() == signer_seeds(pubkey@, bump@),
{
    let mut seeds = derivation_seeds(pubkey);
    let ghost before = seeds.deep_view();
    seeds.push(to_vec(bump));
    proof {
        assert(seeds.deep_view() =~~= before.push(bump@));
    }
    seeds
}

/// The seeds of a vault's authority are those of its address, in the same
/// order, followed by the bump alone: whoever signs for a vault signs for the
/// address that was derived from the same key.
pub proof fn authority_extends_address(pubkey: Seq<u8>, bump: Seq<u8>)
    ensures
        signer_seeds(pubkey, bump).len() == 4,
        signer_seeds(pubkey, bump).subrange(0, 3) == vault_seeds(pubkey),
        signer_seeds(pubkey, bump)[3] == bump,
{
}

} // verus!
