//! The addressing scheme: the seeds from which the address of each record is
//! derived, and the derivation. No mapping is stored; any caller can compute
//! an address again from its inputs.

use vstd::prelude::*;
use crate::context::VaultAuthority;
use crate::guard::Bank;
use crate::identity::{copy_bytes, Identity};

verus! {

/// Namespace tag of the pooled vault: `vault`.
pub const JAMBO_VAULT_SEED: [u8; 5] = [118, 97, 117, 108, 116];

/// Namespace tag of the authority over the vault: `vault-authority`.
pub const JAMBO_VAULT_AUTHORITY_SEED: [u8; 15] = [
    118, 97, 117, 108, 116, 45, 97, 117, 116, 104, 111, 114, 105, 116, 121,
];

/// Namespace tag of an account record: `bank-account-record`.
pub const JAMBO_BANK_ACCOUNT_SEED: [u8; 19] = [
    98, 97, 110, 107, 45, 97, 99, 99, 111, 117, 110, 116, 45, 114, 101, 99, 111, 114, 100,
];

/// A list of seeds as a sequence of byte strings.
pub open spec fn seeds_view(seeds: Vec<Vec<u8>>) -> Seq<Seq<u8>> {
    seeds@.map_values(|seed: Vec<u8>| seed@)
}

/// The seeds of the vault that holds the token of `mint`.
pub open spec fn spec_vault_seeds(mint: Seq<u8>) -> Seq<Seq<u8>> {
    seq![JAMBO_VAULT_SEED@, mint]
}

/// The seeds of the authority over the vaults of the bank of `owner`.
pub open spec fn spec_vault_authority_seeds(owner: Seq<u8>) -> Seq<Seq<u8>> {
    seq![JAMBO_VAULT_AUTHORITY_SEED@, owner]
}

/// The seeds of the record of the account `id` in the bank of `owner`.
pub open spec fn spec_bank_account_seeds(owner: Seq<u8>, id: Seq<u8>) -> Seq<Seq<u8>> {
    seq![JAMBO_BANK_ACCOUNT_SEED@, owner, id]
}

/// The seeds with which the bank signs for the vault authority: those of the
/// authority, then the bump that completes its address.
pub open spec fn spec_vault_authority_signer_seeds(owner: Seq<u8>, bump: u8) -> Seq<Seq<u8>> {
    spec_vault_authority_seeds(owner).push(seq![bump])
}

fn tag_bytes<const N: usize>(tag: &[u8; N]) -> (out: Vec<u8>)
    ensures
        out@ == tag@,
{
    let mut out: Vec<u8> = Vec::new();
    let mut i: usize = 0;
    while i < N
        invariant
            i <= N,
            out@ == tag@.subrange(0, i as int),
        decreases N - i,
    {
        out.push(tag[i]);
        i += 1;
    }
    assert(tag@ == tag@.subrange(0, N as int));
    out
}

/// The seeds of the vault that holds the token of `mint`.
pub fn vault_seeds(mint: &Identity) -> (seeds: Vec<Vec<u8>>)
    ensures
        seeds_view(seeds) == spec_vault_seeds(mint@),
{
    let mut seeds: Vec<Vec<u8>> = Vec::new();
    seeds.push(tag_bytes(&JAMBO_VAULT_SEED));
    seeds.push(mint.to_vec());
    assert(seeds_view(seeds) =~= spec_vault_seeds(mint@));
    seeds
}

/// The seeds of the authority over the vaults of the bank of `owner`.
pub fn vault_authority_seeds(owner: &Identity) -> (seeds: Vec<Vec<u8>>)
    ensures
        seeds_view(seeds) == spec_vault_authority_seeds(owner@),
{
    let mut seeds: Vec<Vec<u8>> = Vec::new();
    seeds.push(tag_bytes(&JAMBO_VAULT_AUTHORITY_SEED));
    seeds.push(owner.to_vec());
    assert(seeds_view(seeds) =~= spec_vault_authority_seeds(owner@));
    seeds
}

/// The seeds of the record of the account `id` in the bank of `owner`.
pub fn bank_account_seeds(owner: &Identity, id: &Vec<u8>) -> (seeds: Vec<Vec<u8>>)
    ensures
        seeds_view(seeds) == spec_bank_account_seeds(owner@, id@),
{
    let mut seeds: Vec<Vec<u8>> = Vec::new();
    seeds.push(tag_bytes(&JAMBO_BANK_ACCOUNT_SEED));
    seeds.push(owner.to_vec());
    seeds.push(copy_bytes(id));
    assert(seeds_view(seeds) =~= spec_bank_account_seeds(owner@, id@));
    seeds
}

/// The seeds with which the bank signs for the vault authority.
pub fn vault_authority_signer_seeds(owner: &Identity, bump: u8) -> (seeds: Vec<Vec<u8>>)
    ensures
        seeds_view(seeds) == spec_vault_authority_signer_seeds(owner@, bump),
{
    let mut seeds = vault_authority_seeds(owner);
    let mut last: Vec<u8> = Vec::new();
    last.push(bump);
    seeds.push(last);
    assert(seeds_view(seeds) =~= spec_vault_authority_signer_seeds(owner@, bump));
    seeds
}

/// The address that `seeds` derive under the program `program_id`, with the
/// bump that completes them; `None` where these seeds derive no address.
pub uninterp spec fn program_address(seeds: Seq<Seq<u8>>, program_id: Seq<u8>) -> Option<
    (Seq<u8>, u8),
>;

/// Most seeds that derive an address together, the bump among them.
pub const MAX_SEEDS: usize = 16;

/// Most bytes of one seed.
pub const MAX_SEED_LEN: usize = 32;

/// Whether `seeds` leave no room for a bump, or hold a seed that is too long.
pub open spec fn seeds_out_of_bounds(seeds: Seq<Seq<u8>>) -> bool {
    seeds.len() >= MAX_SEEDS || exists|i: int|
        0 <= i < seeds.len() && (#[trigger] seeds[i]).len() > MAX_SEED_LEN
}

/// A derived address and its bump, the address taken as a byte sequence.
pub open spec fn derived_view(found: Option<(Identity, u8)>) -> Option<(Seq<u8>, u8)> {
    match found {
        Some((address, bump)) => Some((address@, bump)),
        None => None,
    }
}

/// Calls `solana_program::pubkey::Pubkey::try_find_program_address`, which
/// searches the bumps from 255 down for the first that, appended to the
/// seeds, hashes with the program to an address off the curve. The contract
/// claims that the answer is a function of the seeds and the program, named
/// `program_address`, and that there is none for 16 seeds or more, or for a
/// seed of more than 32 bytes. Nothing else is claimed of that function.
#[verifier::external_body]
fn try_find_program_address(seeds: &Vec<Vec<u8>>, program_id: &Identity) -> (found: Option<
    (Identity, u8),
>)
    ensures
        derived_view(found) == program_address(seeds_view(*seeds), program_id@),
        seeds_out_of_bounds(seeds_view(*seeds)) ==> found is None,
{
    let parts: Vec<&[u8]> = seeds.iter().map(|seed| seed.as_slice()).collect();
    let program = solana_program::pubkey::Pubkey::new_from_array(program_id.bytes);
    match solana_program::pubkey::Pubkey::try_find_program_address(&parts, &program) {
        Some((address, bump)) => Some((Identity { bytes: address.to_bytes() }, bump)),
        None => None,
    }
}

impl Bank {
    /// The authority over the vault of this bank: the address that the seeds
    /// of the authority derive from the owner, and its bump. `None` where the
    /// seeds derive no address.
    pub fn vault_authority(&self) -> (r: Option<VaultAuthority>)
        ensures
            match program_address(spec_vault_authority_seeds(self.owner@), self.program_id@) {
                Some((address, bump)) => r matches Some(authority) && authority.address@
                    == address && authority.bump == bump,
                None => r is None,
            },
    {
        let seeds = vault_authority_seeds(&self.owner);
        match try_find_program_address(&seeds, &self.program_id) {
            Some((address, bump)) => Some(VaultAuthority { address, bump }),
            None => None,
        }
    }

    /// The address of the vault that holds the token of `mint`. `None` where
    /// the seeds derive no address.
    pub fn vault_address(&self, mint: &Identity) -> (r: Option<Identity>)
        ensures
            match program_address(spec_vault_seeds(mint@), self.program_id@) {
                Some((address, bump)) => r matches Some(vault) && vault@ == address,
                None => r is None,
            },
    {
        let seeds = vault_seeds(mint);
        match try_find_program_address(&seeds, &self.program_id) {
            Some((address, _)) => Some(address),
            None => None,
        }
    }

    /// The address of the record of the account `id`. `None` where the seeds
    /// derive no address, as with an `id` of more than 32 bytes.
    pub fn bank_account_address(&self, id: &Vec<u8>) -> (r: Option<Identity>)
        ensures
            match program_address(spec_bank_account_seeds(self.owner@, id@), self.program_id@) {
                Some((address, bump)) => r matches Some(record) && record@ == address,
                None => r is None,
            },
            id@.len() > MAX_SEED_LEN ==> r is None,
    {
        let seeds = bank_account_seeds(&self.owner, id);
        assert(id@.len() > MAX_SEED_LEN ==> seeds_out_of_bounds(seeds_view(seeds))) by {
            assert(seeds_view(seeds)[2] == id@);
        }
        match try_find_program_address(&seeds, &self.program_id) {
            Some((address, _)) => Some(address),
            None => None,
        }
    }
}

} // verus!
