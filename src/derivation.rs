use vstd::prelude::*;
use crate::address::Address;
use solana_program::pubkey::Pubkey;

verus! {

/// The tag that the custody account's address is derived from: the bytes
/// of `vault-authority`.
pub const VAULT_SEED: [u8; 15] = [
    118, 97, 117, 108, 116, 45, 97, 117, 116, 104, 111, 114, 105, 116, 121,
];

/// The longest seed that an address derivation accepts.
pub const MAX_SEED_LEN: usize = 32;

/// What the program-address search returns for the single seed `tag` under
/// the program `program`: the first off-curve address, searching the bump
/// from 255 down, with its bump; or nothing when no bump gives one.
pub uninterp spec fn program_address_search(tag: Seq<u8>, program: Seq<u8>) -> Option<(Seq<u8>, u8)>;

/// The view of a search result as plain bytes.
pub open spec fn search_view(r: Option<(Address, u8)>) -> Option<(Seq<u8>, u8)> {
    match r {
        Some((a, b)) => Some((a.key(), b)),
        None => None,
    }
}

/// Relies on `Pubkey::try_find_program_address` of solana-program: its
/// result is a function of the seeds and the program id alone. Seeds longer
/// than `MAX_SEED_LEN` abort a call made through the runtime, so they are
/// left out.
#[verifier::external_body]
fn find_program_address(tag: &[u8], program: &Address) -> (r: Option<(Address, u8)>)
    requires
        tag@.len() <= MAX_SEED_LEN,
    ensures
        search_view(r) == program_address_search(tag@, program.key()),
{
    let program_id = Pubkey::new_from_array(program.bytes);
    match Pubkey::try_find_program_address(&[tag], &program_id) {
        Some((key, bump)) => Some((Address { bytes: key.to_bytes() }, bump)),
        None => None,
    }
}

/// The custody account's delegated authority: its address and the bump
/// that, with the tag, stands in for a signature on calls the relay makes.
#[derive(Clone, Copy, Debug)]
pub struct Authority {
    pub address: Address,
    pub bump: u8,
}

/// `r` is what the derivation from `tag` under `program` gives.
pub open spec fn derived_from(tag: Seq<u8>, program: Seq<u8>, r: Option<Authority>) -> bool {
    match program_address_search(tag, program) {
        Some((a, b)) => r is Some && r.unwrap().address.key() == a && r.unwrap().bump == b,
        None => r is None,
    }
}

/// Derives the authority of the account whose address comes from `tag`
/// under `program_id`; `None` only where no bump gives a valid address.
pub fn derive_authority(tag: &[u8], program_id: &Address) -> (r: Option<Authority>)
    requires
        tag@.len() <= MAX_SEED_LEN,
    ensures
        derived_from(tag@, program_id.key(), r),
{
    match find_program_address(tag, program_id) {
        Some((address, bump)) => Some(Authority { address, bump }),
        None => None,
    }
}

/// Derives the custody account's authority from `VAULT_SEED`.
pub fn derive_vault_authority(program_id: &Address) -> (r: Option<Authority>)
    ensures
        derived_from(VAULT_SEED@, program_id.key(), r),
{
    let seed: &[u8] = vstd::array::array_as_slice(&VAULT_SEED);
    derive_authority(seed, program_id)
}

/// Derivation is deterministic: two derivations from one tag under one
/// program give the same address and the same bump.
pub proof fn lemma_derivation_deterministic(
    tag: Seq<u8>,
    program: Seq<u8>,
    first: Option<Authority>,
    second: Option<Authority>,
)
    requires
        derived_from(tag, program, first),
        derived_from(tag, program, second),
    ensures
        first is Some <==> second is Some,
        first is Some ==> first.unwrap().address.key() == second.unwrap().address.key()
            && first.unwrap().bump == second.unwrap().bump,
{
}

} // verus!
