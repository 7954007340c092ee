use vstd::prelude::*;
use crate::account::Address;

verus! {

/// What `solana_address::Address::try_find_program_address` returns for the
/// given seeds and program id: the first off-curve address (and its bump
/// seed, tried from 255 down) of the SHA-256 derivation, or nothing when the
/// seeds are invalid or no bump seed gives an off-curve address.
pub uninterp spec fn find_program_address_result(seeds: Seq<Seq<u8>>, program_id: Seq<u8>) -> Option<(Seq<u8>, u8)>;

/// The program-derived address of `program_id` for the two seeds `prefix`
/// and `key`, as a plain value.
pub open spec fn program_address_of(prefix: Seq<u8>, key: Seq<u8>, program_id: Seq<u8>) -> Option<(Seq<u8>, u8)> {
    find_program_address_result(seq![prefix, key], program_id)
}

/// The view of a found address and bump seed.
pub open spec fn found_view(r: Option<(Address, u8)>) -> Option<(Seq<u8>, u8)> {
    match r {
        Some((a, b)) => Some((a@, b)),
        None => None,
    }
}

/// Calls `solana_address::Address::try_find_program_address` with the seeds
/// `[prefix, key]`. The contract claims only that the result is the named
/// value for these seeds and this program id: the search itself (SHA-256,
/// the curve test, the bump order) is the outside crate's.
#[verifier::external_body]
pub(crate) fn try_find_program_address(prefix: &[u8], key: &Address, program_id: &Address) -> (r: Option<(Address, u8)>)
    ensures
        match r {
            Some((a, b)) => find_program_address_result(seq![prefix@, key@], program_id@) == Some((a@, b)),
            None => find_program_address_result(seq![prefix@, key@], program_id@).is_none(),
        },
{
    let id = solana_address::Address::new_from_array(*program_id);
    solana_address::Address::try_find_program_address(&[prefix, key], &id).map(|(a, b)| (a.to_bytes(), b))
}

} // verus!
