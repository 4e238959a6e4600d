//! Deterministic address derivation.
//!
//! The host's derivation function maps a template's content checksum, the
//! creator's canonical identity and a salt to the canonical address the new
//! instance will occupy. The mapping is opaque here: the library only relies
//! on it being a function of that triple, and on when it succeeds.

use vstd::prelude::*;

use crate::errors::ContractError;

verus! {

/// The canonical address that `cosmwasm_std::instantiate2_address` derives
/// from a (checksum, creator, salt) triple. The digest itself is opaque; all
/// that is relied on is that it depends on the triple alone.
pub uninterp spec fn derive_of(checksum: Seq<u8>, creator: Seq<u8>, salt: Seq<u8>) -> Seq<u8>;

/// Relies on `cosmwasm_std::instantiate2_address`: it returns `Ok` exactly
/// when the checksum is 32 bytes and the salt is 1 to 64 bytes, and on
/// success the derived address is a deterministic function of
/// (checksum, creator, salt).
#[verifier::external_body]
pub(crate) fn derive_address(checksum: &Vec<u8>, creator: &Vec<u8>, salt: &Vec<u8>) -> (r: Result<
    Vec<u8>,
    ContractError,
>)
    ensures
        r is Ok <==> (checksum@.len() == 32 && 1 <= salt@.len() <= 64),
        r is Ok ==> r->Ok_0@ == derive_of(checksum@, creator@, salt@),
        r is Err ==> r->Err_0 == ContractError::AddressEncodingFailed,
{
    let creator = cosmwasm_std::CanonicalAddr::from(creator.as_slice());
    match cosmwasm_std::instantiate2_address(checksum.as_slice(), &creator, salt.as_slice()) {
        Ok(addr) => Ok(Vec::<u8>::from(addr)),
        Err(_) => Err(ContractError::AddressEncodingFailed),
    }
}

/// Determinism of the derivation: equal checksums, creators and salts give
/// the same derived address on every call.
pub proof fn lemma_derive_deterministic(
    checksum1: Seq<u8>,
    creator1: Seq<u8>,
    salt1: Seq<u8>,
    checksum2: Seq<u8>,
    creator2: Seq<u8>,
    salt2: Seq<u8>,
)
    requires
        checksum1 == checksum2,
        creator1 == creator2,
        salt1 == salt2,
    ensures
        derive_of(checksum1, creator1, salt1) == derive_of(checksum2, creator2, salt2),
{
}

} // verus!
