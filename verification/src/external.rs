//! Trusted boundary to the outside crates: the deterministic derivation of
//! the delegated authority, and the parsers for token mint and token
//! account bytes. Each wrapper only converts between the library's plain
//! values and the outside call's own types; its contract is what the
//! outside source shows.

use vstd::prelude::*;

use solana_program::pubkey::Pubkey;
use spl_token_2022::extension::StateWithExtensions;
use spl_token_2022::state::{Account, Mint};

verus! {

/// What `Pubkey::try_find_program_address` returns for the fixed sale seed
/// and a given program identity: the delegated authority's 32 address bytes
/// and the bump seed, or nothing in the statistically improbable case that
/// no bump seed yields a valid address. The derivation is a deterministic
/// function of the program identity alone.
pub uninterp spec fn sale_authority_of(program_id: Seq<u8>) -> Option<(Seq<u8>, u8)>;

/// Relies on solana_program's `Pubkey::try_find_program_address` with the
/// fixed seed `"batch0_sale"`: a deterministic SHA-256 derivation, over the
/// seed, a bump byte, the program identity and a fixed marker, of an
/// off-curve address; no stored secret is involved.
#[verifier::external_body]
pub fn derive_sale_authority(program_id: &[u8; 32]) -> (r: Option<([u8; 32], u8)>)
    ensures
        r matches Some(pair) ==> sale_authority_of(program_id@) == Some((pair.0@, pair.1)),
        r is None ==> sale_authority_of(program_id@) is None,
{
    let pk = Pubkey::new_from_array(*program_id);
    Pubkey::try_find_program_address(&[b"batch0_sale"], &pk).map(
        |found: (Pubkey, u8)| (found.0.to_bytes(), found.1),
    )
}

/// The decimal precision a token mint's account bytes declare, or `None`
/// where the bytes do not parse as an initialized mint; a function of the
/// bytes alone.
pub uninterp spec fn mint_decimals_of(data: Seq<u8>) -> Option<u8>;

/// Relies on spl_token_2022's `StateWithExtensions::<Mint>::unpack`: parses
/// a token mint from its account bytes, deterministically in those bytes,
/// and exposes the mint's declared decimal precision.
#[verifier::external_body]
pub fn read_mint_decimals(data: &[u8]) -> (r: Option<u8>)
    ensures
        r == mint_decimals_of(data@),
{
    match StateWithExtensions::<Mint>::unpack(data) {
        Ok(m) => Some(m.base.decimals),
        Err(_) => None,
    }
}

/// The token balance a token account's bytes record, or `None` where the
/// bytes do not parse as an initialized token account; a function of the
/// bytes alone.
pub uninterp spec fn token_amount_of(data: Seq<u8>) -> Option<u64>;

/// Relies on spl_token_2022's `StateWithExtensions::<Account>::unpack`:
/// parses a token account from its bytes, deterministically in those bytes,
/// and exposes the recorded token balance.
#[verifier::external_body]
pub fn read_token_amount(data: &[u8]) -> (r: Option<u64>)
    ensures
        r == token_amount_of(data@),
{
    match StateWithExtensions::<Account>::unpack(data) {
        Ok(a) => Some(a.base.amount),
        Err(_) => None,
    }
}

} // verus!
