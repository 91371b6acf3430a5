//! Account addresses and the native-currency unit, as the Solana program
//! library defines them.
//!
//! A `Pubkey` is opaque to the verifier: the library only carries addresses
//! through, compares them, and reads their bytes. Everything stated about an
//! address here is taken on trust from `solana_program`; nothing in this file
//! is proved.

use vstd::prelude::*;
use solana_program::pubkey::Pubkey;

verus! {

#[verifier::external_type_specification]
#[verifier::external_body]
pub struct ExPubkey(solana_program::pubkey::Pubkey);

/// The 32 bytes that an address holds.
pub uninterp spec fn key_bytes(key: Pubkey) -> Seq<u8>;

/// Two addresses name the same account when they hold the same bytes.
pub open spec fn same_key(a: Pubkey, b: Pubkey) -> bool {
    key_bytes(a) == key_bytes(b)
}

/// The bytes of the all-zero address, which marks an unset owner.
pub open spec fn zero_key_bytes() -> Seq<u8> {
    Seq::new(32, |i: int| 0u8)
}

/// `Pubkey`'s `==`. The type derives `PartialEq` over its single field, the
/// 32-byte array, so the comparison is byte-wise equality.
#[verifier::external_body]
pub(crate) fn key_eq(a: &Pubkey, b: &Pubkey) -> (r: bool)
    ensures
        r == same_key(*a, *b),
{
    a == b
}

/// `Pubkey::to_bytes`: returns the wrapped array unchanged.
#[verifier::external_body]
pub(crate) fn key_to_bytes(key: &Pubkey) -> (r: [u8; 32])
    ensures
        r@ == key_bytes(*key),
{
    key.to_bytes()
}

/// `Pubkey`'s `clone`. The type is `Copy`, and its derived `clone` returns
/// the same address.
pub assume_specification[ <Pubkey as Clone>::clone ](key: &Pubkey) -> (r: Pubkey)
    ensures
        r == *key,
;

/// `Pubkey::default()`. The type derives `Default` over a `[u8; 32]`, whose
/// default is all zeroes.
#[verifier::external_body]
pub(crate) fn default_key() -> (r: Pubkey)
    ensures
        key_bytes(r) == zero_key_bytes(),
{
    Pubkey::default()
}

/// `solana_program::native_token::LAMPORTS_PER_SOL`: the number of lamports
/// in one SOL, a constant of 10^9.
#[verifier::external_body]
pub(crate) fn lamports_per_sol() -> (r: u64)
    ensures
        r == 1_000_000_000,
{
    solana_program::native_token::LAMPORTS_PER_SOL
}

} // verus!
