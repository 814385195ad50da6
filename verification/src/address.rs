//! Addresses that come from the chain's own rules: program derived addresses and the sysvars.
use crate::pubkey::{Pubkey, ARCHER_PROGRAM_ID, INSTRUCTIONS_SYSVAR_ID};
use vstd::prelude::*;

verus! {

/// What `solana_program::pubkey::Pubkey::try_find_program_address` finds for the two seeds `label`
/// and `key` under the program `program_id`: the address and its bump seed, or nothing.
pub uninterp spec fn program_address(
    label: Seq<u8>,
    key: Seq<u8>,
    program_id: Seq<u8>,
) -> Option<(Seq<u8>, u8)>;

/// Calls `solana_program::pubkey::Pubkey::try_find_program_address` with the seeds `label` and
/// `key`. Trusted: the result is a function of the seeds and of the program alone, which
/// `program_address` names. The function returns for every input, unlike `find_program_address`,
/// which is the same search and panics where nothing is found. How it searches (it hashes the seeds
/// with one bump seed after another until the hash lies off the curve) is not said here.
#[verifier::external_body]
fn try_find_program_address(label: &[u8], key: &Pubkey, program_id: &Pubkey) -> (found: Option<
    (Pubkey, u8),
>)
    ensures
        found is Some <==> program_address(label@, key.bytes@, program_id.bytes@) is Some,
        found matches Some((address, bump)) ==> program_address(
            label@,
            key.bytes@,
            program_id.bytes@,
        ) == Some((address.bytes@, bump)),
{
    let program = solana_program::pubkey::Pubkey::new_from_array(program_id.bytes);
    match solana_program::pubkey::Pubkey::try_find_program_address(&[label, &key.bytes], &program) {
        Some((address, bump)) => Some((Pubkey { bytes: address.to_bytes() }, bump)),
        None => None,
    }
}

/// Calls `solana_program::sysvar::instructions::id`. Trusted: it returns the constant that the
/// crate declares, whose bytes `INSTRUCTIONS_SYSVAR_ID` spells out.
#[verifier::external_body]
pub(crate) fn instructions_sysvar_id() -> (id: Pubkey)
    ensures
        id.bytes == INSTRUCTIONS_SYSVAR_ID,
{
    Pubkey { bytes: solana_program::sysvar::instructions::id().to_bytes() }
}

/// The seed of a market's maker registry: `maker_registry` in ASCII.
pub const MAKER_REGISTRY_SEED: [u8; 14] = [
    0x6d, 0x61, 0x6b, 0x65, 0x72, 0x5f, 0x72, 0x65, 0x67, 0x69, 0x73, 0x74, 0x72, 0x79,
];

/// The seed of a market's taker order book: `taker_book` in ASCII.
pub const TAKER_BOOK_SEED: [u8; 10] = [
    0x74, 0x61, 0x6b, 0x65, 0x72, 0x5f, 0x62, 0x6f, 0x6f, 0x6b,
];

/// `address` is the account that the Archer program derives for `market_key` under `label`.
pub open spec fn is_market_address(label: Seq<u8>, market_key: Pubkey, address: Pubkey) -> bool {
    &&& program_address(label, market_key.bytes@, ARCHER_PROGRAM_ID@) matches Some(found)
    &&& found.0 == address.bytes@
}

/// Both accounts that belong to the market `market_key` have an address.
pub open spec fn has_market_addresses(market_key: Pubkey) -> bool {
    &&& program_address(MAKER_REGISTRY_SEED@, market_key.bytes@, ARCHER_PROGRAM_ID@) is Some
    &&& program_address(TAKER_BOOK_SEED@, market_key.bytes@, ARCHER_PROGRAM_ID@) is Some
}

/// `registry_key` and `taker_book_key` are the accounts that belong to the market `market_key`.
pub open spec fn belongs_to_market(
    market_key: Pubkey,
    registry_key: Pubkey,
    taker_book_key: Pubkey,
) -> bool {
    &&& is_market_address(MAKER_REGISTRY_SEED@, market_key, registry_key)
    &&& is_market_address(TAKER_BOOK_SEED@, market_key, taker_book_key)
}

/// The address of the market's maker registry, where there is one.
pub fn registry_address(market_key: &Pubkey) -> (address: Option<Pubkey>)
    ensures
        address is Some <==> program_address(
            MAKER_REGISTRY_SEED@,
            market_key.bytes@,
            ARCHER_PROGRAM_ID@,
        ) is Some,
        address matches Some(key) ==> is_market_address(MAKER_REGISTRY_SEED@, *market_key, key),
{
    let program_id = Pubkey { bytes: ARCHER_PROGRAM_ID };
    let label: [u8; 14] = MAKER_REGISTRY_SEED;
    match try_find_program_address(label.as_slice(), market_key, &program_id) {
        Some((key, _)) => Some(key),
        None => None,
    }
}

/// The address of the market's taker order book, where there is one.
pub fn taker_book_address(market_key: &Pubkey) -> (address: Option<Pubkey>)
    ensures
        address is Some <==> program_address(
            TAKER_BOOK_SEED@,
            market_key.bytes@,
            ARCHER_PROGRAM_ID@,
        ) is Some,
        address matches Some(key) ==> is_market_address(TAKER_BOOK_SEED@, *market_key, key),
{
    let program_id = Pubkey { bytes: ARCHER_PROGRAM_ID };
    let label: [u8; 10] = TAKER_BOOK_SEED;
    match try_find_program_address(label.as_slice(), market_key, &program_id) {
        Some((key, _)) => Some(key),
        None => None,
    }
}

} // verus!
