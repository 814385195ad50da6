//! What holds of the market's accounts, addresses and messages, said of bytes and fields alone.
use crate::account::{readonly, writable};
use crate::address::{
    belongs_to_market, has_market_addresses, program_address, MAKER_REGISTRY_SEED, TAKER_BOOK_SEED,
};
use crate::amm::{amm_cloned, ArcherAmm};
use crate::error::{error_message, AmmError};
use crate::model::{
    accounts_to_update, active, initial_state, picks, reserve_mints, valid, AmmState,
};
use crate::pubkey::{Pubkey, ARCHER_PROGRAM_ID, SPL_TOKEN_PROGRAM, TOKEN_2022_PROGRAM};
use crate::state::{
    is_market, is_registry, is_taker_order_book, starts_with, token_program, StateLayout,
};
use vstd::prelude::*;
use vstd::std_specs::cmp::PartialEqSpec;

verus! {

/// Two addresses are equal exactly where all their bytes are.
pub proof fn law_equal_addresses(a: Pubkey, b: Pubkey)
    ensures
        a.eq_spec(&b) <==> (forall|i: int| 0 <= i < 32 ==> a.bytes@[i] == b.bytes@[i]),
        a == b <==> (forall|i: int| 0 <= i < 32 ==> a.bytes@[i] == b.bytes@[i]),
{
    if forall|i: int| 0 <= i < 32 ==> a.bytes@[i] == b.bytes@[i] {
        assert forall|i: int| 0 <= i < 32 implies a.bytes[i] == b.bytes[i] by {
            assert(a.bytes@[i] == b.bytes@[i]);
        }
        assert(a.bytes =~= b.bytes);
    }
}

/// Data starts with a discriminator exactly where it is long enough and agrees byte by byte.
pub proof fn law_starts_with(data: Seq<u8>, discriminator: Seq<u8>)
    ensures
        starts_with(data, discriminator) <==> data.len() >= discriminator.len() && (forall|i: int|
            0 <= i < discriminator.len() ==> #[trigger] data[i] == discriminator[i]),
{
    let n: int = discriminator.len() as int;
    if data.len() >= n {
        if data.take(n) == discriminator {
            assert forall|i: int| 0 <= i < n implies #[trigger] data[i] == discriminator[i] by {
                assert(data.take(n)[i] == data[i]);
            }
        }
        if forall|i: int| 0 <= i < n ==> #[trigger] data[i] == discriminator[i] {
            assert(data.take(n) =~= discriminator);
        }
    }
}

/// An account is a market exactly where its first eight bytes are the market's.
pub proof fn law_market_account(layout: StateLayout, data: Seq<u8>)
    ensures
        is_market(layout, data) <==> data.len() >= 8 && (forall|i: int|
            0 <= i < 8 ==> #[trigger] data[i] == layout.market_discriminator@[i]),
{
    law_starts_with(data, layout.market_discriminator@);
}

/// An account is a registry exactly where it has the size of one and its first eight bytes are the
/// registry's.
pub proof fn law_registry_account(layout: StateLayout, data: Seq<u8>)
    ensures
        is_registry(layout, data) <==> data.len() >= layout.registry_len && data.len() >= 8 && (
        forall|i: int|
            0 <= i < 8 ==> #[trigger] data[i] == layout.registry_discriminator@[i]),
{
    law_starts_with(data, layout.registry_discriminator@);
}

/// An account is a taker order book exactly where its first eight bytes are those of one.
pub proof fn law_taker_order_book_account(layout: StateLayout, data: Seq<u8>)
    ensures
        is_taker_order_book(layout, data) <==> data.len() >= 8 && (forall|i: int|
            0 <= i < 8 ==> #[trigger] data[i] == layout.taker_order_book_discriminator@[i]),
{
    law_starts_with(data, layout.taker_order_book_discriminator@);
}

/// What an account is does not change when bytes are appended to it.
pub proof fn law_appended_bytes(layout: StateLayout, data: Seq<u8>, more: Seq<u8>)
    ensures
        is_market(layout, data) ==> is_market(layout, data + more),
        is_registry(layout, data) ==> is_registry(layout, data + more),
        is_taker_order_book(layout, data) ==> is_taker_order_book(layout, data + more),
{
    law_market_account(layout, data);
    law_market_account(layout, data + more);
    law_registry_account(layout, data);
    law_registry_account(layout, data + more);
    law_taker_order_book_account(layout, data);
    law_taker_order_book_account(layout, data + more);
    assert forall|i: int| 0 <= i < data.len() implies #[trigger] (data + more)[i] == data[i] by {}
}

/// A mint of more than 82 bytes belongs to the token program with extensions, any other to the
/// plain one.
pub proof fn law_token_program(len: nat)
    ensures
        len > 82 ==> token_program(len).bytes == TOKEN_2022_PROGRAM,
        len <= 82 ==> token_program(len).bytes == SPL_TOKEN_PROGRAM,
{
}

/// The accounts that belong to a market are those that the Archer program derives from its address
/// under the seeds `maker_registry` and `taker_book`.
pub proof fn law_derived_addresses(market_key: Pubkey, registry_key: Pubkey, taker_book_key: Pubkey)
    ensures
        ({
            let maker_registry: Seq<u8> = seq![
                0x6d, 0x61, 0x6b, 0x65, 0x72, 0x5f, 0x72, 0x65, 0x67, 0x69, 0x73, 0x74, 0x72, 0x79,
            ];
            let taker_book: Seq<u8> = seq![
                0x74, 0x61, 0x6b, 0x65, 0x72, 0x5f, 0x62, 0x6f, 0x6f, 0x6b,
            ];
            let registry = program_address(maker_registry, market_key.bytes@, ARCHER_PROGRAM_ID@);
            let takers = program_address(taker_book, market_key.bytes@, ARCHER_PROGRAM_ID@);
            &&& has_market_addresses(market_key) <==> registry is Some && takers is Some
            &&& belongs_to_market(market_key, registry_key, taker_book_key) <==> {
                &&& registry matches Some((address, _bump)) && address == registry_key.bytes@
                &&& takers matches Some((address, _bump)) && address == taker_book_key.bytes@
            }
        }),
{
    assert(MAKER_REGISTRY_SEED@ =~= seq![
        0x6du8, 0x61, 0x6b, 0x65, 0x72, 0x5f, 0x72, 0x65, 0x67, 0x69, 0x73, 0x74, 0x72, 0x79,
    ]);
    assert(TAKER_BOOK_SEED@ =~= seq![0x74u8, 0x61, 0x6b, 0x65, 0x72, 0x5f, 0x62, 0x6f, 0x6f, 0x6b]);
}

/// A new market maker has the addresses that it was given, both mints under the plain token
/// program, and nothing else.
pub proof fn law_new_market_maker<P, B, T>(
    market_key: Pubkey,
    registry_key: Pubkey,
    taker_book_key: Pubkey,
)
    ensures
        ({
            let s = initial_state::<P, B, T>(market_key, registry_key, taker_book_key);
            &&& s.market_key == market_key
            &&& s.registry_key == registry_key
            &&& s.taker_book_key == taker_book_key
            &&& s.market_header is None
            &&& s.maker_book_keys.len() == 0
            &&& s.maker_books.len() == 0
            &&& s.taker_order_book is None
            &&& s.base_token_program.bytes == SPL_TOKEN_PROGRAM
            &&& s.quote_token_program.bytes == SPL_TOKEN_PROGRAM
        }),
{
}

/// The state of a market maker is what its fields hold.
pub proof fn law_state_is_the_fields<P, B, T>(amm: ArcherAmm<P, B, T>)
    ensures
        amm@.market_key == amm.market_key,
        amm@.registry_key == amm.registry_key,
        amm@.taker_book_key == amm.taker_book_key,
        amm@.market_header == amm.market_header,
        amm@.maker_book_keys == amm.maker_book_keys@,
        amm@.maker_books == amm.maker_books@,
        amm.taker_order_book is None ==> amm@.taker_order_book is None,
        amm.taker_order_book matches Some(book) ==> amm@.taker_order_book == Some(*book),
        amm@.base_token_program == amm.base_token_program,
        amm@.quote_token_program == amm.quote_token_program,
{
}

/// The reserve mints are the header's base mint and its quote mint; without a header there are
/// none.
pub proof fn law_reserve_mints<P, B, T>(s: AmmState<P, B, T>)
    ensures
        s.market_header is None ==> reserve_mints(s).len() == 0,
        s.market_header matches Some(header) ==> reserve_mints(s).len() == 2 && reserve_mints(s)[0]
            == header.base_mint && reserve_mints(s)[1] == header.quote_mint,
{
}

/// The accounts to fetch are, place by place, the market, the registry, the taker order book, every
/// maker in order, and, once the header is known, the base mint and the quote mint.
pub proof fn law_accounts_to_update<P, B, T>(s: AmmState<P, B, T>)
    ensures
        ({
            let keys = accounts_to_update(s);
            let n: int = s.maker_book_keys.len() as int;
            &&& keys[0] == s.market_key
            &&& keys[1] == s.registry_key
            &&& keys[2] == s.taker_book_key
            &&& forall|i: int| 3 <= i < n + 3 ==> #[trigger] keys[i] == s.maker_book_keys[i - 3]
            &&& s.market_header is None ==> keys.len() == n + 3
            &&& s.market_header matches Some(header) ==> keys.len() == n + 5 && keys[n + 3]
                == header.base_mint && keys[n + 4] == header.quote_mint
        }),
{
}

/// A market maker is active exactly while it holds a header that says so.
pub proof fn law_active<P, B, T>(s: AmmState<P, B, T>)
    ensures
        s.market_header is None ==> !active(s),
        s.market_header matches Some(header) ==> active(s) == header.active,
{
}

/// What a valid state is: two token programs, and books whose keys are found in the list of makers
/// at ascending places.
pub proof fn law_valid_state<P, B, T>(s: AmmState<P, B, T>)
    requires
        valid(s),
    ensures
        s.base_token_program.bytes == SPL_TOKEN_PROGRAM || s.base_token_program.bytes
            == TOKEN_2022_PROGRAM,
        s.quote_token_program.bytes == SPL_TOKEN_PROGRAM || s.quote_token_program.bytes
            == TOKEN_2022_PROGRAM,
        exists|places: Seq<int>|
            {
                &&& #[trigger] picks(places, s.maker_book_keys, s.maker_books)
                &&& places.len() == s.maker_books.len()
                &&& forall|j: int|
                    0 <= j < places.len() ==> 0 <= #[trigger] places[j] < s.maker_book_keys.len()
                        && s.maker_book_keys[places[j]] == s.maker_books[j].0
                &&& forall|i: int, j: int|
                    0 <= i < j < places.len() ==> #[trigger] places[i] < #[trigger] places[j]
            },
{
    let places = choose|places: Seq<int>| picks(places, s.maker_book_keys, s.maker_books);
    assert(picks(places, s.maker_book_keys, s.maker_books));
}

/// The account of an instruction keeps the address and the signer that it is given; a writable
/// one is written to and a read-only one is not.
pub proof fn law_account_metas(pubkey: Pubkey, is_signer: bool)
    ensures
        ({
            let w = writable(pubkey, is_signer);
            let r = readonly(pubkey, is_signer);
            &&& w.pubkey == pubkey && w.is_signer == is_signer && w.is_writable
            &&& r.pubkey == pubkey && r.is_signer == is_signer && !r.is_writable
        }),
{
}

/// The messages of the errors. What a decoder or the engine said stands in them whole.
pub proof fn law_messages(said: String)
    ensures
        error_message(AmmError::NotAMarket) == "Not an Archer market"@,
        error_message(AmmError::MarketUndecodable(said)) == "Failed to deserialize market: "@
            + said@,
        error_message(AmmError::RegistryUndecodable(said)) == "Failed to deserialize registry: "@
            + said@,
        error_message(AmmError::MarketNotLoaded) == "Market not loaded"@,
        error_message(AmmError::MarketNotActive) == "Market not active"@,
        error_message(AmmError::NoQuote(said)) == said@,
        error_message(AmmError::QuoteLotSizeZero) == "quote lot size is 0"@,
        error_message(AmmError::BaseLotSizeZero) == "base lot size is 0"@,
{
}

/// A clone has every field of its source: the plain ones equal, the others cloned, and as many
/// books, at the same keys and places.
pub proof fn law_clone_field_by_field<P: Clone, B: Clone, T: Clone>(
    a: AmmState<P, B, T>,
    b: AmmState<P, B, T>,
)
    requires
        amm_cloned(a, b),
    ensures
        b.market_key == a.market_key,
        b.registry_key == a.registry_key,
        b.taker_book_key == a.taker_book_key,
        b.maker_book_keys == a.maker_book_keys,
        b.base_token_program == a.base_token_program,
        b.quote_token_program == a.quote_token_program,
        b.market_header is Some <==> a.market_header is Some,
        a.market_header matches Some(x) ==> ({
            let y = b.market_header->0;
            &&& y.base_mint == x.base_mint
            &&& y.quote_mint == x.quote_mint
            &&& y.base_vault == x.base_vault
            &&& y.quote_vault == x.quote_vault
            &&& y.base_atoms_per_base_lot == x.base_atoms_per_base_lot
            &&& y.quote_atoms_per_quote_lot == x.quote_atoms_per_quote_lot
            &&& y.active == x.active
            &&& cloned(x.pricing, y.pricing)
        }),
        b.maker_books.len() == a.maker_books.len(),
        forall|i: int|
            0 <= i < a.maker_books.len() ==> (#[trigger] b.maker_books[i]).0 == a.maker_books[i].0
                && cloned(a.maker_books[i].1, b.maker_books[i].1),
        b.taker_order_book is Some <==> a.taker_order_book is Some,
        a.taker_order_book matches Some(x) ==> cloned(x, b.taker_order_book->0),
{
}

} // verus!
