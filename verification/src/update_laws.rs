//! What an update does to each part of the state, said of the accounts' bytes and of what the
//! decoders returned.
use crate::account::Account;
use crate::error::AmmError;
use crate::market_laws::{law_registry_account, law_taker_order_book_account};
use crate::model::{
    book_added, decoded_book, decoded_by, market_set, registry_set, token_programs_step,
    update_outcome, updated, AmmState, Decoded,
};
use crate::pubkey::{Pubkey, SPL_TOKEN_PROGRAM, TOKEN_2022_PROGRAM};
use crate::state::{MakerRegistry, MarketStateHeader, StateDecoder, StateLayout};
use vstd::prelude::*;

verus! {

/// The answer: an error for a market that was fetched and cannot be decoded; else one for a
/// registry that was fetched, is one by its size and its first eight bytes, and cannot be decoded;
/// else success.
pub proof fn law_update_answer<P, B, T>(
    s: AmmState<P, B, T>,
    layout: StateLayout,
    accounts: Map<Pubkey, Account>,
    decoded: Decoded<P, B, T>,
)
    ensures
        ({
            let res = updated(s, layout, accounts, decoded).0;
            let data = accounts[s.registry_key].data@;
            let registry_there = accounts.contains_key(s.registry_key) && data.len()
                >= layout.registry_len && data.len() >= 8 && (forall|i: int|
                0 <= i < 8 ==> #[trigger] data[i] == layout.registry_discriminator@[i]);
            let market_bad = accounts.contains_key(s.market_key) && decoded.market is Err;
            let registry_bad = registry_there && decoded.registry is Err;
            &&& market_bad ==> res is Err && res->Err_0 == AmmError::MarketUndecodable(
                decoded.market->Err_0,
            )
            &&& !market_bad && registry_bad ==> res is Err && res->Err_0
                == AmmError::RegistryUndecodable(decoded.registry->Err_0)
            &&& !market_bad && !registry_bad ==> res is Ok
        }),
{
    law_registry_account(layout, accounts[s.registry_key].data@);
}

/// The addresses never change.
pub proof fn law_update_addresses<P, B, T>(
    s: AmmState<P, B, T>,
    layout: StateLayout,
    accounts: Map<Pubkey, Account>,
    decoded: Decoded<P, B, T>,
)
    ensures
        updated(s, layout, accounts, decoded).1.market_key == s.market_key,
        updated(s, layout, accounts, decoded).1.registry_key == s.registry_key,
        updated(s, layout, accounts, decoded).1.taker_book_key == s.taker_book_key,
{
}

/// The header is what the market's account decoded to, whatever the answer; where it was not
/// fetched or could not be decoded, it is what it was.
pub proof fn law_update_header<P, B, T>(
    s: AmmState<P, B, T>,
    layout: StateLayout,
    accounts: Map<Pubkey, Account>,
    decoded: Decoded<P, B, T>,
)
    ensures
        ({
            let after = updated(s, layout, accounts, decoded).1;
            let seen = accounts.contains_key(s.market_key) && decoded.market is Ok;
            &&& seen ==> after.market_header == Some(decoded.market->Ok_0)
            &&& !seen ==> after.market_header == s.market_header
        }),
{
}

/// The token programs: unless the market's account could not be decoded, each mint of the header
/// that is then held has, if it was fetched, the program with extensions where its data is longer
/// than 82 bytes and the plain one otherwise. A mint that was not fetched keeps its program, and
/// so do both without a header.
pub proof fn law_update_token_programs<P, B, T>(
    s: AmmState<P, B, T>,
    layout: StateLayout,
    accounts: Map<Pubkey, Account>,
    decoded: Decoded<P, B, T>,
)
    ensures
        ({
            let after = updated(s, layout, accounts, decoded).1;
            let market_bad = accounts.contains_key(s.market_key) && decoded.market is Err;
            let base_mint = after.market_header->0.base_mint;
            let quote_mint = after.market_header->0.quote_mint;
            let looked = !market_bad && after.market_header is Some;
            let base_seen = looked && accounts.contains_key(base_mint);
            let quote_seen = looked && accounts.contains_key(quote_mint);
            &&& base_seen && accounts[base_mint].data@.len() > 82
                ==> after.base_token_program.bytes == TOKEN_2022_PROGRAM
            &&& base_seen && accounts[base_mint].data@.len() <= 82
                ==> after.base_token_program.bytes == SPL_TOKEN_PROGRAM
            &&& !base_seen ==> after.base_token_program == s.base_token_program
            &&& quote_seen && accounts[quote_mint].data@.len() > 82
                ==> after.quote_token_program.bytes == TOKEN_2022_PROGRAM
            &&& quote_seen && accounts[quote_mint].data@.len() <= 82
                ==> after.quote_token_program.bytes == SPL_TOKEN_PROGRAM
            &&& !quote_seen ==> after.quote_token_program == s.quote_token_program
        }),
{
}

/// The same of the look at the mints alone, which touches nothing else.
pub proof fn law_token_programs_step<P, B, T>(
    s: AmmState<P, B, T>,
    accounts: Map<Pubkey, Account>,
)
    ensures
        ({
            let after = token_programs_step(s, accounts);
            let base_mint = s.market_header->0.base_mint;
            let quote_mint = s.market_header->0.quote_mint;
            let base_seen = s.market_header is Some && accounts.contains_key(base_mint);
            let quote_seen = s.market_header is Some && accounts.contains_key(quote_mint);
            &&& base_seen && accounts[base_mint].data@.len() > 82
                ==> after.base_token_program.bytes == TOKEN_2022_PROGRAM
            &&& base_seen && accounts[base_mint].data@.len() <= 82
                ==> after.base_token_program.bytes == SPL_TOKEN_PROGRAM
            &&& !base_seen ==> after.base_token_program == s.base_token_program
            &&& quote_seen && accounts[quote_mint].data@.len() > 82
                ==> after.quote_token_program.bytes == TOKEN_2022_PROGRAM
            &&& quote_seen && accounts[quote_mint].data@.len() <= 82
                ==> after.quote_token_program.bytes == SPL_TOKEN_PROGRAM
            &&& !quote_seen ==> after.quote_token_program == s.quote_token_program
            &&& after == (AmmState {
                base_token_program: after.base_token_program,
                quote_token_program: after.quote_token_program,
                ..s
            })
        }),
{
}

/// The list of makers: after a success that saw a registry, the makers that it lists; in every
/// other case what it was.
pub proof fn law_update_makers<P, B, T>(
    s: AmmState<P, B, T>,
    layout: StateLayout,
    accounts: Map<Pubkey, Account>,
    decoded: Decoded<P, B, T>,
)
    ensures
        ({
            let res = updated(s, layout, accounts, decoded).0;
            let after = updated(s, layout, accounts, decoded).1;
            let data = accounts[s.registry_key].data@;
            let registry_there = accounts.contains_key(s.registry_key) && data.len()
                >= layout.registry_len && data.len() >= 8 && (forall|i: int|
                0 <= i < 8 ==> #[trigger] data[i] == layout.registry_discriminator@[i]);
            &&& res is Ok && registry_there ==> decoded.registry is Ok && after.maker_book_keys
                == decoded.registry->Ok_0.active()
            &&& !(res is Ok && registry_there) ==> after.maker_book_keys == s.maker_book_keys
        }),
{
    law_registry_account(layout, accounts[s.registry_key].data@);
}

/// The makers' books: after a success, for every maker of the list whose account was fetched and
/// decoded its book, in the order of the list, and no other; after a failure what they were.
pub proof fn law_update_maker_books<P, B, T>(
    s: AmmState<P, B, T>,
    layout: StateLayout,
    accounts: Map<Pubkey, Account>,
    decoded: Decoded<P, B, T>,
)
    ensures
        ({
            let res = updated(s, layout, accounts, decoded).0;
            let after = updated(s, layout, accounts, decoded).1;
            let keys = after.maker_book_keys;
            &&& res is Ok ==> after.maker_books == Seq::new(keys.len(), |i: int| i).filter(
                |i: int| accounts.contains_key(keys[i]) && decoded.maker_books[i] is Ok,
            ).map_values(|i: int| (keys[i], decoded.maker_books[i]->Ok_0))
            &&& res is Err ==> after.maker_books == s.maker_books
        }),
{
    crate::laws::law_loaded_books(
        updated(s, layout, accounts, decoded).1.maker_book_keys,
        accounts,
        decoded.maker_books,
    );
}

/// The taker order book: after a success, the book that its account decoded to, if that account was
/// fetched, starts with the eight bytes of one and could be decoded, and otherwise none. How many
/// makers' books there are plays no part. After a failure it is what it was.
pub proof fn law_update_taker_order_book<P, B, T>(
    s: AmmState<P, B, T>,
    layout: StateLayout,
    accounts: Map<Pubkey, Account>,
    decoded: Decoded<P, B, T>,
)
    ensures
        ({
            let res = updated(s, layout, accounts, decoded).0;
            let after = updated(s, layout, accounts, decoded).1;
            let data = accounts[s.taker_book_key].data@;
            let there = accounts.contains_key(s.taker_book_key) && data.len() >= 8 && (forall|
                i: int,
            |
                0 <= i < 8 ==> #[trigger] data[i] == layout.taker_order_book_discriminator@[i])
                && decoded.taker_order_book is Ok;
            &&& res is Ok && there ==> after.taker_order_book == Some(
                decoded.taker_order_book->Ok_0,
            )
            &&& res is Ok && !there ==> after.taker_order_book is None
            &&& res is Err ==> after.taker_order_book == s.taker_order_book
        }),
{
    law_taker_order_book_account(layout, accounts[s.taker_book_key].data@);
}

/// What counts as decoded is what the decoder returned for the very data that was fetched: for the
/// market's account; for the registry's where it is one and the market did not fail; and, where
/// the update succeeds, for each maker's in the list that is then held and for the taker order
/// book's where it is one.
pub proof fn law_decoded_from_the_accounts<P, B, T, D: StateDecoder<P, B, T>>(
    decoder: D,
    s: AmmState<P, B, T>,
    layout: StateLayout,
    accounts: Map<Pubkey, Account>,
    decoded: Decoded<P, B, T>,
)
    requires
        decoded_by(decoder, s, layout, accounts, decoded),
    ensures
        ({
            let res = updated(s, layout, accounts, decoded).0;
            let keys = updated(s, layout, accounts, decoded).1.maker_book_keys;
            let market_bad = accounts.contains_key(s.market_key) && decoded.market is Err;
            let registry = accounts[s.registry_key].data@;
            let registry_there = accounts.contains_key(s.registry_key) && registry.len()
                >= layout.registry_len && registry.len() >= 8 && (forall|i: int|
                0 <= i < 8 ==> #[trigger] registry[i] == layout.registry_discriminator@[i]);
            let takers = accounts[s.taker_book_key].data@;
            let takers_there = accounts.contains_key(s.taker_book_key) && takers.len() >= 8 && (
            forall|i: int|
                0 <= i < 8 ==> #[trigger] takers[i] == layout.taker_order_book_discriminator@[i]);
            &&& accounts.contains_key(s.market_key) ==> call_ensures(
                D::deserialize_market_header,
                (&decoder, &accounts[s.market_key].data),
                decoded.market,
            )
            &&& !market_bad && registry_there ==> call_ensures(
                D::deserialize_registry,
                (&decoder, &accounts[s.registry_key].data),
                decoded.registry,
            )
            &&& res is Ok ==> forall|i: int|
                0 <= i < keys.len() && accounts.contains_key(keys[i]) ==> call_ensures(
                    D::deserialize_maker_book,
                    (&decoder, &accounts[keys[i]].data),
                    #[trigger] decoded.maker_books[i],
                )
            &&& res is Ok && takers_there ==> call_ensures(
                D::deserialize_taker_order_book,
                (&decoder, &accounts[s.taker_book_key].data),
                decoded.taker_order_book,
            )
        }),
{
    law_registry_account(layout, accounts[s.registry_key].data@);
    law_taker_order_book_account(layout, accounts[s.taker_book_key].data@);
}

/// An update with a decoder does what follows from results of that decoder.
pub proof fn law_update_outcome<P, B, T, D: StateDecoder<P, B, T>>(
    decoder: D,
    s: AmmState<P, B, T>,
    layout: StateLayout,
    accounts: Map<Pubkey, Account>,
    res: Result<(), AmmError>,
    after: AmmState<P, B, T>,
)
    requires
        update_outcome(decoder, s, layout, accounts, res, after),
    ensures
        exists|decoded: Decoded<P, B, T>| #[trigger]
            decoded_by(decoder, s, layout, accounts, decoded) && res == updated(
                s,
                layout,
                accounts,
                decoded,
            ).0 && after == updated(s, layout, accounts, decoded).1,
{
}

/// Of an update with a decoder: the taker order book that it leaves when it succeeds is a result of
/// the decoder for the account at the taker order book's address, where that was fetched and starts
/// with the eight bytes of one, and none otherwise.
pub proof fn law_taker_order_book_taken_over<P, B, T, D: StateDecoder<P, B, T>>(
    decoder: D,
    s: AmmState<P, B, T>,
    layout: StateLayout,
    accounts: Map<Pubkey, Account>,
    after: AmmState<P, B, T>,
)
    requires
        update_outcome(decoder, s, layout, accounts, Ok(()), after),
    ensures
        ({
            let data = accounts[s.taker_book_key].data@;
            let there = accounts.contains_key(s.taker_book_key) && data.len() >= 8 && (forall|
                i: int,
            |
                0 <= i < 8 ==> #[trigger] data[i] == layout.taker_order_book_discriminator@[i]);
            &&& !there ==> after.taker_order_book is None
            &&& there ==> exists|book: Result<T, String>| #[trigger]
                call_ensures(
                    D::deserialize_taker_order_book,
                    (&decoder, &accounts[s.taker_book_key].data),
                    book,
                ) && (book is Ok ==> after.taker_order_book == Some(book->Ok_0)) && (book is Err
                    ==> after.taker_order_book is None)
        }),
{
    let decoded = choose|decoded: Decoded<P, B, T>| #[trigger]
        decoded_by(decoder, s, layout, accounts, decoded) && (Ok::<(), AmmError>(()), after)
            == updated(s, layout, accounts, decoded);
    law_update_taker_order_book(s, layout, accounts, decoded);
    law_decoded_from_the_accounts(decoder, s, layout, accounts, decoded);
}

/// Results taken over one by one: a header, a list of makers, a book; an error changes nothing.
pub proof fn law_results_taken_over<P, B, T>(
    s: AmmState<P, B, T>,
    key: Pubkey,
    header: MarketStateHeader<P>,
    registry: MakerRegistry,
    maker_book: B,
    taker_order_book: T,
    said: String,
)
    ensures
        market_set(s, Ok(header)) == Ok::<AmmState<P, B, T>, AmmError>(
            AmmState { market_header: Some(header), ..s },
        ),
        market_set(s, Err(said)) == Err::<AmmState<P, B, T>, AmmError>(
            AmmError::MarketUndecodable(said),
        ),
        registry_set(s, Ok(registry)) == Ok::<AmmState<P, B, T>, AmmError>(
            AmmState { maker_book_keys: registry.active(), ..s },
        ),
        registry_set(s, Err(said)) == Err::<AmmState<P, B, T>, AmmError>(
            AmmError::RegistryUndecodable(said),
        ),
        book_added(s.maker_books, key, Ok(maker_book)) == s.maker_books.push((key, maker_book)),
        book_added(s.maker_books, key, Err(said)) == s.maker_books,
        decoded_book(Ok::<T, String>(taker_order_book)) == Some(taker_order_book),
        decoded_book(Err::<T, String>(said)) is None,
{
}

} // verus!
