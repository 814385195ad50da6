//! What holds of the market maker as a whole, over its state and what follows from it.
use crate::account::Account;
use crate::address::belongs_to_market;
use crate::amm::{amm_cloned, clones_equal, engine_repeats, quote_outcome, quoted_by, ArcherAmm};
use crate::error::AmmError;
use crate::model::{
    accounts_len, accounts_to_update, active, agree_at, agree_on, books_listed, decoded_book,
    decoded_by, decoder_repeats, initial_state, loaded_books, market_step, picks, quote_side,
    registry_fetched, registry_step, reserve_mints, same_answer, same_registry, same_result,
    swap_accounts, swap_lots, taker_order_book_fetched, update_outcome, updated, valid, AmmState,
    Decoded,
};
use crate::pubkey::Pubkey;
use crate::quote::{Quote, QuoteEngine, QuoteOutput, QuoteParams};
use crate::state::{MakerRegistry, MarketStateHeader, StateDecoder, StateLayout};
use crate::swap::SwapParams;
use vstd::prelude::*;

verus! {

/// A market maker that has seen no update is valid and knows nothing: no reserve mints, no quotes,
/// no swaps, and only the market's own three accounts to ask for.
pub proof fn law_initial_state<P, B, T>(
    market_key: Pubkey,
    registry_key: Pubkey,
    taker_book_key: Pubkey,
    quote: QuoteParams,
    swap: SwapParams,
)
    ensures
        ({
            let s = initial_state::<P, B, T>(market_key, registry_key, taker_book_key);
            &&& valid(s)
            &&& !active(s)
            &&& reserve_mints(s).len() == 0
            &&& accounts_to_update(s) == seq![market_key, registry_key, taker_book_key]
            &&& quote_side(s, quote) == Err::<bool, AmmError>(AmmError::MarketNotLoaded)
            &&& swap_lots(s, swap) == Err::<u64, AmmError>(AmmError::MarketNotLoaded)
        }),
{
    let s = initial_state::<P, B, T>(market_key, registry_key, taker_book_key);
    assert(accounts_to_update(s) =~= seq![market_key, registry_key, taker_book_key]);
    assert(picks(Seq::empty(), s.maker_book_keys, s.maker_books));
}

/// In a valid state no more books are held than there are makers, and each is the book of one.
pub proof fn law_books_of_makers<P, B, T>(s: AmmState<P, B, T>)
    requires
        valid(s),
    ensures
        s.maker_books.len() <= s.maker_book_keys.len(),
        forall|j: int|
            0 <= j < s.maker_books.len() ==> s.maker_book_keys.contains(
                (#[trigger] s.maker_books[j]).0,
            ),
{
    let places = choose|places: Seq<int>| picks(places, s.maker_book_keys, s.maker_books);
    assert forall|j: int| 0 <= j < s.maker_books.len() implies s.maker_book_keys.contains(
        (#[trigger] s.maker_books[j]).0,
    ) by {
        assert(s.maker_book_keys[places[j]] == s.maker_books[j].0);
    }
    if s.maker_books.len() > 0 {
        lemma_places_ascend(places, s.maker_book_keys, s.maker_books, s.maker_books.len() - 1);
    }
}

/// The place of the `j`-th book is at least `j`.
proof fn lemma_places_ascend<B>(
    places: Seq<int>,
    keys: Seq<Pubkey>,
    books: Seq<(Pubkey, B)>,
    j: int,
)
    requires
        picks(places, keys, books),
        0 <= j < places.len(),
    ensures
        places[j] >= j,
    decreases j,
{
    if j > 0 {
        lemma_places_ascend(places, keys, books, j - 1);
        assert(places[j - 1] < places[j]);
    }
}

/// A market has one registry and one taker order book: their addresses follow from its own.
pub proof fn law_market_addresses(
    market_key: Pubkey,
    registry_key: Pubkey,
    taker_book_key: Pubkey,
    other_registry_key: Pubkey,
    other_taker_book_key: Pubkey,
)
    requires
        belongs_to_market(market_key, registry_key, taker_book_key),
        belongs_to_market(market_key, other_registry_key, other_taker_book_key),
    ensures
        other_registry_key == registry_key,
        other_taker_book_key == taker_book_key,
{
    lemma_same_bytes(registry_key, other_registry_key);
    lemma_same_bytes(taker_book_key, other_taker_book_key);
}

/// Addresses with the same bytes are the same.
proof fn lemma_same_bytes(a: Pubkey, b: Pubkey)
    requires
        a.bytes@ == b.bytes@,
    ensures
        a == b,
{
    assert forall|i: int| 0 <= i < 32 implies a.bytes[i] == b.bytes[i] by {
        assert(a.bytes@[i] == b.bytes@[i]);
    }
    assert(a.bytes =~= b.bytes);
}

/// The makers, by their place in `keys`, whose account was fetched and decoded.
pub open spec fn loaded_makers<B>(
    keys: Seq<Pubkey>,
    accounts: Map<Pubkey, Account>,
    decoded: Seq<Result<B, String>>,
) -> Seq<int> {
    Seq::new(keys.len(), |i: int| i).filter(
        |i: int| accounts.contains_key(keys[i]) && decoded[i] is Ok,
    )
}

/// The books that are loaded are those of the makers whose account was fetched and decoded, no
/// others, and in the order in which the makers are listed.
pub proof fn law_loaded_books<B>(
    keys: Seq<Pubkey>,
    accounts: Map<Pubkey, Account>,
    decoded: Seq<Result<B, String>>,
)
    ensures
        loaded_books(keys, accounts, decoded) == loaded_makers(keys, accounts, decoded).map_values(
            |i: int| (keys[i], decoded[i]->Ok_0),
        ),
        loaded_books(keys, accounts, decoded).len() <= keys.len(),
{
    let places = Seq::new(keys.len(), |i: int| i);
    let loaded = |i: int| accounts.contains_key(keys[i]) && decoded[i] is Ok;
    lemma_loaded_books_up_to(keys, accounts, decoded, keys.len() as int);
    assert(keys.take(keys.len() as int) =~= keys);
    assert(places.take(keys.len() as int) =~= places);
    places.lemma_filter_len(loaded);
}

/// The same of the first `n` makers.
proof fn lemma_loaded_books_up_to<B>(
    keys: Seq<Pubkey>,
    accounts: Map<Pubkey, Account>,
    decoded: Seq<Result<B, String>>,
    n: int,
)
    requires
        0 <= n <= keys.len(),
    ensures
        loaded_books(keys.take(n), accounts, decoded) == Seq::new(keys.len(), |i: int| i).take(
            n,
        ).filter(|i: int| accounts.contains_key(keys[i]) && decoded[i] is Ok).map_values(
            |i: int| (keys[i], decoded[i]->Ok_0),
        ),
    decreases n,
{
    let places = Seq::new(keys.len(), |i: int| i);
    let loaded = |i: int| accounts.contains_key(keys[i]) && decoded[i] is Ok;
    let book = |i: int| (keys[i], decoded[i]->Ok_0);
    reveal(Seq::filter);
    if n == 0 {
        assert(places.take(0).filter(loaded).map_values(book) =~= Seq::<(Pubkey, B)>::empty());
    } else {
        lemma_loaded_books_up_to(keys, accounts, decoded, n - 1);
        assert(keys.take(n).drop_last() =~= keys.take(n - 1));
        assert(places.take(n).drop_last() =~= places.take(n - 1));
        assert(places.take(n).last() == n - 1);
        assert(loaded_books(keys.take(n), accounts, decoded) =~= places.take(n).filter(
            loaded,
        ).map_values(book));
    }
}

/// An update answers with an error exactly where the market's account or the registry was fetched
/// and could not be decoded; the market comes first.
pub proof fn law_when_update_fails<P, B, T>(
    s: AmmState<P, B, T>,
    layout: StateLayout,
    accounts: Map<Pubkey, Account>,
    decoded: Decoded<P, B, T>,
)
    ensures
        ({
            let res = updated(s, layout, accounts, decoded).0;
            let market_fails = accounts.contains_key(s.market_key) && decoded.market is Err;
            let registry_fails = registry_fetched(s, layout, accounts) && decoded.registry is Err;
            &&& market_fails ==> res == Err::<(), AmmError>(
                AmmError::MarketUndecodable(decoded.market->Err_0),
            )
            &&& !market_fails && registry_fails ==> res == Err::<(), AmmError>(
                AmmError::RegistryUndecodable(decoded.registry->Err_0),
            )
            &&& !market_fails && !registry_fails ==> res is Ok
        }),
{
}

/// A failed update keeps the makers and all books. Where the market's account could not be
/// decoded, it keeps everything.
pub proof fn law_failed_update<P, B, T>(
    s: AmmState<P, B, T>,
    layout: StateLayout,
    accounts: Map<Pubkey, Account>,
    decoded: Decoded<P, B, T>,
)
    requires
        updated(s, layout, accounts, decoded).0 is Err,
    ensures
        ({
            let after = updated(s, layout, accounts, decoded).1;
            &&& after.maker_book_keys == s.maker_book_keys
            &&& after.maker_books == s.maker_books
            &&& after.taker_order_book == s.taker_order_book
            &&& updated(s, layout, accounts, decoded).0->Err_0 is MarketUndecodable ==> after == s
        }),
{
}

/// An update never changes which market this is, and never forgets a header.
pub proof fn law_identity<P, B, T>(
    s: AmmState<P, B, T>,
    layout: StateLayout,
    accounts: Map<Pubkey, Account>,
    decoded: Decoded<P, B, T>,
)
    ensures
        ({
            let after = updated(s, layout, accounts, decoded).1;
            &&& after.market_key == s.market_key
            &&& after.registry_key == s.registry_key
            &&& after.taker_book_key == s.taker_book_key
            &&& s.market_header is Some ==> after.market_header is Some
        }),
{
}

/// An update of a valid state leaves a valid state, whatever it answers.
pub proof fn law_update_keeps_valid<P, B, T>(
    s: AmmState<P, B, T>,
    layout: StateLayout,
    accounts: Map<Pubkey, Account>,
    decoded: Decoded<P, B, T>,
)
    requires
        valid(s),
    ensures
        valid(updated(s, layout, accounts, decoded).1),
{
    if updated(s, layout, accounts, decoded).0 is Ok {
        let after = updated(s, layout, accounts, decoded).1;
        lemma_books_of_listed_makers(after.maker_book_keys, accounts, decoded.maker_books);
    }
}

/// The books that are loaded are books of listed makers, in their order.
proof fn lemma_books_of_listed_makers<B>(
    keys: Seq<Pubkey>,
    accounts: Map<Pubkey, Account>,
    decoded: Seq<Result<B, String>>,
)
    ensures
        books_listed(keys, loaded_books(keys, accounts, decoded)),
    decreases keys.len(),
{
    let books = loaded_books(keys, accounts, decoded);
    if keys.len() == 0 {
        assert(picks(Seq::empty(), keys, books));
    } else {
        let shorter = keys.drop_last();
        lemma_books_of_listed_makers(shorter, accounts, decoded);
        let before = loaded_books(shorter, accounts, decoded);
        let places = choose|places: Seq<int>| picks(places, shorter, before);
        if books.len() == before.len() {
            assert(picks(places, keys, books));
        } else {
            assert(picks(places.push(keys.len() - 1), keys, books));
        }
    }
}

/// After a successful update that saw the market, its two mints are the reserve mints, base first,
/// and whether it trades is what its account says.
pub proof fn law_market_loaded<P, B, T>(
    s: AmmState<P, B, T>,
    layout: StateLayout,
    accounts: Map<Pubkey, Account>,
    decoded: Decoded<P, B, T>,
)
    requires
        updated(s, layout, accounts, decoded).0 is Ok,
        accounts.contains_key(s.market_key),
    ensures
        ({
            let after = updated(s, layout, accounts, decoded).1;
            let header = decoded.market->Ok_0;
            &&& reserve_mints(after) == seq![header.base_mint, header.quote_mint]
            &&& reserve_mints(after).len() == 2
            &&& active(after) == header.active
        }),
{
}

/// After a successful update that saw the registry, the accounts to fetch next are the market's
/// own, then every maker of the registry, then the mints: the makers' books that one update
/// discovers, the next one is asked to see.
pub proof fn law_makers_discovered<P, B, T>(
    s: AmmState<P, B, T>,
    layout: StateLayout,
    accounts: Map<Pubkey, Account>,
    decoded: Decoded<P, B, T>,
)
    requires
        updated(s, layout, accounts, decoded).0 is Ok,
        registry_fetched(s, layout, accounts),
    ensures
        ({
            let after = updated(s, layout, accounts, decoded).1;
            let makers = decoded.registry->Ok_0.active();
            &&& accounts_to_update(after) == seq![
                s.market_key,
                s.registry_key,
                s.taker_book_key,
            ] + makers + reserve_mints(after)
            &&& forall|i: int|
                0 <= i < makers.len() ==> accounts_to_update(after).contains(#[trigger] makers[i])
        }),
{
    let after = updated(s, layout, accounts, decoded).1;
    let makers = decoded.registry->Ok_0.active();
    assert forall|i: int| 0 <= i < makers.len() implies accounts_to_update(after).contains(
        #[trigger] makers[i],
    ) by {
        assert(accounts_to_update(after)[i + 3] == makers[i]);
    }
}

/// No book outlives an update: what a successful update leaves does not depend on the books that
/// were held before.
pub proof fn law_books_are_fresh<P, B, T>(
    s: AmmState<P, B, T>,
    maker_books: Seq<(Pubkey, B)>,
    taker_order_book: Option<T>,
    layout: StateLayout,
    accounts: Map<Pubkey, Account>,
    decoded: Decoded<P, B, T>,
)
    requires
        updated(s, layout, accounts, decoded).0 is Ok,
    ensures
        updated(AmmState { maker_books, taker_order_book, ..s }, layout, accounts, decoded)
            == updated(s, layout, accounts, decoded),
{
}

/// Where nothing was fetched an update succeeds, drops all books and keeps everything else.
pub proof fn law_nothing_fetched<P, B, T>(
    s: AmmState<P, B, T>,
    layout: StateLayout,
    decoded: Decoded<P, B, T>,
)
    ensures
        updated(s, layout, Map::empty(), decoded) == (
            Ok::<(), AmmError>(()),
            AmmState { maker_books: Seq::empty(), taker_order_book: None, ..s },
        ),
{
    lemma_no_accounts_no_books(s.maker_book_keys, decoded.maker_books);
}

/// Without accounts no book is loaded.
proof fn lemma_no_accounts_no_books<B>(keys: Seq<Pubkey>, decoded: Seq<Result<B, String>>)
    ensures
        loaded_books(keys, Map::empty(), decoded) == Seq::<(Pubkey, B)>::empty(),
    decreases keys.len(),
{
    if keys.len() > 0 {
        lemma_no_accounts_no_books(keys.drop_last(), decoded);
    }
}

/// An update from the same accounts, decoded the same way, answers and leaves the same the second
/// time; and the decoders may well say the same again.
pub proof fn law_update_is_idempotent<P, B, T, D: StateDecoder<P, B, T>>(
    decoder: D,
    s: AmmState<P, B, T>,
    layout: StateLayout,
    accounts: Map<Pubkey, Account>,
    decoded: Decoded<P, B, T>,
)
    requires
        decoded_by(decoder, s, layout, accounts, decoded),
    ensures
        ({
            let once = updated(s, layout, accounts, decoded);
            &&& updated(once.1, layout, accounts, decoded) == once
            &&& decoded_by(decoder, once.1, layout, accounts, decoded)
        }),
{
    let once = updated(s, layout, accounts, decoded);
    let twice = updated(once.1, layout, accounts, decoded);
    assert(twice.1 =~= once.1);
}

/// `updated` looks at nothing but these accounts and results: two updates of one state are alike
/// where they agree on them.
proof fn lemma_updates_alike<P, B, T>(
    s: AmmState<P, B, T>,
    layout: StateLayout,
    a: Map<Pubkey, Account>,
    x: Decoded<P, B, T>,
    b: Map<Pubkey, Account>,
    y: Decoded<P, B, T>,
)
    requires
        agree_at(a, b, s.market_key),
        agree_at(a, b, s.registry_key),
        agree_at(a, b, s.taker_book_key),
        a.contains_key(s.market_key) ==> same_result(x.market, y.market),
        market_step(s, a, x.market) matches Ok(with_market) ==> {
            &&& with_market.market_header matches Some(header) ==> agree_at(a, b, header.base_mint)
                && agree_at(a, b, header.quote_mint)
            &&& registry_fetched(s, layout, a) ==> same_registry(x.registry, y.registry)
            &&& registry_step(with_market, layout, a, x.registry) matches Ok(with_makers) ==> {
                &&& agree_on(a, b, with_makers.maker_book_keys)
                &&& same_books(with_makers.maker_book_keys, a, x.maker_books, y.maker_books)
                &&& taker_order_book_fetched(s, layout, a) ==> decoded_book(x.taker_order_book)
                    == decoded_book(y.taker_order_book)
            }
        },
    ensures
        same_answer(updated(s, layout, a, x).0, updated(s, layout, b, y).0),
        updated(s, layout, a, x).1 == updated(s, layout, b, y).1,
{
    if updated(s, layout, a, x).0 is Ok {
        let keys = updated(s, layout, a, x).1.maker_book_keys;
        lemma_loaded_books_alike(keys, a, x.maker_books, b, y.maker_books);
    }
    assert(updated(s, layout, a, x).1 =~= updated(s, layout, b, y).1);
}

/// The results for each of `keys` that was fetched stand for the same book.
spec fn same_books<B>(
    keys: Seq<Pubkey>,
    accounts: Map<Pubkey, Account>,
    x: Seq<Result<B, String>>,
    y: Seq<Result<B, String>>,
) -> bool {
    forall|i: int|
        0 <= i < keys.len() && accounts.contains_key(#[trigger] keys[i]) ==> decoded_book(x[i])
            == decoded_book(y[i])
}

/// The books that are loaded follow from the makers' accounts.
proof fn lemma_loaded_books_alike<B>(
    keys: Seq<Pubkey>,
    a: Map<Pubkey, Account>,
    x: Seq<Result<B, String>>,
    b: Map<Pubkey, Account>,
    y: Seq<Result<B, String>>,
)
    requires
        agree_on(a, b, keys),
        same_books(keys, a, x, y),
    ensures
        loaded_books(keys, a, x) == loaded_books(keys, b, y),
    decreases keys.len(),
{
    if keys.len() > 0 {
        let shorter = keys.drop_last();
        assert forall|i: int| 0 <= i < shorter.len() implies agree_at(a, b, #[trigger] shorter[i]) by {
            assert(shorter[i] == keys[i]);
        }
        assert forall|i: int|
            0 <= i < shorter.len() && a.contains_key(#[trigger] shorter[i]) implies decoded_book(
            x[i],
        ) == decoded_book(y[i]) by {
            assert(shorter[i] == keys[i]);
        }
        lemma_loaded_books_alike(shorter, a, x, b, y);
        assert(agree_at(a, b, keys[keys.len() - 1]));
    }
}

/// What repeating decoders said of accounts that hold the same is alike.
proof fn lemma_outcomes_alike<P, B, T, D: StateDecoder<P, B, T>>(
    decoder: D,
    s: AmmState<P, B, T>,
    layout: StateLayout,
    a: Map<Pubkey, Account>,
    x: Decoded<P, B, T>,
    b: Map<Pubkey, Account>,
    y: Decoded<P, B, T>,
)
    requires
        decoder_repeats::<P, B, T, D>(decoder),
        decoded_by(decoder, s, layout, a, x),
        decoded_by(decoder, s, layout, b, y),
        agree_at(a, b, s.market_key),
        agree_at(a, b, s.registry_key),
        agree_at(a, b, s.taker_book_key),
        market_step(s, a, x.market) matches Ok(with_market) ==> {
            &&& with_market.market_header matches Some(header) ==> agree_at(a, b, header.base_mint)
                && agree_at(a, b, header.quote_mint)
            &&& registry_step(with_market, layout, a, x.registry) matches Ok(with_makers)
                ==> agree_on(a, b, with_makers.maker_book_keys)
        },
    ensures
        same_answer(updated(s, layout, a, x).0, updated(s, layout, b, y).0),
        updated(s, layout, a, x).1 == updated(s, layout, b, y).1,
{
    if let Ok(with_market) = market_step(s, a, x.market) {
        if let Ok(with_makers) = registry_step(with_market, layout, a, x.registry) {
            let keys = with_makers.maker_book_keys;
            assert forall|i: int|
                0 <= i < keys.len() && a.contains_key(#[trigger] keys[i]) implies decoded_book(
                x.maker_books[i],
            ) == decoded_book(y.maker_books[i]) by {
                assert(agree_at(a, b, keys[i]));
                assert(call_ensures(
                    D::deserialize_maker_book,
                    (&decoder, &a[keys[i]].data),
                    x.maker_books[i],
                ));
                assert(call_ensures(
                    D::deserialize_maker_book,
                    (&decoder, &b[keys[i]].data),
                    y.maker_books[i],
                ));
            }
        }
    }
    lemma_updates_alike(s, layout, a, x, b, y);
}

/// An update follows from the state and the accounts. This asks for decoders that repeat
/// themselves.
pub proof fn law_update_repeats<P, B, T, D: StateDecoder<P, B, T>>(
    decoder: D,
    s: AmmState<P, B, T>,
    layout: StateLayout,
    accounts: Map<Pubkey, Account>,
    res1: Result<(), AmmError>,
    after1: AmmState<P, B, T>,
    res2: Result<(), AmmError>,
    after2: AmmState<P, B, T>,
)
    requires
        decoder_repeats::<P, B, T, D>(decoder),
        update_outcome(decoder, s, layout, accounts, res1, after1),
        update_outcome(decoder, s, layout, accounts, res2, after2),
    ensures
        same_answer(res1, res2),
        after1 == after2,
{
    let x = choose|x: Decoded<P, B, T>| #[trigger]
        decoded_by(decoder, s, layout, accounts, x) && (res1, after1) == updated(
            s,
            layout,
            accounts,
            x,
        );
    let y = choose|y: Decoded<P, B, T>| #[trigger]
        decoded_by(decoder, s, layout, accounts, y) && (res2, after2) == updated(
            s,
            layout,
            accounts,
            y,
        );
    lemma_outcomes_alike(decoder, s, layout, accounts, x, accounts, y);
}

/// A second update from the same accounts answers the same and changes nothing. This asks for
/// decoders that repeat themselves.
pub proof fn law_second_update_changes_nothing<P, B, T, D: StateDecoder<P, B, T>>(
    decoder: D,
    s: AmmState<P, B, T>,
    layout: StateLayout,
    accounts: Map<Pubkey, Account>,
    res1: Result<(), AmmError>,
    after1: AmmState<P, B, T>,
    res2: Result<(), AmmError>,
    after2: AmmState<P, B, T>,
)
    requires
        decoder_repeats::<P, B, T, D>(decoder),
        update_outcome(decoder, s, layout, accounts, res1, after1),
        update_outcome(decoder, after1, layout, accounts, res2, after2),
    ensures
        same_answer(res1, res2),
        after2 == after1,
{
    let x = choose|x: Decoded<P, B, T>| #[trigger]
        decoded_by(decoder, s, layout, accounts, x) && (res1, after1) == updated(
            s,
            layout,
            accounts,
            x,
        );
    law_update_is_idempotent(decoder, s, layout, accounts, x);
    assert(update_outcome(decoder, after1, layout, accounts, res1, after1));
    law_update_repeats(decoder, after1, layout, accounts, res1, after1, res2, after2);
}

/// An update needs only the accounts that it asked for. Where the header is known, the market (if
/// it was fetched) still has the same two mints and the registry (if it was fetched) still lists
/// the same makers, what is fetched beside them makes no difference.
pub proof fn law_update_reads_what_it_asked_for<P, B, T>(
    s: AmmState<P, B, T>,
    layout: StateLayout,
    a: Map<Pubkey, Account>,
    b: Map<Pubkey, Account>,
    decoded: Decoded<P, B, T>,
)
    requires
        s.market_header is Some,
        a.contains_key(s.market_key) ==> (decoded.market matches Ok(header) ==> same_mints(
            s,
            header,
        )),
        registry_fetched(s, layout, a) ==> (decoded.registry matches Ok(registry)
            ==> registry.active() == s.maker_book_keys),
        agree_on(a, b, accounts_to_update(s)),
    ensures
        updated(s, layout, a, decoded) == updated(s, layout, b, decoded),
{
    lemma_agree_on_what_is_asked_for(s, a, b);
    lemma_updates_alike(s, layout, a, decoded, b, decoded);
}

/// `header` has the two mints that `s` knows.
pub open spec fn same_mints<P, B, T>(s: AmmState<P, B, T>, header: MarketStateHeader<P>) -> bool {
    reserve_mints(s) == seq![header.base_mint, header.quote_mint]
}

/// The accounts that are asked for are the market's own, the makers' and the mints'.
proof fn lemma_agree_on_what_is_asked_for<P, B, T>(
    s: AmmState<P, B, T>,
    a: Map<Pubkey, Account>,
    b: Map<Pubkey, Account>,
)
    requires
        s.market_header is Some,
        agree_on(a, b, accounts_to_update(s)),
    ensures
        agree_at(a, b, s.market_key),
        agree_at(a, b, s.registry_key),
        agree_at(a, b, s.taker_book_key),
        agree_on(a, b, s.maker_book_keys),
        agree_at(a, b, reserve_mints(s)[0]),
        agree_at(a, b, reserve_mints(s)[1]),
{
    let keys = accounts_to_update(s);
    let n = s.maker_book_keys.len() as int;
    assert(keys[0] == s.market_key);
    assert(keys[1] == s.registry_key);
    assert(keys[2] == s.taker_book_key);
    assert forall|i: int| 0 <= i < n implies agree_at(a, b, #[trigger] s.maker_book_keys[i]) by {
        assert(keys[i + 3] == s.maker_book_keys[i]);
    }
    assert(keys[n + 3] == reserve_mints(s)[0]);
    assert(keys[n + 4] == reserve_mints(s)[1]);
}

/// To fetch just the accounts that are asked for is enough for a full refresh: the outcome is that
/// of any larger fetch which agrees on them. This asks for decoders that repeat themselves, and,
/// of the market and the registry that were fetched, for the same two mints and the same makers.
pub proof fn law_asked_for_is_enough<P, B, T, D: StateDecoder<P, B, T>>(
    decoder: D,
    s: AmmState<P, B, T>,
    layout: StateLayout,
    a: Map<Pubkey, Account>,
    b: Map<Pubkey, Account>,
    res_a: Result<(), AmmError>,
    after_a: AmmState<P, B, T>,
    res_b: Result<(), AmmError>,
    after_b: AmmState<P, B, T>,
)
    requires
        decoder_repeats::<P, B, T, D>(decoder),
        s.market_header is Some,
        a.contains_key(s.market_key) ==> forall|header: MarketStateHeader<P>| #[trigger]
            call_ensures(
                D::deserialize_market_header,
                (&decoder, &a[s.market_key].data),
                Ok::<MarketStateHeader<P>, String>(header),
            ) ==> same_mints(s, header),
        registry_fetched(s, layout, a) ==> forall|registry: MakerRegistry| #[trigger]
            call_ensures(
                D::deserialize_registry,
                (&decoder, &a[s.registry_key].data),
                Ok::<MakerRegistry, String>(registry),
            ) ==> registry.active() == s.maker_book_keys,
        agree_on(a, b, accounts_to_update(s)),
        update_outcome(decoder, s, layout, a, res_a, after_a),
        update_outcome(decoder, s, layout, b, res_b, after_b),
    ensures
        same_answer(res_a, res_b),
        after_a == after_b,
{
    let x = choose|x: Decoded<P, B, T>| #[trigger]
        decoded_by(decoder, s, layout, a, x) && (res_a, after_a) == updated(s, layout, a, x);
    let y = choose|y: Decoded<P, B, T>| #[trigger]
        decoded_by(decoder, s, layout, b, y) && (res_b, after_b) == updated(s, layout, b, y);
    lemma_agree_on_what_is_asked_for(s, a, b);
    lemma_outcomes_alike(decoder, s, layout, a, x, b, y);
}

/// An active market stays active through an update that does not see its account, or sees one that
/// decodes, if at all, to an active header.
pub proof fn law_stays_active<P, B, T, D: StateDecoder<P, B, T>>(
    decoder: D,
    s: AmmState<P, B, T>,
    layout: StateLayout,
    accounts: Map<Pubkey, Account>,
    res: Result<(), AmmError>,
    after: AmmState<P, B, T>,
)
    requires
        active(s),
        accounts.contains_key(s.market_key) ==> forall|header: MarketStateHeader<P>| #[trigger]
            call_ensures(
                D::deserialize_market_header,
                (&decoder, &accounts[s.market_key].data),
                Ok::<MarketStateHeader<P>, String>(header),
            ) ==> header.active,
        update_outcome(decoder, s, layout, accounts, res, after),
    ensures
        active(after),
{
}

/// A market that an update has found active stays active through any number of further updates,
/// whatever they answer, that see the same account of the market or none. `states` are the states
/// after the first update and after each further one. This asks for decoders that repeat
/// themselves.
pub proof fn law_activity_lasts<P, B, T, D: StateDecoder<P, B, T>>(
    decoder: D,
    s: AmmState<P, B, T>,
    layout: StateLayout,
    first: Map<Pubkey, Account>,
    further: Seq<Map<Pubkey, Account>>,
    answers: Seq<Result<(), AmmError>>,
    states: Seq<AmmState<P, B, T>>,
)
    requires
        decoder_repeats::<P, B, T, D>(decoder),
        first.contains_key(s.market_key),
        states.len() == further.len() + 1,
        update_outcome(decoder, s, layout, first, Ok(()), states[0]),
        active(states[0]),
        forall|i: int|
            0 <= i < further.len() ==> {
                &&& (#[trigger] further[i]).contains_key(s.market_key)
                    ==> further[i][s.market_key].data@ == first[s.market_key].data@
                &&& update_outcome(
                    decoder,
                    states[i],
                    layout,
                    further[i],
                    answers[i],
                    states[i + 1],
                )
            },
    ensures
        forall|i: int| 0 <= i < states.len() ==> active(#[trigger] states[i]),
{
    assert forall|i: int| 0 <= i < states.len() implies active(#[trigger] states[i]) by {
        lemma_active_after(decoder, s, layout, first, further, answers, states, i);
    }
}

/// The same of the state after `n` further updates; it is still the same market.
proof fn lemma_active_after<P, B, T, D: StateDecoder<P, B, T>>(
    decoder: D,
    s: AmmState<P, B, T>,
    layout: StateLayout,
    first: Map<Pubkey, Account>,
    further: Seq<Map<Pubkey, Account>>,
    answers: Seq<Result<(), AmmError>>,
    states: Seq<AmmState<P, B, T>>,
    n: int,
)
    requires
        decoder_repeats::<P, B, T, D>(decoder),
        first.contains_key(s.market_key),
        states.len() == further.len() + 1,
        update_outcome(decoder, s, layout, first, Ok(()), states[0]),
        active(states[0]),
        forall|i: int|
            0 <= i < further.len() ==> {
                &&& (#[trigger] further[i]).contains_key(s.market_key)
                    ==> further[i][s.market_key].data@ == first[s.market_key].data@
                &&& update_outcome(
                    decoder,
                    states[i],
                    layout,
                    further[i],
                    answers[i],
                    states[i + 1],
                )
            },
        0 <= n < states.len(),
    ensures
        active(states[n]),
        states[n].market_key == s.market_key,
    decreases n,
{
    let x = choose|x: Decoded<P, B, T>| #[trigger]
        decoded_by(decoder, s, layout, first, x) && (Ok::<(), AmmError>(()), states[0]) == updated(
            s,
            layout,
            first,
            x,
        );
    if n > 0 {
        lemma_active_after(decoder, s, layout, first, further, answers, states, n - 1);
        let before = states[n - 1];
        let accounts = further[n - 1];
        assert(update_outcome(decoder, before, layout, accounts, answers[n - 1], states[n]));
        if accounts.contains_key(s.market_key) {
            assert forall|header: MarketStateHeader<P>| #[trigger]
                call_ensures(
                    D::deserialize_market_header,
                    (&decoder, &accounts[before.market_key].data),
                    Ok::<MarketStateHeader<P>, String>(header),
                ) implies header.active by {
                assert(same_result(x.market, Ok::<MarketStateHeader<P>, String>(header)));
            }
        }
        law_stays_active(decoder, before, layout, accounts, answers[n - 1], states[n]);
    }
}

/// A market gives no quotes exactly while it is not active.
pub proof fn law_quotes_while_active<P, B, T>(s: AmmState<P, B, T>, params: QuoteParams)
    ensures
        quote_side(s, params) is Ok <==> active(s),
{
}

/// An active market quotes both ways: paying with the second reserve mint buys the base token, and
/// paying with the first sells it. This asks for two different mints.
pub proof fn law_both_directions<P, B, T>(s: AmmState<P, B, T>, params: QuoteParams)
    requires
        active(s),
        reserve_mints(s)[0] != reserve_mints(s)[1],
    ensures
        quote_side(s, (QuoteParams { input_mint: reserve_mints(s)[1], ..params })) == Ok::<
            bool,
            AmmError,
        >(true),
        quote_side(s, (QuoteParams { input_mint: reserve_mints(s)[0], ..params })) == Ok::<
            bool,
            AmmError,
        >(false),
{
}

/// A quote follows from the header, the books that are held, the amount and the input mint. The
/// market's addresses, the list of makers, the token programs, the output mint and the mode have
/// no part in it. This asks for an engine that repeats itself.
pub proof fn law_quote_repeats<P, B, T, E: QuoteEngine<P, B, T>>(
    engine: E,
    a: ArcherAmm<P, B, T>,
    b: ArcherAmm<P, B, T>,
    p: QuoteParams,
    q: QuoteParams,
    res_a: Result<Quote, AmmError>,
    res_b: Result<Quote, AmmError>,
)
    requires
        engine_repeats::<P, B, T, E>(engine),
        a@.market_header == b@.market_header,
        a@.maker_books == b@.maker_books,
        a@.taker_order_book == b@.taker_order_book,
        p.amount == q.amount,
        p.input_mint == q.input_mint,
        quote_outcome(engine, a, p, res_a),
        quote_outcome(engine, b, q, res_b),
    ensures
        same_answer(res_a, res_b),
{
    if let Ok(is_buy) = quote_side(a@, p) {
        lemma_quotes_alike(engine, a, b, p.amount, is_buy, res_a, res_b);
    }
}

/// Every mint but the quote mint is quoted as the base mint is, as a sale, and none is refused.
/// This asks for an engine that repeats itself.
pub proof fn law_every_other_mint_sells<P, B, T, E: QuoteEngine<P, B, T>>(
    engine: E,
    amm: ArcherAmm<P, B, T>,
    header: MarketStateHeader<P>,
    p: QuoteParams,
    res_p: Result<Quote, AmmError>,
    res_base: Result<Quote, AmmError>,
)
    requires
        engine_repeats::<P, B, T, E>(engine),
        amm@.market_header == Some(header),
        header.base_mint != header.quote_mint,
        p.input_mint != header.quote_mint,
        quote_outcome(engine, amm, p, res_p),
        quote_outcome(
            engine,
            amm,
            (QuoteParams { input_mint: header.base_mint, ..p }),
            res_base,
        ),
    ensures
        same_answer(res_p, res_base),
{
    if let Ok(is_buy) = quote_side(amm@, p) {
        lemma_quotes_alike(engine, amm, amm, p.amount, is_buy, res_p, res_base);
    }
}

/// Two answers to the same question are alike.
proof fn lemma_quotes_alike<P, B, T, E: QuoteEngine<P, B, T>>(
    engine: E,
    a: ArcherAmm<P, B, T>,
    b: ArcherAmm<P, B, T>,
    amount: u64,
    is_buy: bool,
    res_a: Result<Quote, AmmError>,
    res_b: Result<Quote, AmmError>,
)
    requires
        engine_repeats::<P, B, T, E>(engine),
        a@.market_header == b@.market_header,
        a@.maker_books == b@.maker_books,
        a@.taker_order_book == b@.taker_order_book,
        exists|o: Result<QuoteOutput, String>| #[trigger]
            quoted_by(engine, a, amount, is_buy, o) && res_a == crate::quote::quote_reply(amount, o),
        exists|o: Result<QuoteOutput, String>| #[trigger]
            quoted_by(engine, b, amount, is_buy, o) && res_b == crate::quote::quote_reply(amount, o),
    ensures
        same_answer(res_a, res_b),
{
    let x = choose|o: Result<QuoteOutput, String>| #[trigger]
        quoted_by(engine, a, amount, is_buy, o) && res_a == crate::quote::quote_reply(amount, o);
    let y = choose|o: Result<QuoteOutput, String>| #[trigger]
        quoted_by(engine, b, amount, is_buy, o) && res_b == crate::quote::quote_reply(amount, o);
    assert(same_result(x, y));
}

/// The number of accounts that is announced is the number that a swap lists.
pub proof fn law_accounts_len<P, B, T>(
    s: AmmState<P, B, T>,
    header: MarketStateHeader<P>,
    params: SwapParams,
)
    ensures
        swap_accounts(s, header, params).len() == accounts_len(s),
{
}

/// Of the accounts of a swap the authority alone signs; it comes first and is not written to.
pub proof fn law_authority_alone_signs<P, B, T>(
    s: AmmState<P, B, T>,
    header: MarketStateHeader<P>,
    params: SwapParams,
)
    ensures
        ({
            let metas = swap_accounts(s, header, params);
            &&& metas[0] == crate::account::readonly(params.token_transfer_authority, true)
            &&& forall|i: int| 0 < i < metas.len() ==> !(#[trigger] metas[i]).is_signer
        }),
{
}

/// The books that are held are the last accounts of a swap, in order and writable.
pub proof fn law_swap_lists_books<P, B, T>(
    s: AmmState<P, B, T>,
    header: MarketStateHeader<P>,
    params: SwapParams,
)
    ensures
        ({
            let metas = swap_accounts(s, header, params);
            forall|j: int|
                0 <= j < s.maker_books.len() ==> metas[metas.len() - s.maker_books.len() + j]
                    == crate::account::writable((#[trigger] s.maker_books[j]).0, false)
        }),
{
}

/// A swap back lists the same accounts: whichever way it goes, the taker's base account stands
/// before its quote account.
pub proof fn law_swap_back<P, B, T>(
    s: AmmState<P, B, T>,
    header: MarketStateHeader<P>,
    buy: SwapParams,
    sale: SwapParams,
)
    requires
        buy.source_mint == header.quote_mint,
        sale.source_mint != header.quote_mint,
        sale.source_token_account == buy.destination_token_account,
        sale.destination_token_account == buy.source_token_account,
        sale.token_transfer_authority == buy.token_transfer_authority,
    ensures
        swap_accounts(s, header, buy) == swap_accounts(s, header, sale),
{
}

/// A swap takes in whole lots: as many as fit in the amount, and no more. It fails, on a known
/// market, exactly where the lot that it pays in has no size.
pub proof fn law_whole_lots<P, B, T>(
    s: AmmState<P, B, T>,
    header: MarketStateHeader<P>,
    params: SwapParams,
)
    requires
        s.market_header == Some(header),
    ensures
        ({
            let lot = if params.source_mint == header.quote_mint {
                header.quote_atoms_per_quote_lot
            } else {
                header.base_atoms_per_base_lot
            };
            &&& swap_lots(s, params) is Ok <==> lot > 0
            &&& swap_lots(s, params) matches Ok(lots) ==> lots * lot <= params.in_amount < (lots
                + 1) * lot
        }),
{
    let lot = if params.source_mint == header.quote_mint {
        header.quote_atoms_per_quote_lot
    } else {
        header.base_atoms_per_base_lot
    };
    if lot > 0 {
        let amount = params.in_amount as int;
        vstd::arithmetic::div_mod::lemma_fundamental_div_mod(amount, lot as int);
        vstd::arithmetic::mul::lemma_mul_is_distributive_add(lot as int, amount / lot as int, 1);
        vstd::arithmetic::mul::lemma_mul_is_commutative(lot as int, amount / lot as int);
        vstd::arithmetic::mul::lemma_mul_is_commutative(lot as int, amount / lot as int + 1);
    }
}

/// The payload tells which swap it is: the lots and the side can be read back from it.
pub proof fn law_payload_is_injective(lots1: u64, is_buy1: bool, lots2: u64, is_buy2: bool)
    requires
        crate::swap::swap_payload(lots1, is_buy1) == crate::swap::swap_payload(lots2, is_buy2),
    ensures
        lots1 == lots2,
        is_buy1 == is_buy2,
{
    let a = crate::swap::swap_payload(lots1, is_buy1);
    let b = crate::swap::swap_payload(lots2, is_buy2);
    assert(a[17] == b[17]);
    assert forall|i: int| 0 <= i < 8 implies crate::swap::le_bytes(lots1)[i]
        == crate::swap::le_bytes(lots2)[i] by {
        assert(a[i + 1] == b[i + 1]);
    }
    assert(crate::swap::le_bytes(lots1) =~= crate::swap::le_bytes(lots2));
    crate::swap::lemma_le_bytes_injective(lots1, lots2);
}

/// A clone equals the market maker that it was made from where clones of its parts equal them.
pub proof fn law_clone_is_equal<P: Clone, B: Clone, T: Clone>(
    a: AmmState<P, B, T>,
    b: AmmState<P, B, T>,
)
    requires
        amm_cloned(a, b),
        clones_equal::<P>(),
        clones_equal::<B>(),
        clones_equal::<T>(),
    ensures
        b == a,
{
    assert forall|i: int| 0 <= i < a.maker_books.len() implies b.maker_books[i]
        == a.maker_books[i] by {
        assert(cloned(a.maker_books[i].1, b.maker_books[i].1));
    }
    assert(b.maker_books =~= a.maker_books);
    assert(b =~= a);
}

/// A clone quotes as the market maker that it was made from, where clones of its parts equal them
/// and the engine repeats itself.
pub proof fn law_clone_quotes_alike<
    P: Clone,
    B: Clone,
    T: Clone,
    E: QuoteEngine<P, B, T>,
>(
    engine: E,
    a: ArcherAmm<P, B, T>,
    b: ArcherAmm<P, B, T>,
    params: QuoteParams,
    res_a: Result<Quote, AmmError>,
    res_b: Result<Quote, AmmError>,
)
    requires
        amm_cloned(a@, b@),
        clones_equal::<P>(),
        clones_equal::<B>(),
        clones_equal::<T>(),
        engine_repeats::<P, B, T, E>(engine),
        quote_outcome(engine, a, params, res_a),
        quote_outcome(engine, b, params, res_b),
    ensures
        same_answer(res_a, res_b),
{
    law_clone_is_equal(a@, b@);
    law_quote_repeats(engine, a, b, params, params, res_a, res_b);
}

/// However its parts clone, a clone names the same accounts, directions, lots and refusals as the
/// market maker that it was made from.
pub proof fn law_clone_decides_alike<P: Clone, B: Clone, T: Clone>(
    a: AmmState<P, B, T>,
    b: AmmState<P, B, T>,
    quote: QuoteParams,
    swap: SwapParams,
)
    requires
        amm_cloned(a, b),
    ensures
        reserve_mints(b) == reserve_mints(a),
        accounts_to_update(b) == accounts_to_update(a),
        active(b) == active(a),
        accounts_len(b) == accounts_len(a),
        quote_side(b, quote) == quote_side(a, quote),
        swap_lots(b, swap) == swap_lots(a, swap),
        a.market_header is Some ==> swap_accounts(b, b.market_header->0, swap) == swap_accounts(
            a,
            a.market_header->0,
            swap,
        ),
{
    if a.market_header is Some {
        assert(swap_accounts(b, b.market_header->0, swap) =~= swap_accounts(
            a,
            a.market_header->0,
            swap,
        ));
    }
}

} // verus!
