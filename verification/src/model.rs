//! What the market maker's state is, and what follows from it.
use crate::account::{Account, AccountMeta};
use crate::error::AmmError;
use crate::pubkey::{Pubkey, INSTRUCTIONS_SYSVAR_ID, SPL_TOKEN_PROGRAM, TOKEN_2022_PROGRAM};
use crate::quote::QuoteParams;
use crate::state::{MakerRegistry, MarketStateHeader, StateDecoder, StateLayout};
use crate::swap::SwapParams;
use vstd::prelude::*;

verus! {

/// The state of the market maker of one market.
#[verifier::ext_equal]
pub struct AmmState<P, B, T> {
    pub market_key: Pubkey,
    pub registry_key: Pubkey,
    pub taker_book_key: Pubkey,
    pub market_header: Option<MarketStateHeader<P>>,
    pub maker_book_keys: Seq<Pubkey>,
    pub maker_books: Seq<(Pubkey, B)>,
    pub taker_order_book: Option<T>,
    pub base_token_program: Pubkey,
    pub quote_token_program: Pubkey,
}

/// What the decoders returned during one update: one result for each maker's key, in the order of
/// the keys. A result that was not asked for has no meaning.
#[verifier::ext_equal]
pub struct Decoded<P, B, T> {
    pub market: Result<MarketStateHeader<P>, String>,
    pub registry: Result<MakerRegistry, String>,
    pub maker_books: Seq<Result<B, String>>,
    pub taker_order_book: Result<T, String>,
}

/// Nothing is known of the market but its accounts' addresses.
pub open spec fn initial_state<P, B, T>(
    market_key: Pubkey,
    registry_key: Pubkey,
    taker_book_key: Pubkey,
) -> AmmState<P, B, T> {
    AmmState {
        market_key,
        registry_key,
        taker_book_key,
        market_header: None,
        maker_book_keys: Seq::empty(),
        maker_books: Seq::empty(),
        taker_order_book: None,
        base_token_program: Pubkey { bytes: SPL_TOKEN_PROGRAM },
        quote_token_program: Pubkey { bytes: SPL_TOKEN_PROGRAM },
    }
}

/// What an update never loses: both token programs are token programs, and the books that are held
/// are those of some of the market's makers, in the makers' order.
pub open spec fn valid<P, B, T>(s: AmmState<P, B, T>) -> bool {
    &&& is_token_program(s.base_token_program)
    &&& is_token_program(s.quote_token_program)
    &&& books_listed(s.maker_book_keys, s.maker_books)
}

/// `places` picks from `keys`, from left to right, the key of each of `books`.
pub open spec fn picks<B>(places: Seq<int>, keys: Seq<Pubkey>, books: Seq<(Pubkey, B)>) -> bool {
    &&& places.len() == books.len()
    &&& forall|j: int|
        0 <= j < places.len() ==> 0 <= #[trigger] places[j] < keys.len() && keys[places[j]]
            == books[j].0
    &&& forall|i: int, j: int|
        0 <= i < j < places.len() ==> #[trigger] places[i] < #[trigger] places[j]
}

/// The keys of `books` are a subsequence of `keys`.
pub open spec fn books_listed<B>(keys: Seq<Pubkey>, books: Seq<(Pubkey, B)>) -> bool {
    exists|places: Seq<int>| picks(places, keys, books)
}

/// One of the two token programs.
pub open spec fn is_token_program(program: Pubkey) -> bool {
    program.bytes == SPL_TOKEN_PROGRAM || program.bytes == TOKEN_2022_PROGRAM
}

/// A result of decoding the market's account is taken over.
pub open spec fn market_set<P, B, T>(
    s: AmmState<P, B, T>,
    decoded: Result<MarketStateHeader<P>, String>,
) -> Result<AmmState<P, B, T>, AmmError> {
    match decoded {
        Ok(header) => Ok(AmmState { market_header: Some(header), ..s }),
        Err(e) => Err(AmmError::MarketUndecodable(e)),
    }
}

/// First step of an update: the header, where the market's account was fetched.
pub open spec fn market_step<P, B, T>(
    s: AmmState<P, B, T>,
    accounts: Map<Pubkey, Account>,
    decoded: Result<MarketStateHeader<P>, String>,
) -> Result<AmmState<P, B, T>, AmmError> {
    if accounts.contains_key(s.market_key) {
        market_set(s, decoded)
    } else {
        Ok(s)
    }
}

/// The token program of `mint`, or what it was where the mint was not fetched.
pub open spec fn mint_program(
    accounts: Map<Pubkey, Account>,
    mint: Pubkey,
    before: Pubkey,
) -> Pubkey {
    if accounts.contains_key(mint) {
        crate::state::token_program(accounts[mint].data@.len())
    } else {
        before
    }
}

/// Second step: the token programs of the two mints, once they are known.
pub open spec fn token_programs_step<P, B, T>(
    s: AmmState<P, B, T>,
    accounts: Map<Pubkey, Account>,
) -> AmmState<P, B, T> {
    match s.market_header {
        Some(header) => AmmState {
            base_token_program: mint_program(accounts, header.base_mint, s.base_token_program),
            quote_token_program: mint_program(accounts, header.quote_mint, s.quote_token_program),
            ..s
        },
        None => s,
    }
}

/// A result of decoding the registry is taken over.
pub open spec fn registry_set<P, B, T>(
    s: AmmState<P, B, T>,
    decoded: Result<MakerRegistry, String>,
) -> Result<AmmState<P, B, T>, AmmError> {
    match decoded {
        Ok(registry) => Ok(AmmState { maker_book_keys: registry.active(), ..s }),
        Err(e) => Err(AmmError::RegistryUndecodable(e)),
    }
}

/// The registry's account was fetched and is a registry.
pub open spec fn registry_fetched<P, B, T>(
    s: AmmState<P, B, T>,
    layout: StateLayout,
    accounts: Map<Pubkey, Account>,
) -> bool {
    &&& accounts.contains_key(s.registry_key)
    &&& crate::state::is_registry(layout, accounts[s.registry_key].data@)
}

/// Third step: the makers, where there is a registry to read them from.
pub open spec fn registry_step<P, B, T>(
    s: AmmState<P, B, T>,
    layout: StateLayout,
    accounts: Map<Pubkey, Account>,
    decoded: Result<MakerRegistry, String>,
) -> Result<AmmState<P, B, T>, AmmError> {
    if registry_fetched(s, layout, accounts) {
        registry_set(s, decoded)
    } else {
        Ok(s)
    }
}

/// `books`, with the book of `key` behind them if it could be decoded.
pub open spec fn book_added<B>(
    books: Seq<(Pubkey, B)>,
    key: Pubkey,
    decoded: Result<B, String>,
) -> Seq<(Pubkey, B)> {
    match decoded {
        Ok(book) => books.push((key, book)),
        Err(_) => books,
    }
}

/// The books of those makers whose account was fetched and decoded, in the order of `keys`.
pub open spec fn loaded_books<B>(
    keys: Seq<Pubkey>,
    accounts: Map<Pubkey, Account>,
    decoded: Seq<Result<B, String>>,
) -> Seq<(Pubkey, B)>
    decreases keys.len(),
{
    if keys.len() == 0 {
        Seq::empty()
    } else {
        let before = loaded_books(keys.drop_last(), accounts, decoded);
        if accounts.contains_key(keys.last()) {
            book_added(before, keys.last(), decoded[keys.len() - 1])
        } else {
            before
        }
    }
}

/// Of the results only those of `keys` count.
pub proof fn lemma_loaded_books_prefix<B>(
    keys: Seq<Pubkey>,
    accounts: Map<Pubkey, Account>,
    decoded: Seq<Result<B, String>>,
    longer: Seq<Result<B, String>>,
)
    requires
        keys.len() <= decoded.len() <= longer.len(),
        forall|i: int| 0 <= i < decoded.len() ==> decoded[i] == longer[i],
    ensures
        loaded_books(keys, accounts, decoded) == loaded_books(keys, accounts, longer),
    decreases keys.len(),
{
    if keys.len() > 0 {
        lemma_loaded_books_prefix(keys.drop_last(), accounts, decoded, longer);
    }
}

/// Fourth step: the makers' books, all anew.
pub open spec fn maker_books_step<P, B, T>(
    s: AmmState<P, B, T>,
    accounts: Map<Pubkey, Account>,
    decoded: Seq<Result<B, String>>,
) -> AmmState<P, B, T> {
    AmmState { maker_books: loaded_books(s.maker_book_keys, accounts, decoded), ..s }
}

/// The book that a result of decoding stands for.
pub open spec fn decoded_book<T>(decoded: Result<T, String>) -> Option<T> {
    match decoded {
        Ok(book) => Some(book),
        Err(_) => None,
    }
}

/// The taker order book's account was fetched and is one.
pub open spec fn taker_order_book_fetched<P, B, T>(
    s: AmmState<P, B, T>,
    layout: StateLayout,
    accounts: Map<Pubkey, Account>,
) -> bool {
    &&& accounts.contains_key(s.taker_book_key)
    &&& crate::state::is_taker_order_book(layout, accounts[s.taker_book_key].data@)
}

/// Last step: the taker order book, anew.
pub open spec fn taker_order_book_step<P, B, T>(
    s: AmmState<P, B, T>,
    layout: StateLayout,
    accounts: Map<Pubkey, Account>,
    decoded: Result<T, String>,
) -> AmmState<P, B, T> {
    AmmState {
        taker_order_book: if taker_order_book_fetched(s, layout, accounts) {
            decoded_book(decoded)
        } else {
            None
        },
        ..s
    }
}

/// What an update from `accounts` answers and leaves, for what the decoders returned. A market
/// that cannot be decoded stops it before anything changes; a registry that cannot be decoded
/// stops it after the header and the token programs.
pub open spec fn updated<P, B, T>(
    s: AmmState<P, B, T>,
    layout: StateLayout,
    accounts: Map<Pubkey, Account>,
    decoded: Decoded<P, B, T>,
) -> (Result<(), AmmError>, AmmState<P, B, T>) {
    match market_step(s, accounts, decoded.market) {
        Err(e) => (Err(e), s),
        Ok(with_market) => {
            let with_programs = token_programs_step(with_market, accounts);
            match registry_step(with_programs, layout, accounts, decoded.registry) {
                Err(e) => (Err(e), with_programs),
                Ok(with_makers) => (
                    Ok(()),
                    taker_order_book_step(
                        maker_books_step(with_makers, accounts, decoded.maker_books),
                        layout,
                        accounts,
                        decoded.taker_order_book,
                    ),
                ),
            }
        },
    }
}

/// `decoded` holds a result of `decoder` for the account of each of `keys` that was fetched.
pub open spec fn books_decoded<P, B, T, D: StateDecoder<P, B, T>>(
    decoder: D,
    keys: Seq<Pubkey>,
    accounts: Map<Pubkey, Account>,
    decoded: Seq<Result<B, String>>,
) -> bool {
    &&& decoded.len() == keys.len()
    &&& forall|i: int|
        0 <= i < keys.len() && accounts.contains_key(keys[i]) ==> call_ensures(
            D::deserialize_maker_book,
            (&decoder, &accounts[keys[i]].data),
            #[trigger] decoded[i],
        )
}

/// `decoded` holds what `decoder` returned for each account that an update from `accounts` decodes.
pub open spec fn decoded_by<P, B, T, D: StateDecoder<P, B, T>>(
    decoder: D,
    s: AmmState<P, B, T>,
    layout: StateLayout,
    accounts: Map<Pubkey, Account>,
    decoded: Decoded<P, B, T>,
) -> bool {
    &&& accounts.contains_key(s.market_key) ==> call_ensures(
        D::deserialize_market_header,
        (&decoder, &accounts[s.market_key].data),
        decoded.market,
    )
    &&& market_step(s, accounts, decoded.market) matches Ok(with_market) ==> {
        &&& registry_fetched(s, layout, accounts) ==> call_ensures(
            D::deserialize_registry,
            (&decoder, &accounts[s.registry_key].data),
            decoded.registry,
        )
        &&& registry_step(with_market, layout, accounts, decoded.registry) matches Ok(with_makers)
            ==> {
            &&& books_decoded(decoder, with_makers.maker_book_keys, accounts, decoded.maker_books)
            &&& taker_order_book_fetched(s, layout, accounts) ==> call_ensures(
                D::deserialize_taker_order_book,
                (&decoder, &accounts[s.taker_book_key].data),
                decoded.taker_order_book,
            )
        }
    }
}

/// What an update with `decoder` may answer and leave.
pub open spec fn update_outcome<P, B, T, D: StateDecoder<P, B, T>>(
    decoder: D,
    s: AmmState<P, B, T>,
    layout: StateLayout,
    accounts: Map<Pubkey, Account>,
    res: Result<(), AmmError>,
    after: AmmState<P, B, T>,
) -> bool {
    exists|decoded: Decoded<P, B, T>| #[trigger]
        decoded_by(decoder, s, layout, accounts, decoded) && (res, after) == updated(
            s,
            layout,
            accounts,
            decoded,
        )
}

/// Both succeed with the same value, or fail with the same message.
pub open spec fn same_result<V>(a: Result<V, String>, b: Result<V, String>) -> bool {
    match (a, b) {
        (Ok(x), Ok(y)) => x == y,
        (Err(x), Err(y)) => x@ == y@,
        _ => false,
    }
}

/// Both name the same makers, or fail with the same message.
pub open spec fn same_registry(
    a: Result<MakerRegistry, String>,
    b: Result<MakerRegistry, String>,
) -> bool {
    match (a, b) {
        (Ok(x), Ok(y)) => x.active() == y.active(),
        (Err(x), Err(y)) => x@ == y@,
        _ => false,
    }
}

/// The same kind of error, with the same message.
pub open spec fn same_error(a: AmmError, b: AmmError) -> bool {
    match (a, b) {
        (AmmError::MarketUndecodable(x), AmmError::MarketUndecodable(y)) => x@ == y@,
        (AmmError::RegistryUndecodable(x), AmmError::RegistryUndecodable(y)) => x@ == y@,
        (AmmError::NoQuote(x), AmmError::NoQuote(y)) => x@ == y@,
        _ => a == b,
    }
}

/// Both succeed with the same value, or fail with the same error.
pub open spec fn same_answer<V>(a: Result<V, AmmError>, b: Result<V, AmmError>) -> bool {
    match (a, b) {
        (Ok(x), Ok(y)) => x == y,
        (Err(x), Err(y)) => same_error(x, y),
        _ => false,
    }
}

/// What `decoder` returns follows from the bytes that it is given.
pub open spec fn decoder_repeats<P, B, T, D: StateDecoder<P, B, T>>(decoder: D) -> bool {
    &&& forall|
        x: Vec<u8>,
        y: Vec<u8>,
        a: Result<MarketStateHeader<P>, String>,
        b: Result<MarketStateHeader<P>, String>,
    |
        x@ == y@ && #[trigger] call_ensures(D::deserialize_market_header, (&decoder, &x), a)
            && #[trigger] call_ensures(D::deserialize_market_header, (&decoder, &y), b)
            ==> same_result(a, b)
    &&& forall|
        x: Vec<u8>,
        y: Vec<u8>,
        a: Result<MakerRegistry, String>,
        b: Result<MakerRegistry, String>,
    |
        x@ == y@ && #[trigger] call_ensures(D::deserialize_registry, (&decoder, &x), a)
            && #[trigger] call_ensures(D::deserialize_registry, (&decoder, &y), b)
            ==> same_registry(a, b)
    &&& forall|x: Vec<u8>, y: Vec<u8>, a: Result<B, String>, b: Result<B, String>|
        x@ == y@ && #[trigger] call_ensures(D::deserialize_maker_book, (&decoder, &x), a)
            && #[trigger] call_ensures(D::deserialize_maker_book, (&decoder, &y), b)
            ==> decoded_book(a) == decoded_book(b)
    &&& forall|x: Vec<u8>, y: Vec<u8>, a: Result<T, String>, b: Result<T, String>|
        x@ == y@ && #[trigger] call_ensures(D::deserialize_taker_order_book, (&decoder, &x), a)
            && #[trigger] call_ensures(D::deserialize_taker_order_book, (&decoder, &y), b)
            ==> decoded_book(a) == decoded_book(b)
}

/// The two maps hold the same at `key`: the same data, or nothing.
pub open spec fn agree_at(a: Map<Pubkey, Account>, b: Map<Pubkey, Account>, key: Pubkey) -> bool {
    &&& a.contains_key(key) == b.contains_key(key)
    &&& a.contains_key(key) ==> a[key].data@ == b[key].data@
}

/// The two maps hold the same at each of `keys`.
pub open spec fn agree_on(
    a: Map<Pubkey, Account>,
    b: Map<Pubkey, Account>,
    keys: Seq<Pubkey>,
) -> bool {
    forall|i: int| 0 <= i < keys.len() ==> agree_at(a, b, #[trigger] keys[i])
}

/// The market's two tokens, base first, once they are known.
pub open spec fn reserve_mints<P, B, T>(s: AmmState<P, B, T>) -> Seq<Pubkey> {
    match s.market_header {
        Some(header) => seq![header.base_mint, header.quote_mint],
        None => Seq::empty(),
    }
}

/// The accounts that the next update should see.
pub open spec fn accounts_to_update<P, B, T>(s: AmmState<P, B, T>) -> Seq<Pubkey> {
    seq![s.market_key, s.registry_key, s.taker_book_key] + s.maker_book_keys + reserve_mints(s)
}

/// The market is known and trades.
pub open spec fn active<P, B, T>(s: AmmState<P, B, T>) -> bool {
    s.market_header matches Some(header) && header.active
}

/// Whether selling `mint` is buying the base token: it pays with the quote token.
pub open spec fn buys_base<P>(header: MarketStateHeader<P>, mint: Pubkey) -> bool {
    mint == header.quote_mint
}

/// Whether a quote for `params` buys the base token, or why the market gives no quote.
pub open spec fn quote_side<P, B, T>(s: AmmState<P, B, T>, params: QuoteParams) -> Result<
    bool,
    AmmError,
> {
    match s.market_header {
        Some(header) => if header.active {
            Ok(buys_base(header, params.input_mint))
        } else {
            Err(AmmError::MarketNotActive)
        },
        None => Err(AmmError::MarketNotLoaded),
    }
}

/// The accounts of a swap instruction, in order: the taker and the market, the taker order book
/// if there is one, the mints, vaults, the taker's token accounts (base first) and the programs,
/// and last the makers' books. The taker's authority alone signs.
pub open spec fn swap_accounts<P, B, T>(
    s: AmmState<P, B, T>,
    header: MarketStateHeader<P>,
    params: SwapParams,
) -> Seq<AccountMeta> {
    let is_buy = buys_base(header, params.source_mint);
    let taker_base = if is_buy {
        params.destination_token_account
    } else {
        params.source_token_account
    };
    let taker_quote = if is_buy {
        params.source_token_account
    } else {
        params.destination_token_account
    };
    let taker_order_book = if s.taker_order_book is Some {
        seq![crate::account::writable(s.taker_book_key, false)]
    } else {
        Seq::empty()
    };
    seq![
        crate::account::readonly(params.token_transfer_authority, true),
        crate::account::writable(s.market_key, false),
    ] + taker_order_book + seq![
        crate::account::readonly(header.base_mint, false),
        crate::account::readonly(header.quote_mint, false),
        crate::account::writable(header.base_vault, false),
        crate::account::writable(header.quote_vault, false),
        crate::account::writable(taker_base, false),
        crate::account::writable(taker_quote, false),
        crate::account::readonly(s.base_token_program, false),
        crate::account::readonly(s.quote_token_program, false),
        crate::account::readonly(Pubkey { bytes: INSTRUCTIONS_SYSVAR_ID }, false),
    ] + s.maker_books.map_values(
        |entry: (Pubkey, B)| crate::account::writable(entry.0, false),
    )
}

/// How many whole lots a swap takes in, or why it cannot be made.
pub open spec fn swap_lots<P, B, T>(s: AmmState<P, B, T>, params: SwapParams) -> Result<
    u64,
    AmmError,
> {
    match s.market_header {
        Some(header) => crate::swap::input_lots(
            header,
            buys_base(header, params.source_mint),
            params.in_amount,
        ),
        None => Err(AmmError::MarketNotLoaded),
    }
}

/// How many accounts a swap instruction lists.
pub open spec fn accounts_len<P, B, T>(s: AmmState<P, B, T>) -> nat {
    (if s.taker_order_book is Some {
        12nat
    } else {
        11nat
    }) + s.maker_books.len()
}

} // verus!
