//! The market maker on a market whose accounts are made up here: every account starts with eight
//! bytes that tell its kind, and the rest is read byte by byte.

use archer_dflow::account::{Account, AccountMap, AccountMeta, KeyedAccount};
use archer_dflow::amm::ArcherAmm;
use archer_dflow::error::AmmError;
use archer_dflow::pubkey::{
    Pubkey, ARCHER_PROGRAM_ID, INSTRUCTIONS_SYSVAR_ID, SPL_TOKEN_PROGRAM, TOKEN_2022_PROGRAM,
};
use archer_dflow::quote::{
    quote_from_output, Quote, QuoteEngine, QuoteOutput, QuoteParams, SwapMode,
};
use archer_dflow::state::{
    detect_token_program_from_data, has_discriminator, MakerRegistry, MarketStateHeader,
    StateDecoder, StateLayout,
};
use archer_dflow::swap::{compute_input_lots, swap_instruction_data, Swap, SwapParams};

type Amm = ArcherAmm<u64, Book, Book>;

#[derive(Clone, Debug, PartialEq)]
struct Book {
    depth: u64,
}

/// Reads the accounts that the functions below make.
struct Bytes;

impl StateDecoder<u64, Book, Book> for Bytes {
    fn deserialize_market_header(&self, data: &Vec<u8>) -> Result<MarketStateHeader<u64>, String> {
        if data.len() < 16 {
            return Err("market too short".to_string());
        }
        Ok(MarketStateHeader {
            base_mint: key(data[8]),
            quote_mint: key(data[9]),
            base_vault: key(data[10]),
            quote_vault: key(data[11]),
            base_atoms_per_base_lot: data[12] as u64,
            quote_atoms_per_quote_lot: data[13] as u64,
            active: data[14] == 1,
            pricing: data[15] as u64,
        })
    }

    fn deserialize_registry(&self, data: &Vec<u8>) -> Result<MakerRegistry, String> {
        if data.len() < 12 {
            return Err("registry too short".to_string());
        }
        let makers = data[9..].iter().map(|b| key(*b)).collect();
        MakerRegistry::new(data[8] as usize, makers).ok_or("too many makers".to_string())
    }

    fn deserialize_maker_book(&self, data: &Vec<u8>) -> Result<Book, String> {
        match data.first() {
            Some(depth) => Ok(Book { depth: *depth as u64 }),
            None => Err("empty book".to_string()),
        }
    }

    fn deserialize_taker_order_book(&self, data: &Vec<u8>) -> Result<Book, String> {
        match data.get(8) {
            Some(depth) => Ok(Book { depth: *depth as u64 }),
            None => Err("empty taker book".to_string()),
        }
    }
}

/// Gives one unit out for each `pricing` units in, as deep as the books are. A buy pays a fee of 1.
struct Flat;

impl QuoteEngine<u64, Book, Book> for Flat {
    fn compute_quote_with_taker_book(
        &self,
        amount: u64,
        is_buy: bool,
        header: &MarketStateHeader<u64>,
        maker_books: &Vec<(Pubkey, Book)>,
        taker_order_book: Option<&Book>,
    ) -> Result<QuoteOutput, String> {
        if maker_books.is_empty() && taker_order_book.is_none() {
            return Err("no liquidity".to_string());
        }
        let makers: u64 = maker_books.iter().map(|(_, book)| book.depth).sum();
        let depth = makers + taker_order_book.map(|book| book.depth).unwrap_or(0);
        let out = (amount / header.pricing).min(depth);
        let fee = if is_buy && out > 0 { 1 } else { 0 };
        Ok(QuoteOutput { out_amount: out - fee, fee_amount: fee })
    }
}

fn key(byte: u8) -> Pubkey {
    Pubkey { bytes: [byte; 32] }
}

fn layout() -> StateLayout {
    StateLayout {
        market_discriminator: *b"market__",
        registry_discriminator: *b"registry",
        taker_order_book_discriminator: *b"takers__",
        registry_len: 12,
    }
}

fn account(head: &[u8], tail: &[u8]) -> Account {
    let mut data = head.to_vec();
    data.extend_from_slice(tail);
    Account { data }
}

const MARKET: u8 = 1;
const BASE: u8 = 2;
const QUOTE: u8 = 3;
const BASE_VAULT: u8 = 4;
const QUOTE_VAULT: u8 = 5;

/// An active market with base lots of 10, quote lots of 7 and a price of 2.
fn market() -> Account {
    account(b"market__", &[BASE, QUOTE, BASE_VAULT, QUOTE_VAULT, 10, 7, 1, 2])
}

fn registry() -> Account {
    account(b"registry", &[2, 21, 22, 23])
}

fn takers() -> Account {
    account(b"takers__", &[9])
}

fn new_amm() -> Amm {
    let keyed = KeyedAccount { key: key(MARKET), account: market() };
    match Amm::try_from_keyed_account(&keyed, &layout()) {
        Some(Ok(amm)) => amm,
        _ => panic!("no market maker"),
    }
}

/// All accounts of the market: the makers 21 and 22 have books, the base mint is plain and the
/// quote mint has extensions.
fn all_accounts(amm: &Amm) -> AccountMap {
    let mut map = AccountMap::new();
    map.insert(amm.market_key, market());
    map.insert(amm.registry_key, registry());
    map.insert(amm.taker_book_key, takers());
    map.insert(key(BASE), account(&[0; 82], &[]));
    map.insert(key(QUOTE), account(&[0; 83], &[]));
    map.insert(key(21), account(&[30], &[]));
    map.insert(key(22), account(&[40], &[]));
    map.insert(key(23), account(&[50], &[]));
    map
}

fn loaded() -> Amm {
    let mut amm = new_amm();
    let map = all_accounts(&amm);
    assert_eq!(amm.update(&map, &layout(), &Bytes), Ok(()));
    amm
}

fn quote_params(amount: u64, mint: u8) -> QuoteParams {
    QuoteParams {
        amount,
        input_mint: key(mint),
        output_mint: key(if mint == QUOTE { BASE } else { QUOTE }),
        swap_mode: SwapMode::ExactIn,
    }
}

fn swap_params(mint: u8, source: u8, destination: u8, in_amount: u64) -> SwapParams {
    SwapParams {
        source_mint: key(mint),
        source_token_account: key(source),
        destination_token_account: key(destination),
        token_transfer_authority: key(50),
        in_amount,
    }
}

fn triples(metas: &Vec<AccountMeta>) -> Vec<(Pubkey, bool, bool)> {
    metas.iter().map(|m| (m.pubkey, m.is_signer, m.is_writable)).collect()
}

fn solana(text: &str) -> [u8; 32] {
    solana_program::pubkey::Pubkey::from_str_const(text).to_bytes()
}

#[test]
fn fixed_addresses_are_the_published_ones() {
    assert_eq!(ARCHER_PROGRAM_ID, solana("Archer8kgiavM61GyusMzaaS2ft5sALtNsD1HxkUPMhy"));
    assert_eq!(SPL_TOKEN_PROGRAM, solana("TokenkegQfeZyiNwAJbNbGKPFXCWuBvf9Ss623VQ5DA"));
    assert_eq!(TOKEN_2022_PROGRAM, solana("TokenzQdBNbLqP5VEhdkAS6EPFLC1PHnBqCXEpPxuEb"));
    assert_eq!(INSTRUCTIONS_SYSVAR_ID, solana("Sysvar1nstructions1111111111111111111111111"));
}

#[test]
fn accounts_of_a_market_are_program_derived() {
    let amm = new_amm();
    let program = solana_program::pubkey::Pubkey::new_from_array(ARCHER_PROGRAM_ID);
    let market_key = solana_program::pubkey::Pubkey::new_from_array([MARKET; 32]);
    let (registry, _) = solana_program::pubkey::Pubkey::find_program_address(
        &[b"maker_registry", market_key.as_ref()],
        &program,
    );
    let (taker_book, _) = solana_program::pubkey::Pubkey::find_program_address(
        &[b"taker_book", market_key.as_ref()],
        &program,
    );
    assert_eq!(amm.market_key, key(MARKET));
    assert_eq!(amm.registry_key.bytes, registry.to_bytes());
    assert_eq!(amm.taker_book_key.bytes, taker_book.to_bytes());
    assert_ne!(amm.registry_key, amm.taker_book_key);
    assert_ne!(amm.registry_key, amm.market_key);
}

#[test]
fn only_a_market_account_makes_a_market_maker() {
    for data in [Vec::new(), b"market_".to_vec(), b"market_?rest".to_vec(), b"registry".to_vec()] {
        let keyed = KeyedAccount { key: key(MARKET), account: Account { data } };
        match Amm::from_keyed_account(&keyed, &layout()) {
            Err(e) => {
                assert_eq!(e, AmmError::NotAMarket);
                assert_eq!(e.message(), "Not an Archer market");
            }
            Ok(_) => panic!("not a market"),
        }
    }
    let keyed = KeyedAccount { key: key(MARKET), account: account(b"market__", &[]) };
    assert!(matches!(Amm::from_keyed_account(&keyed, &layout()), Ok(_)));
    assert!(has_discriminator(&b"market__".to_vec(), b"market__"));
    assert!(!has_discriminator(&b"market_".to_vec(), b"market__"));
}

#[test]
fn a_new_market_maker_knows_nothing() {
    let amm = new_amm();
    assert_eq!(amm.label(), "Archer");
    assert_eq!(amm.program_id().bytes, ARCHER_PROGRAM_ID);
    assert_eq!(amm.key(), key(MARKET));
    assert!(amm.get_reserve_mints().is_empty());
    assert_eq!(
        amm.get_accounts_to_update(),
        vec![key(MARKET), amm.registry_key, amm.taker_book_key]
    );
    assert!(!amm.is_active());
    assert_eq!(amm.get_accounts_len(), 11);
    assert_eq!(amm.base_token_program.bytes, SPL_TOKEN_PROGRAM);
    assert_eq!(amm.quote_token_program.bytes, SPL_TOKEN_PROGRAM);
    let quote = amm.quote(&quote_params(5, QUOTE), &Flat);
    assert_eq!(quote, Err(AmmError::MarketNotLoaded));
    assert_eq!(AmmError::MarketNotLoaded.message(), "Market not loaded");
    match amm.get_swap_and_account_metas(&swap_params(QUOTE, 51, 52, 5)) {
        Err(e) => assert_eq!(e, AmmError::MarketNotLoaded),
        Ok(_) => panic!("no market"),
    }
    assert_eq!(
        amm.get_swap_instruction_data(&swap_params(QUOTE, 51, 52, 5)),
        Err(AmmError::MarketNotLoaded)
    );
    assert!(amm.has_dynamic_accounts());
    assert!(amm.requires_update_for_reserve_mints());
    assert!(!amm.supports_exact_out());
}

#[test]
fn an_update_takes_over_all_accounts() {
    let amm = loaded();
    assert!(amm.is_active());
    assert_eq!(amm.get_reserve_mints(), vec![key(BASE), key(QUOTE)]);
    assert_eq!(amm.base_token_program.bytes, SPL_TOKEN_PROGRAM);
    assert_eq!(amm.quote_token_program.bytes, TOKEN_2022_PROGRAM);
    assert_eq!(amm.maker_book_keys, vec![key(21), key(22)]);
    assert_eq!(
        amm.maker_books,
        vec![(key(21), Book { depth: 30 }), (key(22), Book { depth: 40 })]
    );
    assert_eq!(amm.taker_order_book, Some(Box::new(Book { depth: 9 })));
    assert_eq!(
        amm.get_accounts_to_update(),
        vec![
            key(MARKET),
            amm.registry_key,
            amm.taker_book_key,
            key(21),
            key(22),
            key(BASE),
            key(QUOTE)
        ]
    );
    assert_eq!(amm.get_accounts_len(), 14);
}

#[test]
fn the_second_update_sees_what_the_first_discovered() {
    let mut amm = new_amm();
    let all = all_accounts(&amm);
    for round in 0..2 {
        let mut map = AccountMap::new();
        for key in amm.get_accounts_to_update() {
            if let Some(found) = all.get(&key) {
                map.insert(key, Account { data: found.data.clone() });
            }
        }
        assert_eq!(amm.update(&map, &layout(), &Bytes), Ok(()));
        assert_eq!(amm.get_reserve_mints().len(), 2);
        assert_eq!(amm.maker_book_keys.len(), 2);
        assert_eq!(amm.maker_books.len(), if round == 0 { 0 } else { 2 });
        // The mints are asked for only once they are known.
        assert_eq!(
            amm.quote_token_program.bytes,
            if round == 0 { SPL_TOKEN_PROGRAM } else { TOKEN_2022_PROGRAM }
        );
    }
}

#[test]
fn an_undecodable_market_changes_nothing() {
    let mut amm = loaded();
    let mut map = AccountMap::new();
    map.insert(key(MARKET), account(b"market__", &[1]));
    map.insert(key(BASE), account(&[0; 90], &[]));
    map.insert(amm.registry_key, account(b"registry", &[1, 23, 0, 0]));
    let res = amm.update(&map, &layout(), &Bytes);
    assert_eq!(res, Err(AmmError::MarketUndecodable("market too short".to_string())));
    match res {
        Err(e) => assert_eq!(e.message(), "Failed to deserialize market: market too short"),
        Ok(_) => panic!("undecodable"),
    }
    assert_eq!(amm.base_token_program.bytes, SPL_TOKEN_PROGRAM);
    assert_eq!(amm.maker_book_keys, vec![key(21), key(22)]);
    assert_eq!(amm.maker_books.len(), 2);
    assert!(amm.taker_order_book.is_some());
    assert!(amm.is_active());
}

#[test]
fn an_undecodable_registry_keeps_the_books() {
    let mut amm = loaded();
    let mut map = AccountMap::new();
    map.insert(key(MARKET), account(b"market__", &[BASE, QUOTE, 4, 5, 10, 7, 0, 2]));
    map.insert(key(BASE), account(&[0; 90], &[]));
    map.insert(amm.registry_key, account(b"registry", &[9, 21, 22, 23]));
    let res = amm.update(&map, &layout(), &Bytes);
    assert_eq!(res, Err(AmmError::RegistryUndecodable("too many makers".to_string())));
    match res {
        Err(e) => assert_eq!(e.message(), "Failed to deserialize registry: too many makers"),
        Ok(_) => panic!("undecodable"),
    }
    // The header and the token programs are taken over all the same.
    assert!(!amm.is_active());
    assert_eq!(amm.base_token_program.bytes, TOKEN_2022_PROGRAM);
    assert_eq!(amm.quote_token_program.bytes, TOKEN_2022_PROGRAM);
    assert_eq!(amm.maker_book_keys, vec![key(21), key(22)]);
    assert_eq!(amm.maker_books.len(), 2);
    assert!(amm.taker_order_book.is_some());
}

#[test]
fn what_is_not_a_registry_is_not_decoded() {
    let mut amm = loaded();
    for other in [account(b"registrY", &[9, 21, 22, 23]), account(b"registry", &[0, 0, 0])] {
        let mut map = all_accounts(&amm);
        map.insert(amm.registry_key, other);
        assert_eq!(amm.update(&map, &layout(), &Bytes), Ok(()));
        assert_eq!(amm.maker_book_keys, vec![key(21), key(22)]);
    }
}

#[test]
fn books_do_not_outlive_an_update() {
    let mut amm = loaded();
    assert_eq!(amm.update(&AccountMap::new(), &layout(), &Bytes), Ok(()));
    assert!(amm.maker_books.is_empty());
    assert!(amm.taker_order_book.is_none());
    assert!(amm.is_active());
    assert_eq!(amm.maker_book_keys, vec![key(21), key(22)]);
    assert_eq!(amm.quote_token_program.bytes, TOKEN_2022_PROGRAM);
    assert_eq!(amm.get_accounts_len(), 11);
}

#[test]
fn undecodable_books_are_left_out() {
    let mut amm = loaded();
    let mut map = all_accounts(&amm);
    map.insert(key(21), account(&[], &[]));
    map.insert(amm.taker_book_key, account(b"takers__", &[]));
    assert_eq!(amm.update(&map, &layout(), &Bytes), Ok(()));
    assert_eq!(amm.maker_books, vec![(key(22), Book { depth: 40 })]);
    assert!(amm.taker_order_book.is_none());
    map.insert(amm.taker_book_key, account(b"takers_", &[]));
    assert_eq!(amm.update(&map, &layout(), &Bytes), Ok(()));
    assert!(amm.taker_order_book.is_none());
}

#[test]
fn a_second_update_from_the_same_accounts_changes_nothing() {
    let mut amm = loaded();
    let books = amm.maker_books.clone();
    let map = all_accounts(&amm);
    assert_eq!(amm.update(&map, &layout(), &Bytes), Ok(()));
    assert_eq!(amm.maker_books, books);
    assert_eq!(amm.maker_book_keys, vec![key(21), key(22)]);
    assert_eq!(amm.taker_order_book, Some(Box::new(Book { depth: 9 })));
}

#[test]
fn results_of_decoding_are_taken_over_one_by_one() {
    let mut amm = new_amm();
    assert_eq!(
        amm.set_market(Err("bad".to_string())),
        Err(AmmError::MarketUndecodable("bad".to_string()))
    );
    assert!(amm.market_header.is_none());
    assert_eq!(amm.set_market(Bytes.deserialize_market_header(&market().data)), Ok(()));
    assert!(amm.is_active());
    assert_eq!(
        amm.set_registry(Err("bad".to_string())),
        Err(AmmError::RegistryUndecodable("bad".to_string()))
    );
    assert_eq!(amm.set_registry(Bytes.deserialize_registry(&registry().data)), Ok(()));
    assert_eq!(amm.maker_book_keys, vec![key(21), key(22)]);
    amm.add_maker_book(key(21), Ok(Book { depth: 3 }));
    amm.add_maker_book(key(22), Err("bad".to_string()));
    assert_eq!(amm.maker_books, vec![(key(21), Book { depth: 3 })]);
    amm.set_taker_order_book(Ok(Book { depth: 4 }));
    assert_eq!(amm.taker_order_book, Some(Box::new(Book { depth: 4 })));
    amm.set_taker_order_book(Err("bad".to_string()));
    assert!(amm.taker_order_book.is_none());
}

#[test]
fn quotes_go_both_ways() {
    let amm = loaded();
    assert_eq!(amm.quote_side(&quote_params(20, QUOTE)), Ok(true));
    assert_eq!(amm.quote_side(&quote_params(20, BASE)), Ok(false));
    assert_eq!(
        amm.quote(&quote_params(20, QUOTE), &Flat),
        Ok(Quote { in_amount: 20, out_amount: 9 })
    );
    assert_eq!(
        amm.quote(&quote_params(20, BASE), &Flat),
        Ok(Quote { in_amount: 20, out_amount: 10 })
    );
    // Thirty, forty and nine are all there is.
    assert_eq!(
        amm.quote(&quote_params(1000, BASE), &Flat),
        Ok(Quote { in_amount: 1000, out_amount: 79 })
    );
}

#[test]
fn a_market_that_does_not_trade_gives_no_quotes() {
    let mut amm = loaded();
    let mut map = all_accounts(&amm);
    map.insert(key(MARKET), account(b"market__", &[BASE, QUOTE, 4, 5, 10, 7, 0, 2]));
    assert_eq!(amm.update(&map, &layout(), &Bytes), Ok(()));
    assert!(!amm.is_active());
    let quote = amm.quote(&quote_params(20, QUOTE), &Flat);
    assert_eq!(quote, Err(AmmError::MarketNotActive));
    assert_eq!(AmmError::MarketNotActive.message(), "Market not active");
    // A swap is not refused on that account.
    assert!(amm.get_swap_and_account_metas(&swap_params(QUOTE, 51, 52, 5)).is_ok());
}

#[test]
fn a_market_seen_active_stays_active() {
    let mut amm = new_amm();
    assert!(!amm.is_active());
    let all = all_accounts(&amm);
    assert_eq!(amm.update(&all, &layout(), &Bytes), Ok(()));
    assert!(amm.is_active());
    // No account at all, the same market account alone, and a registry that cannot be decoded.
    assert_eq!(amm.update(&AccountMap::new(), &layout(), &Bytes), Ok(()));
    assert!(amm.is_active());
    let mut map = AccountMap::new();
    map.insert(key(MARKET), market());
    assert_eq!(amm.update(&map, &layout(), &Bytes), Ok(()));
    assert!(amm.is_active());
    map.insert(amm.registry_key, account(b"registry", &[9, 21, 22, 23]));
    assert!(amm.update(&map, &layout(), &Bytes).is_err());
    assert!(amm.is_active());
}

#[test]
fn what_the_engine_says_is_passed_on() {
    let mut amm = loaded();
    assert_eq!(amm.update(&AccountMap::new(), &layout(), &Bytes), Ok(()));
    let quote = amm.quote(&quote_params(20, QUOTE), &Flat);
    assert_eq!(quote, Err(AmmError::NoQuote("no liquidity".to_string())));
    assert_eq!(AmmError::NoQuote("no liquidity".to_string()).message(), "no liquidity");
    assert_eq!(
        quote_from_output(7, Ok(QuoteOutput { out_amount: 5, fee_amount: 2 })),
        Ok(Quote { in_amount: 7, out_amount: 5 })
    );
    assert_eq!(
        quote_from_output(7, Err("no".to_string())),
        Err(AmmError::NoQuote("no".to_string()))
    );
}

#[test]
fn only_the_amount_and_the_input_mint_count() {
    let amm = loaded();
    let plain = quote_params(20, QUOTE);
    for swap_mode in [SwapMode::ExactIn, SwapMode::ExactOut] {
        for output in [BASE, QUOTE, 99] {
            let other = QuoteParams { output_mint: key(output), swap_mode, ..plain };
            assert_eq!(amm.quote(&other, &Flat), amm.quote(&plain, &Flat));
        }
    }
    // A market maker at other addresses with the same header and books gives the same quotes.
    let mut moved = amm.clone();
    moved.market_key = key(90);
    moved.registry_key = key(91);
    moved.taker_book_key = key(92);
    moved.maker_book_keys = Vec::new();
    moved.base_token_program = key(93);
    assert_eq!(moved.quote(&plain, &Flat), amm.quote(&plain, &Flat));
}

#[test]
fn an_unrelated_mint_is_quoted_as_a_sale() {
    let amm = loaded();
    let sale = amm.quote(&quote_params(20, BASE), &Flat);
    assert_eq!(sale, Ok(Quote { in_amount: 20, out_amount: 10 }));
    assert_eq!(amm.quote(&quote_params(20, 99), &Flat), sale);
}

/// The smallest amount, from one lot up, that gives anything, and the smallest that gives the most.
fn compute_bounds(amm: &Amm, input_mint: u8) -> (u64, u64) {
    let min_lot = match &amm.market_header {
        Some(header) if key(input_mint) == header.quote_mint => header.quote_atoms_per_quote_lot,
        Some(header) => header.base_atoms_per_base_lot,
        None => panic!("no market"),
    };
    let quote_output = |amount: u64| -> u64 {
        amm.quote(&quote_params(amount, input_mint), &Flat).map(|q| q.out_amount).unwrap_or(0)
    };
    let max_output = quote_output(u64::MAX / 2);
    if max_output == 0 {
        return (min_lot, min_lot);
    }
    let search = |from: u64, target: u64| -> u64 {
        let mut lo = from;
        let mut hi = u64::MAX / 2;
        while lo < hi {
            let mid = lo + (hi - lo) / 2;
            if quote_output(mid) >= target {
                hi = mid;
            } else {
                lo = mid + 1;
            }
        }
        lo
    };
    let lower = search(min_lot, 1);
    (lower, search(lower, max_output))
}

#[test]
fn quoting_bounds_are_sane() {
    let amm = loaded();
    for (mint, bounds) in [(QUOTE, (7, 158)), (BASE, (10, 158))] {
        let (lower, upper) = compute_bounds(&amm, mint);
        assert_eq!((lower, upper), bounds);
        assert!(lower <= upper);
        for amount in [lower, upper] {
            match amm.quote(&quote_params(amount, mint), &Flat) {
                Ok(quote) => assert!(quote.out_amount > 0),
                Err(_) => panic!("no quote"),
            }
        }
    }
}

#[test]
fn what_was_not_asked_for_makes_no_difference() {
    let mut all = loaded();
    let mut asked = all.clone();
    let mut everything = all_accounts(&all);
    everything.insert(key(22), account(&[41], &[]));
    let mut map = AccountMap::new();
    for key in asked.get_accounts_to_update() {
        if let Some(found) = everything.get(&key) {
            map.insert(key, Account { data: found.data.clone() });
        }
    }
    assert!(everything.get(&key(23)).is_some());
    assert!(map.get(&key(23)).is_none());
    assert_eq!(all.update(&everything, &layout(), &Bytes), Ok(()));
    assert_eq!(asked.update(&map, &layout(), &Bytes), Ok(()));
    assert_eq!(asked.maker_books, all.maker_books);
    assert_eq!(
        asked.maker_books,
        vec![(key(21), Book { depth: 30 }), (key(22), Book { depth: 41 })]
    );
    assert_eq!(asked.maker_book_keys, all.maker_book_keys);
    assert_eq!(asked.taker_order_book, all.taker_order_book);
    assert_eq!(asked.get_reserve_mints(), all.get_reserve_mints());
    assert_eq!(asked.base_token_program, all.base_token_program);
    assert_eq!(asked.quote_token_program, all.quote_token_program);
}

#[test]
fn a_buy_lists_its_accounts() {
    let amm = loaded();
    let swap = match amm.get_swap_and_account_metas(&swap_params(QUOTE, 51, 52, 70)) {
        Ok(swap) => swap,
        Err(_) => panic!("no swap"),
    };
    assert_eq!(swap.swap, Swap::Archer);
    assert_eq!(
        triples(&swap.account_metas),
        vec![
            (key(50), true, false),
            (key(MARKET), false, true),
            (amm.taker_book_key, false, true),
            (key(BASE), false, false),
            (key(QUOTE), false, false),
            (key(BASE_VAULT), false, true),
            (key(QUOTE_VAULT), false, true),
            (key(52), false, true),
            (key(51), false, true),
            (Pubkey { bytes: SPL_TOKEN_PROGRAM }, false, false),
            (Pubkey { bytes: TOKEN_2022_PROGRAM }, false, false),
            (
                Pubkey { bytes: solana("Sysvar1nstructions1111111111111111111111111") },
                false,
                false
            ),
            (key(21), false, true),
            (key(22), false, true),
        ]
    );
    assert_eq!(swap.account_metas.len(), amm.get_accounts_len());
}

#[test]
fn a_sale_lists_the_same_accounts_as_the_buy_that_it_undoes() {
    let mut amm = loaded();
    assert_eq!(amm.update(&AccountMap::new(), &layout(), &Bytes), Ok(()));
    let buy = amm.get_swap_and_account_metas(&swap_params(QUOTE, 51, 52, 70));
    let sale = amm.get_swap_and_account_metas(&swap_params(BASE, 52, 51, 70));
    match (buy, sale) {
        (Ok(buy), Ok(sale)) => {
            assert_eq!(triples(&buy.account_metas), triples(&sale.account_metas));
            assert_eq!(buy.account_metas.len(), 11);
            // Without a taker order book the mints follow the market.
            assert_eq!(buy.account_metas[2].pubkey, key(BASE));
        }
        _ => panic!("no swap"),
    }
}

#[test]
fn a_swap_needs_lots_of_some_size() {
    let mut amm = loaded();
    let mut map = all_accounts(&amm);
    map.insert(key(MARKET), account(b"market__", &[BASE, QUOTE, 4, 5, 0, 0, 1, 2]));
    assert_eq!(amm.update(&map, &layout(), &Bytes), Ok(()));
    for (mint, error, message) in [
        (QUOTE, AmmError::QuoteLotSizeZero, "quote lot size is 0"),
        (BASE, AmmError::BaseLotSizeZero, "base lot size is 0"),
    ] {
        match amm.get_swap_and_account_metas(&swap_params(mint, 51, 52, 70)) {
            Err(e) => assert_eq!(e, error),
            Ok(_) => panic!("no lots"),
        }
        let data = amm.get_swap_instruction_data(&swap_params(mint, 51, 52, 70));
        assert_eq!(data, Err(error));
        assert_eq!(
            data.map_err(|e| e.message()),
            Err(message.to_string())
        );
    }
}

#[test]
fn the_payload_of_a_swap() {
    let amm = loaded();
    // 2000 is 285 quote lots of 7 and 200 base lots of 10.
    assert_eq!(
        amm.get_swap_instruction_data(&swap_params(QUOTE, 51, 52, 2000)),
        Ok(vec![15, 0x1d, 1, 0, 0, 0, 0, 0, 0, 0, 0, 0, 0, 0, 0, 0, 0, 0, 0])
    );
    assert_eq!(
        amm.get_swap_instruction_data(&swap_params(BASE, 51, 52, 2000)),
        Ok(vec![15, 200, 0, 0, 0, 0, 0, 0, 0, 0, 0, 0, 0, 0, 0, 0, 0, 1, 0])
    );
    assert_eq!(
        swap_instruction_data(0x0807060504030201, true),
        vec![15, 1, 2, 3, 4, 5, 6, 7, 8, 0, 0, 0, 0, 0, 0, 0, 0, 0, 0]
    );
    match Bytes.deserialize_market_header(&market().data) {
        Ok(header) => {
            assert_eq!(compute_input_lots(&header, true, 13), Ok(1));
            assert_eq!(compute_input_lots(&header, false, 13), Ok(1));
            assert_eq!(compute_input_lots(&header, true, 14), Ok(2));
            assert_eq!(compute_input_lots(&header, false, 9), Ok(0));
        }
        Err(_) => panic!("a header"),
    }
}

#[test]
fn a_mint_with_extensions_is_longer() {
    assert_eq!(detect_token_program_from_data(&vec![0; 82]).bytes, SPL_TOKEN_PROGRAM);
    assert_eq!(detect_token_program_from_data(&vec![0; 83]).bytes, TOKEN_2022_PROGRAM);
    assert_eq!(detect_token_program_from_data(&Vec::new()).bytes, SPL_TOKEN_PROGRAM);
}

#[test]
fn a_clone_is_alike_and_apart() {
    let amm = loaded();
    let mut clone = amm.clone_amm();
    assert_eq!(clone.key(), amm.key());
    assert_eq!(clone.maker_books, amm.maker_books);
    assert_eq!(clone.taker_order_book, amm.taker_order_book);
    assert_eq!(clone.get_accounts_to_update(), amm.get_accounts_to_update());
    assert_eq!(
        clone.quote(&quote_params(20, BASE), &Flat),
        amm.quote(&quote_params(20, BASE), &Flat)
    );
    assert_eq!(clone.update(&AccountMap::new(), &layout(), &Bytes), Ok(()));
    assert!(clone.maker_books.is_empty());
    assert_eq!(amm.maker_books.len(), 2);
}

#[test]
fn a_map_holds_one_account_for_each_address() {
    let mut map = AccountMap::new();
    assert!(map.get(&key(1)).is_none());
    map.insert(key(1), account(&[1], &[]));
    map.insert(key(2), account(&[2], &[]));
    map.insert(key(1), account(&[3], &[]));
    assert_eq!(map.get(&key(1)).map(|a| a.data.clone()), Some(vec![3]));
    assert_eq!(map.get(&key(2)).map(|a| a.data.clone()), Some(vec![2]));
    assert!(map.get(&key(3)).is_none());
}

#[test]
fn a_registry_has_slots_for_its_makers() {
    assert!(MakerRegistry::new(2, vec![key(1)]).is_none());
    match MakerRegistry::new(1, vec![key(1), key(2)]) {
        Some(registry) => assert_eq!(registry.active_makers(), vec![key(1)]),
        None => panic!("a registry"),
    }
}
