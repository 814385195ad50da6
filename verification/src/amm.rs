//! The market maker of one Archer market.
use crate::account::{AccountMap, AccountMeta, KeyedAccount};
use crate::address::{instructions_sysvar_id, registry_address, taker_book_address};
use crate::error::AmmError;
use crate::model::{AmmState, Decoded};
use crate::pubkey::{Pubkey, ARCHER_PROGRAM_ID, SPL_TOKEN_PROGRAM};
use crate::quote::{quote_from_output, Quote, QuoteEngine, QuoteOutput, QuoteParams};
use crate::state::{
    detect_token_program_from_data, has_discriminator, MakerRegistry, MarketStateHeader,
    StateDecoder, StateLayout,
};
use crate::swap::{
    compute_input_lots, swap_instruction_data, Swap, SwapAndAccountMetas, SwapParams,
};
use vstd::prelude::*;

verus! {

/// The market maker of one Archer market. `P`, `B` and `T` are what only quoting reads: the
/// pricing parameters of the header, a maker's book and the taker order book.
pub struct ArcherAmm<P, B, T> {
    pub market_key: Pubkey,
    pub registry_key: Pubkey,
    pub taker_book_key: Pubkey,
    pub market_header: Option<MarketStateHeader<P>>,
    pub maker_book_keys: Vec<Pubkey>,
    pub maker_books: Vec<(Pubkey, B)>,
    pub taker_order_book: Option<Box<T>>,
    pub base_token_program: Pubkey,
    pub quote_token_program: Pubkey,
}

/// The taker order book outside its box.
pub open spec fn unboxed<T>(book: Option<Box<T>>) -> Option<T> {
    match book {
        Some(b) => Some(*b),
        None => None,
    }
}

impl<P, B, T> View for ArcherAmm<P, B, T> {
    type V = AmmState<P, B, T>;

    open spec fn view(&self) -> AmmState<P, B, T> {
        AmmState {
            market_key: self.market_key,
            registry_key: self.registry_key,
            taker_book_key: self.taker_book_key,
            market_header: self.market_header,
            maker_book_keys: self.maker_book_keys@,
            maker_books: self.maker_books@,
            taker_order_book: unboxed(self.taker_order_book),
            base_token_program: self.base_token_program,
            quote_token_program: self.quote_token_program,
        }
    }
}

impl<P, B, T> ArcherAmm<P, B, T> {
    /// The market maker of a market of which only the addresses are known.
    pub fn from_addresses(
        market_key: Pubkey,
        registry_key: Pubkey,
        taker_book_key: Pubkey,
    ) -> (amm: Self)
        ensures
            amm@ == crate::model::initial_state::<P, B, T>(
                market_key,
                registry_key,
                taker_book_key,
            ),
            crate::model::valid(amm@),
    {
        let amm = ArcherAmm {
            market_key,
            registry_key,
            taker_book_key,
            market_header: None,
            maker_book_keys: Vec::new(),
            maker_books: Vec::new(),
            taker_order_book: None,
            base_token_program: Pubkey { bytes: SPL_TOKEN_PROGRAM },
            quote_token_program: Pubkey { bytes: SPL_TOKEN_PROGRAM },
        };
        proof {
            assert(amm@ =~= crate::model::initial_state::<P, B, T>(
                market_key,
                registry_key,
                taker_book_key,
            ));
            assert(crate::model::picks(Seq::empty(), amm@.maker_book_keys, amm@.maker_books));
        }
        amm
    }

    /// The market maker of the market at `keyed_account`. The market's other accounts must have
    /// addresses; see `try_from_keyed_account`.
    pub fn from_keyed_account(keyed_account: &KeyedAccount, layout: &StateLayout) -> (res: Result<
        Self,
        AmmError,
    >)
        requires
            crate::state::is_market(*layout, keyed_account.account.data@)
                ==> crate::address::has_market_addresses(keyed_account.key),
        ensures
            !crate::state::is_market(*layout, keyed_account.account.data@) ==> res == Err::<
                Self,
                AmmError,
            >(AmmError::NotAMarket),
            crate::state::is_market(*layout, keyed_account.account.data@) ==> res is Ok
                && crate::address::belongs_to_market(
                keyed_account.key,
                res->Ok_0.registry_key,
                res->Ok_0.taker_book_key,
            ) && res->Ok_0@ == crate::model::initial_state::<P, B, T>(
                keyed_account.key,
                res->Ok_0.registry_key,
                res->Ok_0.taker_book_key,
            ),
    {
        if !has_discriminator(&keyed_account.account.data, &layout.market_discriminator) {
            return Err(AmmError::NotAMarket);
        }
        let market_key = keyed_account.key;
        let registry_key = registry_address(&market_key).unwrap();
        let taker_book_key = taker_book_address(&market_key).unwrap();
        Ok(Self::from_addresses(market_key, registry_key, taker_book_key))
    }

    /// The market maker of the market at `keyed_account`, or nothing where one of the market's
    /// other accounts has no address.
    pub fn try_from_keyed_account(
        keyed_account: &KeyedAccount,
        layout: &StateLayout,
    ) -> (res: Option<Result<Self, AmmError>>)
        ensures
            res is None <==> crate::state::is_market(*layout, keyed_account.account.data@)
                && !crate::address::has_market_addresses(keyed_account.key),
            !crate::state::is_market(*layout, keyed_account.account.data@) ==> res == Some(
                Err::<Self, AmmError>(AmmError::NotAMarket),
            ),
            crate::state::is_market(*layout, keyed_account.account.data@) ==> (res matches Some(r)
                ==> r is Ok && crate::address::belongs_to_market(
                keyed_account.key,
                r->Ok_0.registry_key,
                r->Ok_0.taker_book_key,
            ) && r->Ok_0@ == crate::model::initial_state::<P, B, T>(
                keyed_account.key,
                r->Ok_0.registry_key,
                r->Ok_0.taker_book_key,
            )),
    {
        let is_market = has_discriminator(
            &keyed_account.account.data,
            &layout.market_discriminator,
        );
        if is_market {
            if registry_address(&keyed_account.key).is_none() {
                return None;
            }
            if taker_book_address(&keyed_account.key).is_none() {
                return None;
            }
        }
        Some(Self::from_keyed_account(keyed_account, layout))
    }

    /// The venue's name.
    pub fn label(&self) -> (text: String)
        ensures
            text@ == "Archer"@,
    {
        "Archer".to_string()
    }

    /// The program that runs the market.
    pub fn program_id(&self) -> (id: Pubkey)
        ensures
            id.bytes == ARCHER_PROGRAM_ID,
    {
        Pubkey { bytes: ARCHER_PROGRAM_ID }
    }

    /// The market's address.
    pub fn key(&self) -> (key: Pubkey)
        ensures
            key == self@.market_key,
    {
        self.market_key
    }

    /// The market's two tokens, base first, once they are known.
    pub fn get_reserve_mints(&self) -> (mints: Vec<Pubkey>)
        ensures
            mints@ == crate::model::reserve_mints(self@),
    {
        match &self.market_header {
            Some(header) => {
                let mints = vec![header.base_mint, header.quote_mint];
                assert(mints@ =~= crate::model::reserve_mints(self@));
                mints
            },
            None => Vec::new(),
        }
    }

    /// The accounts that the next update should see.
    pub fn get_accounts_to_update(&self) -> (accounts: Vec<Pubkey>)
        ensures
            accounts@ == crate::model::accounts_to_update(self@),
    {
        let mut accounts = vec![self.market_key, self.registry_key, self.taker_book_key];
        accounts.extend_from_slice(self.maker_book_keys.as_slice());
        if let Some(header) = &self.market_header {
            accounts.push(header.base_mint);
            accounts.push(header.quote_mint);
        }
        assert(accounts@ =~= crate::model::accounts_to_update(self@));
        accounts
    }

    /// Takes over a result of decoding the market's account.
    pub fn set_market(&mut self, decoded: Result<MarketStateHeader<P>, String>) -> (res: Result<
        (),
        AmmError,
    >)
        ensures
            match crate::model::market_set(old(self)@, decoded) {
                Ok(s) => res is Ok && final(self)@ == s,
                Err(e) => res == Err::<(), AmmError>(e) && *final(self) == *old(self),
            },
    {
        match decoded {
            Ok(header) => {
                self.market_header = Some(header);
                Ok(())
            },
            Err(e) => Err(AmmError::MarketUndecodable(e)),
        }
    }

    /// Looks up the token programs of the two mints, once they are known.
    pub fn set_token_programs(&mut self, accounts: &AccountMap)
        ensures
            final(self)@ == crate::model::token_programs_step(old(self)@, accounts@),
    {
        if let Some(header) = &self.market_header {
            let base_mint = header.base_mint;
            let quote_mint = header.quote_mint;
            if let Some(account) = accounts.get(&base_mint) {
                self.base_token_program = detect_token_program_from_data(&account.data);
            }
            if let Some(account) = accounts.get(&quote_mint) {
                self.quote_token_program = detect_token_program_from_data(&account.data);
            }
        }
    }

    /// Takes over a result of decoding the registry.
    pub fn set_registry(&mut self, decoded: Result<MakerRegistry, String>) -> (res: Result<
        (),
        AmmError,
    >)
        ensures
            match crate::model::registry_set(old(self)@, decoded) {
                Ok(s) => res is Ok && final(self)@ == s,
                Err(e) => res == Err::<(), AmmError>(e) && *final(self) == *old(self),
            },
    {
        match decoded {
            Ok(registry) => {
                self.maker_book_keys = registry.active_makers();
                Ok(())
            },
            Err(e) => Err(AmmError::RegistryUndecodable(e)),
        }
    }

    /// Adds the book of the maker `key` if it could be decoded.
    pub fn add_maker_book(&mut self, key: Pubkey, decoded: Result<B, String>)
        ensures
            final(self)@ == (AmmState {
                maker_books: crate::model::book_added(old(self)@.maker_books, key, decoded),
                ..old(self)@
            }),
    {
        if let Ok(book) = decoded {
            self.maker_books.push((key, book));
        }
    }

    /// Takes over a result of decoding the taker order book.
    pub fn set_taker_order_book(&mut self, decoded: Result<T, String>)
        ensures
            final(self)@ == (AmmState {
                taker_order_book: crate::model::decoded_book(decoded),
                ..old(self)@
            }),
    {
        self.taker_order_book = match decoded {
            Ok(book) => Some(Box::new(book)),
            Err(_) => None,
        };
    }

    /// Loads the book of every maker that was fetched. Returns what the decoder said.
    fn load_maker_books<D: StateDecoder<P, B, T>>(
        &mut self,
        accounts: &AccountMap,
        decoder: &D,
    ) -> (decoded: Ghost<Seq<Result<B, String>>>)
        ensures
            crate::model::books_decoded(
                *decoder,
                old(self)@.maker_book_keys,
                accounts@,
                decoded@,
            ),
            final(self)@ == crate::model::maker_books_step(old(self)@, accounts@, decoded@),
    {
        let ghost before = self@;
        let ghost keys = self.maker_book_keys@;
        let ghost mut decoded: Seq<Result<B, String>> = Seq::empty();
        self.maker_books.clear();
        let mut i: usize = 0;
        while i < self.maker_book_keys.len()
            invariant
                i <= keys.len(),
                keys == before.maker_book_keys,
                keys == self.maker_book_keys@,
                decoded.len() == i,
                crate::model::books_decoded(*decoder, keys.take(i as int), accounts@, decoded),
                self@ == (AmmState {
                    maker_books: crate::model::loaded_books(
                        keys.take(i as int),
                        accounts@,
                        decoded,
                    ),
                    ..before
                }),
            decreases keys.len() - i,
        {
            let key = self.maker_book_keys[i];
            let ghost old_decoded = decoded;
            if let Some(account) = accounts.get(&key) {
                let book = decoder.deserialize_maker_book(&account.data);
                proof {
                    decoded = decoded.push(book);
                }
                self.add_maker_book(key, book);
            } else {
                proof {
                    decoded = decoded.push(arbitrary());
                }
            }
            i = i + 1;
            proof {
                assert(keys.take(i as int).drop_last() =~= keys.take(i - 1));
                crate::model::lemma_loaded_books_prefix(
                    keys.take(i - 1),
                    accounts@,
                    old_decoded,
                    decoded,
                );
            }
        }
        assert(keys.take(i as int) =~= keys);
        Ghost(decoded)
    }

    /// Takes over the accounts that were fetched: the header and the token programs, the makers
    /// and their books, and the taker order book.
    pub fn update<D: StateDecoder<P, B, T>>(
        &mut self,
        accounts: &AccountMap,
        layout: &StateLayout,
        decoder: &D,
    ) -> (res: Result<(), AmmError>)
        ensures
            crate::model::update_outcome(
                *decoder,
                old(self)@,
                *layout,
                accounts@,
                res,
                final(self)@,
            ),
            crate::model::valid(old(self)@) ==> crate::model::valid(final(self)@),
    {
        let ghost before = self@;
        let ghost mut decoded: Decoded<P, B, T> = arbitrary();
        if let Some(account) = accounts.get(&self.market_key) {
            let header = decoder.deserialize_market_header(&account.data);
            proof {
                decoded = Decoded { market: header, ..decoded };
            }
            if let Err(e) = self.set_market(header) {
                assert(crate::model::decoded_by(*decoder, before, *layout, accounts@, decoded));
                return Err(e);
            }
        }
        self.set_token_programs(accounts);
        if let Some(account) = accounts.get(&self.registry_key) {
            if account.data.len() >= layout.registry_len && has_discriminator(
                &account.data,
                &layout.registry_discriminator,
            ) {
                let registry = decoder.deserialize_registry(&account.data);
                proof {
                    decoded = Decoded { registry, ..decoded };
                }
                if let Err(e) = self.set_registry(registry) {
                    assert(crate::model::decoded_by(*decoder, before, *layout, accounts@, decoded));
                    return Err(e);
                }
            }
        }
        let books = self.load_maker_books(accounts, decoder);
        proof {
            decoded = Decoded { maker_books: books@, ..decoded };
        }
        self.taker_order_book = None;
        if let Some(account) = accounts.get(&self.taker_book_key) {
            if has_discriminator(&account.data, &layout.taker_order_book_discriminator) {
                let book = decoder.deserialize_taker_order_book(&account.data);
                proof {
                    decoded = Decoded { taker_order_book: book, ..decoded };
                }
                self.set_taker_order_book(book);
            }
        }
        proof {
            assert(crate::model::decoded_by(*decoder, before, *layout, accounts@, decoded));
            if crate::model::valid(before) {
                crate::laws::law_update_keeps_valid(before, *layout, accounts@, decoded);
            }
        }
        Ok(())
    }

    /// The direction of a quote for `params`: whether it buys the base token. Fails where the
    /// market gives no quotes.
    pub fn quote_side(&self, params: &QuoteParams) -> (res: Result<bool, AmmError>)
        ensures
            res == crate::model::quote_side(self@, *params),
    {
        match &self.market_header {
            Some(header) => {
                if !header.is_active() {
                    return Err(AmmError::MarketNotActive);
                }
                Ok(params.input_mint == header.quote_mint)
            },
            None => Err(AmmError::MarketNotLoaded),
        }
    }

    /// What the market gives for `params.amount` of `params.input_mint`.
    pub fn quote<E: QuoteEngine<P, B, T>>(&self, params: &QuoteParams, engine: &E) -> (res: Result<
        Quote,
        AmmError,
    >)
        ensures
            quote_outcome(*engine, *self, *params, res),
    {
        match &self.market_header {
            Some(header) => {
                let is_buy = self.quote_side(params)?;
                let taker_order_book = match &self.taker_order_book {
                    Some(book) => Some(&**book),
                    None => None,
                };
                let output = engine.compute_quote_with_taker_book(
                    params.amount,
                    is_buy,
                    header,
                    &self.maker_books,
                    taker_order_book,
                );
                assert(quoted_by(*engine, *self, params.amount, is_buy, output));
                quote_from_output(params.amount, output)
            },
            None => Err(AmmError::MarketNotLoaded),
        }
    }

    /// The accounts of the instruction that swaps as `params` says.
    pub fn get_swap_and_account_metas(&self, params: &SwapParams) -> (res: Result<
        SwapAndAccountMetas,
        AmmError,
    >)
        ensures
            match crate::model::swap_lots(self@, *params) {
                Err(e) => res == Err::<SwapAndAccountMetas, AmmError>(e),
                Ok(_) => res is Ok && res->Ok_0.swap == Swap::Archer && res->Ok_0.account_metas@
                    == crate::model::swap_accounts(self@, self@.market_header->0, *params),
            },
    {
        let header = match &self.market_header {
            Some(header) => header,
            None => {
                return Err(AmmError::MarketNotLoaded);
            },
        };
        let is_buy = params.source_mint == header.quote_mint;
        let (taker_base, taker_quote) = if is_buy {
            (params.destination_token_account, params.source_token_account)
        } else {
            (params.source_token_account, params.destination_token_account)
        };
        let mut account_metas = vec![
            AccountMeta::new_readonly(params.token_transfer_authority, true),
            AccountMeta::new(self.market_key, false),
        ];
        if self.taker_order_book.is_some() {
            account_metas.push(AccountMeta::new(self.taker_book_key, false));
        }
        account_metas.push(AccountMeta::new_readonly(header.base_mint, false));
        account_metas.push(AccountMeta::new_readonly(header.quote_mint, false));
        account_metas.push(AccountMeta::new(header.base_vault, false));
        account_metas.push(AccountMeta::new(header.quote_vault, false));
        account_metas.push(AccountMeta::new(taker_base, false));
        account_metas.push(AccountMeta::new(taker_quote, false));
        account_metas.push(AccountMeta::new_readonly(self.base_token_program, false));
        account_metas.push(AccountMeta::new_readonly(self.quote_token_program, false));
        account_metas.push(AccountMeta::new_readonly(instructions_sysvar_id(), false));
        let ghost fixed = account_metas@;
        let mut i: usize = 0;
        while i < self.maker_books.len()
            invariant
                i <= self.maker_books.len(),
                account_metas@ == fixed + self.maker_books@.take(i as int).map_values(
                    |entry: (Pubkey, B)| crate::account::writable(entry.0, false),
                ),
            decreases self.maker_books.len() - i,
        {
            account_metas.push(AccountMeta::new(self.maker_books[i].0, false));
            i = i + 1;
            assert(account_metas@ =~= fixed + self.maker_books@.take(i as int).map_values(
                |entry: (Pubkey, B)| crate::account::writable(entry.0, false),
            ));
        }
        let _ = compute_input_lots(header, is_buy, params.in_amount)?;
        assert(self.maker_books@.take(i as int) =~= self.maker_books@);
        assert(account_metas@ =~= crate::model::swap_accounts(self@, *header, *params));
        Ok(SwapAndAccountMetas { swap: Swap::Archer, account_metas })
    }

    /// The payload of the instruction that swaps as `params` says.
    pub fn get_swap_instruction_data(&self, params: &SwapParams) -> (res: Result<Vec<u8>, AmmError>)
        ensures
            match crate::model::swap_lots(self@, *params) {
                Err(e) => res == Err::<Vec<u8>, AmmError>(e),
                Ok(lots) => res is Ok && res->Ok_0@ == crate::swap::swap_payload(
                    lots,
                    crate::model::buys_base(self@.market_header->0, params.source_mint),
                ),
            },
    {
        match &self.market_header {
            Some(header) => {
                let is_buy = params.source_mint == header.quote_mint;
                let lots = compute_input_lots(header, is_buy, params.in_amount)?;
                Ok(swap_instruction_data(lots, is_buy))
            },
            None => Err(AmmError::MarketNotLoaded),
        }
    }

    /// Whether the accounts to update change from one update to the next: the makers' books are
    /// found through the registry.
    pub fn has_dynamic_accounts(&self) -> (yes: bool)
        ensures
            yes,
    {
        true
    }

    /// Whether an update must come before the reserve mints are known: the header holds them.
    pub fn requires_update_for_reserve_mints(&self) -> (yes: bool)
        ensures
            yes,
    {
        true
    }

    /// Whether a quote can fix the amount that comes out.
    pub fn supports_exact_out(&self) -> (yes: bool)
        ensures
            !yes,
    {
        false
    }

    /// Whether the market is known and trades.
    pub fn is_active(&self) -> (yes: bool)
        ensures
            yes == crate::model::active(self@),
    {
        match &self.market_header {
            Some(header) => header.is_active(),
            None => false,
        }
    }

    /// How many accounts a swap instruction lists.
    pub fn get_accounts_len(&self) -> (len: usize)
        requires
            crate::model::accounts_len(self@) <= usize::MAX,
        ensures
            len == crate::model::accounts_len(self@),
    {
        let base: usize = if self.taker_order_book.is_some() {
            12
        } else {
            11
        };
        base + self.maker_books.len()
    }
}

/// `output` is what `engine` returned when it was asked, of the market maker `amm`, what `amount`
/// buys or sells.
pub open spec fn quoted_by<P, B, T, E: QuoteEngine<P, B, T>>(
    engine: E,
    amm: ArcherAmm<P, B, T>,
    amount: u64,
    is_buy: bool,
    output: Result<QuoteOutput, String>,
) -> bool {
    call_ensures(
        E::compute_quote_with_taker_book,
        (
            &engine,
            amount,
            is_buy,
            &amm.market_header->0,
            &amm.maker_books,
            match amm.taker_order_book {
                Some(book) => Some(&*book),
                None => None,
            },
        ),
        output,
    )
}

/// What a quote for `params` with `engine` may answer.
pub open spec fn quote_outcome<P, B, T, E: QuoteEngine<P, B, T>>(
    engine: E,
    amm: ArcherAmm<P, B, T>,
    params: QuoteParams,
    res: Result<Quote, AmmError>,
) -> bool {
    match crate::model::quote_side(amm@, params) {
        Err(e) => res == Err::<Quote, AmmError>(e),
        Ok(is_buy) => exists|output: Result<QuoteOutput, String>| #[trigger]
            quoted_by(engine, amm, params.amount, is_buy, output) && res
                == crate::quote::quote_reply(params.amount, output),
    }
}

/// What `engine` returns follows from what it is asked: the amount and the direction, the header,
/// the entries of the makers' books and the taker order book.
pub open spec fn engine_repeats<P, B, T, E: QuoteEngine<P, B, T>>(engine: E) -> bool {
    forall|
        amount: u64,
        is_buy: bool,
        a: ArcherAmm<P, B, T>,
        b: ArcherAmm<P, B, T>,
        x: Result<QuoteOutput, String>,
        y: Result<QuoteOutput, String>,
    |
        a.market_header == b.market_header && a.maker_books@ == b.maker_books@ && unboxed(
            a.taker_order_book,
        ) == unboxed(b.taker_order_book) && #[trigger] quoted_by(engine, a, amount, is_buy, x)
            && #[trigger] quoted_by(engine, b, amount, is_buy, y) ==> crate::model::same_result(
            x,
            y,
        )
}

/// A clone of a value equals it.
pub open spec fn clones_equal<V: Clone>() -> bool {
    forall|x: V, y: V| #[trigger] cloned(x, y) ==> x == y
}

/// `b` is a clone of the market maker `a`.
pub open spec fn amm_cloned<P: Clone, B: Clone, T: Clone>(
    a: AmmState<P, B, T>,
    b: AmmState<P, B, T>,
) -> bool {
    &&& b.market_key == a.market_key
    &&& b.registry_key == a.registry_key
    &&& b.taker_book_key == a.taker_book_key
    &&& b.maker_book_keys == a.maker_book_keys
    &&& b.base_token_program == a.base_token_program
    &&& b.quote_token_program == a.quote_token_program
    &&& match (a.market_header, b.market_header) {
        (Some(x), Some(y)) => crate::state::header_cloned(x, y),
        (None, None) => true,
        _ => false,
    }
    &&& b.maker_books.len() == a.maker_books.len()
    &&& forall|i: int|
        0 <= i < a.maker_books.len() ==> (#[trigger] b.maker_books[i]).0 == a.maker_books[i].0
            && cloned(a.maker_books[i].1, b.maker_books[i].1)
    &&& match (a.taker_order_book, b.taker_order_book) {
        (Some(x), Some(y)) => cloned(x, y),
        (None, None) => true,
        _ => false,
    }
}

impl<P: Clone, B: Clone, T: Clone> Clone for ArcherAmm<P, B, T> {
    fn clone(&self) -> (amm: Self)
        ensures
            amm_cloned(self@, amm@),
    {
        let market_header = match &self.market_header {
            Some(header) => Some(header.clone()),
            None => None,
        };
        let taker_order_book = match &self.taker_order_book {
            Some(book) => {
                let inner: T = (**book).clone();
                Some(Box::new(inner))
            },
            None => None,
        };
        let mut maker_books: Vec<(Pubkey, B)> = Vec::new();
        let mut i: usize = 0;
        while i < self.maker_books.len()
            invariant
                i <= self.maker_books.len(),
                maker_books.len() == i,
                forall|j: int|
                    0 <= j < i ==> (#[trigger] maker_books@[j]).0 == self.maker_books@[j].0
                        && cloned(self.maker_books@[j].1, maker_books@[j].1),
            decreases self.maker_books.len() - i,
        {
            let entry = &self.maker_books[i];
            maker_books.push((entry.0, entry.1.clone()));
            i = i + 1;
        }
        ArcherAmm {
            market_key: self.market_key,
            registry_key: self.registry_key,
            taker_book_key: self.taker_book_key,
            market_header,
            maker_book_keys: self.maker_book_keys.clone(),
            maker_books,
            taker_order_book,
            base_token_program: self.base_token_program,
            quote_token_program: self.quote_token_program,
        }
    }
}

impl<P: Clone, B: Clone, T: Clone> ArcherAmm<P, B, T> {
    /// A clone of the market maker.
    pub fn clone_amm(&self) -> (amm: Box<Self>)
        ensures
            amm_cloned(self@, amm@),
    {
        Box::new(self.clone())
    }
}

} // verus!
