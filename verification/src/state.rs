//! The state of a market as its accounts hold it.
//!
//! The byte layout of the accounts is a matter of the Archer program: a `StateDecoder` knows it.
//! What is said here is which accounts are decoded at all, and what of the result counts.
use crate::pubkey::{Pubkey, SPL_TOKEN_PROGRAM, TOKEN_2022_PROGRAM};
use vstd::prelude::*;

verus! {

/// The header of a market. `pricing` is what only quoting reads.
#[derive(Debug)]
pub struct MarketStateHeader<P> {
    pub base_mint: Pubkey,
    pub quote_mint: Pubkey,
    pub base_vault: Pubkey,
    pub quote_vault: Pubkey,
    pub base_atoms_per_base_lot: u64,
    pub quote_atoms_per_quote_lot: u64,
    pub active: bool,
    pub pricing: P,
}

impl<P> MarketStateHeader<P> {
    /// Whether the market trades.
    pub fn is_active(&self) -> (active: bool)
        ensures
            active == self.active,
    {
        self.active
    }
}

/// `b` is a clone of the header `a`.
pub open spec fn header_cloned<P: Clone>(a: MarketStateHeader<P>, b: MarketStateHeader<P>) -> bool {
    &&& b.base_mint == a.base_mint
    &&& b.quote_mint == a.quote_mint
    &&& b.base_vault == a.base_vault
    &&& b.quote_vault == a.quote_vault
    &&& b.base_atoms_per_base_lot == a.base_atoms_per_base_lot
    &&& b.quote_atoms_per_quote_lot == a.quote_atoms_per_quote_lot
    &&& b.active == a.active
    &&& cloned(a.pricing, b.pricing)
}

impl<P: Clone> Clone for MarketStateHeader<P> {
    fn clone(&self) -> (header: Self)
        ensures
            header_cloned(*self, header),
    {
        MarketStateHeader {
            base_mint: self.base_mint,
            quote_mint: self.quote_mint,
            base_vault: self.base_vault,
            quote_vault: self.quote_vault,
            base_atoms_per_base_lot: self.base_atoms_per_base_lot,
            quote_atoms_per_quote_lot: self.quote_atoms_per_quote_lot,
            active: self.active,
            pricing: self.pricing.clone(),
        }
    }
}

/// The makers of a market. The first `num_makers` slots are in use, never more than there are.
pub struct MakerRegistry {
    num_makers: usize,
    makers: Vec<Pubkey>,
}

impl MakerRegistry {
    #[verifier::type_invariant]
    spec fn slots_suffice(self) -> bool {
        self.num_makers <= self.makers.len()
    }

    /// The makers in the slots that are in use.
    pub closed spec fn active(self) -> Seq<Pubkey> {
        self.makers@.take(self.num_makers as int)
    }

    /// A registry with the slots `makers`, of which `num_makers` are in use. There is none where
    /// the slots do not suffice.
    pub fn new(num_makers: usize, makers: Vec<Pubkey>) -> (registry: Option<Self>)
        ensures
            registry is Some <==> num_makers <= makers@.len(),
            registry matches Some(r) ==> r.active() == makers@.take(num_makers as int),
    {
        if num_makers <= makers.len() {
            Some(MakerRegistry { num_makers, makers })
        } else {
            None
        }
    }

    /// The makers in the slots that are in use.
    pub fn active_makers(&self) -> (keys: Vec<Pubkey>)
        ensures
            keys@ == self.active(),
    {
        proof {
            use_type_invariant(self);
        }
        let mut keys: Vec<Pubkey> = Vec::new();
        let mut i: usize = 0;
        while i < self.num_makers
            invariant
                i <= self.num_makers <= self.makers.len(),
                keys@ == self.makers@.take(i as int),
            decreases self.num_makers - i,
        {
            keys.push(self.makers[i]);
            i = i + 1;
            assert(keys@ =~= self.makers@.take(i as int));
        }
        keys
    }
}

/// What tells the Archer program's accounts apart before they are decoded: the first eight bytes
/// of each kind, and the size of a registry.
#[derive(Clone, Copy, Debug)]
pub struct StateLayout {
    pub market_discriminator: [u8; 8],
    pub registry_discriminator: [u8; 8],
    pub taker_order_book_discriminator: [u8; 8],
    pub registry_len: usize,
}

/// The decoders of the Archer program's accounts. Nothing is assumed of what they return; an error
/// is its message.
pub trait StateDecoder<P, B, T> {
    /// Decodes the account of a market.
    fn deserialize_market_header(&self, data: &Vec<u8>) -> Result<MarketStateHeader<P>, String>;

    /// Decodes a maker registry.
    fn deserialize_registry(&self, data: &Vec<u8>) -> Result<MakerRegistry, String>;

    /// Decodes the book of one maker.
    fn deserialize_maker_book(&self, data: &Vec<u8>) -> Result<B, String>;

    /// Decodes a taker order book.
    fn deserialize_taker_order_book(&self, data: &Vec<u8>) -> Result<T, String>;
}

/// `data` starts with `discriminator`.
pub open spec fn starts_with(data: Seq<u8>, discriminator: Seq<u8>) -> bool {
    &&& data.len() >= discriminator.len()
    &&& data.take(discriminator.len() as int) == discriminator
}

/// Whether `data` starts with `discriminator`.
pub fn has_discriminator(data: &Vec<u8>, discriminator: &[u8; 8]) -> (yes: bool)
    ensures
        yes == starts_with(data@, discriminator@),
        yes <==> data@.len() >= 8 && (forall|i: int|
            0 <= i < 8 ==> #[trigger] data@[i] == discriminator@[i]),
{
    if data.len() < 8 {
        return false;
    }
    let mut i: usize = 0;
    while i < 8
        invariant
            i <= 8 <= data.len(),
            forall|j: int| 0 <= j < i ==> data@[j] == discriminator@[j],
        decreases 8 - i,
    {
        if data[i] != discriminator[i] {
            assert(data@.take(8)[i as int] != discriminator@[i as int]);
            return false;
        }
        i = i + 1;
    }
    assert(data@.take(8) =~= discriminator@);
    true
}

/// `data` is the account of a market.
pub open spec fn is_market(layout: StateLayout, data: Seq<u8>) -> bool {
    starts_with(data, layout.market_discriminator@)
}

/// `data` is a maker registry.
pub open spec fn is_registry(layout: StateLayout, data: Seq<u8>) -> bool {
    &&& data.len() >= layout.registry_len
    &&& starts_with(data, layout.registry_discriminator@)
}

/// `data` is a taker order book.
pub open spec fn is_taker_order_book(layout: StateLayout, data: Seq<u8>) -> bool {
    starts_with(data, layout.taker_order_book_discriminator@)
}

/// The size of a mint account without extensions.
pub const MINT_LEN: usize = 82;

/// The token program that owns a mint with `len` bytes of data: one that is longer than a plain
/// mint has extensions.
pub open spec fn token_program(len: nat) -> Pubkey {
    if len > MINT_LEN {
        Pubkey { bytes: TOKEN_2022_PROGRAM }
    } else {
        Pubkey { bytes: SPL_TOKEN_PROGRAM }
    }
}

/// The token program that owns the mint with the data `mint_data`.
pub fn detect_token_program_from_data(mint_data: &Vec<u8>) -> (program: Pubkey)
    ensures
        program == token_program(mint_data@.len()),
        mint_data@.len() > 82 ==> program.bytes == TOKEN_2022_PROGRAM,
        mint_data@.len() <= 82 ==> program.bytes == SPL_TOKEN_PROGRAM,
{
    if mint_data.len() > MINT_LEN {
        Pubkey { bytes: TOKEN_2022_PROGRAM }
    } else {
        Pubkey { bytes: SPL_TOKEN_PROGRAM }
    }
}

} // verus!
