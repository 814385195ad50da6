//! What a swap lists and pays, account by account and byte by byte.
use crate::error::AmmError;
use crate::model::{accounts_len, buys_base, swap_accounts, swap_lots, AmmState};
use crate::pubkey::{Pubkey, INSTRUCTIONS_SYSVAR_ID};
use crate::state::MarketStateHeader;
use crate::swap::{input_lots, swap_payload, SwapParams};
use vstd::prelude::*;

verus! {

/// The accounts of a swap by their index. First the authority, which signs, and the market; then
/// the taker order book if one is held; then nine that are always there; then the books. This
/// says which account stands at each place.
pub proof fn law_swap_account_keys<P, B, T>(
    s: AmmState<P, B, T>,
    header: MarketStateHeader<P>,
    params: SwapParams,
)
    ensures
        ({
            let metas = swap_accounts(s, header, params);
            let k: int = if s.taker_order_book is Some {
                3
            } else {
                2
            };
            let buys = params.source_mint == header.quote_mint;
            &&& metas.len() == k + 9 + s.maker_books.len()
            &&& metas[0].pubkey == params.token_transfer_authority
            &&& metas[1].pubkey == s.market_key
            &&& s.taker_order_book is Some ==> metas[2].pubkey == s.taker_book_key
            &&& metas[k].pubkey == header.base_mint
            &&& metas[k + 1].pubkey == header.quote_mint
            &&& metas[k + 2].pubkey == header.base_vault
            &&& metas[k + 3].pubkey == header.quote_vault
            &&& buys ==> metas[k + 4].pubkey == params.destination_token_account && metas[k
                + 5].pubkey == params.source_token_account
            &&& !buys ==> metas[k + 4].pubkey == params.source_token_account && metas[k + 5].pubkey
                == params.destination_token_account
            &&& metas[k + 6].pubkey == s.base_token_program
            &&& metas[k + 7].pubkey == s.quote_token_program
            &&& metas[k + 8].pubkey.bytes == INSTRUCTIONS_SYSVAR_ID
            &&& forall|j: int|
                0 <= j < s.maker_books.len() ==> metas[k + 9 + j].pubkey == (
                #[trigger] s.maker_books[j]).0
        }),
{
}

/// The flags of the accounts of a swap by their index: the first alone signs; the market, the taker
/// order book, the vaults, the taker's two token accounts and the makers' books are written to, and
/// no other.
pub proof fn law_swap_account_flags<P, B, T>(
    s: AmmState<P, B, T>,
    header: MarketStateHeader<P>,
    params: SwapParams,
)
    ensures
        ({
            let metas = swap_accounts(s, header, params);
            let k: int = if s.taker_order_book is Some {
                3
            } else {
                2
            };
            &&& forall|i: int|
                0 <= i < metas.len() ==> (#[trigger] metas[i]).is_signer == (i == 0)
            &&& !metas[0].is_writable
            &&& metas[1].is_writable
            &&& s.taker_order_book is Some ==> metas[2].is_writable
            &&& !metas[k].is_writable
            &&& !metas[k + 1].is_writable
            &&& metas[k + 2].is_writable
            &&& metas[k + 3].is_writable
            &&& metas[k + 4].is_writable
            &&& metas[k + 5].is_writable
            &&& !metas[k + 6].is_writable
            &&& !metas[k + 7].is_writable
            &&& !metas[k + 8].is_writable
            &&& forall|i: int| k + 9 <= i < metas.len() ==> (#[trigger] metas[i]).is_writable
        }),
{
}

/// Twelve accounts with a taker order book, eleven without, and one for each maker's book.
pub proof fn law_how_many_accounts<P, B, T>(s: AmmState<P, B, T>)
    ensures
        s.taker_order_book is Some ==> accounts_len(s) == 12 + s.maker_books.len(),
        s.taker_order_book is None ==> accounts_len(s) == 11 + s.maker_books.len(),
{
}

/// The lots of an amount: a buy counts in quote lots and a sale in base lots, rounded down; a lot
/// without a size is refused.
pub proof fn law_input_lots<P>(header: MarketStateHeader<P>, is_buy: bool, in_amount: u64)
    ensures
        ({
            let lots = input_lots(header, is_buy, in_amount);
            let quote_lot = header.quote_atoms_per_quote_lot as int;
            let base_lot = header.base_atoms_per_base_lot as int;
            &&& is_buy && quote_lot == 0 ==> lots is Err && lots->Err_0
                == AmmError::QuoteLotSizeZero
            &&& !is_buy && base_lot == 0 ==> lots is Err && lots->Err_0
                == AmmError::BaseLotSizeZero
            &&& is_buy && quote_lot > 0 ==> lots is Ok && lots->Ok_0 as int == in_amount as int
                / quote_lot
            &&& !is_buy && base_lot > 0 ==> lots is Ok && lots->Ok_0 as int == in_amount as int
                / base_lot
        }),
{
    if header.quote_atoms_per_quote_lot > 0 {
        lemma_quotient_fits(in_amount, header.quote_atoms_per_quote_lot);
    }
    if header.base_atoms_per_base_lot > 0 {
        lemma_quotient_fits(in_amount, header.base_atoms_per_base_lot);
    }
}

/// A quotient is no larger than what is divided.
proof fn lemma_quotient_fits(amount: u64, lot: u64)
    requires
        lot > 0,
    ensures
        0 <= amount as int / lot as int <= amount,
{
    vstd::arithmetic::div_mod::lemma_div_is_ordered_by_denominator(amount as int, 1, lot as int);
    vstd::arithmetic::div_mod::lemma_div_pos_is_pos(amount as int, lot as int);
}

/// The lots of a swap: none without a header, and otherwise those of its amount, as a buy exactly
/// where it pays with the quote mint.
pub proof fn law_swap_lots<P, B, T>(s: AmmState<P, B, T>, params: SwapParams)
    ensures
        s.market_header is None ==> swap_lots(s, params) is Err && swap_lots(s, params)->Err_0
            == AmmError::MarketNotLoaded,
        s.market_header matches Some(header) ==> {
            let lots = swap_lots(s, params);
            let buys = params.source_mint == header.quote_mint;
            let quote_lot = header.quote_atoms_per_quote_lot as int;
            let base_lot = header.base_atoms_per_base_lot as int;
            &&& buys && quote_lot == 0 ==> lots is Err && lots->Err_0
                == AmmError::QuoteLotSizeZero
            &&& !buys && base_lot == 0 ==> lots is Err && lots->Err_0 == AmmError::BaseLotSizeZero
            &&& buys && quote_lot > 0 ==> lots is Ok && lots->Ok_0 as int
                == params.in_amount as int / quote_lot
            &&& !buys && base_lot > 0 ==> lots is Ok && lots->Ok_0 as int
                == params.in_amount as int / base_lot
        },
{
    if let Some(header) = s.market_header {
        law_input_lots(header, params.source_mint == header.quote_mint, params.in_amount);
    }
}

/// Whoever pays with the quote mint buys the base token, and whoever pays with anything else sells.
pub proof fn law_who_buys<P>(header: MarketStateHeader<P>, mint: Pubkey)
    ensures
        mint == header.quote_mint ==> buys_base(header, mint),
        mint != header.quote_mint ==> !buys_base(header, mint),
{
}

/// The payload byte by byte: 15; the lots, lowest byte first; eight zeroes; 0 for a buy and 1 for
/// a sale; and a zero.
pub proof fn law_payload_bytes(lots: u64, is_buy: bool)
    ensures
        ({
            let data = swap_payload(lots, is_buy);
            &&& data.len() == 19
            &&& data[0] == 15
            &&& data[1] as int == lots as int % 256
            &&& data[2] as int == lots as int / 0x100 % 256
            &&& data[3] as int == lots as int / 0x1_0000 % 256
            &&& data[4] as int == lots as int / 0x100_0000 % 256
            &&& data[5] as int == lots as int / 0x1_0000_0000 % 256
            &&& data[6] as int == lots as int / 0x100_0000_0000 % 256
            &&& data[7] as int == lots as int / 0x1_0000_0000_0000 % 256
            &&& data[8] as int == lots as int / 0x100_0000_0000_0000 % 256
            &&& forall|i: int| 9 <= i < 17 ==> #[trigger] data[i] == 0
            &&& is_buy ==> data[17] == 0
            &&& !is_buy ==> data[17] == 1
            &&& data[18] == 0
        }),
{
}

} // verus!
