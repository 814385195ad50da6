//! Swaps: what is asked, and the payload of the instruction.
use crate::account::AccountMeta;
use crate::error::AmmError;
use crate::pubkey::Pubkey;
use crate::state::MarketStateHeader;
use vstd::bytes::u64_to_le_bytes;
use vstd::prelude::*;

verus! {

/// The first byte of a swap instruction.
pub const SWAP_DISCRIMINATOR: u8 = 15;

/// A request for a swap: `in_amount` of `source_mint` out of `source_token_account`.
#[derive(Clone, Copy, Debug)]
pub struct SwapParams {
    pub source_mint: Pubkey,
    pub source_token_account: Pubkey,
    pub destination_token_account: Pubkey,
    pub token_transfer_authority: Pubkey,
    pub in_amount: u64,
}

/// The venue of a swap.
#[derive(Clone, Copy, Debug, PartialEq)]
pub enum Swap {
    Archer,
}

/// The venue of a swap and the accounts of its instruction.
#[derive(Debug)]
pub struct SwapAndAccountMetas {
    pub swap: Swap,
    pub account_metas: Vec<AccountMeta>,
}

/// How many whole lots `in_amount` is: quote lots for a buy, base lots for a sale.
pub open spec fn input_lots<P>(
    header: MarketStateHeader<P>,
    is_buy: bool,
    in_amount: u64,
) -> Result<u64, AmmError> {
    if is_buy {
        if header.quote_atoms_per_quote_lot == 0 {
            Err(AmmError::QuoteLotSizeZero)
        } else {
            Ok((in_amount / header.quote_atoms_per_quote_lot) as u64)
        }
    } else {
        if header.base_atoms_per_base_lot == 0 {
            Err(AmmError::BaseLotSizeZero)
        } else {
            Ok((in_amount / header.base_atoms_per_base_lot) as u64)
        }
    }
}

/// How many whole lots `in_amount` is: quote lots for a buy, base lots for a sale.
pub fn compute_input_lots<P>(header: &MarketStateHeader<P>, is_buy: bool, in_amount: u64) -> (lots:
    Result<u64, AmmError>)
    ensures
        lots == input_lots(*header, is_buy, in_amount),
{
    if is_buy {
        match in_amount.checked_div(header.quote_atoms_per_quote_lot) {
            Some(lots) => Ok(lots),
            None => Err(AmmError::QuoteLotSizeZero),
        }
    } else {
        match in_amount.checked_div(header.base_atoms_per_base_lot) {
            Some(lots) => Ok(lots),
            None => Err(AmmError::BaseLotSizeZero),
        }
    }
}

/// The side of a swap as the program numbers it: 0 bids for the base token, 1 offers it.
pub open spec fn side_byte(is_buy: bool) -> u8 {
    if is_buy {
        0
    } else {
        1
    }
}

/// The eight bytes of `x`, the lowest first.
pub open spec fn le_bytes(x: u64) -> Seq<u8> {
    seq![
        (x % 0x100) as u8,
        (x / 0x100 % 0x100) as u8,
        (x / 0x1_0000 % 0x100) as u8,
        (x / 0x100_0000 % 0x100) as u8,
        (x / 0x1_0000_0000 % 0x100) as u8,
        (x / 0x100_0000_0000 % 0x100) as u8,
        (x / 0x1_0000_0000_0000 % 0x100) as u8,
        (x / 0x100_0000_0000_0000 % 0x100) as u8,
    ]
}

/// Shifting and masking gives the same bytes as dividing.
proof fn lemma_le_bytes(x: u64)
    ensures
        vstd::bytes::spec_u64_to_le_bytes(x) == le_bytes(x),
{
    vstd::bytes::spec_u64_to_le_bytes_to_open(x);
    assert({
        &&& x & 0xff == x % 0x100
        &&& (x >> 8) & 0xff == x / 0x100 % 0x100
        &&& (x >> 16) & 0xff == x / 0x1_0000 % 0x100
        &&& (x >> 24) & 0xff == x / 0x100_0000 % 0x100
        &&& (x >> 32) & 0xff == x / 0x1_0000_0000 % 0x100
        &&& (x >> 40) & 0xff == x / 0x100_0000_0000 % 0x100
        &&& (x >> 48) & 0xff == x / 0x1_0000_0000_0000 % 0x100
        &&& (x >> 56) & 0xff == x / 0x100_0000_0000_0000 % 0x100
    }) by (bit_vector);
}

/// Different numbers have different bytes.
pub proof fn lemma_le_bytes_injective(x: u64, y: u64)
    requires
        le_bytes(x) == le_bytes(y),
    ensures
        x == y,
{
    lemma_le_bytes(x);
    lemma_le_bytes(y);
    vstd::bytes::lemma_auto_spec_u64_to_from_le_bytes();
}

/// The payload of a swap of `lots` lots: the discriminator, the lots, eight bytes of zero,
/// the side, and a last byte of zero.
pub open spec fn swap_payload(lots: u64, is_buy: bool) -> Seq<u8> {
    seq![SWAP_DISCRIMINATOR] + le_bytes(lots) + le_bytes(0) + seq![side_byte(is_buy), 0u8]
}

/// The payload of a swap of `lots` lots.
pub fn swap_instruction_data(lots: u64, is_buy: bool) -> (data: Vec<u8>)
    ensures
        data@ == swap_payload(lots, is_buy),
        data@.len() == 19,
{
    let mut data: Vec<u8> = Vec::with_capacity(19);
    data.push(SWAP_DISCRIMINATOR);
    let mut lots_bytes: Vec<u8> = u64_to_le_bytes(lots);
    data.append(&mut lots_bytes);
    let mut zero_bytes: Vec<u8> = u64_to_le_bytes(0);
    data.append(&mut zero_bytes);
    let side: u8 = if is_buy {
        0
    } else {
        1
    };
    data.push(side);
    data.push(0u8);
    proof {
        lemma_le_bytes(lots);
        lemma_le_bytes(0);
        assert(data@ =~= swap_payload(lots, is_buy));
    }
    data
}

} // verus!
