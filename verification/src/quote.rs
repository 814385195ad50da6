//! Quotes: what is asked, what the engine computes, what is answered.
use crate::error::AmmError;
use crate::pubkey::Pubkey;
use crate::state::MarketStateHeader;
use vstd::prelude::*;

verus! {

/// Which of a quote's two amounts is meant to be fixed.
#[derive(Clone, Copy, Debug)]
pub enum SwapMode {
    ExactIn,
    ExactOut,
}

/// A request for a quote: sell `amount` of `input_mint` for the market's other token. The output
/// mint and the mode are the caller's; the market reads the amount as what goes in.
#[derive(Clone, Copy, Debug)]
pub struct QuoteParams {
    pub amount: u64,
    pub input_mint: Pubkey,
    pub output_mint: Pubkey,
    pub swap_mode: SwapMode,
}

/// The answer: `in_amount` is taken and `out_amount` is given.
#[derive(Clone, Copy, Debug, PartialEq)]
pub struct Quote {
    pub in_amount: u64,
    pub out_amount: u64,
}

/// What the engine computes: the amount that comes out, and the fee.
#[derive(Clone, Copy, Debug, PartialEq)]
pub struct QuoteOutput {
    pub out_amount: u64,
    pub fee_amount: u64,
}

/// The engine that matches an amount against the books. Nothing is assumed of what it returns; an
/// error is its message.
pub trait QuoteEngine<P, B, T> {
    /// What `amount` buys or sells against the makers' books and the taker order book.
    fn compute_quote_with_taker_book(
        &self,
        amount: u64,
        is_buy: bool,
        header: &MarketStateHeader<P>,
        maker_books: &Vec<(Pubkey, B)>,
        taker_order_book: Option<&T>,
    ) -> Result<QuoteOutput, String>;
}

/// The answer to a request for `amount`, for what the engine computed.
pub open spec fn quote_reply(amount: u64, output: Result<QuoteOutput, String>) -> Result<
    Quote,
    AmmError,
> {
    match output {
        Ok(out) => Ok(Quote { in_amount: amount, out_amount: out.out_amount }),
        Err(e) => Err(AmmError::NoQuote(e)),
    }
}

/// The answer to a request for `amount`, for what the engine computed. The fee is not passed on.
pub fn quote_from_output(amount: u64, output: Result<QuoteOutput, String>) -> (reply: Result<
    Quote,
    AmmError,
>)
    ensures
        reply == quote_reply(amount, output),
        reply is Ok <==> output is Ok,
        output matches Ok(out) ==> reply->Ok_0.out_amount == out.out_amount && reply->Ok_0.in_amount
            == amount,
{
    match output {
        Ok(out) => Ok(Quote { in_amount: amount, out_amount: out.out_amount }),
        Err(e) => Err(AmmError::NoQuote(e)),
    }
}

} // verus!
