//! What a quote answers, said of the request, the fields of the market maker and what the engine
//! returned.
use crate::amm::{quote_outcome, quoted_by, ArcherAmm};
use crate::error::AmmError;
use crate::model::{quote_side, AmmState};
use crate::quote::{quote_reply, Quote, QuoteEngine, QuoteOutput, QuoteParams};
use crate::state::MarketStateHeader;
use vstd::prelude::*;

verus! {

/// The amount that the engine gives is passed on as it is, with the amount that was asked for; so
/// is what the engine says when it gives none.
pub proof fn law_reply(amount: u64, output: Result<QuoteOutput, String>)
    ensures
        output matches Ok(out) ==> quote_reply(amount, output) is Ok && quote_reply(
            amount,
            output,
        )->Ok_0.out_amount == out.out_amount && quote_reply(amount, output)->Ok_0.in_amount
            == amount,
        output matches Err(said) ==> quote_reply(amount, output) is Err && quote_reply(
            amount,
            output,
        )->Err_0 == AmmError::NoQuote(said),
{
}

/// A quote buys the base token exactly where it pays with the quote mint; it is refused without a
/// header and while the header is not active, and in no other case.
pub proof fn law_quote_side<P, B, T>(s: AmmState<P, B, T>, params: QuoteParams)
    ensures
        s.market_header is None ==> quote_side(s, params) is Err && quote_side(s, params)->Err_0
            == AmmError::MarketNotLoaded,
        s.market_header matches Some(header) ==> {
            &&& !header.active ==> quote_side(s, params) is Err && quote_side(s, params)->Err_0
                == AmmError::MarketNotActive
            &&& header.active ==> quote_side(s, params) is Ok && quote_side(s, params)->Ok_0 == (
            params.input_mint == header.quote_mint)
        },
{
}

/// Without a header, and on a market that does not trade, a request is refused whatever the engine
/// would say.
pub proof fn law_quote_refused<P, B, T, E: QuoteEngine<P, B, T>>(
    engine: E,
    amm: ArcherAmm<P, B, T>,
    params: QuoteParams,
    res: Result<Quote, AmmError>,
)
    requires
        quote_outcome(engine, amm, params, res),
    ensures
        amm.market_header is None ==> res is Err && res->Err_0 == AmmError::MarketNotLoaded,
        amm.market_header is Some && !amm.market_header->0.active ==> res is Err && res->Err_0
            == AmmError::MarketNotActive,
{
}

/// On a market that trades, the engine is asked for the requested amount, as a buy exactly where
/// the input mint is the quote mint, with the header and all the books that are held. A quote has
/// the amount that the engine gives out and the requested amount in; where the engine gives none,
/// its message is passed on.
pub proof fn law_quote_passed_on<P, B, T, E: QuoteEngine<P, B, T>>(
    engine: E,
    amm: ArcherAmm<P, B, T>,
    params: QuoteParams,
    res: Result<Quote, AmmError>,
    header: MarketStateHeader<P>,
    buys: bool,
    takers: Option<&T>,
)
    requires
        quote_outcome(engine, amm, params, res),
        amm.market_header == Some(header),
        header.active,
        buys == (params.input_mint == header.quote_mint),
        takers is Some <==> amm.taker_order_book is Some,
        amm.taker_order_book is Some ==> *(takers->0) == *(amm.taker_order_book->0),
    ensures
        exists|output: Result<QuoteOutput, String>| #[trigger]
            call_ensures(
                E::compute_quote_with_taker_book,
                (&engine, params.amount, buys, &header, &amm.maker_books, takers),
                output,
            ) && (output is Ok <==> res is Ok) && (output is Ok ==> res->Ok_0.out_amount
                == output->Ok_0.out_amount && res->Ok_0.in_amount == params.amount) && (
            output is Err ==> res->Err_0 == AmmError::NoQuote(output->Err_0)),
{
    let output = choose|output: Result<QuoteOutput, String>| #[trigger]
        quoted_by(engine, amm, params.amount, buys, output) && res == quote_reply(
            params.amount,
            output,
        );
    assert(quoted_by(engine, amm, params.amount, buys, output));
    assert(takers == match amm.taker_order_book {
        Some(book) => Some(&*book),
        None => None,
    });
}

} // verus!
