//! Why a request to the market maker fails.
use vstd::prelude::*;
use vstd::string::StringExecFns;

verus! {

/// Why a request fails. A message from a decoder or from the quote engine is carried along.
#[derive(Debug, PartialEq)]
pub enum AmmError {
    /// The account is not the account of a market.
    NotAMarket,
    /// The market's account could not be decoded.
    MarketUndecodable(String),
    /// The maker registry could not be decoded.
    RegistryUndecodable(String),
    /// The market's account has not been seen yet.
    MarketNotLoaded,
    /// The market does not trade.
    MarketNotActive,
    /// The quote engine gave no quote.
    NoQuote(String),
    /// The market's quote lot has no size.
    QuoteLotSizeZero,
    /// The market's base lot has no size.
    BaseLotSizeZero,
}

/// The message of an error.
pub open spec fn error_message(error: AmmError) -> Seq<char> {
    match error {
        AmmError::NotAMarket => "Not an Archer market"@,
        AmmError::MarketUndecodable(e) => "Failed to deserialize market: "@ + e@,
        AmmError::RegistryUndecodable(e) => "Failed to deserialize registry: "@ + e@,
        AmmError::MarketNotLoaded => "Market not loaded"@,
        AmmError::MarketNotActive => "Market not active"@,
        AmmError::NoQuote(e) => e@,
        AmmError::QuoteLotSizeZero => "quote lot size is 0"@,
        AmmError::BaseLotSizeZero => "base lot size is 0"@,
    }
}

impl AmmError {
    /// The message of the error.
    pub fn message(&self) -> (text: String)
        ensures
            text@ == error_message(*self),
    {
        match self {
            AmmError::NotAMarket => "Not an Archer market".to_string(),
            AmmError::MarketUndecodable(e) => "Failed to deserialize market: ".to_string().concat(
                e.as_str(),
            ),
            AmmError::RegistryUndecodable(e) => {
                "Failed to deserialize registry: ".to_string().concat(e.as_str())
            },
            AmmError::MarketNotLoaded => "Market not loaded".to_string(),
            AmmError::MarketNotActive => "Market not active".to_string(),
            AmmError::NoQuote(e) => e.clone(),
            AmmError::QuoteLotSizeZero => "quote lot size is 0".to_string(),
            AmmError::BaseLotSizeZero => "base lot size is 0".to_string(),
        }
    }
}

} // verus!
