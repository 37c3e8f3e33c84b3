//! Currencies, exchange rates and the conversion fee.

use crate::utils::{fits, quotient, BASIS_POINTS};
use vstd::prelude::*;

verus! {

/// The currencies that can be converted.
#[derive(Clone, Copy, Debug, PartialEq, Eq, Structural)]
pub enum Currency {
    NGN,
    USD,
    EUR,
    GBP,
    BTC,
    ETH,
}

/// An exchange rate and the time it is valid for.
#[derive(Clone, Copy, Debug, PartialEq, Eq, Structural)]
pub struct ExchangeRate {
    pub from_currency: Currency,
    pub to_currency: Currency,
    /// The rate, scaled by `RATE_SCALE`.
    pub rate: i128,
    /// When the rate was set.
    pub updated_at: u64,
    /// For how many seconds it is valid.
    pub validity_duration: u64,
    /// Whether the rate is locked for transactions.
    pub is_locked: bool,
}

impl Currency {
    /// The three-letter code of the currency, as a sequence of characters.
    pub open spec fn code(self) -> Seq<char> {
        match self {
            Currency::NGN => "NGN"@,
            Currency::USD => "USD"@,
            Currency::EUR => "EUR"@,
            Currency::GBP => "GBP"@,
            Currency::BTC => "BTC"@,
            Currency::ETH => "ETH"@,
        }
    }

    /// The three-letter code of the currency.
    pub fn to_string(&self) -> (code: String)
        ensures
            code@ == self.code(),
    {
        match self {
            Currency::NGN => "NGN".to_owned(),
            Currency::USD => "USD".to_owned(),
            Currency::EUR => "EUR".to_owned(),
            Currency::GBP => "GBP".to_owned(),
            Currency::BTC => "BTC".to_owned(),
            Currency::ETH => "ETH".to_owned(),
        }
    }
}

/// The rules of currency conversion.
pub struct ConversionContract;

impl ConversionContract {
    /// The fee on `amount` at `fee_bps` hundredths of a percent, rounded
    /// towards zero.
    pub fn calculate_fee(amount: i128, fee_bps: u32) -> (fee: i128)
        requires
            fits(amount * fee_bps),
        ensures
            fee == quotient(amount * fee_bps, BASIS_POINTS as int),
    {
        (amount * (fee_bps as i128)) / 10000
    }
}

} // verus!
