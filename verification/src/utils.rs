//! Amount, rate and currency helpers.

use crate::conversion::{Currency, ExchangeRate};
use crate::errors::AppError;
use crate::principal::Principal;
use vstd::prelude::*;

verus! {

/// Rates are scaled by ten to the eighth.
pub const RATE_SCALE: i128 = 100_000_000;

/// Fees are given in hundredths of a percent.
pub const BASIS_POINTS: i128 = 10_000;

/// The quotient of `a` by `b`, rounded towards zero. (On a dividend that
/// is not negative, `/` rounds towards zero whatever the divisor's sign.)
pub open spec fn quotient(a: int, b: int) -> int
    recommends
        b != 0,
{
    if a >= 0 {
        a / b
    } else {
        -((-a) / b)
    }
}

/// Whether `n` is an `i128`.
pub open spec fn fits(n: int) -> bool {
    i128::MIN <= n <= i128::MAX
}

/// Refuses an amount that is zero or negative.
pub fn validate_positive_amount(amount: i128) -> (res: Result<(), AppError>)
    ensures
        res is Ok == (amount > 0),
        res matches Err(e) ==> e == AppError::InvalidAmount,
{
    if amount <= 0 {
        return Err(AppError::InvalidAmount);
    }
    Ok(())
}

/// Refuses a timestamp that is not after `now`.
pub fn validate_future_timestamp(now: u64, timestamp: u64) -> (res: Result<(), AppError>)
    ensures
        res is Ok == (timestamp > now),
        res matches Err(e) ==> e == AppError::InvalidTimestamp,
{
    if timestamp <= now {
        return Err(AppError::InvalidTimestamp);
    }
    Ok(())
}

/// Refuses an address whose text is empty.
pub fn validate_address(address: &Principal) -> (res: Result<(), AppError>)
    ensures
        res is Ok == (address@.len() > 0),
        res matches Err(e) ==> e == AppError::InvalidAddress,
{
    if address.as_str().is_empty() {
        return Err(AppError::InvalidAddress);
    }
    Ok(())
}

/// The balances to report of a transfer of `amount`: the payer's and the
/// payee's after it. An amount that is zero or negative is refused.
pub fn transfer_tokens(amount: i128, from_balance_before: i128, to_balance_before: i128) -> (res:
    Result<(i128, i128), AppError>)
    requires
        amount > 0 ==> fits(from_balance_before - amount) && fits(to_balance_before + amount),
    ensures
        res is Ok == (amount > 0),
        res matches Ok(after) ==> after.0 == from_balance_before - amount && after.1
            == to_balance_before + amount,
        res matches Err(e) ==> e == AppError::InvalidAmount,
{
    if amount <= 0 {
        return Err(AppError::InvalidAmount);
    }
    Ok((from_balance_before - amount, to_balance_before + amount))
}

/// The rate between an amount offered and an amount asked, scaled by
/// `RATE_SCALE` and rounded down. Both amounts must be positive.
pub fn compute_exchange_rate(offer_amount: i128, request_amount: i128) -> (res: Result<
    i128,
    AppError,
>)
    requires
        offer_amount * RATE_SCALE <= i128::MAX,
    ensures
        res is Ok == (offer_amount > 0 && request_amount > 0),
        res matches Ok(rate) ==> rate == (offer_amount * RATE_SCALE) / (request_amount as int),
        res matches Err(e) ==> e == AppError::InvalidAmount,
{
    if offer_amount <= 0 || request_amount <= 0 {
        return Err(AppError::InvalidAmount);
    }
    assert(offer_amount * RATE_SCALE >= 0) by (nonlinear_arith)
        requires
            offer_amount > 0,
    ;
    let rate = (offer_amount * RATE_SCALE) / request_amount;
    Ok(rate)
}

/// Refuses a currency that is not among the supported ones.
pub fn validate_currency_support(currency: &Currency, supported_currencies: &Vec<Currency>) -> (res:
    Result<(), AppError>)
    ensures
        res is Ok == supported_currencies@.contains(*currency),
        res matches Err(e) ==> e == AppError::UnsupportedCurrency,
{
    let mut i: usize = 0;
    while i < supported_currencies.len()
        invariant
            i <= supported_currencies.len(),
            forall|k: int| 0 <= k < i ==> supported_currencies@[k] != *currency,
        decreases supported_currencies.len() - i,
    {
        if supported_currencies[i] == *currency {
            return Ok(());
        }
        i += 1;
    }
    Err(AppError::UnsupportedCurrency)
}

/// Refuses a balance below the amount required.
pub fn check_sufficient_balance(user_balance: i128, required_amount: i128) -> (res: Result<
    (),
    AppError,
>)
    ensures
        res is Ok == (user_balance >= required_amount),
        res matches Err(e) ==> e == AppError::InsufficientBalance,
{
    if user_balance < required_amount {
        return Err(AppError::InsufficientBalance);
    }
    Ok(())
}

/// Refuses an amount outside `min_amount ..= max_amount`.
pub fn validate_conversion_limits(amount: i128, min_amount: i128, max_amount: i128) -> (res:
    Result<(), AppError>)
    ensures
        res is Ok == (min_amount <= amount <= max_amount),
        res matches Err(e) ==> e == AppError::ConversionLimitExceeded,
{
    if amount < min_amount || amount > max_amount {
        return Err(AppError::ConversionLimitExceeded);
    }
    Ok(())
}

/// `input_amount` times `exchange_rate`, divided by `rate_precision` and
/// rounded towards zero.
pub fn calculate_conversion_amount(input_amount: i128, exchange_rate: i128, rate_precision: i128) -> (out:
    i128)
    requires
        rate_precision != 0,
        fits(input_amount * exchange_rate),
        fits(quotient(input_amount * exchange_rate, rate_precision as int)),
    ensures
        out == quotient(input_amount * exchange_rate, rate_precision as int),
{
    (input_amount * exchange_rate) / rate_precision
}

/// The platform's fee on `amount` at `fee_basis_points` hundredths of a
/// percent, rounded towards zero.
pub fn calculate_platform_fee(amount: i128, fee_basis_points: u32) -> (fee: i128)
    requires
        fits(amount * fee_basis_points),
    ensures
        fee == quotient(amount * fee_basis_points, BASIS_POINTS as int),
{
    (amount * (fee_basis_points as i128)) / 10000
}

/// The display name of a currency, as a sequence of characters.
pub open spec fn currency_name(currency: Currency) -> Seq<char> {
    match currency {
        Currency::NGN => "Nigerian Naira"@,
        Currency::USD => "US Dollar"@,
        Currency::EUR => "Euro"@,
        Currency::GBP => "British Pound"@,
        Currency::BTC => "Bitcoin"@,
        Currency::ETH => "Ethereum"@,
    }
}

/// The display name of a currency.
pub fn format_currency_name(currency: &Currency) -> (name: &'static str)
    ensures
        name@ == currency_name(*currency),
{
    match currency {
        Currency::NGN => "Nigerian Naira",
        Currency::USD => "US Dollar",
        Currency::EUR => "Euro",
        Currency::GBP => "British Pound",
        Currency::BTC => "Bitcoin",
        Currency::ETH => "Ethereum",
    }
}

/// The sign of a currency, as a sequence of characters.
pub open spec fn currency_symbol(currency: Currency) -> Seq<char> {
    match currency {
        Currency::NGN => "₦"@,
        Currency::USD => "$"@,
        Currency::EUR => "€"@,
        Currency::GBP => "£"@,
        Currency::BTC => "₿"@,
        Currency::ETH => "Ξ"@,
    }
}

/// The sign of a currency.
pub fn get_currency_symbol(currency: &Currency) -> (symbol: &'static str)
    ensures
        symbol@ == currency_symbol(*currency),
{
    match currency {
        Currency::NGN => "₦",
        Currency::USD => "$",
        Currency::EUR => "€",
        Currency::GBP => "£",
        Currency::BTC => "₿",
        Currency::ETH => "Ξ",
    }
}

/// Refuses a lock duration above the longest allowed.
pub fn validate_rate_lock_duration(duration: u64, max_duration: u64) -> (res: Result<(), AppError>)
    ensures
        res is Ok == (duration <= max_duration),
        res matches Err(e) ==> e == AppError::InvalidTimestamp,
{
    if duration > max_duration {
        return Err(AppError::InvalidTimestamp);
    }
    Ok(())
}

/// The balance after a debit or a credit of `amount_change`. A debit above
/// the balance is refused.
pub fn update_balance_atomically(current_balance: i128, amount_change: i128, is_debit: bool) -> (res:
    Result<i128, AppError>)
    requires
        is_debit && current_balance >= amount_change ==> fits(current_balance - amount_change),
        !is_debit ==> fits(current_balance + amount_change),
    ensures
        res is Ok == (!is_debit || current_balance >= amount_change),
        res matches Ok(balance) ==> balance == if is_debit {
            current_balance - amount_change
        } else {
            current_balance + amount_change
        },
        res matches Err(e) ==> e == AppError::InsufficientBalance,
{
    if is_debit {
        if current_balance < amount_change {
            return Err(AppError::InsufficientBalance);
        }
        Ok(current_balance - amount_change)
    } else {
        Ok(current_balance + amount_change)
    }
}

/// Whether a rate set at `rate_updated_at` and valid for
/// `validity_duration` seconds is no longer valid at `current_time`. The
/// last valid instant is `rate_updated_at + validity_duration`.
pub fn is_rate_expired(rate_updated_at: u64, validity_duration: u64, current_time: u64) -> (expired:
    bool)
    ensures
        expired == (current_time > rate_updated_at + validity_duration),
{
    current_time > rate_updated_at && current_time - rate_updated_at > validity_duration
}

impl ExchangeRate {
    /// Whether the rate is no longer valid at `current_time`.
    pub fn is_expired(&self, current_time: u64) -> (expired: bool)
        ensures
            expired == (current_time > self.updated_at + self.validity_duration),
    {
        is_rate_expired(self.updated_at, self.validity_duration, current_time)
    }
}

} // verus!
