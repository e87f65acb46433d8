//! Error types for the trading engine.
//!
//! Each failure kind is a tagged variant carrying structured fields, so
//! callers branch on the kind rather than matching message substrings.
//! All errors are values; the engine's functions never panic.

use vstd::prelude::*;

verus! {

/// Trading engine errors.
#[derive(Debug)]
pub enum TradingError {
    /// Invalid configuration; fatal at startup.
    Config(String),
    /// Missing or malformed credentials; fatal per invocation.
    Auth(String),
    /// Exchange transport or response failure; the affected symbol is skipped.
    CoinbaseApi(String),
    /// HTTP request failure.
    Http(String),
    /// Malformed JSON at an exchange or storage boundary.
    Json(String),
    /// Trading logic failure.
    Trading(String),
    /// Business-rule violation on an order; logged and skipped.
    OrderValidation(String),
    /// Rate limit exceeded; carries the retry hint in seconds.
    RateLimit(u64),
    /// Order larger than the cash at hand, in cents.
    InsufficientFunds { required: i64, available: i64 },
    /// No open position for the symbol.
    PositionNotFound(String),
    /// Host runtime failure.
    Worker(String),
    /// State load or save failure; fatal for the invocation.
    Storage(String),
}

impl TradingError {
    /// A short description naming the error kind.
    pub fn describe(&self) -> (r: String)
        ensures
            self is Config ==> r@ == "Configuration error"@,
            self is Auth ==> r@ == "Authentication error"@,
            self is CoinbaseApi ==> r@ == "Coinbase API error"@,
            self is Http ==> r@ == "HTTP error"@,
            self is Json ==> r@ == "JSON error"@,
            self is Trading ==> r@ == "Trading error"@,
            self is OrderValidation ==> r@ == "Order validation error"@,
            self is RateLimit ==> r@ == "Rate limit exceeded"@,
            self is InsufficientFunds ==> r@ == "Insufficient funds"@,
            self is PositionNotFound ==> r@ == "Position not found"@,
            self is Worker ==> r@ == "Worker error"@,
            self is Storage ==> r@ == "Storage error"@,
    {
        match self {
            TradingError::Config(_) => "Configuration error".to_owned(),
            TradingError::Auth(_) => "Authentication error".to_owned(),
            TradingError::CoinbaseApi(_) => "Coinbase API error".to_owned(),
            TradingError::Http(_) => "HTTP error".to_owned(),
            TradingError::Json(_) => "JSON error".to_owned(),
            TradingError::Trading(_) => "Trading error".to_owned(),
            TradingError::OrderValidation(_) => "Order validation error".to_owned(),
            TradingError::RateLimit(_) => "Rate limit exceeded".to_owned(),
            TradingError::InsufficientFunds { .. } => "Insufficient funds".to_owned(),
            TradingError::PositionNotFound(_) => "Position not found".to_owned(),
            TradingError::Worker(_) => "Worker error".to_owned(),
            TradingError::Storage(_) => "Storage error".to_owned(),
        }
    }
}

} // verus!
