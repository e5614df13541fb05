//! The strategy's error taxonomy.
use vstd::prelude::*;

verus! {

/// Why an operation failed. Transport failures are retried with backoff,
/// API rejections abandon the current cycle without touching state, missing
/// candle history is a quiet no-op upstream, and risk-limit breaches force a
/// cooldown.
#[derive(Debug, Clone)]
pub enum StrategyError {
    ApiError(String),
    NetworkError(String),
    JsonError(String),
    TradingError(String),
    RiskControlTriggered(String),
}

impl StrategyError {
    /// The message carried by the error, whatever its variant.
    pub fn message(&self) -> (r: String)
        ensures
            r@ == self.spec_message(),
    {
        match self {
            StrategyError::ApiError(m) => m.clone(),
            StrategyError::NetworkError(m) => m.clone(),
            StrategyError::JsonError(m) => m.clone(),
            StrategyError::TradingError(m) => m.clone(),
            StrategyError::RiskControlTriggered(m) => m.clone(),
        }
    }

    pub open spec fn spec_message(&self) -> Seq<char> {
        match self {
            StrategyError::ApiError(m) => m@,
            StrategyError::NetworkError(m) => m@,
            StrategyError::JsonError(m) => m@,
            StrategyError::TradingError(m) => m@,
            StrategyError::RiskControlTriggered(m) => m@,
        }
    }
}

} // verus!
