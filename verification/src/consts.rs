use vstd::prelude::*;

verus! {

/// Discriminant that opens every Phoenix market account.
pub const PHOENIX_MARKET_DISCRIMINANT: u64 = 8167313896524341111;

/// Common fixed-point scale to which oracle prices are brought (10^12).
pub const BIG_NUMBER: u128 = 1000000000000;

/// Basis points in one whole.
pub const BPS_PER_UNIT: u64 = 10_000;

/// A price feed is stale once its valid slot lies this many slots behind the
/// current one. The window is a deployment choice, not a property of the
/// arithmetic.
pub const MAX_ORACLE_SLOT_AGE: u64 = 50;

/// The confidence interval, multiplied by this factor, must not exceed the
/// price: the interval stays within a tenth of the price.
pub const ORACLE_CONFIDENCE_FACTOR: u64 = 10;

/// Best bid reported for an empty (or entirely own) bid side.
pub const NO_BID_PRICE_IN_TICKS: u64 = 1;

/// Best ask reported for an empty (or entirely own) ask side.
pub const NO_ASK_PRICE_IN_TICKS: u64 = u64::MAX;

/// Every way in which an instruction of the strategy can fail. Each failure
/// aborts the invocation; nothing is retried inside the library.
#[derive(Clone, Copy, Debug, PartialEq, Eq, Structural)]
pub enum StrategyError {
    /// The order transport returned data that is not a list of order ids.
    NoReturnData,
    /// A strategy parameter does not decode: an unknown price-improvement
    /// behavior, or oracle mode without both feeds.
    InvalidStrategyParams,
    /// The quote edge must be strictly positive.
    EdgeMustBeNonZero,
    /// The market account is not owned by Phoenix or does not carry the
    /// market discriminant.
    InvalidPhoenixProgram,
    /// The market account's bytes could not be read as a market header.
    FailedToDeserializePhoenixMarket,
    /// The price feed is not in trading status.
    PythStatus,
    /// The price feed is stale.
    PythValidSlot,
    /// The price feed reports a negative price.
    PythNegativePrice,
    /// The price feed's confidence interval is too wide for its price.
    PythConfidence,
    /// A quantity cannot be computed: a subtraction would go below zero, a
    /// result does not fit its integer type, or a divisor is zero.
    ArithmeticOverflowOrUnderflow,
}

} // verus!
