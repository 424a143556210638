use crate::consts::StrategyError;
use vstd::math::max;
use vstd::math::min;
use vstd::prelude::*;

verus! {

/// How a quote computed from the fair price is moved against the best bid
/// and ask that other traders have on the book.
#[derive(Clone, Copy, Debug, PartialEq, Eq, Structural)]
pub enum PriceImprovementBehavior {
    /// Never quote inside the market, and take the market's own price on a
    /// side where it lies further from the fair price than the margin.
    Ubermensch,
    /// Never quote inside the market.
    Join,
    /// Quote at most one tick inside the market.
    Dime,
    /// Quote from the fair price alone.
    Ignore,
}

/// Bid and ask of a quote, in ticks.
#[derive(Clone, Copy, Debug, PartialEq, Eq, Structural)]
pub struct QuotePrices {
    pub bid_price_in_ticks: u64,
    pub ask_price_in_ticks: u64,
}

impl PriceImprovementBehavior {
    /// The number under which the behavior is stored.
    pub open spec fn spec_to_u8(self) -> u8 {
        match self {
            PriceImprovementBehavior::Ubermensch => 0,
            PriceImprovementBehavior::Join => 1,
            PriceImprovementBehavior::Dime => 2,
            PriceImprovementBehavior::Ignore => 3,
        }
    }

    /// The behavior stored under `byte`, where there is one.
    pub open spec fn spec_try_from_u8(byte: u8) -> Option<Self> {
        if byte == 0 {
            Some(PriceImprovementBehavior::Ubermensch)
        } else if byte == 1 {
            Some(PriceImprovementBehavior::Join)
        } else if byte == 2 {
            Some(PriceImprovementBehavior::Dime)
        } else if byte == 3 {
            Some(PriceImprovementBehavior::Ignore)
        } else {
            None
        }
    }

    /// Encodes the behavior as a number from 0 to 3.
    pub fn to_u8(&self) -> (byte: u8)
        ensures
            byte == self.spec_to_u8(),
            byte <= 3,
            Self::spec_try_from_u8(byte) == Some(*self),
    {
        match self {
            PriceImprovementBehavior::Ubermensch => 0,
            PriceImprovementBehavior::Join => 1,
            PriceImprovementBehavior::Dime => 2,
            PriceImprovementBehavior::Ignore => 3,
        }
    }

    /// Decodes a number from 0 to 3. Other numbers encode no behavior and
    /// are left to `try_from_u8`.
    pub fn from_u8(byte: u8) -> (behavior: Self)
        requires
            byte <= 3,
        ensures
            Some(behavior) == Self::spec_try_from_u8(byte),
            behavior.spec_to_u8() == byte,
    {
        if byte == 0 {
            PriceImprovementBehavior::Ubermensch
        } else if byte == 1 {
            PriceImprovementBehavior::Join
        } else if byte == 2 {
            PriceImprovementBehavior::Dime
        } else {
            PriceImprovementBehavior::Ignore
        }
    }

    /// Decodes any number: one above 3 is refused, never mapped to a
    /// default.
    pub fn try_from_u8(byte: u8) -> (res: Result<Self, StrategyError>)
        ensures
            res is Ok <==> byte <= 3,
            res matches Ok(behavior) ==> Some(behavior) == Self::spec_try_from_u8(byte),
            res matches Err(e) ==> e == StrategyError::InvalidStrategyParams,
    {
        if byte <= 3 {
            Ok(Self::from_u8(byte))
        } else {
            Err(StrategyError::InvalidStrategyParams)
        }
    }

    /// The bid after price improvement.
    pub open spec fn improved_bid(
        self,
        bid_price_in_ticks: u64,
        best_bid: u64,
        fair_price_in_ticks: u64,
        margin: u64,
    ) -> int {
        match self {
            PriceImprovementBehavior::Ubermensch => if best_bid < fair_price_in_ticks - margin {
                best_bid as int
            } else {
                min(bid_price_in_ticks as int, best_bid as int)
            },
            PriceImprovementBehavior::Join => min(bid_price_in_ticks as int, best_bid as int),
            PriceImprovementBehavior::Dime => min(bid_price_in_ticks as int, best_bid + 1),
            PriceImprovementBehavior::Ignore => bid_price_in_ticks as int,
        }
    }

    /// The ask after price improvement.
    pub open spec fn improved_ask(
        self,
        ask_price_in_ticks: u64,
        best_ask: u64,
        fair_price_in_ticks: u64,
        margin: u64,
    ) -> int {
        match self {
            PriceImprovementBehavior::Ubermensch => if best_ask > fair_price_in_ticks + margin {
                best_ask as int
            } else {
                max(ask_price_in_ticks as int, best_ask as int)
            },
            PriceImprovementBehavior::Join => max(ask_price_in_ticks as int, best_ask as int),
            PriceImprovementBehavior::Dime => max(ask_price_in_ticks as int, best_ask - 1),
            PriceImprovementBehavior::Ignore => ask_price_in_ticks as int,
        }
    }

    /// `Dime` has no tick below a best ask of zero or one to quote at, and
    /// refuses such a market.
    pub open spec fn refuses(self, best_ask: u64) -> bool {
        self == PriceImprovementBehavior::Dime && best_ask <= 1
    }

    /// The quote after price improvement, or the arithmetic error where the
    /// behavior refuses the market.
    pub open spec fn improved(
        self,
        quote: QuotePrices,
        best_bid: u64,
        best_ask: u64,
        fair_price_in_ticks: u64,
        margin: u64,
    ) -> Result<QuotePrices, StrategyError> {
        if self.refuses(best_ask) {
            Err(StrategyError::ArithmeticOverflowOrUnderflow)
        } else {
            Ok(
                QuotePrices {
                    bid_price_in_ticks: self.improved_bid(
                        quote.bid_price_in_ticks,
                        best_bid,
                        fair_price_in_ticks,
                        margin,
                    ) as u64,
                    ask_price_in_ticks: self.improved_ask(
                        quote.ask_price_in_ticks,
                        best_ask,
                        fair_price_in_ticks,
                        margin,
                    ) as u64,
                },
            )
        }
    }

    /// Moves `quote` against the best bid and ask of the other traders.
    /// `margin` is read by `Ubermensch` alone. Sums and differences are
    /// those of the integers: a margin above the fair price, or one that
    /// carries the fair price past the largest tick count, simply never
    /// triggers the override.
    pub fn improve(
        &self,
        quote: QuotePrices,
        best_bid: u64,
        best_ask: u64,
        fair_price_in_ticks: u64,
        margin: u64,
    ) -> (res: Result<QuotePrices, StrategyError>)
        ensures
            res == self.improved(quote, best_bid, best_ask, fair_price_in_ticks, margin),
            res is Err <==> self.refuses(best_ask),
    {
        let mut bid: u64 = quote.bid_price_in_ticks;
        let mut ask: u64 = quote.ask_price_in_ticks;
        match self {
            PriceImprovementBehavior::Ubermensch => {
                if ask < best_ask {
                    ask = best_ask;
                }
                if bid > best_bid {
                    bid = best_bid;
                }
                let ask_is_far: bool = match fair_price_in_ticks.checked_add(margin) {
                    Some(limit) => best_ask > limit,
                    None => false,
                };
                if ask_is_far {
                    ask = best_ask;
                }
                let bid_is_far: bool = match fair_price_in_ticks.checked_sub(margin) {
                    Some(limit) => best_bid < limit,
                    None => false,
                };
                if bid_is_far {
                    bid = best_bid;
                }
            },
            PriceImprovementBehavior::Join => {
                if ask < best_ask {
                    ask = best_ask;
                }
                if bid > best_bid {
                    bid = best_bid;
                }
            },
            PriceImprovementBehavior::Dime => {
                if best_ask <= 1 {
                    return Err(StrategyError::ArithmeticOverflowOrUnderflow);
                }
                if ask < best_ask - 1 {
                    ask = best_ask - 1;
                }
                if bid > best_bid && bid - best_bid > 1 {
                    bid = best_bid + 1;
                }
            },
            PriceImprovementBehavior::Ignore => {},
        }
        Ok(QuotePrices { bid_price_in_ticks: bid, ask_price_in_ticks: ask })
    }
}

/// Encoding a behavior and decoding the number gives the behavior back, and
/// the numbers 0 to 3 are the only ones that decode.
pub proof fn lemma_behavior_encoding_round_trips(behavior: PriceImprovementBehavior, byte: u8)
    ensures
        PriceImprovementBehavior::spec_try_from_u8(behavior.spec_to_u8()) == Some(behavior),
        PriceImprovementBehavior::spec_try_from_u8(byte) is Some <==> byte <= 3,
        PriceImprovementBehavior::spec_try_from_u8(byte) matches Some(decoded)
            ==> decoded.spec_to_u8() == byte,
{
}

/// `Dime` never improves on the market by more than one tick: its bid is at
/// most one tick above the best bid, its ask at most one tick below the best
/// ask, and neither is moved towards the fair price.
pub proof fn lemma_dime_improves_by_at_most_one_tick(
    quote: QuotePrices,
    best_bid: u64,
    best_ask: u64,
    fair_price_in_ticks: u64,
    margin: u64,
)
    ensures
        PriceImprovementBehavior::Dime.improved_bid(
            quote.bid_price_in_ticks,
            best_bid,
            fair_price_in_ticks,
            margin,
        ) <= best_bid + 1,
        PriceImprovementBehavior::Dime.improved_ask(
            quote.ask_price_in_ticks,
            best_ask,
            fair_price_in_ticks,
            margin,
        ) >= best_ask - 1,
        best_ask >= 2 ==> (PriceImprovementBehavior::Dime.improved(
            quote,
            best_bid,
            best_ask,
            fair_price_in_ticks,
            margin,
        ) matches Ok(improved) && improved.bid_price_in_ticks <= best_bid + 1
            && improved.bid_price_in_ticks <= quote.bid_price_in_ticks
            && improved.ask_price_in_ticks >= best_ask - 1 && improved.ask_price_in_ticks
            >= quote.ask_price_in_ticks),
{
}

/// `Join` never quotes inside the market: its bid is the lower of the
/// computed bid and the best bid, its ask the higher of the computed ask
/// and the best ask.
pub proof fn lemma_join_stays_outside_the_market(
    quote: QuotePrices,
    best_bid: u64,
    best_ask: u64,
    fair_price_in_ticks: u64,
    margin: u64,
)
    ensures
        PriceImprovementBehavior::Join.improved(
            quote,
            best_bid,
            best_ask,
            fair_price_in_ticks,
            margin,
        ) matches Ok(improved) && improved.bid_price_in_ticks <= quote.bid_price_in_ticks
            && improved.bid_price_in_ticks <= best_bid && improved.ask_price_in_ticks
            >= quote.ask_price_in_ticks && improved.ask_price_in_ticks >= best_ask,
{
}

} // verus!
