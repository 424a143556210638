use crate::consts::StrategyError;
use crate::consts::BIG_NUMBER;
use crate::market::MarketFacts;
use crate::oracle::Price;
use crate::oracle::SimplePrice;
use crate::quote::lemma_product_of_u64_fits_u128;
use vstd::arithmetic::div_mod::lemma_div_denominator;
use vstd::prelude::*;

verus! {

/// Ten to the power of `exponent`.
pub open spec fn pow10(exponent: nat) -> nat
    decreases exponent,
{
    if exponent == 0 {
        1
    } else {
        10 * pow10((exponent - 1) as nat)
    }
}

/// Powers of ten are positive and grow with the exponent.
pub proof fn lemma_pow10_grows(smaller: nat, larger: nat)
    requires
        smaller <= larger,
    ensures
        1 <= pow10(smaller) <= pow10(larger),
    decreases larger,
{
    if smaller == 0 {
        if larger > 0 {
            lemma_pow10_grows(0, (larger - 1) as nat);
        }
    } else {
        lemma_pow10_grows((smaller - 1) as nat, (larger - 1) as nat);
    }
}

/// Ten to the power of `exponent`, where it fits 128 bits.
pub fn pow10_u128(exponent: u32) -> (res: Option<u128>)
    ensures
        res is Some <==> pow10(exponent as nat) <= u128::MAX,
        res matches Some(power) ==> power == pow10(exponent as nat),
{
    let mut power: u128 = 1;
    let mut done: u32 = 0;
    while done < exponent
        invariant
            done <= exponent,
            power == pow10(done as nat),
        decreases exponent - done,
    {
        match power.checked_mul(10) {
            Some(next) => {
                power = next;
            },
            None => {
                proof {
                    lemma_pow10_grows((done + 1) as nat, exponent as nat);
                }
                return None;
            },
        }
        done = done + 1;
    }
    Some(power)
}

/// An oracle price can be brought to the common scale when it is not
/// negative, its exponent is not positive, and the power of ten that the
/// exponent stands for fits 64 bits.
pub open spec fn oracle_price_is_scalable(price: SimplePrice) -> bool {
    &&& price.price >= 0
    &&& price.expo <= 0
    &&& pow10((-price.expo) as nat) <= u64::MAX
}

/// The oracle price at the common scale: `BIG_NUMBER` times the price,
/// divided by ten to the number of decimals that the exponent gives,
/// rounded down.
pub open spec fn scaled_oracle_price(price: SimplePrice) -> int {
    BIG_NUMBER * price.price / (pow10((-price.expo) as nat) as int)
}

/// A price that can be scaled stays within 128 bits at the common scale.
pub proof fn lemma_scaled_oracle_price_fits(price: SimplePrice)
    requires
        oracle_price_is_scalable(price),
    ensures
        0 <= scaled_oracle_price(price) <= BIG_NUMBER * price.price <= u128::MAX,
{
    let numerator: int = BIG_NUMBER * price.price;
    let divisor: int = pow10((-price.expo) as nat) as int;
    lemma_pow10_grows(0, (-price.expo) as nat);
    assert(0 <= numerator <= 1000000000000 * 0x7fff_ffff_ffff_ffff) by (nonlinear_arith)
        requires
            numerator == 1000000000000 * price.price,
            0 <= price.price <= 0x7fff_ffff_ffff_ffff,
    ;
    assert(0 <= numerator / divisor <= numerator) by (nonlinear_arith)
        requires
            0 <= numerator,
            1 <= divisor,
    ;
}

/// Brings a validated oracle price to the common scale, or reports the
/// arithmetic error for a price that cannot be scaled.
pub fn scale_oracle_price(price: SimplePrice) -> (res: Result<u128, StrategyError>)
    ensures
        res is Ok <==> oracle_price_is_scalable(price),
        res matches Ok(scaled) ==> scaled == scaled_oracle_price(price),
        res matches Err(e) ==> e == StrategyError::ArithmeticOverflowOrUnderflow,
{
    if price.price < 0 || price.expo > 0 {
        return Err(StrategyError::ArithmeticOverflowOrUnderflow);
    }
    let decimals: u32 = (-(price.expo as i64)) as u32;
    let divisor: u128 = match pow10_u128(decimals) {
        Some(power) => power,
        None => {
            return Err(StrategyError::ArithmeticOverflowOrUnderflow);
        },
    };
    if divisor > u64::MAX as u128 {
        return Err(StrategyError::ArithmeticOverflowOrUnderflow);
    }
    proof {
        lemma_scaled_oracle_price_fits(price);
        lemma_pow10_grows(0, decimals as nat);
    }
    let numerator: u128 = BIG_NUMBER * (price.price as u128);
    Ok(numerator / divisor)
}

/// What is divided to obtain the fair price: the base price, times ten to
/// the quote asset's decimals, times the raw base units per base unit.
pub open spec fn fair_price_numerator(base_price: u128, header: MarketFacts) -> int {
    base_price * pow10(header.quote_decimals as nat) * header.raw_base_units_per_base_unit
}

/// What the numerator is divided by: the tick size in quote atoms per base
/// unit times the quote price.
pub open spec fn fair_price_denominator(quote_price: u128, header: MarketFacts) -> int {
    header.tick_size_in_quote_atoms_per_base_unit * quote_price
}

/// The fair price in ticks that two prices at the common scale give on a
/// market, rounded down.
pub open spec fn fair_price_in_ticks(base_price: u128, quote_price: u128, header: MarketFacts) -> int {
    fair_price_numerator(base_price, header) / fair_price_denominator(quote_price, header)
}

/// The fair price can be computed: nothing divides by zero, the numerator
/// fits the 128 bits in which it is formed, and the price fits 64 bits.
pub open spec fn fair_price_is_computable(
    base_price: u128,
    quote_price: u128,
    header: MarketFacts,
) -> bool {
    &&& header.tick_size_in_quote_atoms_per_base_unit != 0
    &&& quote_price != 0
    &&& fair_price_numerator(base_price, header) <= u128::MAX
    &&& fair_price_in_ticks(base_price, quote_price, header) <= u64::MAX
}

/// The fair price in ticks from a base-asset and a quote-asset price, both
/// at the common scale, or the arithmetic error where it cannot be computed.
pub fn get_fair_price_in_ticks(base_price: u128, quote_price: u128, header: &MarketFacts) -> (res:
    Result<u64, StrategyError>)
    ensures
        res is Ok <==> fair_price_is_computable(base_price, quote_price, *header),
        res matches Ok(price) ==> price == fair_price_in_ticks(base_price, quote_price, *header),
        res matches Err(e) ==> e == StrategyError::ArithmeticOverflowOrUnderflow,
{
    let tick_size: u128 = header.tick_size_in_quote_atoms_per_base_unit as u128;
    let raw_units: u128 = header.raw_base_units_per_base_unit as u128;
    if tick_size == 0 || quote_price == 0 {
        return Err(StrategyError::ArithmeticOverflowOrUnderflow);
    }
    let ghost power: int = pow10(header.quote_decimals as nat) as int;
    let ghost denominator: int = fair_price_denominator(quote_price, *header);
    proof {
        lemma_pow10_grows(0, header.quote_decimals as nat);
        assert(denominator > 0) by (nonlinear_arith)
            requires
                denominator == tick_size * quote_price,
                tick_size > 0,
                quote_price > 0,
        ;
    }
    if base_price == 0 || raw_units == 0 {
        proof {
            assert(fair_price_numerator(base_price, *header) == 0) by (nonlinear_arith)
                requires
                    fair_price_numerator(base_price, *header) == base_price * power * raw_units,
                    base_price == 0 || raw_units == 0,
            ;
            assert(0int / denominator == 0) by (nonlinear_arith)
                requires
                    denominator > 0,
            ;
        }
        return Ok(0);
    }
    proof {
        assert(fair_price_numerator(base_price, *header) >= base_price * power >= power)
            by (nonlinear_arith)
            requires
                fair_price_numerator(base_price, *header) == base_price * power * raw_units,
                base_price >= 1,
                raw_units >= 1,
                power >= 1,
        ;
    }
    let scale: u128 = match pow10_u128(header.quote_decimals) {
        Some(power) => power,
        None => {
            return Err(StrategyError::ArithmeticOverflowOrUnderflow);
        },
    };
    let scaled: u128 = match base_price.checked_mul(scale) {
        Some(product) => product,
        None => {
            return Err(StrategyError::ArithmeticOverflowOrUnderflow);
        },
    };
    let numerator: u128 = match scaled.checked_mul(raw_units) {
        Some(product) => product,
        None => {
            return Err(StrategyError::ArithmeticOverflowOrUnderflow);
        },
    };
    proof {
        lemma_div_denominator(numerator as int, tick_size as int, quote_price as int);
    }
    let price: u128 = numerator / tick_size / quote_price;
    if price > u64::MAX as u128 {
        Err(StrategyError::ArithmeticOverflowOrUnderflow)
    } else {
        Ok(price as u64)
    }
}

/// The two raw oracle readings of oracle mode: the feed of the base asset
/// and the feed of the quote asset.
#[derive(Clone, Copy, Debug)]
pub struct OracleFeeds {
    pub base: Price,
    pub quote: Price,
}

/// The price at the common scale that a raw reading stands for at
/// `current_slot`: the reading must pass validation, and its price must be
/// scalable.
pub open spec fn trusted_scaled_price(feed: Price, current_slot: u64) -> Result<
    u128,
    StrategyError,
> {
    match feed.validated(current_slot) {
        Err(e) => Err(e),
        Ok(price) => if oracle_price_is_scalable(price) {
            Ok(scaled_oracle_price(price) as u128)
        } else {
            Err(StrategyError::ArithmeticOverflowOrUnderflow)
        },
    }
}

/// The fair price in ticks that oracle mode derives from two readings: the
/// base reading is validated and scaled first, then the quote reading, and
/// the first failure is the result.
pub open spec fn oracle_fair_price(feeds: OracleFeeds, current_slot: u64, header: MarketFacts) -> Result<
    u64,
    StrategyError,
> {
    match trusted_scaled_price(feeds.base, current_slot) {
        Err(e) => Err(e),
        Ok(base_price) => match trusted_scaled_price(feeds.quote, current_slot) {
            Err(e) => Err(e),
            Ok(quote_price) => if fair_price_is_computable(base_price, quote_price, header) {
                Ok(fair_price_in_ticks(base_price, quote_price, header) as u64)
            } else {
                Err(StrategyError::ArithmeticOverflowOrUnderflow)
            },
        },
    }
}

/// The fair price in ticks of an update: in direct mode the price that the
/// caller supplies, unchanged; in oracle mode the price derived from both
/// feeds, which must then be present.
pub open spec fn resolved_fair_price(
    direct_price: u64,
    use_oracle: bool,
    feeds: Option<OracleFeeds>,
    current_slot: u64,
    header: MarketFacts,
) -> Result<u64, StrategyError> {
    if !use_oracle {
        Ok(direct_price)
    } else {
        match feeds {
            None => Err(StrategyError::InvalidStrategyParams),
            Some(feeds) => oracle_fair_price(feeds, current_slot, header),
        }
    }
}

/// Validates one raw reading and brings its price to the common scale.
pub fn load_scaled_price(feed: &Price, current_slot: u64) -> (res: Result<u128, StrategyError>)
    ensures
        res == trusted_scaled_price(*feed, current_slot),
{
    let price: SimplePrice = match feed.load(current_slot) {
        Ok(price) => price,
        Err(e) => {
            return Err(e);
        },
    };
    proof {
        if oracle_price_is_scalable(price) {
            lemma_scaled_oracle_price_fits(price);
        }
    }
    scale_oracle_price(price)
}

/// Resolves the fair price of an update, in ticks.
pub fn resolve_fair_price(
    direct_price: u64,
    use_oracle: bool,
    feeds: Option<&OracleFeeds>,
    current_slot: u64,
    header: &MarketFacts,
) -> (res: Result<u64, StrategyError>)
    ensures
        res == resolved_fair_price(
            direct_price,
            use_oracle,
            match feeds {
                Some(feeds) => Some(*feeds),
                None => None,
            },
            current_slot,
            *header,
        ),
        !use_oracle ==> res == Ok::<u64, StrategyError>(direct_price),
{
    if !use_oracle {
        return Ok(direct_price);
    }
    let feeds: &OracleFeeds = match feeds {
        Some(feeds) => feeds,
        None => {
            return Err(StrategyError::InvalidStrategyParams);
        },
    };
    let base_price: u128 = match load_scaled_price(&feeds.base, current_slot) {
        Ok(price) => price,
        Err(e) => {
            return Err(e);
        },
    };
    let quote_price: u128 = match load_scaled_price(&feeds.quote, current_slot) {
        Ok(price) => price,
        Err(e) => {
            return Err(e);
        },
    };
    get_fair_price_in_ticks(base_price, quote_price, header)
}

} // verus!
