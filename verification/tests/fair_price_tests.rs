use uber_mm::consts::StrategyError;
use uber_mm::fair_price::get_fair_price_in_ticks;
use uber_mm::fair_price::load_scaled_price;
use uber_mm::fair_price::pow10_u128;
use uber_mm::fair_price::resolve_fair_price;
use uber_mm::fair_price::scale_oracle_price;
use uber_mm::fair_price::OracleFeeds;
use uber_mm::market::MarketFacts;
use uber_mm::oracle::Price;
use uber_mm::oracle::PriceStatus;
use uber_mm::oracle::SimplePrice;

fn facts(quote_decimals: u32, tick_size: u64, raw_base_units: u32) -> MarketFacts {
    MarketFacts {
        discriminant: 8167313896524341111,
        bids_size: 512,
        asks_size: 512,
        num_seats: 128,
        base_mint: [1u8; 32],
        quote_mint: [2u8; 32],
        quote_decimals,
        quote_lot_size: 1,
        tick_size_in_quote_atoms_per_base_unit: tick_size,
        raw_base_units_per_base_unit: raw_base_units,
    }
}

fn reading(price: i64, conf: u64, expo: i32, valid_slot: u64) -> Price {
    let mut feed = Price::default();
    feed.agg.price = price;
    feed.agg.conf = conf;
    feed.agg.status = PriceStatus::Trading;
    feed.expo = expo;
    feed.valid_slot = valid_slot;
    feed
}

#[test]
fn powers_of_ten() {
    assert_eq!(pow10_u128(0), Some(1));
    assert_eq!(pow10_u128(1), Some(10));
    assert_eq!(pow10_u128(12), Some(1_000_000_000_000));
    assert_eq!(pow10_u128(38), Some(100_000_000_000_000_000_000_000_000_000_000_000_000));
    assert_eq!(pow10_u128(39), None);
    assert_eq!(pow10_u128(u32::MAX), None);
}

#[test]
fn oracle_price_is_brought_to_twelve_decimals() {
    // 25.12345678 with eight decimals.
    assert_eq!(
        scale_oracle_price(SimplePrice { expo: -8, price: 2_512_345_678 }),
        Ok(25_123_456_780_000)
    );
    // Without decimals.
    assert_eq!(scale_oracle_price(SimplePrice { expo: 0, price: 3 }), Ok(3_000_000_000_000));
    // More decimals than the common scale keeps: rounded down.
    assert_eq!(
        scale_oracle_price(SimplePrice { expo: -15, price: 1_234_567 }),
        Ok(1_234)
    );
    assert_eq!(scale_oracle_price(SimplePrice { expo: -19, price: i64::MAX }), Ok(922_337_203_685));
    assert_eq!(scale_oracle_price(SimplePrice { expo: -5, price: 0 }), Ok(0));
}

#[test]
fn oracle_price_that_cannot_be_scaled_is_an_arithmetic_error() {
    let refused = Err(StrategyError::ArithmeticOverflowOrUnderflow);
    assert_eq!(scale_oracle_price(SimplePrice { expo: 1, price: 3 }), refused);
    assert_eq!(scale_oracle_price(SimplePrice { expo: i32::MAX, price: 3 }), refused);
    assert_eq!(scale_oracle_price(SimplePrice { expo: -20, price: 3 }), refused);
    assert_eq!(scale_oracle_price(SimplePrice { expo: -40, price: 3 }), refused);
    assert_eq!(scale_oracle_price(SimplePrice { expo: i32::MIN, price: 3 }), refused);
    assert_eq!(scale_oracle_price(SimplePrice { expo: -8, price: -1 }), refused);
}

#[test]
fn fair_price_in_ticks_from_two_scaled_prices() {
    // Base asset at 25, quote asset at 1, six quote decimals, ticks of a
    // thousandth of a quote unit.
    let header = facts(6, 1000, 1);
    assert_eq!(
        get_fair_price_in_ticks(25_000_000_000_000, 1_000_000_000_000, &header),
        Ok(25_000)
    );
    // Quote asset slightly off its peg: 25 / 1.0001 = 24.9975...
    assert_eq!(
        get_fair_price_in_ticks(25_000_000_000_000, 1_000_100_000_000, &header),
        Ok(24_997)
    );
    // A thousand raw base units per base unit.
    let coarse = facts(6, 1000, 1000);
    assert_eq!(
        get_fair_price_in_ticks(25_000_000_000, 1_000_000_000_000, &coarse),
        Ok(25_000)
    );
    assert_eq!(get_fair_price_in_ticks(0, 1_000_000_000_000, &header), Ok(0));
}

#[test]
fn fair_price_is_zero_without_base_units_even_at_huge_decimals() {
    let header = facts(u32::MAX, 1000, 0);
    assert_eq!(get_fair_price_in_ticks(25_000_000_000_000, 1_000_000_000_000, &header), Ok(0));
    let no_base = facts(100, 1000, 7);
    assert_eq!(get_fair_price_in_ticks(0, 1_000_000_000_000, &no_base), Ok(0));
}

#[test]
fn fair_price_with_a_zero_divisor_is_an_arithmetic_error() {
    let refused = Err(StrategyError::ArithmeticOverflowOrUnderflow);
    let header = facts(6, 1000, 1);
    assert_eq!(get_fair_price_in_ticks(25_000_000_000_000, 0, &header), refused);
    let no_tick = facts(6, 0, 1);
    assert_eq!(get_fair_price_in_ticks(25_000_000_000_000, 1_000_000_000_000, &no_tick), refused);
    assert_eq!(get_fair_price_in_ticks(0, 0, &header), refused);
}

#[test]
fn fair_price_beyond_its_integer_types_is_an_arithmetic_error() {
    let refused = Err(StrategyError::ArithmeticOverflowOrUnderflow);
    // Ten to the decimals does not fit 128 bits.
    let header = facts(39, 1000, 1);
    assert_eq!(get_fair_price_in_ticks(1, 1, &header), refused);
    // The numerator does not fit 128 bits.
    let header = facts(19, 1, u32::MAX);
    assert_eq!(get_fair_price_in_ticks(u128::MAX / 2, 1, &header), refused);
    let header = facts(0, 1, 2);
    assert_eq!(get_fair_price_in_ticks(u128::MAX, u128::MAX, &header), refused);
    // The price does not fit 64 bits.
    let header = facts(0, 1, 1);
    assert_eq!(get_fair_price_in_ticks(u64::MAX as u128 + 1, 1, &header), refused);
    assert_eq!(get_fair_price_in_ticks(u64::MAX as u128, 1, &header), Ok(u64::MAX));
    assert_eq!(get_fair_price_in_ticks(u128::MAX, u128::MAX, &header), Ok(1));
}

#[test]
fn raw_reading_is_validated_then_scaled() {
    let feed = reading(2_512_345_678, 1_000_000, -8, 1000);
    assert_eq!(load_scaled_price(&feed, 1010), Ok(25_123_456_780_000));
    assert_eq!(load_scaled_price(&feed, 1050), Err(StrategyError::PythValidSlot));
    let positive_exponent = reading(2_512_345_678, 1_000_000, 2, 1000);
    assert_eq!(
        load_scaled_price(&positive_exponent, 1010),
        Err(StrategyError::ArithmeticOverflowOrUnderflow)
    );
}

#[test]
fn direct_mode_passes_the_price_through() {
    let header = facts(6, 1000, 1);
    assert_eq!(resolve_fair_price(100000, false, None, 1010, &header), Ok(100000));
    assert_eq!(resolve_fair_price(0, false, None, 1010, &header), Ok(0));
    assert_eq!(resolve_fair_price(u64::MAX, false, None, 1010, &header), Ok(u64::MAX));
    // Feeds that are present are not read, not even stale ones.
    let feeds = OracleFeeds { base: reading(-1, 0, 5, 0), quote: reading(-1, 0, 5, 0) };
    assert_eq!(resolve_fair_price(100000, false, Some(&feeds), 1010, &header), Ok(100000));
}

#[test]
fn oracle_mode_derives_the_price_from_both_feeds() {
    let header = facts(6, 1000, 1);
    let feeds = OracleFeeds {
        base: reading(2_500_000_000, 1_000_000, -8, 1000),
        quote: reading(100_000_000, 10_000, -8, 1005),
    };
    assert_eq!(resolve_fair_price(777, true, Some(&feeds), 1010, &header), Ok(25_000));
}

#[test]
fn oracle_mode_without_feeds_is_refused() {
    let header = facts(6, 1000, 1);
    assert_eq!(
        resolve_fair_price(100000, true, None, 1010, &header),
        Err(StrategyError::InvalidStrategyParams)
    );
}

#[test]
fn oracle_mode_fails_with_the_first_feed_that_fails() {
    let header = facts(6, 1000, 1);
    let good = reading(2_500_000_000, 1_000_000, -8, 1000);
    let stale = reading(2_500_000_000, 1_000_000, -8, 900);
    let mut halted = reading(100_000_000, 10_000, -8, 1005);
    halted.agg.status = PriceStatus::Halted;
    let wide = reading(100_000_000, 10_000_001, -8, 1005);
    let zero = reading(0, 0, -8, 1005);
    assert_eq!(
        resolve_fair_price(777, true, Some(&OracleFeeds { base: stale, quote: halted }), 1010, &header),
        Err(StrategyError::PythValidSlot)
    );
    assert_eq!(
        resolve_fair_price(777, true, Some(&OracleFeeds { base: good, quote: halted }), 1010, &header),
        Err(StrategyError::PythStatus)
    );
    assert_eq!(
        resolve_fair_price(777, true, Some(&OracleFeeds { base: wide, quote: stale }), 1010, &header),
        Err(StrategyError::PythConfidence)
    );
    assert_eq!(
        resolve_fair_price(777, true, Some(&OracleFeeds { base: good, quote: zero }), 1010, &header),
        Err(StrategyError::ArithmeticOverflowOrUnderflow)
    );
}
