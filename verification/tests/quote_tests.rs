use uber_mm::consts::StrategyError;
use uber_mm::quote::get_ask_price_in_ticks;
use uber_mm::quote::get_bid_price_in_ticks;
use uber_mm::quote::get_size_in_base_lots;
use uber_mm::quote::get_size_in_quote_lots;

#[test]
fn quote_around_fair_price_of_one_hundred_thousand() {
    assert_eq!(get_bid_price_in_ticks(100000, 10), Ok(99900));
    assert_eq!(get_ask_price_in_ticks(100000, 10), Ok(100100));
}

#[test]
fn edge_is_rounded_down_to_whole_ticks() {
    // 25 bps of 12345 ticks are 30.8625 ticks.
    assert_eq!(get_bid_price_in_ticks(12345, 25), Ok(12315));
    assert_eq!(get_ask_price_in_ticks(12345, 25), Ok(12375));
}

#[test]
fn edge_below_one_tick_leaves_bid_and_ask_at_the_fair_price() {
    assert_eq!(get_bid_price_in_ticks(100, 10), Ok(100));
    assert_eq!(get_ask_price_in_ticks(100, 10), Ok(100));
    assert_eq!(get_bid_price_in_ticks(999, 10), Ok(999));
    assert_eq!(get_bid_price_in_ticks(1000, 10), Ok(999));
}

#[test]
fn bid_is_refused_when_the_edge_reaches_the_fair_price() {
    assert_eq!(
        get_bid_price_in_ticks(5, 10_000),
        Err(StrategyError::ArithmeticOverflowOrUnderflow)
    );
    assert_eq!(
        get_bid_price_in_ticks(5, 20_000),
        Err(StrategyError::ArithmeticOverflowOrUnderflow)
    );
    assert_eq!(
        get_bid_price_in_ticks(0, 10),
        Err(StrategyError::ArithmeticOverflowOrUnderflow)
    );
    assert_eq!(get_bid_price_in_ticks(5, 9_999), Ok(1));
}

#[test]
fn ask_is_refused_when_it_leaves_the_tick_range() {
    assert_eq!(
        get_ask_price_in_ticks(u64::MAX, 1),
        Err(StrategyError::ArithmeticOverflowOrUnderflow)
    );
    assert_eq!(get_ask_price_in_ticks(u64::MAX, 0), Ok(u64::MAX));
    // Two thirds of the largest tick count plus half of that is the largest tick count.
    assert_eq!(get_ask_price_in_ticks(12297829382473034410, 5_000), Ok(u64::MAX));
    assert_eq!(
        get_ask_price_in_ticks(12297829382473034411, 5_000),
        Err(StrategyError::ArithmeticOverflowOrUnderflow)
    );
    assert_eq!(get_ask_price_in_ticks(0, 10), Ok(0));
}

#[test]
fn edge_is_exact_where_the_product_exceeds_64_bits() {
    let fair: u64 = 2_000_000_000_000_000;
    // 9999 bps of 2 * 10^15 ticks.
    let edge: u64 = 1_999_800_000_000_000;
    assert!((fair as u128) * 9_999 > u64::MAX as u128);
    assert_eq!(get_bid_price_in_ticks(fair, 9_999), Ok(fair - edge));
    assert_eq!(get_ask_price_in_ticks(fair, 9_999), Ok(fair + edge));
}

#[test]
fn quote_is_symmetric_about_the_fair_price() {
    let cases: [(u64, u64); 5] = [(100000, 10), (12345, 25), (7, 5000), (1_000_000, 1), (50, 9_999)];
    for (fair, bps) in cases {
        let edge = bps * fair / 10_000;
        let bid = get_bid_price_in_ticks(fair, bps).unwrap();
        let ask = get_ask_price_in_ticks(fair, bps).unwrap();
        assert_eq!(ask - bid, 2 * edge);
        assert!(bid <= fair && fair <= ask);
        if edge > 0 {
            assert!(bid < fair && fair < ask);
        }
    }
}

#[test]
fn notional_is_converted_to_quote_lots_rounding_down() {
    assert_eq!(get_size_in_quote_lots(1_000_000, 1000), Ok(1000));
    assert_eq!(get_size_in_quote_lots(1_000_999, 1000), Ok(1000));
    assert_eq!(get_size_in_quote_lots(999, 1000), Ok(0));
    assert_eq!(get_size_in_quote_lots(0, 7), Ok(0));
}

#[test]
fn quote_lot_size_of_zero_is_an_arithmetic_error() {
    assert_eq!(
        get_size_in_quote_lots(1_000_000, 0),
        Err(StrategyError::ArithmeticOverflowOrUnderflow)
    );
}

#[test]
fn quote_lots_are_converted_to_base_lots_at_the_price() {
    // 100000 quote lots, 1000 base lots per base unit, 25000 ticks of 10 quote lots.
    assert_eq!(get_size_in_base_lots(100_000, 1000, 25_000, 10), Ok(400));
    // Rounded down: 100000 * 1000 / (25001 * 10) = 399.98...
    assert_eq!(get_size_in_base_lots(100_000, 1000, 25_001, 10), Ok(399));
    assert_eq!(get_size_in_base_lots(100_000, 1000, 24_999, 10), Ok(400));
    assert_eq!(get_size_in_base_lots(0, 1000, 25_000, 10), Ok(0));
    assert_eq!(get_size_in_base_lots(100_000, 0, 25_000, 10), Ok(0));
    assert_eq!(get_size_in_base_lots(1, 1, u64::MAX, u64::MAX), Ok(0));
}

#[test]
fn base_lots_at_a_price_or_tick_size_of_zero_are_an_arithmetic_error() {
    assert_eq!(
        get_size_in_base_lots(100_000, 1000, 0, 10),
        Err(StrategyError::ArithmeticOverflowOrUnderflow)
    );
    assert_eq!(
        get_size_in_base_lots(100_000, 1000, 25_000, 0),
        Err(StrategyError::ArithmeticOverflowOrUnderflow)
    );
}

#[test]
fn base_lots_beyond_64_bits_are_an_arithmetic_error() {
    assert_eq!(
        get_size_in_base_lots(u64::MAX, 2, 1, 1),
        Err(StrategyError::ArithmeticOverflowOrUnderflow)
    );
    assert_eq!(get_size_in_base_lots(u64::MAX, 2, 1, 2), Ok(u64::MAX));
    assert_eq!(get_size_in_base_lots(u64::MAX, u64::MAX, u64::MAX, 1), Ok(u64::MAX));
}

#[test]
fn size_valued_at_its_price_never_exceeds_the_notional() {
    let cases: [(u64, u64, u64, u64, u64); 4] = [
        (1_000_000, 1000, 1000, 25_001, 10),
        (123_456_789, 7, 13, 99_900, 3),
        (5, 10, 1, 1, 1),
        (u64::MAX, 1, 1, 3, 5),
    ];
    for (atoms, lot_size, base_lots_per_base_unit, price, tick_size) in cases {
        let quote_lots = get_size_in_quote_lots(atoms, lot_size).unwrap();
        let base_lots =
            get_size_in_base_lots(quote_lots, base_lots_per_base_unit, price, tick_size).unwrap();
        let valued = (base_lots as u128) * (price as u128) * (tick_size as u128)
            / (base_lots_per_base_unit as u128);
        assert!(valued <= quote_lots as u128);
        assert!(quote_lots <= atoms);
    }
}
