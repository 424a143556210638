use crate::consts::StrategyError;
use crate::consts::BPS_PER_UNIT;
use vstd::prelude::*;

verus! {

/// The distance, in ticks, that an edge of `edge_in_bps` basis points puts
/// between the fair price and each side of the quote, rounded down.
pub open spec fn edge_in_ticks(fair_price_in_ticks: u64, edge_in_bps: u64) -> int {
    edge_in_bps * fair_price_in_ticks / (BPS_PER_UNIT as int)
}

/// The bid of a symmetric quote: the fair price less the edge. There is no
/// bid when the edge reaches the fair price.
pub open spec fn bid_price_in_ticks(fair_price_in_ticks: u64, edge_in_bps: u64) -> Result<
    u64,
    StrategyError,
> {
    let edge = edge_in_ticks(fair_price_in_ticks, edge_in_bps);
    if edge >= fair_price_in_ticks {
        Err(StrategyError::ArithmeticOverflowOrUnderflow)
    } else {
        Ok((fair_price_in_ticks - edge) as u64)
    }
}

/// The ask of a symmetric quote: the fair price plus the edge. There is no
/// ask when the sum leaves the range of a tick count.
pub open spec fn ask_price_in_ticks(fair_price_in_ticks: u64, edge_in_bps: u64) -> Result<
    u64,
    StrategyError,
> {
    let edge = edge_in_ticks(fair_price_in_ticks, edge_in_bps);
    if fair_price_in_ticks + edge > u64::MAX {
        Err(StrategyError::ArithmeticOverflowOrUnderflow)
    } else {
        Ok((fair_price_in_ticks + edge) as u64)
    }
}

/// The product of two 64-bit numbers fits 128 bits.
pub proof fn lemma_product_of_u64_fits_u128(a: u64, b: u64)
    ensures
        0 <= a * b <= u128::MAX,
{
    assert(0 <= a * b <= 0xffff_ffff_ffff_ffff * 0xffff_ffff_ffff_ffff) by (nonlinear_arith)
        requires
            0 <= a <= 0xffff_ffff_ffff_ffff,
            0 <= b <= 0xffff_ffff_ffff_ffff,
    ;
}

/// Computes the edge in ticks in 128 bits, where the product cannot overflow.
fn get_edge_in_ticks(fair_price_in_ticks: u64, edge_in_bps: u64) -> (edge: u128)
    ensures
        edge == edge_in_ticks(fair_price_in_ticks, edge_in_bps),
{
    proof {
        lemma_product_of_u64_fits_u128(edge_in_bps, fair_price_in_ticks);
    }
    let product: u128 = (edge_in_bps as u128) * (fair_price_in_ticks as u128);
    product / (BPS_PER_UNIT as u128)
}

/// The bid price for a fair price and an edge, or the arithmetic error when
/// the edge leaves no room below the fair price.
pub fn get_bid_price_in_ticks(fair_price_in_ticks: u64, edge_in_bps: u64) -> (res: Result<
    u64,
    StrategyError,
>)
    ensures
        res == bid_price_in_ticks(fair_price_in_ticks, edge_in_bps),
        res is Ok <==> edge_in_ticks(fair_price_in_ticks, edge_in_bps) < fair_price_in_ticks,
{
    let edge: u128 = get_edge_in_ticks(fair_price_in_ticks, edge_in_bps);
    if edge >= fair_price_in_ticks as u128 {
        Err(StrategyError::ArithmeticOverflowOrUnderflow)
    } else {
        Ok(fair_price_in_ticks - (edge as u64))
    }
}

/// The ask price for a fair price and an edge, or the arithmetic error when
/// it would exceed the largest tick count.
pub fn get_ask_price_in_ticks(fair_price_in_ticks: u64, edge_in_bps: u64) -> (res: Result<
    u64,
    StrategyError,
>)
    ensures
        res == ask_price_in_ticks(fair_price_in_ticks, edge_in_bps),
        res is Ok <==> fair_price_in_ticks + edge_in_ticks(fair_price_in_ticks, edge_in_bps)
            <= u64::MAX,
{
    let edge: u128 = get_edge_in_ticks(fair_price_in_ticks, edge_in_bps);
    if edge > (u64::MAX - fair_price_in_ticks) as u128 {
        Err(StrategyError::ArithmeticOverflowOrUnderflow)
    } else {
        Ok(fair_price_in_ticks + (edge as u64))
    }
}

/// The notional in quote lots: quote atoms over the quote lot size, rounded
/// down.
pub open spec fn size_in_quote_lots(quote_size_in_quote_atoms: u64, quote_lot_size: u64) -> int {
    quote_size_in_quote_atoms as int / quote_lot_size as int
}

/// The base lots that a notional of `quote_lots` buys or sells at
/// `price_in_ticks`, rounded down. `tick_size` is in quote lots per base
/// unit and tick.
pub open spec fn size_in_base_lots(
    quote_lots: u64,
    base_lots_per_base_unit: u64,
    price_in_ticks: u64,
    tick_size: u64,
) -> int {
    (quote_lots * base_lots_per_base_unit) / (price_in_ticks * tick_size)
}

/// Converts the notional from quote atoms to quote lots. A quote lot size of
/// zero is an arithmetic error.
pub fn get_size_in_quote_lots(quote_size_in_quote_atoms: u64, quote_lot_size: u64) -> (res: Result<
    u64,
    StrategyError,
>)
    ensures
        res is Ok <==> quote_lot_size != 0,
        res matches Ok(lots) ==> lots == size_in_quote_lots(
            quote_size_in_quote_atoms,
            quote_lot_size,
        ),
        res matches Err(e) ==> e == StrategyError::ArithmeticOverflowOrUnderflow,
{
    if quote_lot_size == 0 {
        Err(StrategyError::ArithmeticOverflowOrUnderflow)
    } else {
        Ok(quote_size_in_quote_atoms / quote_lot_size)
    }
}

/// Converts a notional in quote lots to base lots at a price. A price or a
/// tick size of zero, and a size beyond 64 bits, are arithmetic errors.
pub fn get_size_in_base_lots(
    quote_lots: u64,
    base_lots_per_base_unit: u64,
    price_in_ticks: u64,
    tick_size: u64,
) -> (res: Result<u64, StrategyError>)
    ensures
        res is Ok <==> price_in_ticks != 0 && tick_size != 0 && size_in_base_lots(
            quote_lots,
            base_lots_per_base_unit,
            price_in_ticks,
            tick_size,
        ) <= u64::MAX,
        res matches Ok(lots) ==> lots == size_in_base_lots(
            quote_lots,
            base_lots_per_base_unit,
            price_in_ticks,
            tick_size,
        ),
        res matches Err(e) ==> e == StrategyError::ArithmeticOverflowOrUnderflow,
{
    if price_in_ticks == 0 || tick_size == 0 {
        return Err(StrategyError::ArithmeticOverflowOrUnderflow);
    }
    proof {
        lemma_product_of_u64_fits_u128(quote_lots, base_lots_per_base_unit);
        lemma_product_of_u64_fits_u128(price_in_ticks, tick_size);
        assert(price_in_ticks * tick_size > 0) by (nonlinear_arith)
            requires
                price_in_ticks > 0,
                tick_size > 0,
        ;
    }
    let numerator: u128 = (quote_lots as u128) * (base_lots_per_base_unit as u128);
    let denominator: u128 = (price_in_ticks as u128) * (tick_size as u128);
    let lots: u128 = numerator / denominator;
    if lots > u64::MAX as u128 {
        Err(StrategyError::ArithmeticOverflowOrUnderflow)
    } else {
        Ok(lots as u64)
    }
}

/// The quote is symmetric about the fair price: bid and ask lie one edge
/// below and above it, so they are exactly two edges apart, and strictly on
/// either side of the fair price as soon as the edge is a whole tick.
pub proof fn lemma_quote_is_symmetric(fair_price_in_ticks: u64, edge_in_bps: u64)
    requires
        edge_in_bps > 0,
        fair_price_in_ticks > edge_in_ticks(fair_price_in_ticks, edge_in_bps),
        fair_price_in_ticks + edge_in_ticks(fair_price_in_ticks, edge_in_bps) <= u64::MAX,
    ensures
        bid_price_in_ticks(fair_price_in_ticks, edge_in_bps) is Ok,
        ask_price_in_ticks(fair_price_in_ticks, edge_in_bps) is Ok,
        ({
            let bid = bid_price_in_ticks(fair_price_in_ticks, edge_in_bps)->Ok_0;
            let ask = ask_price_in_ticks(fair_price_in_ticks, edge_in_bps)->Ok_0;
            &&& bid <= fair_price_in_ticks <= ask
            &&& ask - bid == 2 * (edge_in_bps * fair_price_in_ticks / 10000)
            &&& edge_in_ticks(fair_price_in_ticks, edge_in_bps) >= 1 ==> bid < fair_price_in_ticks
                < ask
        }),
{
    assert(edge_in_ticks(fair_price_in_ticks, edge_in_bps) >= 0) by (nonlinear_arith)
        requires
            edge_in_ticks(fair_price_in_ticks, edge_in_bps) == (edge_in_bps * fair_price_in_ticks)
                / 10000,
            edge_in_bps >= 0,
            fair_price_in_ticks >= 0,
    ;
}

/// Rounding down never over-allocates: the base lots that the size
/// calculator grants, valued again at the price they were sized for, come
/// to no more than the notional in quote lots, which in turn is no more
/// than the notional in quote atoms.
pub proof fn lemma_size_never_exceeds_notional(
    quote_size_in_quote_atoms: u64,
    quote_lot_size: u64,
    base_lots_per_base_unit: u64,
    price_in_ticks: u64,
    tick_size: u64,
)
    requires
        quote_lot_size > 0,
        base_lots_per_base_unit > 0,
        price_in_ticks > 0,
        tick_size > 0,
    ensures
        ({
            let quote_lots = size_in_quote_lots(quote_size_in_quote_atoms, quote_lot_size);
            let base_lots = size_in_base_lots(
                quote_lots as u64,
                base_lots_per_base_unit,
                price_in_ticks,
                tick_size,
            );
            &&& 0 <= quote_lots <= quote_size_in_quote_atoms
            &&& 0 <= base_lots
            &&& base_lots * price_in_ticks * tick_size / (base_lots_per_base_unit as int)
                <= quote_lots
        }),
{
    let q: int = size_in_quote_lots(quote_size_in_quote_atoms, quote_lot_size);
    assert(0 <= q <= quote_size_in_quote_atoms) by (nonlinear_arith)
        requires
            q == quote_size_in_quote_atoms as int / quote_lot_size as int,
            quote_lot_size > 0,
            quote_size_in_quote_atoms >= 0,
    ;
    let b: int = base_lots_per_base_unit as int;
    let p: int = price_in_ticks as int;
    let t: int = tick_size as int;
    let d: int = p * t;
    let s: int = (q * b) / d;
    assert(s == size_in_base_lots(q as u64, base_lots_per_base_unit, price_in_ticks, tick_size));
    assert(d > 0 && q * b >= 0) by (nonlinear_arith)
        requires
            d == p * t,
            p > 0,
            t > 0,
            q >= 0,
            b > 0,
    ;
    assert(0 <= s && s * d <= q * b) by (nonlinear_arith)
        requires
            s == (q * b) / d,
            d > 0,
            q * b >= 0,
    ;
    assert(s * p * t == s * d) by (nonlinear_arith)
        requires
            d == p * t,
    ;
    assert((s * d) / b <= q) by (nonlinear_arith)
        requires
            s * d <= q * b,
            b > 0,
    ;
}

} // verus!
