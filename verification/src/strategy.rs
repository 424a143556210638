use crate::bytes::le_u64;
use crate::consts::StrategyError;
use crate::consts::PHOENIX_MARKET_DISCRIMINANT;
use crate::fair_price::resolve_fair_price;
use crate::fair_price::resolved_fair_price;
use crate::fair_price::OracleFeeds;
use crate::market::get_best_bid_and_ask;
use crate::market::load_header;
use crate::market::own_trader_index;
use crate::market::phoenix_program_id;
use crate::market::resting_order;
use crate::market::BookSnapshot;
use crate::market::MarketFacts;
use crate::market::OrderId;
use crate::market::Side;
use crate::market::MARKET_HEADER_SIZE;
use crate::policy::PriceImprovementBehavior;
use crate::policy::QuotePrices;
use crate::quote::ask_price_in_ticks;
use crate::quote::bid_price_in_ticks;
use crate::quote::get_ask_price_in_ticks;
use crate::quote::get_bid_price_in_ticks;
use crate::quote::get_size_in_base_lots;
use crate::quote::get_size_in_quote_lots;
use crate::quote::size_in_base_lots;
use crate::quote::size_in_quote_lots;
use crate::reconcile::DesiredQuote;
use crate::reconcile::QuoteUpdate;
use crate::state::OrderParams;
use crate::state::PhoenixStrategyState;
use vstd::prelude::*;

verus! {

/// The base lots to quote on one side at `price_in_ticks`, for a notional
/// of `quote_size_in_quote_atoms`, or the arithmetic error where a divisor
/// is zero or the size leaves 64 bits.
pub open spec fn side_size(
    quote_size_in_quote_atoms: u64,
    quote_lot_size: u64,
    market: BookSnapshot,
    price_in_ticks: u64,
) -> Result<u64, StrategyError> {
    let quote_lots = size_in_quote_lots(quote_size_in_quote_atoms, quote_lot_size) as u64;
    let base_lots = size_in_base_lots(
        quote_lots,
        market.base_lots_per_base_unit,
        price_in_ticks,
        market.tick_size_in_quote_lots_per_base_unit,
    );
    if quote_lot_size == 0 || price_in_ticks == 0 || market.tick_size_in_quote_lots_per_base_unit
        == 0 || base_lots > u64::MAX {
        Err(StrategyError::ArithmeticOverflowOrUnderflow)
    } else {
        Ok(base_lots as u64)
    }
}

impl PhoenixStrategyState {
    /// The quote that the strategy wants around `fair_price_in_ticks`: bid
    /// and ask one edge away from the fair price, moved by the
    /// price-improvement behavior against the best bid and ask of the other
    /// traders, each with the size that the notional buys at its price.
    ///
    /// The steps are taken in this order and the first that fails gives the
    /// error: the bid, the ask, decoding the behavior, the price
    /// improvement, the bid size, the ask size.
    pub open spec fn desired_quote(
        self,
        fair_price_in_ticks: u64,
        margin: u64,
        header: MarketFacts,
        market: BookSnapshot,
        trader_index: Option<u32>,
    ) -> Result<DesiredQuote, StrategyError> {
        let own = own_trader_index(trader_index);
        match bid_price_in_ticks(fair_price_in_ticks, self.quote_edge_in_bps) {
            Err(e) => Err(e),
            Ok(bid) => match ask_price_in_ticks(fair_price_in_ticks, self.quote_edge_in_bps) {
                Err(e) => Err(e),
                Ok(ask) => match PriceImprovementBehavior::spec_try_from_u8(
                    self.price_improvement_behavior,
                ) {
                    None => Err(StrategyError::InvalidStrategyParams),
                    Some(behavior) => match behavior.improved(
                        QuotePrices { bid_price_in_ticks: bid, ask_price_in_ticks: ask },
                        market.best_bid(own),
                        market.best_ask(own),
                        fair_price_in_ticks,
                        margin,
                    ) {
                        Err(e) => Err(e),
                        Ok(prices) => match side_size(
                            self.quote_size_in_quote_atoms,
                            header.quote_lot_size,
                            market,
                            prices.bid_price_in_ticks,
                        ) {
                            Err(e) => Err(e),
                            Ok(bid_size) => match side_size(
                                self.quote_size_in_quote_atoms,
                                header.quote_lot_size,
                                market,
                                prices.ask_price_in_ticks,
                            ) {
                                Err(e) => Err(e),
                                Ok(ask_size) => Ok(
                                    DesiredQuote {
                                        bid_price_in_ticks: prices.bid_price_in_ticks,
                                        ask_price_in_ticks: prices.ask_price_in_ticks,
                                        bid_size_in_base_lots: bid_size,
                                        ask_size_in_base_lots: ask_size,
                                    },
                                ),
                            },
                        },
                    },
                },
            },
        }
    }

    /// Computes the quote that the strategy wants around the fair price.
    pub fn get_desired_quote(
        &self,
        fair_price_in_ticks: u64,
        margin: u64,
        header: &MarketFacts,
        market: &BookSnapshot,
        trader_index: Option<u32>,
    ) -> (res: Result<DesiredQuote, StrategyError>)
        ensures
            res == self.desired_quote(fair_price_in_ticks, margin, *header, *market, trader_index),
    {
        let bid: u64 = match get_bid_price_in_ticks(fair_price_in_ticks, self.quote_edge_in_bps) {
            Ok(bid) => bid,
            Err(e) => {
                return Err(e);
            },
        };
        let ask: u64 = match get_ask_price_in_ticks(fair_price_in_ticks, self.quote_edge_in_bps) {
            Ok(ask) => ask,
            Err(e) => {
                return Err(e);
            },
        };
        let own: u64 = match trader_index {
            Some(index) => index as u64,
            None => u32::MAX as u64,
        };
        let best: (u64, u64) = get_best_bid_and_ask(market, own);
        let behavior: PriceImprovementBehavior = match PriceImprovementBehavior::try_from_u8(
            self.price_improvement_behavior,
        ) {
            Ok(behavior) => behavior,
            Err(e) => {
                return Err(e);
            },
        };
        let prices: QuotePrices = match behavior.improve(
            QuotePrices { bid_price_in_ticks: bid, ask_price_in_ticks: ask },
            best.0,
            best.1,
            fair_price_in_ticks,
            margin,
        ) {
            Ok(prices) => prices,
            Err(e) => {
                return Err(e);
            },
        };
        let quote_lots: u64 = match get_size_in_quote_lots(
            self.quote_size_in_quote_atoms,
            header.quote_lot_size,
        ) {
            Ok(lots) => lots,
            Err(e) => {
                return Err(e);
            },
        };
        let bid_size: u64 = match get_size_in_base_lots(
            quote_lots,
            market.base_lots_per_base_unit,
            prices.bid_price_in_ticks,
            market.tick_size_in_quote_lots_per_base_unit,
        ) {
            Ok(lots) => lots,
            Err(e) => {
                return Err(e);
            },
        };
        let ask_size: u64 = match get_size_in_base_lots(
            quote_lots,
            market.base_lots_per_base_unit,
            prices.ask_price_in_ticks,
            market.tick_size_in_quote_lots_per_base_unit,
        ) {
            Ok(lots) => lots,
            Err(e) => {
                return Err(e);
            },
        };
        Ok(
            DesiredQuote {
                bid_price_in_ticks: prices.bid_price_in_ticks,
                ask_price_in_ticks: prices.ask_price_in_ticks,
                bid_size_in_base_lots: bid_size,
                ask_size_in_base_lots: ask_size,
            },
        )
    }

    /// What an update of the quotes comes to: the state with the update's
    /// time and parameters, and the decision taken from it, or the error
    /// that stops the update. Market facts without the discriminant of a
    /// Phoenix market are refused before anything is computed. Then the
    /// fair price is resolved, the quote is computed, and the quote is
    /// reconciled with the recorded orders.
    pub open spec fn quote_update(
        self,
        slot: u64,
        unix_timestamp: i64,
        params: OrderParams,
        margin: u64,
        header: MarketFacts,
        market: BookSnapshot,
        trader_index: Option<u32>,
        feeds: Option<OracleFeeds>,
    ) -> Result<(PhoenixStrategyState, QuoteUpdate), StrategyError> {
        let next = self.with_params(slot, unix_timestamp, params.strategy_params);
        if !header.is_phoenix_market() {
            Err(StrategyError::InvalidPhoenixProgram)
        } else {
            match resolved_fair_price(
                params.fair_price_in_quote_atoms_per_raw_base_unit,
                params.use_oracle,
                feeds,
                slot,
                header,
            ) {
                Err(e) => Err(e),
                Ok(fair_price_in_ticks) => match next.desired_quote(
                    fair_price_in_ticks,
                    margin,
                    header,
                    market,
                    trader_index,
                ) {
                    Err(e) => Err(e),
                    Ok(quote) => Ok((next, next.reconciled(quote, market))),
                },
            }
        }
    }

    /// The state once the order under `id` is recorded, if it rests on the
    /// side that its sequence number encodes; the state as it is otherwise.
    pub open spec fn with_placed_order(self, market: BookSnapshot, id: OrderId) -> Self {
        let side = Side::of_sequence_number(id.order_sequence_number);
        match resting_order(market.side(side), id) {
            Some(order) => self.with_recorded(side, id, order),
            None => self,
        }
    }

    /// The state once the orders under `order_ids` are recorded, one after
    /// the other.
    pub open spec fn with_placed_orders(self, market: BookSnapshot, order_ids: Seq<OrderId>) -> Self
        decreases order_ids.len(),
    {
        if order_ids.len() == 0 {
            self
        } else {
            self.with_placed_order(market, order_ids[0]).with_placed_orders(
                market,
                order_ids.skip(1),
            )
        }
    }
}

/// Sets up the strategy of `trader` on `market`. `market_owner` is the
/// program that owns the market's account, `market_data` the account's
/// bytes, `slot` and `unix_timestamp` the time of the call.
///
/// An edge of zero is refused first. Then the market must be one of
/// Phoenix: owned by it, long enough for a header, and carrying the market
/// discriminant. Of a market that is all this, only the header's decoder
/// can still refuse the bytes; otherwise the new state is returned.
pub fn initialize(
    trader: [u8; 32],
    market: [u8; 32],
    market_owner: &[u8; 32],
    market_data: &[u8],
    slot: u64,
    unix_timestamp: i64,
    quote_edge_in_bps: u64,
    quote_size_in_quote_atoms: u64,
    price_improvement_behavior: u8,
    post_only: bool,
) -> (res: Result<PhoenixStrategyState, StrategyError>)
    ensures
        quote_edge_in_bps == 0 ==> res == Err::<PhoenixStrategyState, StrategyError>(
            StrategyError::EdgeMustBeNonZero,
        ),
        quote_edge_in_bps > 0 && market_owner@ != phoenix_program_id() ==> res == Err::<
            PhoenixStrategyState,
            StrategyError,
        >(StrategyError::InvalidPhoenixProgram),
        quote_edge_in_bps > 0 && market_owner@ == phoenix_program_id() && market_data@.len()
            < MARKET_HEADER_SIZE ==> res == Err::<PhoenixStrategyState, StrategyError>(
            StrategyError::FailedToDeserializePhoenixMarket,
        ),
        quote_edge_in_bps > 0 && market_owner@ == phoenix_program_id() && market_data@.len()
            >= MARKET_HEADER_SIZE && le_u64(market_data@, 0) != PHOENIX_MARKET_DISCRIMINANT ==> {
            ||| res == Err::<PhoenixStrategyState, StrategyError>(
                StrategyError::FailedToDeserializePhoenixMarket,
            )
            ||| res == Err::<PhoenixStrategyState, StrategyError>(
                StrategyError::InvalidPhoenixProgram,
            )
        },
        quote_edge_in_bps > 0 && market_owner@ == phoenix_program_id() && market_data@.len()
            >= MARKET_HEADER_SIZE && le_u64(market_data@, 0) == PHOENIX_MARKET_DISCRIMINANT ==> {
            ||| res == Err::<PhoenixStrategyState, StrategyError>(
                StrategyError::FailedToDeserializePhoenixMarket,
            )
            ||| res == Ok::<PhoenixStrategyState, StrategyError>(
                PhoenixStrategyState::initial(
                    trader,
                    market,
                    slot,
                    unix_timestamp,
                    quote_edge_in_bps,
                    quote_size_in_quote_atoms,
                    price_improvement_behavior,
                    post_only,
                ),
            )
        },
        res matches Ok(state) ==> state.wf(),
{
    if quote_edge_in_bps == 0 {
        return Err(StrategyError::EdgeMustBeNonZero);
    }
    match load_header(market_owner, market_data) {
        Ok(_) => {},
        Err(e) => {
            return Err(e);
        },
    }
    Ok(
        PhoenixStrategyState {
            trader,
            market,
            bid_order_sequence_number: 0,
            bid_price_in_ticks: 0,
            initial_bid_size_in_base_lots: 0,
            ask_order_sequence_number: 0,
            ask_price_in_ticks: 0,
            initial_ask_size_in_base_lots: 0,
            last_update_slot: slot,
            last_update_unix_timestamp: unix_timestamp,
            quote_edge_in_bps,
            quote_size_in_quote_atoms,
            post_only,
            price_improvement_behavior,
        },
    )
}

/// Runs one update of the quotes up to the decision: leaves the time and
/// the new parameters in `state`, resolves the fair price, computes the
/// quote, and reconciles it with the orders that `state` records, as they
/// rest in `market`. `trader_index` is the trader's index in the market, if
/// the market knows the trader, and `feeds` are the oracle readings, which
/// oracle mode requires.
///
/// The decision is returned for the caller to carry out. When the update
/// fails, `state` is left as it was.
pub fn update_quotes(
    state: &mut PhoenixStrategyState,
    slot: u64,
    unix_timestamp: i64,
    params: OrderParams,
    margin: u64,
    header: &MarketFacts,
    market: &BookSnapshot,
    trader_index: Option<u32>,
    feeds: Option<&OracleFeeds>,
) -> (res: Result<QuoteUpdate, StrategyError>)
    ensures
        match old(state).quote_update(
            slot,
            unix_timestamp,
            params,
            margin,
            *header,
            *market,
            trader_index,
            match feeds {
                Some(feeds) => Some(*feeds),
                None => None,
            },
        ) {
            Ok((next, update)) => res == Ok::<QuoteUpdate, StrategyError>(update) && *final(state)
                == next,
            Err(e) => res == Err::<QuoteUpdate, StrategyError>(e) && *final(state) == *old(state),
        },
        old(state).wf() ==> final(state).wf(),
{
    if header.discriminant != PHOENIX_MARKET_DISCRIMINANT {
        return Err(StrategyError::InvalidPhoenixProgram);
    }
    let mut next: PhoenixStrategyState = *state;
    next.apply_params(slot, unix_timestamp, &params.strategy_params);
    let fair_price_in_ticks: u64 = match resolve_fair_price(
        params.fair_price_in_quote_atoms_per_raw_base_unit,
        params.use_oracle,
        feeds,
        slot,
        header,
    ) {
        Ok(price) => price,
        Err(e) => {
            return Err(e);
        },
    };
    let quote: DesiredQuote = match next.get_desired_quote(
        fair_price_in_ticks,
        margin,
        header,
        market,
        trader_index,
    ) {
        Ok(quote) => quote,
        Err(e) => {
            return Err(e);
        },
    };
    let update: QuoteUpdate = next.reconcile(quote, market);
    *state = next;
    Ok(update)
}

/// Records in `state` the orders that a submission placed: each of
/// `order_ids`, in turn, that rests in `market` on the side that its
/// sequence number encodes becomes the recorded order of that side, with
/// the size at which it rests.
///
/// An order that does not rest, because it was filled at once, leaves the
/// record of its side as it is. That record then names an order which the
/// update found gone or has just cancelled, so the next update finds
/// nothing under it and treats the side as empty.
pub fn record_placed_orders(
    state: &mut PhoenixStrategyState,
    market: &BookSnapshot,
    order_ids: &Vec<OrderId>,
)
    ensures
        *final(state) == old(state).with_placed_orders(*market, order_ids@),
        old(state).wf() ==> final(state).wf(),
{
    let mut i: usize = 0;
    proof {
        assert(order_ids@.skip(0) =~= order_ids@);
    }
    while i < order_ids.len()
        invariant
            i <= order_ids.len(),
            old(state).with_placed_orders(*market, order_ids@) == state.with_placed_orders(
                *market,
                order_ids@.skip(i as int),
            ),
            old(state).wf() ==> state.wf(),
        decreases order_ids.len() - i,
    {
        let id: OrderId = order_ids[i];
        proof {
            assert(order_ids@.skip(i as int).skip(1) =~= order_ids@.skip(i + 1));
        }
        let side: Side = Side::from_order_sequence_number(id.order_sequence_number);
        match market.get_resting_order(side, id) {
            Some(order) => {
                match side {
                    Side::Bid => {
                        state.bid_price_in_ticks = id.price_in_ticks;
                        state.bid_order_sequence_number = id.order_sequence_number;
                        state.initial_bid_size_in_base_lots = order.num_base_lots;
                    },
                    Side::Ask => {
                        state.ask_price_in_ticks = id.price_in_ticks;
                        state.ask_order_sequence_number = id.order_sequence_number;
                        state.initial_ask_size_in_base_lots = order.num_base_lots;
                    },
                }
            },
            None => {},
        }
        i = i + 1;
    }
}

} // verus!
