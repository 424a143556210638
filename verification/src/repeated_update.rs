use crate::consts::StrategyError;
use crate::fair_price::resolved_fair_price;
use crate::fair_price::OracleFeeds;
use crate::market::own_trader_index;
use crate::market::resting_order;
use crate::market::BookSnapshot;
use crate::market::MarketFacts;
use crate::market::OrderId;
use crate::market::Side;
use crate::reconcile::CancelOrder;
use crate::reconcile::DesiredQuote;
use crate::reconcile::SideOutcome;
use crate::state::lemma_params_apply_once;
use crate::state::OrderParams;
use crate::state::PhoenixStrategyState;
use vstd::prelude::*;

verus! {

impl PhoenixStrategyState {
    /// The order recorded on `side` rests in `market` under its identifier,
    /// with the size that is recorded.
    pub open spec fn rests_as_recorded(self, side: Side, market: BookSnapshot) -> bool {
        resting_order(market.side(side), self.recorded_id(side)) matches Some(order)
            && order.num_base_lots == self.recorded_size(side)
    }

    /// Nothing is left to do on `side` for an update that wants `quote`:
    /// either the recorded order rests as recorded at the wanted price, or
    /// no order rests under the record and the wanted order may not be
    /// placed.
    pub open spec fn is_settled(self, side: Side, quote: DesiredQuote, market: BookSnapshot) -> bool {
        ||| self.rests_as_recorded(side, market) && self.recorded_id(side).price_in_ticks
            == quote.price(side)
        ||| resting_order(market.side(side), self.recorded_id(side)) is None
            && !quote.is_placeable(side)
    }

    /// Both states agree on everything but the orders they record.
    pub open spec fn differs_in_records_only(self, other: PhoenixStrategyState) -> bool {
        &&& self.trader == other.trader
        &&& self.market == other.market
        &&& self.last_update_slot == other.last_update_slot
        &&& self.last_update_unix_timestamp == other.last_update_unix_timestamp
        &&& self.quote_edge_in_bps == other.quote_edge_in_bps
        &&& self.quote_size_in_quote_atoms == other.quote_size_in_quote_atoms
        &&& self.post_only == other.post_only
        &&& self.price_improvement_behavior == other.price_improvement_behavior
    }
}

/// A side whose recorded order still rests as recorded, at the price that
/// is wanted again, is left alone: the outcome is `Unchanged`, nothing is
/// cancelled and nothing is placed on that side.
pub proof fn lemma_resting_order_at_wanted_price_is_unchanged(
    state: PhoenixStrategyState,
    side: Side,
    quote: DesiredQuote,
    market: BookSnapshot,
)
    requires
        state.rests_as_recorded(side, market),
        state.recorded_id(side).price_in_ticks == quote.price(side),
    ensures
        state.outcome(side, quote, market) == SideOutcome::Unchanged,
        state.cancel(side, quote, market) is None,
        state.new_order(side, quote, market) is None,
{
}

/// On a settled side an update cancels nothing and places nothing; on
/// every other side it cancels or places an order.
pub proof fn lemma_settled_side_asks_nothing(
    state: PhoenixStrategyState,
    side: Side,
    quote: DesiredQuote,
    market: BookSnapshot,
)
    ensures
        state.is_settled(side, quote, market) <==> state.cancel(side, quote, market) is None
            && state.new_order(side, quote, market) is None,
        state.is_settled(side, quote, market) ==> state.outcome(side, quote, market) == (
        if state.rests_as_recorded(side, market) {
            SideOutcome::Unchanged
        } else {
            SideOutcome::Gone
        }),
{
}

/// The order that is recorded is one that rests: once an order that rests
/// on the side of its sequence number is recorded, that side's record
/// rests as recorded, at the order's price, and the other side's record is
/// untouched.
pub proof fn lemma_recorded_order_rests(
    state: PhoenixStrategyState,
    market: BookSnapshot,
    id: OrderId,
)
    requires
        resting_order(market.side(Side::of_sequence_number(id.order_sequence_number)), id) is Some,
    ensures
        ({
            let side = Side::of_sequence_number(id.order_sequence_number);
            let recorded = state.with_placed_order(market, id);
            &&& recorded.recorded_id(side) == id
            &&& recorded.rests_as_recorded(side, market)
            &&& side == Side::Bid ==> recorded.recorded_id(Side::Ask) == state.recorded_id(
                Side::Ask,
            ) && recorded.recorded_size(Side::Ask) == state.recorded_size(Side::Ask)
            &&& side == Side::Ask ==> recorded.recorded_id(Side::Bid) == state.recorded_id(
                Side::Bid,
            ) && recorded.recorded_size(Side::Bid) == state.recorded_size(Side::Bid)
        }),
{
}

/// Once a bid and an ask that both rest are recorded, one after the other,
/// both sides' records rest as recorded and name these two orders.
pub proof fn lemma_recorded_bid_and_ask_rest(
    state: PhoenixStrategyState,
    market: BookSnapshot,
    bid: OrderId,
    ask: OrderId,
)
    requires
        Side::of_sequence_number(bid.order_sequence_number) == Side::Bid,
        Side::of_sequence_number(ask.order_sequence_number) == Side::Ask,
        resting_order(market.bids@, bid) is Some,
        resting_order(market.asks@, ask) is Some,
    ensures
        ({
            let recorded = state.with_placed_orders(market, seq![bid, ask]);
            &&& recorded.recorded_id(Side::Bid) == bid
            &&& recorded.recorded_id(Side::Ask) == ask
            &&& recorded.rests_as_recorded(Side::Bid, market)
            &&& recorded.rests_as_recorded(Side::Ask, market)
        }),
{
    let ids: Seq<OrderId> = seq![bid, ask];
    let after_bid = state.with_placed_order(market, bid);
    let after_ask = after_bid.with_placed_order(market, ask);
    lemma_recorded_order_rests(state, market, bid);
    lemma_recorded_order_rests(after_bid, market, ask);
    assert(ids.skip(1) =~= seq![ask]);
    assert(ids.skip(1).skip(1) =~= Seq::<OrderId>::empty());
    assert(after_ask.with_placed_orders(market, ids.skip(1).skip(1)) == after_ask);
    assert(after_bid.with_placed_orders(market, ids.skip(1)) == after_ask);
    assert(state.with_placed_orders(market, ids) == after_ask);
}

/// Recording placed orders touches the records of the two sides and
/// nothing else: neither the parameters nor the time of the last update.
pub proof fn lemma_recording_keeps_parameters(
    state: PhoenixStrategyState,
    market: BookSnapshot,
    order_ids: Seq<OrderId>,
)
    ensures
        state.with_placed_orders(market, order_ids).differs_in_records_only(state),
    decreases order_ids.len(),
{
    if order_ids.len() > 0 {
        lemma_recording_keeps_parameters(
            state.with_placed_order(market, order_ids[0]),
            market,
            order_ids.skip(1),
        );
    }
}

/// An update repeated with the same inputs, on a book that has not changed
/// for the strategy, asks nothing of the order transport.
///
/// The first update decides on `market`; its orders are carried out, the
/// book becomes `later_market`, and the orders reported as placed,
/// `order_ids`, are recorded. If the book still shows the strategy the
/// same lot constants and the same best bid and ask of other traders, and
/// both sides are settled for the quote that the first update wanted, then
/// the second update wants the same quote, cancels nothing, places nothing,
/// and leaves the state as it found it. Each side whose recorded order
/// rests is found `Unchanged`.
pub proof fn lemma_repeated_update_is_idle(
    state: PhoenixStrategyState,
    slot: u64,
    unix_timestamp: i64,
    params: OrderParams,
    margin: u64,
    header: MarketFacts,
    market: BookSnapshot,
    trader_index: Option<u32>,
    feeds: Option<OracleFeeds>,
    later_market: BookSnapshot,
    order_ids: Seq<OrderId>,
)
    requires
        state.quote_update(
            slot,
            unix_timestamp,
            params,
            margin,
            header,
            market,
            trader_index,
            feeds,
        ) is Ok,
        later_market.base_lots_per_base_unit == market.base_lots_per_base_unit,
        later_market.tick_size_in_quote_lots_per_base_unit
            == market.tick_size_in_quote_lots_per_base_unit,
        later_market.best_bid(own_trader_index(trader_index)) == market.best_bid(
            own_trader_index(trader_index),
        ),
        later_market.best_ask(own_trader_index(trader_index)) == market.best_ask(
            own_trader_index(trader_index),
        ),
        ({
            let first = state.quote_update(
                slot,
                unix_timestamp,
                params,
                margin,
                header,
                market,
                trader_index,
                feeds,
            )->Ok_0;
            let recorded = first.0.with_placed_orders(later_market, order_ids);
            &&& recorded.is_settled(Side::Bid, first.1.quote, later_market)
            &&& recorded.is_settled(Side::Ask, first.1.quote, later_market)
        }),
    ensures
        ({
            let first = state.quote_update(
                slot,
                unix_timestamp,
                params,
                margin,
                header,
                market,
                trader_index,
                feeds,
            )->Ok_0;
            let recorded = first.0.with_placed_orders(later_market, order_ids);
            let second = recorded.quote_update(
                slot,
                unix_timestamp,
                params,
                margin,
                header,
                later_market,
                trader_index,
                feeds,
            );
            &&& second is Ok
            &&& second->Ok_0.0 == recorded
            &&& second->Ok_0.1.quote == first.1.quote
            &&& second->Ok_0.1.is_no_op()
            &&& second->Ok_0.1.cancellations() == Seq::<CancelOrder>::empty()
            &&& recorded.rests_as_recorded(Side::Bid, later_market) ==> second->Ok_0.1.bid
                == SideOutcome::Unchanged
            &&& recorded.rests_as_recorded(Side::Ask, later_market) ==> second->Ok_0.1.ask
                == SideOutcome::Unchanged
        }),
{
    let first = state.quote_update(
        slot,
        unix_timestamp,
        params,
        margin,
        header,
        market,
        trader_index,
        feeds,
    )->Ok_0;
    let next = first.0;
    let recorded = next.with_placed_orders(later_market, order_ids);
    lemma_recording_keeps_parameters(next, later_market, order_ids);
    lemma_params_apply_once(state, slot, unix_timestamp, params.strategy_params);
    let again = recorded.with_params(slot, unix_timestamp, params.strategy_params);
    assert(again == recorded);
    let fair = resolved_fair_price(
        params.fair_price_in_quote_atoms_per_raw_base_unit,
        params.use_oracle,
        feeds,
        slot,
        header,
    )->Ok_0;
    let quote = first.1.quote;
    assert(next.desired_quote(fair, margin, header, market, trader_index) == Ok::<
        DesiredQuote,
        StrategyError,
    >(quote));
    assert(recorded.desired_quote(fair, margin, header, later_market, trader_index)
        == next.desired_quote(fair, margin, header, market, trader_index));
    lemma_settled_side_asks_nothing(recorded, Side::Bid, quote, later_market);
    lemma_settled_side_asks_nothing(recorded, Side::Ask, quote, later_market);
    assert(recorded.reconciled(quote, later_market).cancellations() =~= Seq::<
        CancelOrder,
    >::empty());
}

/// An update whose two orders come to rest, repeated with the same inputs
/// on a book that has not changed otherwise, finds both sides `Unchanged`
/// and asks nothing of the order transport.
///
/// This is `lemma_repeated_update_is_idle` for the usual course of a first
/// update: the transport reports a bid and an ask as placed, and both rest
/// in the later book at the prices that the update wanted.
pub proof fn lemma_repeated_update_after_both_orders_rest(
    state: PhoenixStrategyState,
    slot: u64,
    unix_timestamp: i64,
    params: OrderParams,
    margin: u64,
    header: MarketFacts,
    market: BookSnapshot,
    trader_index: Option<u32>,
    feeds: Option<OracleFeeds>,
    later_market: BookSnapshot,
    bid: OrderId,
    ask: OrderId,
)
    requires
        state.quote_update(
            slot,
            unix_timestamp,
            params,
            margin,
            header,
            market,
            trader_index,
            feeds,
        ) is Ok,
        later_market.base_lots_per_base_unit == market.base_lots_per_base_unit,
        later_market.tick_size_in_quote_lots_per_base_unit
            == market.tick_size_in_quote_lots_per_base_unit,
        later_market.best_bid(own_trader_index(trader_index)) == market.best_bid(
            own_trader_index(trader_index),
        ),
        later_market.best_ask(own_trader_index(trader_index)) == market.best_ask(
            own_trader_index(trader_index),
        ),
        Side::of_sequence_number(bid.order_sequence_number) == Side::Bid,
        Side::of_sequence_number(ask.order_sequence_number) == Side::Ask,
        resting_order(later_market.bids@, bid) is Some,
        resting_order(later_market.asks@, ask) is Some,
        ({
            let first = state.quote_update(
                slot,
                unix_timestamp,
                params,
                margin,
                header,
                market,
                trader_index,
                feeds,
            )->Ok_0;
            &&& bid.price_in_ticks == first.1.quote.bid_price_in_ticks
            &&& ask.price_in_ticks == first.1.quote.ask_price_in_ticks
        }),
    ensures
        ({
            let first = state.quote_update(
                slot,
                unix_timestamp,
                params,
                margin,
                header,
                market,
                trader_index,
                feeds,
            )->Ok_0;
            let recorded = first.0.with_placed_orders(later_market, seq![bid, ask]);
            let second = recorded.quote_update(
                slot,
                unix_timestamp,
                params,
                margin,
                header,
                later_market,
                trader_index,
                feeds,
            );
            &&& second is Ok
            &&& second->Ok_0.0 == recorded
            &&& second->Ok_0.1.quote == first.1.quote
            &&& second->Ok_0.1.bid == SideOutcome::Unchanged
            &&& second->Ok_0.1.ask == SideOutcome::Unchanged
            &&& second->Ok_0.1.is_no_op()
        }),
{
    let first = state.quote_update(
        slot,
        unix_timestamp,
        params,
        margin,
        header,
        market,
        trader_index,
        feeds,
    )->Ok_0;
    lemma_recorded_bid_and_ask_rest(first.0, later_market, bid, ask);
    lemma_repeated_update_is_idle(
        state,
        slot,
        unix_timestamp,
        params,
        margin,
        header,
        market,
        trader_index,
        feeds,
        later_market,
        seq![bid, ask],
    );
}

} // verus!
