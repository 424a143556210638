use crate::bytes::le_u128;
use crate::bytes::read_u128_le;
use crate::market::OrderId;
use crate::market::RestingOrder;
use crate::market::Side;
use crate::policy::PriceImprovementBehavior;
use vstd::prelude::*;

verus! {

/// What persists of the strategy of one trader on one market: the orders it
/// believes to be resting, when it last ran, and its parameters.
#[derive(Clone, Copy, Debug)]
pub struct PhoenixStrategyState {
    pub trader: [u8; 32],
    pub market: [u8; 32],
    pub bid_order_sequence_number: u64,
    pub bid_price_in_ticks: u64,
    pub initial_bid_size_in_base_lots: u64,
    pub ask_order_sequence_number: u64,
    pub ask_price_in_ticks: u64,
    pub initial_ask_size_in_base_lots: u64,
    pub last_update_slot: u64,
    pub last_update_unix_timestamp: i64,
    /// Basis points between each quoted price and the fair price.
    pub quote_edge_in_bps: u64,
    /// Notional of each order, in quote atoms.
    pub quote_size_in_quote_atoms: u64,
    /// When set, the orders never cross the spread.
    pub post_only: bool,
    /// The price-improvement behavior, as its number.
    pub price_improvement_behavior: u8,
}

/// An update of the parameters. A field that is absent leaves the parameter
/// as it is.
#[derive(Clone, Copy, Debug, PartialEq, Eq)]
pub struct StrategyParams {
    pub quote_edge_in_bps: Option<u64>,
    pub quote_size_in_quote_atoms: Option<u64>,
    pub price_improvement_behavior: Option<PriceImprovementBehavior>,
    pub post_only: Option<bool>,
}

/// What the caller of an update supplies: the fair price for direct mode,
/// the update of the parameters, and whether the fair price is to be taken
/// from the oracle feeds instead.
#[derive(Clone, Copy, Debug, PartialEq, Eq)]
pub struct OrderParams {
    pub fair_price_in_quote_atoms_per_raw_base_unit: u64,
    pub strategy_params: StrategyParams,
    pub use_oracle: bool,
}

impl PhoenixStrategyState {
    /// The edge is strictly positive.
    pub open spec fn wf(self) -> bool {
        self.quote_edge_in_bps > 0
    }

    /// The state of a strategy that has not placed an order yet.
    pub open spec fn initial(
        trader: [u8; 32],
        market: [u8; 32],
        slot: u64,
        unix_timestamp: i64,
        quote_edge_in_bps: u64,
        quote_size_in_quote_atoms: u64,
        price_improvement_behavior: u8,
        post_only: bool,
    ) -> Self {
        PhoenixStrategyState {
            trader,
            market,
            bid_order_sequence_number: 0,
            bid_price_in_ticks: 0,
            initial_bid_size_in_base_lots: 0,
            ask_order_sequence_number: 0,
            ask_price_in_ticks: 0,
            initial_ask_size_in_base_lots: 0,
            last_update_slot: slot,
            last_update_unix_timestamp: unix_timestamp,
            quote_edge_in_bps,
            quote_size_in_quote_atoms,
            post_only,
            price_improvement_behavior,
        }
    }

    /// The identifier of the order last recorded on `side`.
    pub open spec fn recorded_id(self, side: Side) -> OrderId {
        match side {
            Side::Bid => OrderId {
                price_in_ticks: self.bid_price_in_ticks,
                order_sequence_number: self.bid_order_sequence_number,
            },
            Side::Ask => OrderId {
                price_in_ticks: self.ask_price_in_ticks,
                order_sequence_number: self.ask_order_sequence_number,
            },
        }
    }

    /// The size with which the order on `side` was last recorded.
    pub open spec fn recorded_size(self, side: Side) -> u64 {
        match side {
            Side::Bid => self.initial_bid_size_in_base_lots,
            Side::Ask => self.initial_ask_size_in_base_lots,
        }
    }

    /// The state once an update at `slot` has left its time and applied
    /// `params`: a parameter that is present replaces the old one, except
    /// that an edge of zero is passed over.
    pub open spec fn with_params(self, slot: u64, unix_timestamp: i64, params: StrategyParams) -> Self {
        PhoenixStrategyState {
            last_update_slot: slot,
            last_update_unix_timestamp: unix_timestamp,
            quote_edge_in_bps: match params.quote_edge_in_bps {
                Some(edge) => if edge > 0 {
                    edge
                } else {
                    self.quote_edge_in_bps
                },
                None => self.quote_edge_in_bps,
            },
            quote_size_in_quote_atoms: match params.quote_size_in_quote_atoms {
                Some(size) => size,
                None => self.quote_size_in_quote_atoms,
            },
            post_only: match params.post_only {
                Some(post_only) => post_only,
                None => self.post_only,
            },
            price_improvement_behavior: match params.price_improvement_behavior {
                Some(behavior) => behavior.spec_to_u8(),
                None => self.price_improvement_behavior,
            },
            ..self
        }
    }

    /// The state once the order `id`, resting as `order`, is recorded on
    /// `side`.
    pub open spec fn with_recorded(self, side: Side, id: OrderId, order: RestingOrder) -> Self {
        match side {
            Side::Bid => PhoenixStrategyState {
                bid_price_in_ticks: id.price_in_ticks,
                bid_order_sequence_number: id.order_sequence_number,
                initial_bid_size_in_base_lots: order.num_base_lots,
                ..self
            },
            Side::Ask => PhoenixStrategyState {
                ask_price_in_ticks: id.price_in_ticks,
                ask_order_sequence_number: id.order_sequence_number,
                initial_ask_size_in_base_lots: order.num_base_lots,
                ..self
            },
        }
    }

    /// The identifier that the strategy's orders carry on the client's
    /// side: the first sixteen bytes of the trader's address, read as a
    /// little-endian number.
    pub open spec fn client_order_id(self) -> u128 {
        le_u128(self.trader@, 0) as u128
    }

    /// Leaves the time of an update in the state and applies `params`.
    pub fn apply_params(&mut self, slot: u64, unix_timestamp: i64, params: &StrategyParams)
        ensures
            *final(self) == old(self).with_params(slot, unix_timestamp, *params),
            old(self).wf() ==> final(self).wf(),
    {
        self.last_update_slot = slot;
        self.last_update_unix_timestamp = unix_timestamp;
        match params.quote_edge_in_bps {
            Some(edge) => {
                if edge > 0 {
                    self.quote_edge_in_bps = edge;
                }
            },
            None => {},
        }
        match params.quote_size_in_quote_atoms {
            Some(size) => {
                self.quote_size_in_quote_atoms = size;
            },
            None => {},
        }
        match params.post_only {
            Some(post_only) => {
                self.post_only = post_only;
            },
            None => {},
        }
        match params.price_improvement_behavior {
            Some(behavior) => {
                self.price_improvement_behavior = behavior.to_u8();
            },
            None => {},
        }
    }

    /// Computes the client order identifier from the trader's address.
    pub fn get_client_order_id(&self) -> (id: u128)
        ensures
            id == self.client_order_id(),
    {
        proof {
            crate::bytes::lemma_le_u128_bounds(self.trader@, 0);
        }
        read_u128_le(self.trader.as_slice(), 0)
    }
}

/// Applying the same parameters a second time changes nothing: an update
/// that repeats the parameters of the one before it finds them in place.
pub proof fn lemma_params_apply_once(
    state: PhoenixStrategyState,
    slot: u64,
    unix_timestamp: i64,
    params: StrategyParams,
)
    ensures
        state.with_params(slot, unix_timestamp, params).with_params(slot, unix_timestamp, params)
            == state.with_params(slot, unix_timestamp, params),
        state.wf() ==> state.with_params(slot, unix_timestamp, params).wf(),
{
}

} // verus!
