use crate::market::resting_order;
use crate::market::BookSnapshot;
use crate::market::OrderId;
use crate::market::RestingOrder;
use crate::market::Side;
use crate::policy::PriceImprovementBehavior;
use crate::state::PhoenixStrategyState;
use vstd::prelude::*;

verus! {

/// The quote that an update wants on the book: a price and a size on each
/// side. It lives for one update and is never stored.
#[derive(Clone, Copy, Debug, PartialEq, Eq, Structural)]
pub struct DesiredQuote {
    pub bid_price_in_ticks: u64,
    pub ask_price_in_ticks: u64,
    pub bid_size_in_base_lots: u64,
    pub ask_size_in_base_lots: u64,
}

/// What an update finds of the order it last recorded on one side.
#[derive(Clone, Copy, Debug, PartialEq, Eq, Structural)]
pub enum SideOutcome {
    /// The order rests as recorded, at the price that is wanted again: it
    /// stays, and nothing is placed on this side.
    Unchanged,
    /// The order rests, but its size is no longer the recorded one or its
    /// price no longer the wanted one: it is cancelled.
    Replace,
    /// No order rests under the recorded identifier: there is nothing to
    /// cancel.
    Gone,
}

/// An order to place: a price and a size.
#[derive(Clone, Copy, Debug, PartialEq, Eq, Structural)]
pub struct NewOrder {
    pub price_in_ticks: u64,
    pub size_in_base_lots: u64,
}

/// An order to cancel, named by its identifier and its side.
#[derive(Clone, Copy, Debug, PartialEq, Eq, Structural)]
pub struct CancelOrder {
    pub side: Side,
    pub price_in_ticks: u64,
    pub order_sequence_number: u64,
}

/// How the orders of an update are submitted.
#[derive(Clone, Copy, Debug, PartialEq, Eq)]
pub enum Placement {
    /// No order is submitted.
    Nothing,
    /// The orders go out together as one batch of post-only orders under
    /// the client order identifier; an order that would cross is amended,
    /// not rejected. The batch is submitted even when it is empty.
    PostOnlyBatch { bid: Option<NewOrder>, ask: Option<NewOrder>, client_order_id: u128 },
    /// Each order goes out by itself as a limit order under the client
    /// order identifier, the bid first, and may cross the book.
    LimitOrders { bid: Option<NewOrder>, ask: Option<NewOrder>, client_order_id: u128 },
}

/// What an update decides: the quote it wants, what it found on each side,
/// the orders to cancel, and the orders to place.
#[derive(Clone, Copy, Debug, PartialEq, Eq)]
pub struct QuoteUpdate {
    pub quote: DesiredQuote,
    pub bid: SideOutcome,
    pub ask: SideOutcome,
    /// The recorded bid, where it is to be cancelled.
    pub cancel_bid: Option<CancelOrder>,
    /// The recorded ask, where it is to be cancelled.
    pub cancel_ask: Option<CancelOrder>,
    pub placement: Placement,
}

impl DesiredQuote {
    /// The price wanted on `side`.
    pub open spec fn price(self, side: Side) -> u64 {
        match side {
            Side::Bid => self.bid_price_in_ticks,
            Side::Ask => self.ask_price_in_ticks,
        }
    }

    /// The size wanted on `side`.
    pub open spec fn size(self, side: Side) -> u64 {
        match side {
            Side::Bid => self.bid_size_in_base_lots,
            Side::Ask => self.ask_size_in_base_lots,
        }
    }

    /// An order may be placed on `side` only with a size and at a price
    /// that is no stand-in for an empty side: a bid above one tick, an ask
    /// below the largest tick count.
    pub open spec fn is_placeable(self, side: Side) -> bool {
        self.size(side) > 0 && match side {
            Side::Bid => self.bid_price_in_ticks > 1,
            Side::Ask => self.ask_price_in_ticks < u64::MAX,
        }
    }

    /// The order wanted on `side`.
    pub open spec fn order(self, side: Side) -> NewOrder {
        NewOrder { price_in_ticks: self.price(side), size_in_base_lots: self.size(side) }
    }
}

/// What becomes of the order recorded under `recorded_id` with
/// `recorded_size`, given the order that rests under that identifier now
/// and the price wanted on its side.
pub open spec fn side_outcome(
    resting: Option<RestingOrder>,
    recorded_id: OrderId,
    recorded_size: u64,
    desired_price: u64,
) -> SideOutcome {
    match resting {
        None => SideOutcome::Gone,
        Some(order) => if order.num_base_lots == recorded_size && recorded_id.price_in_ticks
            == desired_price {
            SideOutcome::Unchanged
        } else {
            SideOutcome::Replace
        },
    }
}

/// The cancellation of the order under `id`. Its side is the one that the
/// sequence number encodes.
pub open spec fn cancellation(id: OrderId) -> CancelOrder {
    CancelOrder {
        side: Side::of_sequence_number(id.order_sequence_number),
        price_in_ticks: id.price_in_ticks,
        order_sequence_number: id.order_sequence_number,
    }
}

impl PhoenixStrategyState {
    /// What an update finds of the order recorded on `side`.
    pub open spec fn outcome(self, side: Side, quote: DesiredQuote, market: BookSnapshot) -> SideOutcome {
        side_outcome(
            resting_order(market.side(side), self.recorded_id(side)),
            self.recorded_id(side),
            self.recorded_size(side),
            quote.price(side),
        )
    }

    /// The cancellation that an update issues for `side`, if any.
    pub open spec fn cancel(self, side: Side, quote: DesiredQuote, market: BookSnapshot) -> Option<
        CancelOrder,
    > {
        if self.outcome(side, quote, market) == SideOutcome::Replace {
            Some(cancellation(self.recorded_id(side)))
        } else {
            None
        }
    }

    /// The order that an update places on `side`, if any: none where the
    /// recorded order stays, and none where the wanted one is not
    /// placeable.
    pub open spec fn new_order(self, side: Side, quote: DesiredQuote, market: BookSnapshot) -> Option<
        NewOrder,
    > {
        if self.outcome(side, quote, market) != SideOutcome::Unchanged && quote.is_placeable(side) {
            Some(quote.order(side))
        } else {
            None
        }
    }

    /// Orders go out as one post-only batch when the strategy is post-only
    /// or its behavior is any other than `Join`.
    pub open spec fn submits_batch(self) -> bool {
        self.post_only || self.price_improvement_behavior
            != PriceImprovementBehavior::Join.spec_to_u8()
    }

    /// How an update submits its orders: not at all when it has neither an
    /// order to place nor one to cancel.
    pub open spec fn placement(self, quote: DesiredQuote, market: BookSnapshot) -> Placement {
        let bid = self.new_order(Side::Bid, quote, market);
        let ask = self.new_order(Side::Ask, quote, market);
        if bid is None && ask is None && self.cancel(Side::Bid, quote, market) is None
            && self.cancel(Side::Ask, quote, market) is None {
            Placement::Nothing
        } else if self.submits_batch() {
            Placement::PostOnlyBatch { bid, ask, client_order_id: self.client_order_id() }
        } else {
            Placement::LimitOrders { bid, ask, client_order_id: self.client_order_id() }
        }
    }

    /// What an update that wants `quote` decides against the orders it has
    /// recorded and the book as it stands.
    pub open spec fn reconciled(self, quote: DesiredQuote, market: BookSnapshot) -> QuoteUpdate {
        QuoteUpdate {
            quote,
            bid: self.outcome(Side::Bid, quote, market),
            ask: self.outcome(Side::Ask, quote, market),
            cancel_bid: self.cancel(Side::Bid, quote, market),
            cancel_ask: self.cancel(Side::Ask, quote, market),
            placement: self.placement(quote, market),
        }
    }

    /// Compares the wanted quote with the recorded orders as they rest on
    /// the book, and decides what to cancel and what to place.
    pub fn reconcile(&self, quote: DesiredQuote, market: &BookSnapshot) -> (update: QuoteUpdate)
        ensures
            update == self.reconciled(quote, *market),
    {
        let bid_id: OrderId = OrderId {
            price_in_ticks: self.bid_price_in_ticks,
            order_sequence_number: self.bid_order_sequence_number,
        };
        let ask_id: OrderId = OrderId {
            price_in_ticks: self.ask_price_in_ticks,
            order_sequence_number: self.ask_order_sequence_number,
        };
        let bid: SideOutcome = decide_side(
            market.get_resting_order(Side::Bid, bid_id),
            bid_id,
            self.initial_bid_size_in_base_lots,
            quote.bid_price_in_ticks,
        );
        let ask: SideOutcome = decide_side(
            market.get_resting_order(Side::Ask, ask_id),
            ask_id,
            self.initial_ask_size_in_base_lots,
            quote.ask_price_in_ticks,
        );
        let cancel_bid: Option<CancelOrder> = match bid {
            SideOutcome::Replace => Some(cancel_order(bid_id)),
            _ => None,
        };
        let cancel_ask: Option<CancelOrder> = match ask {
            SideOutcome::Replace => Some(cancel_order(ask_id)),
            _ => None,
        };
        let bid_stays: bool = match bid {
            SideOutcome::Unchanged => true,
            _ => false,
        };
        let ask_stays: bool = match ask {
            SideOutcome::Unchanged => true,
            _ => false,
        };
        let update_bid: bool = !bid_stays && quote.bid_price_in_ticks > 1
            && quote.bid_size_in_base_lots > 0;
        let update_ask: bool = !ask_stays && quote.ask_price_in_ticks < u64::MAX
            && quote.ask_size_in_base_lots > 0;
        let new_bid: Option<NewOrder> = if update_bid {
            Some(
                NewOrder {
                    price_in_ticks: quote.bid_price_in_ticks,
                    size_in_base_lots: quote.bid_size_in_base_lots,
                },
            )
        } else {
            None
        };
        let new_ask: Option<NewOrder> = if update_ask {
            Some(
                NewOrder {
                    price_in_ticks: quote.ask_price_in_ticks,
                    size_in_base_lots: quote.ask_size_in_base_lots,
                },
            )
        } else {
            None
        };
        let placement: Placement = if !update_bid && !update_ask && cancel_bid.is_none()
            && cancel_ask.is_none() {
            Placement::Nothing
        } else if self.post_only || self.price_improvement_behavior
            != PriceImprovementBehavior::Join.to_u8() {
            Placement::PostOnlyBatch {
                bid: new_bid,
                ask: new_ask,
                client_order_id: self.get_client_order_id(),
            }
        } else {
            Placement::LimitOrders {
                bid: new_bid,
                ask: new_ask,
                client_order_id: self.get_client_order_id(),
            }
        };
        QuoteUpdate { quote, bid, ask, cancel_bid, cancel_ask, placement }
    }
}

/// Decides what becomes of one recorded order.
fn decide_side(
    resting: Option<RestingOrder>,
    recorded_id: OrderId,
    recorded_size: u64,
    desired_price: u64,
) -> (outcome: SideOutcome)
    ensures
        outcome == side_outcome(resting, recorded_id, recorded_size, desired_price),
{
    match resting {
        None => SideOutcome::Gone,
        Some(order) => {
            if order.num_base_lots == recorded_size && recorded_id.price_in_ticks == desired_price {
                SideOutcome::Unchanged
            } else {
                SideOutcome::Replace
            }
        },
    }
}

/// Names the order under `id` for cancellation.
fn cancel_order(id: OrderId) -> (cancel: CancelOrder)
    ensures
        cancel == cancellation(id),
{
    CancelOrder {
        side: Side::from_order_sequence_number(id.order_sequence_number),
        price_in_ticks: id.price_in_ticks,
        order_sequence_number: id.order_sequence_number,
    }
}

impl QuoteUpdate {
    /// The orders to cancel, the bid before the ask.
    pub open spec fn cancellations(self) -> Seq<CancelOrder> {
        let bid = match self.cancel_bid {
            Some(cancel) => seq![cancel],
            None => Seq::empty(),
        };
        let ask = match self.cancel_ask {
            Some(cancel) => seq![cancel],
            None => Seq::empty(),
        };
        bid + ask
    }

    /// The update asks nothing of the order transport: no order is
    /// cancelled and none is submitted.
    pub open spec fn is_no_op(self) -> bool {
        self.cancel_bid is None && self.cancel_ask is None && self.placement == Placement::Nothing
    }

    /// Lists the orders to cancel, the bid before the ask.
    pub fn orders_to_cancel(&self) -> (cancels: Vec<CancelOrder>)
        ensures
            cancels@ == self.cancellations(),
    {
        let mut cancels: Vec<CancelOrder> = Vec::new();
        match self.cancel_bid {
            Some(cancel) => {
                cancels.push(cancel);
            },
            None => {},
        }
        match self.cancel_ask {
            Some(cancel) => {
                cancels.push(cancel);
            },
            None => {},
        }
        assert(cancels@ =~= self.cancellations());
        cancels
    }

    /// Whether the update leaves the order transport alone.
    pub fn makes_no_call(&self) -> (idle: bool)
        ensures
            idle == self.is_no_op(),
    {
        let nothing_placed: bool = match self.placement {
            Placement::Nothing => true,
            _ => false,
        };
        self.cancel_bid.is_none() && self.cancel_ask.is_none() && nothing_placed
    }
}

} // verus!
