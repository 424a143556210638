use crate::bytes::le_u32;
use crate::bytes::le_u64;
use crate::bytes::same_address;
use crate::consts::StrategyError;
use crate::consts::NO_ASK_PRICE_IN_TICKS;
use crate::consts::NO_BID_PRICE_IN_TICKS;
use crate::consts::PHOENIX_MARKET_DISCRIMINANT;
use vstd::prelude::*;
use vstd::slice::slice_subrange;

verus! {

/// Length in bytes of the header that opens a Phoenix market account.
pub const MARKET_HEADER_SIZE: usize = 576;

/// The address of the Phoenix program,
/// `PhoeNiXZ8ByJGLkxNfZRnkUfjvmuYqLR89jjFHGqdXY`, as its 32 bytes.
pub open spec fn phoenix_program_id() -> Seq<u8> {
    seq![
        5u8, 208u8, 234u8, 79u8, 51u8, 115u8, 112u8, 19u8,
        165u8, 99u8, 224u8, 147u8, 72u8, 237u8, 182u8, 244u8,
        89u8, 61u8, 145u8, 252u8, 118u8, 65u8, 249u8, 36u8,
        124u8, 36u8, 65u8, 168u8, 66u8, 161u8, 187u8, 235u8,
    ]
}

/// Stands for the Phoenix program, whose address it gives.
#[derive(Clone, Copy, Debug)]
pub struct PhoenixV1;

impl PhoenixV1 {
    /// Calls `phoenix::id()` and hands out the address as bytes. Trusted:
    /// that the address which the Phoenix crate declares is the one spelled
    /// out in `phoenix_program_id`.
    #[verifier::external_body]
    pub fn id() -> (id: [u8; 32])
        ensures
            id@ == phoenix_program_id(),
    {
        phoenix::id().to_bytes()
    }
}

/// What the strategy reads of a market's header. The facts are trusted only
/// once `load_header` has matched owner and discriminant.
#[derive(Clone, Copy, Debug)]
pub struct MarketFacts {
    pub discriminant: u64,
    /// Capacity of the bid side, of the ask side, and number of seats: they
    /// select the layout of the book that follows the header.
    pub bids_size: u64,
    pub asks_size: u64,
    pub num_seats: u64,
    pub base_mint: [u8; 32],
    pub quote_mint: [u8; 32],
    pub quote_decimals: u32,
    /// Quote atoms per quote lot.
    pub quote_lot_size: u64,
    pub tick_size_in_quote_atoms_per_base_unit: u64,
    pub raw_base_units_per_base_unit: u32,
}

impl MarketFacts {
    /// These facts are what `bytes` hold at the header's fixed offsets,
    /// every number in little-endian order.
    pub open spec fn is_image_of(self, bytes: Seq<u8>) -> bool {
        &&& self.discriminant == le_u64(bytes, 0)
        &&& self.bids_size == le_u64(bytes, 16)
        &&& self.asks_size == le_u64(bytes, 24)
        &&& self.num_seats == le_u64(bytes, 32)
        &&& self.base_mint@ == bytes.subrange(48, 80)
        &&& self.quote_decimals == le_u32(bytes, 120)
        &&& self.quote_mint@ == bytes.subrange(128, 160)
        &&& self.quote_lot_size == le_u64(bytes, 192)
        &&& self.tick_size_in_quote_atoms_per_base_unit == le_u64(bytes, 200)
        &&& self.raw_base_units_per_base_unit == le_u32(bytes, 312)
    }

    /// The facts carry the discriminant of a Phoenix market.
    pub open spec fn is_phoenix_market(self) -> bool {
        self.discriminant == PHOENIX_MARKET_DISCRIMINANT
    }
}

/// Calls `bytemuck::try_from_bytes::<phoenix::program::MarketHeader>` and
/// copies out the fields that the strategy reads, each number taken as
/// little-endian. Trusted: when the call accepts the bytes, there are
/// exactly as many as a header has, and each field is the number or address
/// found at its offset in the header's layout. Nothing is claimed about
/// when the call accepts: it also refuses bytes that are not aligned for
/// the header.
#[verifier::external_body]
fn decode_market_header(data: &[u8]) -> (decoded: Option<MarketFacts>)
    ensures
        decoded matches Some(facts) ==> data@.len() == MARKET_HEADER_SIZE && facts.is_image_of(
            data@,
        ),
{
    match bytemuck::try_from_bytes::<phoenix::program::MarketHeader>(data) {
        Ok(header) => Some(MarketFacts {
            discriminant: u64::from_le(header.discriminant),
            bids_size: u64::from_le(header.market_size_params.bids_size),
            asks_size: u64::from_le(header.market_size_params.asks_size),
            num_seats: u64::from_le(header.market_size_params.num_seats),
            base_mint: header.base_params.mint_key.to_bytes(),
            quote_mint: header.quote_params.mint_key.to_bytes(),
            quote_decimals: u32::from_le(header.quote_params.decimals),
            quote_lot_size: u64::from_le(header.get_quote_lot_size().into()),
            tick_size_in_quote_atoms_per_base_unit: u64::from_le(header.get_tick_size_in_quote_atoms_per_base_unit().into()),
            raw_base_units_per_base_unit: u32::from_le(header.raw_base_units_per_base_unit),
        }),
        Err(_) => None,
    }
}

/// What becomes of a decoded header: without one the market fails to
/// deserialize, one without the market discriminant is not a Phoenix
/// market, and any other is handed on unchanged.
pub open spec fn validated_header(decoded: Option<MarketFacts>) -> Result<
    MarketFacts,
    StrategyError,
> {
    match decoded {
        None => Err(StrategyError::FailedToDeserializePhoenixMarket),
        Some(facts) => if facts.is_phoenix_market() {
            Ok(facts)
        } else {
            Err(StrategyError::InvalidPhoenixProgram)
        },
    }
}

/// Checks the discriminant of a header that was decoded, if one was.
pub fn validate_header(decoded: Option<MarketFacts>) -> (res: Result<MarketFacts, StrategyError>)
    ensures
        res == validated_header(decoded),
{
    match decoded {
        None => Err(StrategyError::FailedToDeserializePhoenixMarket),
        Some(facts) => {
            if facts.discriminant == PHOENIX_MARKET_DISCRIMINANT {
                Ok(facts)
            } else {
                Err(StrategyError::InvalidPhoenixProgram)
            }
        },
    }
}

/// Reads the facts of a market from its account: `owner` is the program
/// that owns the account and `data` the account's bytes, of which the first
/// `MARKET_HEADER_SIZE` are the header.
///
/// An account that Phoenix does not own is refused before a byte is read,
/// and one too short for a header fails to deserialize. Of an account long
/// enough, the decoder decides whether it reads the header; when it does,
/// the result is `validated_header` of facts that are the image of the
/// header's bytes.
pub fn load_header(owner: &[u8; 32], data: &[u8]) -> (res: Result<MarketFacts, StrategyError>)
    ensures
        owner@ != phoenix_program_id() ==> res == Err::<MarketFacts, StrategyError>(
            StrategyError::InvalidPhoenixProgram,
        ),
        owner@ == phoenix_program_id() && data@.len() < MARKET_HEADER_SIZE ==> res == Err::<
            MarketFacts,
            StrategyError,
        >(StrategyError::FailedToDeserializePhoenixMarket),
        owner@ == phoenix_program_id() && data@.len() >= MARKET_HEADER_SIZE ==> {
            ||| res == Err::<MarketFacts, StrategyError>(
                StrategyError::FailedToDeserializePhoenixMarket,
            )
            ||| exists|facts: MarketFacts|
                facts.is_image_of(data@) && res == validated_header(Some(facts))
        },
        res matches Ok(facts) ==> facts.is_phoenix_market() && facts.is_image_of(data@),
{
    let phoenix: [u8; 32] = PhoenixV1::id();
    if !same_address(owner, &phoenix) {
        return Err(StrategyError::InvalidPhoenixProgram);
    }
    if data.len() < MARKET_HEADER_SIZE {
        return Err(StrategyError::FailedToDeserializePhoenixMarket);
    }
    let header_bytes: &[u8] = slice_subrange(data, 0, MARKET_HEADER_SIZE);
    let decoded: Option<MarketFacts> = decode_market_header(header_bytes);
    proof {
        if let Some(facts) = decoded {
            let head: Seq<u8> = header_bytes@;
            assert(forall|i: int| 0 <= i < MARKET_HEADER_SIZE ==> head[i] == data@[i]);
            assert(head.subrange(48, 80) =~= data@.subrange(48, 80));
            assert(head.subrange(128, 160) =~= data@.subrange(128, 160));
            assert(facts.is_image_of(data@));
        }
    }
    validate_header(decoded)
}

/// Side of the book.
#[derive(Clone, Copy, Debug, PartialEq, Eq, Structural)]
pub enum Side {
    Bid,
    Ask,
}

impl Side {
    /// The side that an order's sequence number encodes: bids carry a
    /// sequence number with the leading bit set, asks one with it clear.
    pub open spec fn of_sequence_number(order_sequence_number: u64) -> Side {
        if order_sequence_number >= 0x8000_0000_0000_0000u64 {
            Side::Bid
        } else {
            Side::Ask
        }
    }

    /// Calls `phoenix::state::Side::from_order_sequence_number`. Trusted:
    /// that it answers `Bid` exactly for the numbers without a leading zero
    /// bit, those from 2^63 on.
    #[verifier::external_body]
    pub(crate) fn from_order_sequence_number(order_sequence_number: u64) -> (side: Side)
        ensures
            side == Side::of_sequence_number(order_sequence_number),
    {
        match phoenix::state::Side::from_order_sequence_number(order_sequence_number) {
            phoenix::state::Side::Bid => Side::Bid,
            phoenix::state::Side::Ask => Side::Ask,
        }
    }
}

/// Identifier of a resting order: its price and its sequence number.
#[derive(Clone, Copy, Debug, PartialEq, Eq, Structural)]
pub struct OrderId {
    pub price_in_ticks: u64,
    pub order_sequence_number: u64,
}

/// What the strategy reads of an order that rests on the book.
#[derive(Clone, Copy, Debug, PartialEq, Eq, Structural)]
pub struct RestingOrder {
    pub trader_index: u64,
    pub num_base_lots: u64,
}

/// A resting order under its identifier.
#[derive(Clone, Copy, Debug, PartialEq, Eq, Structural)]
pub struct BookEntry {
    pub id: OrderId,
    pub order: RestingOrder,
}

/// The order resting under `id` among `entries`: that of the first entry
/// with this identifier.
pub open spec fn resting_order(entries: Seq<BookEntry>, id: OrderId) -> Option<RestingOrder>
    decreases entries.len(),
{
    if entries.len() == 0 {
        None
    } else if entries[0].id == id {
        Some(entries[0].order)
    } else {
        resting_order(entries.skip(1), id)
    }
}

/// The price of the first of `entries` that `trader_index` did not place.
pub open spec fn first_foreign_price(entries: Seq<BookEntry>, trader_index: u64) -> Option<u64>
    decreases entries.len(),
{
    if entries.len() == 0 {
        None
    } else if entries[0].order.trader_index != trader_index {
        Some(entries[0].id.price_in_ticks)
    } else {
        first_foreign_price(entries.skip(1), trader_index)
    }
}

/// No identifier occurs twice among `entries`.
pub open spec fn has_distinct_ids(entries: Seq<BookEntry>) -> bool {
    forall|i: int, j: int|
        0 <= i < j < entries.len() ==> (#[trigger] entries[i]).id != (#[trigger] entries[j]).id
}

/// A market as read at one moment: its lot constants and both sides of its
/// book, each side from its best order outwards.
#[derive(Debug)]
pub struct BookSnapshot {
    pub base_lots_per_base_unit: u64,
    pub tick_size_in_quote_lots_per_base_unit: u64,
    pub bids: Vec<BookEntry>,
    pub asks: Vec<BookEntry>,
}

/// Bids from the best outwards: no bid is priced above one before it.
pub open spec fn bids_in_priority_order(entries: Seq<BookEntry>) -> bool {
    forall|i: int, j: int|
        0 <= i < j < entries.len() ==> (#[trigger] entries[i]).id.price_in_ticks >= (
        #[trigger] entries[j]).id.price_in_ticks
}

/// Asks from the best outwards: no ask is priced below one before it.
pub open spec fn asks_in_priority_order(entries: Seq<BookEntry>) -> bool {
    forall|i: int, j: int|
        0 <= i < j < entries.len() ==> (#[trigger] entries[i]).id.price_in_ticks <= (
        #[trigger] entries[j]).id.price_in_ticks
}

impl BookSnapshot {
    /// A book keeps one order per identifier on each side, and lists each
    /// side from its best order outwards.
    pub open spec fn wf(self) -> bool {
        &&& has_distinct_ids(self.bids@)
        &&& has_distinct_ids(self.asks@)
        &&& bids_in_priority_order(self.bids@)
        &&& asks_in_priority_order(self.asks@)
    }

    /// The entries of one side.
    pub open spec fn side(self, side: Side) -> Seq<BookEntry> {
        match side {
            Side::Bid => self.bids@,
            Side::Ask => self.asks@,
        }
    }

    /// The best bid that `trader_index` did not place, or one tick where
    /// there is none.
    pub open spec fn best_bid(self, trader_index: u64) -> u64 {
        match first_foreign_price(self.bids@, trader_index) {
            Some(price) => price,
            None => NO_BID_PRICE_IN_TICKS,
        }
    }

    /// The best ask that `trader_index` did not place, or the largest tick
    /// count where there is none.
    pub open spec fn best_ask(self, trader_index: u64) -> u64 {
        match first_foreign_price(self.asks@, trader_index) {
            Some(price) => price,
            None => NO_ASK_PRICE_IN_TICKS,
        }
    }

    /// Looks up the order that rests under `id` on `side`.
    pub fn get_resting_order(&self, side: Side, id: OrderId) -> (found: Option<RestingOrder>)
        ensures
            found == resting_order(self.side(side), id),
    {
        match side {
            Side::Bid => find_resting_order(&self.bids, id),
            Side::Ask => find_resting_order(&self.asks, id),
        }
    }
}

/// Walks `entries` from the front for the order under `id`.
fn find_resting_order(entries: &Vec<BookEntry>, id: OrderId) -> (found: Option<RestingOrder>)
    ensures
        found == resting_order(entries@, id),
{
    let mut i: usize = 0;
    proof {
        assert(entries@.skip(0) =~= entries@);
    }
    while i < entries.len()
        invariant
            i <= entries.len(),
            resting_order(entries@, id) == resting_order(entries@.skip(i as int), id),
        decreases entries.len() - i,
    {
        let entry: BookEntry = entries[i];
        proof {
            assert(entries@.skip(i as int).skip(1) =~= entries@.skip(i + 1));
        }
        if entry.id.price_in_ticks == id.price_in_ticks && entry.id.order_sequence_number
            == id.order_sequence_number {
            return Some(entry.order);
        }
        i = i + 1;
    }
    None
}

/// Walks `entries` from the front for the first order of another trader.
fn find_first_foreign_price(entries: &Vec<BookEntry>, trader_index: u64) -> (found: Option<u64>)
    ensures
        found == first_foreign_price(entries@, trader_index),
{
    let mut i: usize = 0;
    proof {
        assert(entries@.skip(0) =~= entries@);
    }
    while i < entries.len()
        invariant
            i <= entries.len(),
            first_foreign_price(entries@, trader_index) == first_foreign_price(
                entries@.skip(i as int),
                trader_index,
            ),
        decreases entries.len() - i,
    {
        let entry: BookEntry = entries[i];
        proof {
            assert(entries@.skip(i as int).skip(1) =~= entries@.skip(i + 1));
        }
        if entry.order.trader_index != trader_index {
            return Some(entry.id.price_in_ticks);
        }
        i = i + 1;
    }
    None
}

/// The index under which the strategy looks for its own orders: the
/// trader's index in the market, or the largest 32-bit number for a trader
/// the market does not know.
pub open spec fn own_trader_index(registered: Option<u32>) -> u64 {
    match registered {
        Some(index) => index as u64,
        None => u32::MAX as u64,
    }
}

/// The best bid and the best ask that were not placed by `trader_index`,
/// with one tick and the largest tick count standing in for a side without
/// such an order.
pub fn get_best_bid_and_ask(market: &BookSnapshot, trader_index: u64) -> (best: (u64, u64))
    ensures
        best.0 == market.best_bid(trader_index),
        best.1 == market.best_ask(trader_index),
{
    let best_bid: u64 = match find_first_foreign_price(&market.bids, trader_index) {
        Some(price) => price,
        None => NO_BID_PRICE_IN_TICKS,
    };
    let best_ask: u64 = match find_first_foreign_price(&market.asks, trader_index) {
        Some(price) => price,
        None => NO_ASK_PRICE_IN_TICKS,
    };
    (best_bid, best_ask)
}

/// `resting_order` finds an entry exactly when one carries the identifier,
/// and then it is the order of the first such entry.
pub proof fn lemma_resting_order_is_first_match(entries: Seq<BookEntry>, id: OrderId)
    ensures
        resting_order(entries, id) is None <==> forall|i: int|
            0 <= i < entries.len() ==> (#[trigger] entries[i]).id != id,
        resting_order(entries, id) matches Some(order) ==> exists|i: int|
            0 <= i < entries.len() && (#[trigger] entries[i]).id == id && entries[i].order == order
                && forall|j: int| 0 <= j < i ==> (#[trigger] entries[j]).id != id,
    decreases entries.len(),
{
    if entries.len() == 0 {
    } else if entries[0].id == id {
        assert(entries[0].id == id && entries[0].order == resting_order(entries, id)->Some_0);
    } else {
        let rest: Seq<BookEntry> = entries.skip(1);
        lemma_resting_order_is_first_match(rest, id);
        assert(forall|i: int| 0 <= i < rest.len() ==> rest[i] == entries[i + 1]);
        if resting_order(rest, id) is None {
            assert forall|i: int| 0 <= i < entries.len() implies (#[trigger] entries[i]).id
                != id by {
                if i > 0 {
                    assert(rest[i - 1].id != id);
                }
            }
        } else {
            let order: RestingOrder = resting_order(rest, id)->Some_0;
            let k: int = choose|k: int|
                0 <= k < rest.len() && (#[trigger] rest[k]).id == id && rest[k].order == order
                    && forall|j: int| 0 <= j < k ==> (#[trigger] rest[j]).id != id;
            assert(entries[k + 1].id == id && entries[k + 1].order == order);
            assert forall|j: int| 0 <= j < k + 1 implies (#[trigger] entries[j]).id != id by {
                if j > 0 {
                    assert(rest[j - 1].id != id);
                }
            }
        }
    }
}

/// In a book without repeated identifiers, an entry is found under its own
/// identifier.
pub proof fn lemma_entry_found_under_its_id(entries: Seq<BookEntry>, i: int)
    requires
        has_distinct_ids(entries),
        0 <= i < entries.len(),
    ensures
        resting_order(entries, entries[i].id) == Some(entries[i].order),
{
    let id: OrderId = entries[i].id;
    lemma_resting_order_is_first_match(entries, id);
    assert(resting_order(entries, id) is Some);
    let order: RestingOrder = resting_order(entries, id)->Some_0;
    let k: int = choose|k: int|
        0 <= k < entries.len() && (#[trigger] entries[k]).id == id && entries[k].order == order
            && forall|j: int| 0 <= j < k ==> (#[trigger] entries[j]).id != id;
    if k < i {
        assert(entries[k].id != entries[i].id);
    } else if i < k {
        assert(entries[i].id != entries[k].id);
    }
}

/// `first_foreign_price` finds a price exactly when some entry is another
/// trader's, and then it is the price of the first such entry.
pub proof fn lemma_first_foreign_price_is_first_match(entries: Seq<BookEntry>, trader_index: u64)
    ensures
        first_foreign_price(entries, trader_index) is None <==> forall|i: int|
            0 <= i < entries.len() ==> (#[trigger] entries[i]).order.trader_index == trader_index,
        first_foreign_price(entries, trader_index) matches Some(price) ==> exists|i: int|
            0 <= i < entries.len() && (#[trigger] entries[i]).order.trader_index != trader_index
                && entries[i].id.price_in_ticks == price && forall|j: int|
                0 <= j < i ==> (#[trigger] entries[j]).order.trader_index == trader_index,
    decreases entries.len(),
{
    if entries.len() == 0 {
    } else if entries[0].order.trader_index != trader_index {
        assert(entries[0].order.trader_index != trader_index && entries[0].id.price_in_ticks
            == first_foreign_price(entries, trader_index)->Some_0);
    } else {
        let rest: Seq<BookEntry> = entries.skip(1);
        lemma_first_foreign_price_is_first_match(rest, trader_index);
        assert(forall|i: int| 0 <= i < rest.len() ==> rest[i] == entries[i + 1]);
        if first_foreign_price(rest, trader_index) is None {
            assert forall|i: int| 0 <= i < entries.len() implies (
            #[trigger] entries[i]).order.trader_index == trader_index by {
                if i > 0 {
                    assert(rest[i - 1].order.trader_index == trader_index);
                }
            }
        } else {
            let price: u64 = first_foreign_price(rest, trader_index)->Some_0;
            let k: int = choose|k: int|
                0 <= k < rest.len() && (#[trigger] rest[k]).order.trader_index != trader_index
                    && rest[k].id.price_in_ticks == price && forall|j: int|
                    0 <= j < k ==> (#[trigger] rest[j]).order.trader_index == trader_index;
            assert(entries[k + 1].order.trader_index != trader_index && entries[k
                + 1].id.price_in_ticks == price);
            assert forall|j: int| 0 <= j < k + 1 implies (
            #[trigger] entries[j]).order.trader_index == trader_index by {
                if j > 0 {
                    assert(rest[j - 1].order.trader_index == trader_index);
                }
            }
        }
    }
}

/// On a book in priority order the best bid is the highest bid of any
/// other trader and the best ask the lowest ask of any other trader.
pub proof fn lemma_best_prices_bound_foreign_orders(market: BookSnapshot, trader_index: u64)
    requires
        bids_in_priority_order(market.bids@),
        asks_in_priority_order(market.asks@),
    ensures
        forall|i: int|
            0 <= i < market.bids@.len() && (#[trigger] market.bids@[i]).order.trader_index
                != trader_index ==> market.bids@[i].id.price_in_ticks <= market.best_bid(
                trader_index,
            ),
        forall|i: int|
            0 <= i < market.asks@.len() && (#[trigger] market.asks@[i]).order.trader_index
                != trader_index ==> market.asks@[i].id.price_in_ticks >= market.best_ask(
                trader_index,
            ),
{
    lemma_first_foreign_price_is_first_match(market.bids@, trader_index);
    lemma_first_foreign_price_is_first_match(market.asks@, trader_index);
}

} // verus!
