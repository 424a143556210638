use crate::consts::StrategyError;
use crate::consts::MAX_ORACLE_SLOT_AGE;
use crate::consts::ORACLE_CONFIDENCE_FACTOR;
use vstd::prelude::*;

verus! {

/// A 32-byte account address as it is laid out in a price account.
#[derive(Clone, Copy, Debug)]
pub struct AccKey {
    pub val: [u8; 32],
}

impl AccKey {
    /// The all-zero address.
    pub open spec fn is_zero(self) -> bool {
        forall|i: int| 0 <= i < 32 ==> self.val@[i] == 0u8
    }
}

impl Default for AccKey {
    fn default() -> (key: Self)
        ensures
            key.is_zero(),
    {
        AccKey { val: [0u8; 32] }
    }
}

/// Trading status that a feed reports for its aggregate price.
#[derive(Clone, Copy, Debug, PartialEq, Eq, Structural)]
pub enum PriceStatus {
    Unknown,
    Trading,
    Halted,
    Auction,
}

impl Default for PriceStatus {
    fn default() -> (status: Self)
        ensures
            status == PriceStatus::Trading,
    {
        PriceStatus::Trading
    }
}

impl From<PriceStatus> for u8 {
    fn from(status: PriceStatus) -> (byte: u8) {
        match status {
            PriceStatus::Unknown => 0,
            PriceStatus::Trading => 1,
            PriceStatus::Halted => 2,
            PriceStatus::Auction => 3,
        }
    }
}

impl vstd::std_specs::convert::FromSpecImpl<PriceStatus> for u8 {
    open spec fn obeys_from_spec() -> bool {
        true
    }

    /// The status as the feed encodes it: the variant's position.
    open spec fn from_spec(status: PriceStatus) -> u8 {
        match status {
            PriceStatus::Unknown => 0u8,
            PriceStatus::Trading => 1u8,
            PriceStatus::Halted => 2u8,
            PriceStatus::Auction => 3u8,
        }
    }
}

/// Corporate action attached to a price; feeds know only the empty one.
#[derive(Clone, Copy, Debug, PartialEq, Eq, Structural)]
pub enum CorpAction {
    NoCorpAct,
}

impl Default for CorpAction {
    fn default() -> (action: Self)
        ensures
            action == CorpAction::NoCorpAct,
    {
        CorpAction::NoCorpAct
    }
}

/// One published price with its confidence interval.
#[derive(Clone, Copy, Debug)]
pub struct PriceInfo {
    pub price: i64,
    pub conf: u64,
    pub status: PriceStatus,
    pub corp_act: CorpAction,
    pub pub_slot: u64,
}

impl PriceInfo {
    /// Zero price and interval, in trading status, published at slot zero.
    pub open spec fn initial() -> Self {
        PriceInfo {
            price: 0,
            conf: 0,
            status: PriceStatus::Trading,
            corp_act: CorpAction::NoCorpAct,
            pub_slot: 0,
        }
    }
}

impl Default for PriceInfo {
    fn default() -> (info: Self)
        ensures
            info == PriceInfo::initial(),
    {
        PriceInfo {
            price: 0,
            conf: 0,
            status: PriceStatus::Trading,
            corp_act: CorpAction::NoCorpAct,
            pub_slot: 0,
        }
    }
}

/// What one publisher contributes to a price account.
#[derive(Clone, Copy, Debug)]
pub struct PriceComp {
    pub publisher: AccKey,
    pub agg: PriceInfo,
    pub latest: PriceInfo,
}

impl PriceComp {
    /// A component without a publisher and with initial prices.
    pub open spec fn is_initial(self) -> bool {
        &&& self.publisher.is_zero()
        &&& self.agg == PriceInfo::initial()
        &&& self.latest == PriceInfo::initial()
    }
}

impl Default for PriceComp {
    fn default() -> (comp: Self)
        ensures
            comp.is_initial(),
    {
        PriceComp {
            publisher: AccKey::default(),
            agg: PriceInfo::default(),
            latest: PriceInfo::default(),
        }
    }
}

/// Kind of quantity that a price account tracks.
#[derive(Clone, Copy, Debug, PartialEq, Eq, Structural)]
pub enum PriceType {
    Unknown,
    Price,
    TWAP,
    Volatility,
}

impl Default for PriceType {
    fn default() -> (ptype: Self)
        ensures
            ptype == PriceType::Price,
    {
        PriceType::Price
    }
}

/// Exponential moving average with the state for its next update.
#[derive(Clone, Copy, Debug)]
pub struct Ema {
    pub val: i64,
    pub numer: i64,
    pub denom: i64,
}

impl Ema {
    pub open spec fn initial() -> Self {
        Ema { val: 0, numer: 0, denom: 0 }
    }
}

impl Default for Ema {
    fn default() -> (ema: Self)
        ensures
            ema == Ema::initial(),
    {
        Ema { val: 0, numer: 0, denom: 0 }
    }
}

/// A price account as its publisher lays it out: the raw reading that the
/// strategy validates before it trusts any field.
#[derive(Clone, Copy, Debug)]
pub struct Price {
    pub magic: u32,
    pub ver: u32,
    pub atype: u32,
    pub size: u32,
    pub ptype: PriceType,
    pub expo: i32,
    pub num: u32,
    pub num_qt: u32,
    pub last_slot: u64,
    pub valid_slot: u64,
    pub twap: Ema,
    pub twac: Ema,
    pub drv1: i64,
    pub drv2: i64,
    pub prod: AccKey,
    pub next: AccKey,
    pub prev_slot: u64,
    pub prev_price: i64,
    pub prev_conf: u64,
    pub drv3: i64,
    pub agg: PriceInfo,
    pub comp: [PriceComp; 32],
}

/// A price with an explicit band around it.
#[derive(Clone, Copy, Debug, PartialEq, Eq, Structural)]
pub struct SimplePriceInfo {
    pub price: i64,
    pub low: i64,
    pub high: i64,
}

impl Default for SimplePriceInfo {
    fn default() -> (info: Self)
        ensures
            info == (SimplePriceInfo { price: 0, low: 0, high: 0 }),
    {
        SimplePriceInfo { price: 0, low: 0, high: 0 }
    }
}

/// A price that passed validation: `price * 10^expo` in the feed's unit.
/// Scaling to a common base is left to the caller.
#[derive(Clone, Copy, Debug, PartialEq, Eq, Structural)]
pub struct SimplePrice {
    pub expo: i32,
    pub price: i64,
}

impl Default for SimplePrice {
    fn default() -> (price: Self)
        ensures
            price == (SimplePrice { expo: 0, price: 0 }),
    {
        SimplePrice { expo: 0, price: 0 }
    }
}

impl Price {
    /// An account with every number zero, every address zero, of type
    /// `Price`, with initial aggregate and components.
    pub open spec fn is_initial(self) -> bool {
        &&& self.magic == 0 && self.ver == 0 && self.atype == 0 && self.size == 0
        &&& self.ptype == PriceType::Price
        &&& self.expo == 0 && self.num == 0 && self.num_qt == 0
        &&& self.last_slot == 0 && self.valid_slot == 0
        &&& self.twap == Ema::initial() && self.twac == Ema::initial()
        &&& self.drv1 == 0 && self.drv2 == 0 && self.drv3 == 0
        &&& self.prod.is_zero() && self.next.is_zero()
        &&& self.prev_slot == 0 && self.prev_price == 0 && self.prev_conf == 0
        &&& self.agg == PriceInfo::initial()
        &&& forall|i: int| 0 <= i < 32 ==> (#[trigger] self.comp@[i]).is_initial()
    }

    /// The reading is no older than the freshness window allows.
    pub open spec fn is_fresh(self, current_slot: u64) -> bool {
        self.valid_slot <= current_slot && current_slot - self.valid_slot < MAX_ORACLE_SLOT_AGE
    }

    /// The confidence interval is within a tenth of the price.
    pub open spec fn is_confident(self) -> bool {
        self.agg.conf * ORACLE_CONFIDENCE_FACTOR <= self.agg.price
    }

    /// What validation of this reading at `current_slot` yields. The checks
    /// are made in this order, and the first that fails names the error:
    /// a valid slot ahead of the current one, staleness, a status other than
    /// trading, a negative price, too wide a confidence interval.
    pub open spec fn validated(self, current_slot: u64) -> Result<SimplePrice, StrategyError> {
        if self.valid_slot > current_slot {
            Err(StrategyError::ArithmeticOverflowOrUnderflow)
        } else if current_slot - self.valid_slot >= MAX_ORACLE_SLOT_AGE {
            Err(StrategyError::PythValidSlot)
        } else if self.agg.status != PriceStatus::Trading {
            Err(StrategyError::PythStatus)
        } else if self.agg.price < 0 {
            Err(StrategyError::PythNegativePrice)
        } else if self.agg.conf * ORACLE_CONFIDENCE_FACTOR > self.agg.price {
            Err(StrategyError::PythConfidence)
        } else {
            Ok(SimplePrice { expo: self.expo, price: self.agg.price })
        }
    }

    /// Validates the reading against the slot at which it is used and hands
    /// out its price and exponent untouched.
    pub fn load(&self, current_slot: u64) -> (res: Result<SimplePrice, StrategyError>)
        ensures
            res == self.validated(current_slot),
            res is Ok <==> self.is_fresh(current_slot) && self.agg.status == PriceStatus::Trading
                && self.agg.price >= 0 && self.is_confident(),
    {
        if self.valid_slot > current_slot {
            return Err(StrategyError::ArithmeticOverflowOrUnderflow);
        }
        if current_slot - self.valid_slot >= MAX_ORACLE_SLOT_AGE {
            return Err(StrategyError::PythValidSlot);
        }
        match self.agg.status {
            PriceStatus::Trading => {},
            _ => {
                return Err(StrategyError::PythStatus);
            },
        }
        if self.agg.price < 0 {
            return Err(StrategyError::PythNegativePrice);
        }
        let price: u64 = self.agg.price as u64;
        let within: bool = match self.agg.conf.checked_mul(ORACLE_CONFIDENCE_FACTOR) {
            Some(scaled) => scaled <= price,
            None => false,
        };
        if !within {
            return Err(StrategyError::PythConfidence);
        }
        Ok(SimplePrice { expo: self.expo, price: self.agg.price })
    }
}

impl Default for Price {
    fn default() -> (price: Self)
        ensures
            price.is_initial(),
    {
        Price {
            magic: 0,
            ver: 0,
            atype: 0,
            size: 0,
            ptype: PriceType::Price,
            expo: 0,
            num: 0,
            num_qt: 0,
            last_slot: 0,
            valid_slot: 0,
            twap: Ema::default(),
            twac: Ema::default(),
            drv1: 0,
            drv2: 0,
            prod: AccKey::default(),
            next: AccKey::default(),
            prev_slot: 0,
            prev_price: 0,
            prev_conf: 0,
            drv3: 0,
            agg: PriceInfo::default(),
            comp: [PriceComp::default(); 32],
        }
    }
}

/// A reading whose confidence interval is one above a tenth of its price is
/// rejected for its confidence, when nothing earlier in the order of checks
/// rejects it.
pub proof fn lemma_confidence_just_above_tenth_rejected(feed: Price, current_slot: u64)
    requires
        feed.is_fresh(current_slot),
        feed.agg.status == PriceStatus::Trading,
        feed.agg.price >= 0,
        feed.agg.conf == feed.agg.price / 10 + 1,
    ensures
        feed.validated(current_slot) == Err::<SimplePrice, StrategyError>(
            StrategyError::PythConfidence,
        ),
{
}

/// A reading whose valid slot lies exactly one freshness window behind the
/// current slot is stale, whatever else it holds.
pub proof fn lemma_reading_at_window_edge_is_stale(feed: Price, current_slot: u64)
    requires
        current_slot >= MAX_ORACLE_SLOT_AGE,
        feed.valid_slot == current_slot - MAX_ORACLE_SLOT_AGE,
    ensures
        feed.validated(current_slot) == Err::<SimplePrice, StrategyError>(
            StrategyError::PythValidSlot,
        ),
{
}

/// A fresh reading in halted status is rejected for its status, whatever its
/// price and confidence interval.
pub proof fn lemma_halted_feed_rejected(feed: Price, current_slot: u64)
    requires
        feed.is_fresh(current_slot),
        feed.agg.status == PriceStatus::Halted,
    ensures
        feed.validated(current_slot) == Err::<SimplePrice, StrategyError>(
            StrategyError::PythStatus,
        ),
{
}

} // verus!
