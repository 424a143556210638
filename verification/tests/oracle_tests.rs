use uber_mm::consts::StrategyError;
use uber_mm::oracle::AccKey;
use uber_mm::oracle::CorpAction;
use uber_mm::oracle::Ema;
use uber_mm::oracle::Price;
use uber_mm::oracle::PriceComp;
use uber_mm::oracle::PriceInfo;
use uber_mm::oracle::PriceStatus;
use uber_mm::oracle::PriceType;
use uber_mm::oracle::SimplePrice;
use uber_mm::oracle::SimplePriceInfo;

fn reading(price: i64, conf: u64, status: PriceStatus, expo: i32, valid_slot: u64) -> Price {
    let mut feed = Price::default();
    feed.agg.price = price;
    feed.agg.conf = conf;
    feed.agg.status = status;
    feed.expo = expo;
    feed.valid_slot = valid_slot;
    feed
}

#[test]
fn trusted_reading_hands_out_price_and_exponent_untouched() {
    let feed = reading(2_512_345_678, 1_000_000, PriceStatus::Trading, -8, 1000);
    assert_eq!(feed.load(1010), Ok(SimplePrice { expo: -8, price: 2_512_345_678 }));
    assert_eq!(feed.load(1000), Ok(SimplePrice { expo: -8, price: 2_512_345_678 }));
    assert_eq!(feed.load(1049), Ok(SimplePrice { expo: -8, price: 2_512_345_678 }));
}

#[test]
fn reading_fifty_slots_old_is_stale() {
    let feed = reading(2_512_345_678, 1_000_000, PriceStatus::Trading, -8, 1000);
    assert_eq!(feed.load(1050), Err(StrategyError::PythValidSlot));
    assert_eq!(feed.load(5000), Err(StrategyError::PythValidSlot));
    assert_eq!(feed.load(u64::MAX), Err(StrategyError::PythValidSlot));
}

#[test]
fn stale_reading_is_stale_whatever_else_it_holds() {
    let feed = reading(-5, u64::MAX, PriceStatus::Halted, 3, 950);
    assert_eq!(feed.load(1000), Err(StrategyError::PythValidSlot));
}

#[test]
fn reading_from_a_later_slot_is_an_arithmetic_error() {
    let feed = reading(2_512_345_678, 1_000_000, PriceStatus::Trading, -8, 1001);
    assert_eq!(feed.load(1000), Err(StrategyError::ArithmeticOverflowOrUnderflow));
    let far = reading(2_512_345_678, 1_000_000, PriceStatus::Trading, -8, u64::MAX);
    assert_eq!(far.load(0), Err(StrategyError::ArithmeticOverflowOrUnderflow));
}

#[test]
fn halted_feed_is_refused_regardless_of_price_and_confidence() {
    let readings: [(i64, u64); 4] = [(2_512_345_678, 0), (-1, 0), (100, 1000), (0, u64::MAX)];
    for (price, conf) in readings {
        let feed = reading(price, conf, PriceStatus::Halted, -8, 1000);
        assert_eq!(feed.load(1010), Err(StrategyError::PythStatus));
    }
}

#[test]
fn feed_in_unknown_or_auction_status_is_refused() {
    let unknown = reading(2_512_345_678, 0, PriceStatus::Unknown, -8, 1000);
    assert_eq!(unknown.load(1010), Err(StrategyError::PythStatus));
    let auction = reading(2_512_345_678, 0, PriceStatus::Auction, -8, 1000);
    assert_eq!(auction.load(1010), Err(StrategyError::PythStatus));
}

#[test]
fn negative_price_is_refused() {
    let feed = reading(-1, 0, PriceStatus::Trading, -8, 1000);
    assert_eq!(feed.load(1010), Err(StrategyError::PythNegativePrice));
    let lowest = reading(i64::MIN, 0, PriceStatus::Trading, -8, 1000);
    assert_eq!(lowest.load(1010), Err(StrategyError::PythNegativePrice));
}

#[test]
fn confidence_one_above_a_tenth_of_the_price_is_too_wide() {
    let prices: [i64; 4] = [0, 9, 1000, 2_512_345_678];
    for price in prices {
        let feed = reading(price, (price / 10 + 1) as u64, PriceStatus::Trading, -8, 1000);
        assert_eq!(feed.load(1010), Err(StrategyError::PythConfidence));
    }
}

#[test]
fn confidence_of_a_tenth_of_the_price_is_accepted() {
    let feed = reading(1000, 100, PriceStatus::Trading, -8, 1000);
    assert_eq!(feed.load(1010), Ok(SimplePrice { expo: -8, price: 1000 }));
    let zero = reading(0, 0, PriceStatus::Trading, -8, 1000);
    assert_eq!(zero.load(1010), Ok(SimplePrice { expo: -8, price: 0 }));
}

#[test]
fn confidence_too_large_to_scale_is_too_wide() {
    let feed = reading(i64::MAX, u64::MAX, PriceStatus::Trading, -8, 1000);
    assert_eq!(feed.load(1010), Err(StrategyError::PythConfidence));
    let edge = reading(i64::MAX, u64::MAX / 10 + 1, PriceStatus::Trading, -8, 1000);
    assert_eq!(edge.load(1010), Err(StrategyError::PythConfidence));
}

#[test]
fn price_status_converts_to_its_number() {
    let unknown: u8 = PriceStatus::Unknown.into();
    let trading: u8 = PriceStatus::Trading.into();
    let halted: u8 = PriceStatus::Halted.into();
    let auction: u8 = PriceStatus::Auction.into();
    assert_eq!((unknown, trading, halted, auction), (0, 1, 2, 3));
    assert_eq!(u8::from(PriceStatus::Halted), 2);
}

#[test]
fn defaults_of_the_feed_types() {
    assert_eq!(PriceStatus::default(), PriceStatus::Trading);
    assert_eq!(CorpAction::default(), CorpAction::NoCorpAct);
    assert_eq!(PriceType::default(), PriceType::Price);
    assert_eq!(AccKey::default().val, [0u8; 32]);
    let info = PriceInfo::default();
    assert_eq!((info.price, info.conf, info.pub_slot), (0, 0, 0));
    assert_eq!(info.status, PriceStatus::Trading);
    assert_eq!(info.corp_act, CorpAction::NoCorpAct);
    let ema = Ema::default();
    assert_eq!((ema.val, ema.numer, ema.denom), (0, 0, 0));
    let comp = PriceComp::default();
    assert_eq!(comp.publisher.val, [0u8; 32]);
    assert_eq!((comp.agg.price, comp.latest.price), (0, 0));
    assert_eq!(SimplePriceInfo::default(), SimplePriceInfo { price: 0, low: 0, high: 0 });
    assert_eq!(SimplePrice::default(), SimplePrice { expo: 0, price: 0 });
}

#[test]
fn default_price_account_is_empty() {
    let feed = Price::default();
    assert_eq!((feed.magic, feed.ver, feed.atype, feed.size), (0, 0, 0, 0));
    assert_eq!(feed.ptype, PriceType::Price);
    assert_eq!((feed.expo, feed.num, feed.num_qt), (0, 0, 0));
    assert_eq!((feed.last_slot, feed.valid_slot, feed.prev_slot), (0, 0, 0));
    assert_eq!((feed.twap.val, feed.twac.val), (0, 0));
    assert_eq!((feed.drv1, feed.drv2, feed.drv3), (0, 0, 0));
    assert_eq!(feed.prod.val, [0u8; 32]);
    assert_eq!(feed.next.val, [0u8; 32]);
    assert_eq!((feed.prev_price, feed.prev_conf), (0, 0));
    assert_eq!(feed.agg.status, PriceStatus::Trading);
    assert_eq!(feed.comp.len(), 32);
    for comp in feed.comp.iter() {
        assert_eq!(comp.publisher.val, [0u8; 32]);
        assert_eq!(comp.agg.status, PriceStatus::Trading);
        assert_eq!((comp.agg.price, comp.latest.conf), (0, 0));
    }
    // Zero price, zero confidence, trading, valid at slot zero.
    assert_eq!(feed.load(0), Ok(SimplePrice { expo: 0, price: 0 }));
}
