use anchor_lang::AnchorSerialize;
use uber_mm::consts::StrategyError;
use uber_mm::market::OrderId;
use uber_mm::return_data::decode_order_ids;
use uber_mm::return_data::parse_order_ids_from_return_data;
use uber_mm::return_data::ReturnData;

fn id(price: u64, sequence: u64) -> OrderId {
    OrderId { price_in_ticks: price, order_sequence_number: sequence }
}

fn from_phoenix(data: Vec<u8>) -> ReturnData {
    ReturnData { program_id: phoenix::id().to_bytes(), data }
}

#[test]
fn list_of_order_ids_is_decoded_in_order() {
    let data: Vec<u8> = vec![
        2, 0, 0, 0, // two identifiers
        0x5c, 0x86, 0x01, 0, 0, 0, 0, 0, // 99932
        0xfa, 0xff, 0xff, 0xff, 0xff, 0xff, 0xff, 0xff, // !5
        0xc4, 0x87, 0x01, 0, 0, 0, 0, 0, // 100292
        6, 0, 0, 0, 0, 0, 0, 0,
    ];
    assert_eq!(decode_order_ids(&data), Ok(vec![id(99932, !5), id(100292, 6)]));
}

#[test]
fn order_ids_decode_as_they_are_serialized() {
    let placed: Vec<(u64, u64)> = vec![(99900, !17), (100100, 18), (u64::MAX, 0x0123_4567_89ab_cdef)];
    let data = placed.try_to_vec().unwrap();
    assert_eq!(data.len(), 4 + 16 * 3);
    assert_eq!(
        decode_order_ids(&data),
        Ok(vec![id(99900, !17), id(100100, 18), id(u64::MAX, 0x0123_4567_89ab_cdef)])
    );
}

#[test]
fn empty_list_of_order_ids_is_four_zero_bytes() {
    assert_eq!(decode_order_ids(&[0, 0, 0, 0]), Ok(vec![]));
    let none: Vec<(u64, u64)> = vec![];
    assert_eq!(decode_order_ids(&none.try_to_vec().unwrap()), Ok(vec![]));
}

#[test]
fn bytes_that_are_no_list_of_order_ids_are_refused() {
    let refused = Err(StrategyError::NoReturnData);
    assert_eq!(decode_order_ids(&[]), refused);
    assert_eq!(decode_order_ids(&[1, 0, 0]), refused);
    // A count of one without an identifier.
    assert_eq!(decode_order_ids(&[1, 0, 0, 0]), refused);
    // One byte short.
    let mut data = vec![(99900u64, 17u64)].try_to_vec().unwrap();
    data.pop();
    assert_eq!(decode_order_ids(&data), refused);
    // One byte more.
    let mut data = vec![(99900u64, 17u64)].try_to_vec().unwrap();
    data.push(0);
    assert_eq!(decode_order_ids(&data), refused);
    // Bytes after an empty list.
    assert_eq!(decode_order_ids(&[0, 0, 0, 0, 0]), refused);
    // A count far beyond the bytes.
    assert_eq!(decode_order_ids(&[0xff, 0xff, 0xff, 0xff, 1, 2, 3]), refused);
}

#[test]
fn order_ids_of_phoenix_are_appended() {
    let mut order_ids = vec![id(1, 2)];
    let returned = from_phoenix(vec![(99900u64, !17u64), (100100, 18)].try_to_vec().unwrap());
    assert_eq!(parse_order_ids_from_return_data(&mut order_ids, Some(&returned)), Ok(()));
    assert_eq!(order_ids, vec![id(1, 2), id(99900, !17), id(100100, 18)]);
}

#[test]
fn absent_return_data_appends_nothing() {
    let mut order_ids = vec![id(1, 2)];
    assert_eq!(parse_order_ids_from_return_data(&mut order_ids, None), Ok(()));
    assert_eq!(order_ids, vec![id(1, 2)]);
}

#[test]
fn return_data_of_another_program_is_passed_over() {
    let mut order_ids = vec![id(1, 2)];
    let valid = vec![(99900u64, 17u64)].try_to_vec().unwrap();
    let other = ReturnData { program_id: [7u8; 32], data: valid };
    assert_eq!(parse_order_ids_from_return_data(&mut order_ids, Some(&other)), Ok(()));
    assert_eq!(order_ids, vec![id(1, 2)]);
    // Not even bytes that would not decode are looked at.
    let garbage = ReturnData { program_id: [7u8; 32], data: vec![9, 9, 9] };
    assert_eq!(parse_order_ids_from_return_data(&mut order_ids, Some(&garbage)), Ok(()));
    assert_eq!(order_ids, vec![id(1, 2)]);
}

#[test]
fn empty_return_data_of_phoenix_is_passed_over() {
    let mut order_ids = vec![id(1, 2)];
    let returned = from_phoenix(vec![]);
    assert_eq!(parse_order_ids_from_return_data(&mut order_ids, Some(&returned)), Ok(()));
    assert_eq!(order_ids, vec![id(1, 2)]);
}

#[test]
fn return_data_of_phoenix_that_does_not_decode_is_an_error() {
    let mut order_ids = vec![id(1, 2)];
    let returned = from_phoenix(vec![1, 0, 0, 0, 5]);
    assert_eq!(
        parse_order_ids_from_return_data(&mut order_ids, Some(&returned)),
        Err(StrategyError::NoReturnData)
    );
    assert_eq!(order_ids, vec![id(1, 2)]);
}
