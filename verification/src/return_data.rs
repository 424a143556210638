use crate::bytes::le_u32;
use crate::bytes::le_u64;
use crate::bytes::lemma_le_u64_bounds;
use crate::bytes::read_u32_le;
use crate::bytes::read_u64_le;
use crate::bytes::same_address;
use crate::consts::StrategyError;
use crate::market::phoenix_program_id;
use crate::market::OrderId;
use crate::market::PhoenixV1;
use vstd::prelude::*;

verus! {

/// What a program left as return data: the program's address and the bytes.
#[derive(Debug)]
pub struct ReturnData {
    pub program_id: [u8; 32],
    pub data: Vec<u8>,
}

/// `data` is the encoding of a list of order identifiers: a count in four
/// little-endian bytes, then for each identifier its price and its sequence
/// number in eight little-endian bytes each, and not one byte more.
pub open spec fn encodes_order_ids(data: Seq<u8>) -> bool {
    data.len() >= 4 && data.len() == 4 + 16 * le_u32(data, 0)
}

/// The identifier with index `i` in an encoded list.
pub open spec fn encoded_order_id(data: Seq<u8>, i: int) -> OrderId {
    OrderId {
        price_in_ticks: le_u64(data, 4 + 16 * i) as u64,
        order_sequence_number: le_u64(data, 12 + 16 * i) as u64,
    }
}

/// The list of identifiers that `data` encodes.
pub open spec fn encoded_order_ids(data: Seq<u8>) -> Seq<OrderId> {
    Seq::new(le_u32(data, 0) as nat, |i: int| encoded_order_id(data, i))
}

/// Decodes a list of order identifiers. Bytes that are not the encoding of
/// one, too few or too many, are refused.
pub fn decode_order_ids(data: &[u8]) -> (res: Result<Vec<OrderId>, StrategyError>)
    ensures
        res is Ok <==> encodes_order_ids(data@),
        res matches Ok(ids) ==> ids@ == encoded_order_ids(data@),
        res matches Err(e) ==> e == StrategyError::NoReturnData,
{
    if data.len() < 4 {
        return Err(StrategyError::NoReturnData);
    }
    let count: u32 = read_u32_le(data, 0);
    let expected: u64 = 4 + 16 * (count as u64);
    if data.len() as u64 != expected {
        return Err(StrategyError::NoReturnData);
    }
    let mut ids: Vec<OrderId> = Vec::new();
    let mut i: usize = 0;
    while i < count as usize
        invariant
            i <= count,
            count == le_u32(data@, 0),
            data.len() == 4 + 16 * count,
            ids@.len() == i,
            forall|j: int| 0 <= j < i ==> ids@[j] == encoded_order_id(data@, j),
        decreases count - i,
    {
        let at: usize = 4 + 16 * i;
        proof {
            lemma_le_u64_bounds(data@, at as int);
            lemma_le_u64_bounds(data@, at + 8);
        }
        let price_in_ticks: u64 = read_u64_le(data, at);
        let order_sequence_number: u64 = read_u64_le(data, at + 8);
        ids.push(OrderId { price_in_ticks, order_sequence_number });
        i = i + 1;
    }
    assert(ids@ =~= encoded_order_ids(data@));
    Ok(ids)
}

/// The return data is one to decode: Phoenix left it, and it is not empty.
/// Return data of another program, like none at all, holds no order
/// identifiers and is passed over.
pub open spec fn carries_order_ids(program_id: Seq<u8>, data: Seq<u8>) -> bool {
    program_id == phoenix_program_id() && data.len() > 0
}

/// The identifiers that return data reports: those it encodes when it
/// carries any, none otherwise. Return data of Phoenix that does not decode
/// is an error.
pub open spec fn reported_order_ids(return_data: Option<&ReturnData>) -> Result<
    Seq<OrderId>,
    StrategyError,
> {
    match return_data {
        None => Ok(Seq::empty()),
        Some(returned) => if !carries_order_ids(returned.program_id@, returned.data@) {
            Ok(Seq::empty())
        } else if encodes_order_ids(returned.data@) {
            Ok(encoded_order_ids(returned.data@))
        } else {
            Err(StrategyError::NoReturnData)
        },
    }
}

/// Appends to `order_ids` the identifiers of the orders that a submission
/// placed, as Phoenix reports them in its return data. Nothing is appended
/// for return data that is absent, empty or another program's. Return data
/// of Phoenix that does not decode is an error, and then `order_ids` is left
/// as it was.
pub fn parse_order_ids_from_return_data(
    order_ids: &mut Vec<OrderId>,
    return_data: Option<&ReturnData>,
) -> (res: Result<(), StrategyError>)
    ensures
        match reported_order_ids(return_data) {
            Ok(reported) => res is Ok && final(order_ids)@ == old(order_ids)@ + reported,
            Err(e) => res == Err::<(), StrategyError>(e) && final(order_ids)@ == old(order_ids)@,
        },
{
    let returned: &ReturnData = match return_data {
        Some(returned) => returned,
        None => {
            return Ok(());
        },
    };
    let phoenix: [u8; 32] = PhoenixV1::id();
    if !same_address(&returned.program_id, &phoenix) || returned.data.len() == 0 {
        return Ok(());
    }
    let mut placed: Vec<OrderId> = match decode_order_ids(returned.data.as_slice()) {
        Ok(ids) => ids,
        Err(e) => {
            return Err(e);
        },
    };
    order_ids.append(&mut placed);
    Ok(())
}

} // verus!
