//! What travels over the message broker, as bytes. A flip is a record of
//! three integers in a fixed order with nothing before or after them, so
//! both ends have to agree on this layout.

use crate::data::Flip;
use crate::error::Error;
use vstd::bytes::{
    lemma_auto_spec_u32_to_from_le_bytes, spec_u32_from_le_bytes, spec_u32_to_le_bytes,
};
use vstd::prelude::*;

verus! {

/// The length of the record of one flip.
pub const RECORD_LEN: usize = 12;

/// The four bytes of an integer, low byte first.
pub open spec fn int_bytes(v: i32) -> Seq<u8> {
    spec_u32_to_le_bytes(v as u32)
}

/// The integer that four bytes stand for, low byte first.
pub open spec fn int_of(bytes: Seq<u8>) -> i32 {
    spec_u32_from_le_bytes(bytes) as i32
}

/// The record of a flip: hour, minute and code, four bytes each.
pub open spec fn record_of(flip: Flip) -> Seq<u8> {
    int_bytes(flip.hour) + int_bytes(flip.minute) + int_bytes(flip.code)
}

/// The flip that a payload starts with. Bytes after the record are ignored,
/// and a payload too short for a record holds no flip.
pub open spec fn flip_of(data: Seq<u8>) -> Option<Flip> {
    if data.len() >= RECORD_LEN {
        Some(
            Flip {
                hour: int_of(data.subrange(0, 4)),
                minute: int_of(data.subrange(4, 8)),
                code: int_of(data.subrange(8, 12)),
            },
        )
    } else {
        None
    }
}

/// Calls `bincode::serialize` on the three integers as a tuple. With the
/// settings of that function (no byte limit, little endian, integers at
/// their fixed width) a tuple is its members one after the other, and
/// writing them into a vector cannot fail.
#[verifier::external_body]
fn serialize_triple(first: i32, second: i32, third: i32) -> (r: Result<Vec<u8>, String>)
    ensures
        r is Ok,
        r matches Ok(bytes) ==> bytes@ == int_bytes(first) + int_bytes(second) + int_bytes(third),
{
    match bincode::serialize(&(first, second, third)) {
        Ok(bytes) => Ok(bytes),
        Err(e) => Err(e.to_string()),
    }
}

/// Calls `bincode::deserialize` for a tuple of three integers. With the
/// settings of that function the integers are read from the first twelve
/// bytes, four each and low byte first; more bytes may follow, and fewer are
/// an error.
#[verifier::external_body]
fn deserialize_triple(data: &[u8]) -> (r: Result<(i32, i32, i32), String>)
    ensures
        r is Ok <==> data@.len() >= 12,
        r matches Ok(triple) ==> triple.0 == int_of(data@.subrange(0, 4)) && triple.1 == int_of(
            data@.subrange(4, 8),
        ) && triple.2 == int_of(data@.subrange(8, 12)),
{
    match bincode::deserialize::<(i32, i32, i32)>(data) {
        Ok(triple) => Ok(triple),
        Err(e) => Err(e.to_string()),
    }
}

/// The payload that publishes `flip`.
pub fn encode_flip(flip: &Flip) -> (r: Result<Vec<u8>, Error>)
    ensures
        r is Ok,
        r matches Ok(bytes) ==> bytes@ == record_of(*flip),
{
    match serialize_triple(flip.hour, flip.minute, flip.code) {
        Ok(bytes) => Ok(bytes),
        Err(text) => Err(Error::Bin(text)),
    }
}

/// The payloads that publish a batch: one for each flip, in the order of
/// the batch.
pub fn encode_batch(batch: &Vec<Flip>) -> (payloads: Vec<Vec<u8>>)
    ensures
        payloads@.len() == batch@.len(),
        forall|i: int| 0 <= i < batch@.len() ==> (#[trigger] payloads@[i])@ == record_of(batch@[i]),
{
    let mut payloads: Vec<Vec<u8>> = Vec::new();
    let mut i: usize = 0;
    while i < batch.len()
        invariant
            i <= batch.len(),
            payloads@.len() == i,
            forall|j: int| 0 <= j < i ==> (#[trigger] payloads@[j])@ == record_of(batch@[j]),
        decreases batch.len() - i,
    {
        payloads.push(encode_flip(&batch[i]).unwrap());
        i += 1;
    }
    payloads
}

/// The flip that a payload holds, or a `Bin` error for a payload that is too
/// short.
pub fn decode_flip(data: &[u8]) -> (r: Result<Flip, Error>)
    ensures
        r matches Ok(flip) ==> flip_of(data@) == Some(flip),
        r matches Err(e) ==> flip_of(data@) is None && e is Bin,
{
    match deserialize_triple(data) {
        Ok(triple) => Ok(Flip { hour: triple.0, minute: triple.1, code: triple.2 }),
        Err(text) => Err(Error::Bin(text)),
    }
}

/// The payload that announces a change of the stored schedule: an
/// announcement says nothing, so its payload is empty.
pub fn change_notice() -> (payload: Vec<u8>)
    ensures
        payload@ == Seq::<u8>::empty(),
{
    Vec::new()
}

/// A record is twelve bytes long.
pub proof fn lemma_record_len(flip: Flip)
    ensures
        record_of(flip).len() == RECORD_LEN,
{
    lemma_auto_spec_u32_to_from_le_bytes();
}

/// What is published is what arrives: the record of a flip, with whatever
/// bytes after it, holds that flip.
pub proof fn law_record_round_trip(flip: Flip, trailing: Seq<u8>)
    ensures
        flip_of(record_of(flip) + trailing) == Some(flip),
{
    lemma_auto_spec_u32_to_from_le_bytes();
    let data = record_of(flip) + trailing;
    assert(data.subrange(0, 4) =~= int_bytes(flip.hour));
    assert(data.subrange(4, 8) =~= int_bytes(flip.minute));
    assert(data.subrange(8, 12) =~= int_bytes(flip.code));
    lemma_int_round_trip(flip.hour);
    lemma_int_round_trip(flip.minute);
    lemma_int_round_trip(flip.code);
}

/// An integer comes back from its four bytes.
pub proof fn lemma_int_round_trip(v: i32)
    ensures
        int_of(int_bytes(v)) == v,
{
    lemma_auto_spec_u32_to_from_le_bytes();
    let u: u32 = v as u32;
    assert(spec_u32_to_le_bytes(u).len() == 4);
    assert(spec_u32_from_le_bytes(spec_u32_to_le_bytes(u)) == u);
    assert(u as i32 == v) by (bit_vector)
        requires
            u == v as u32,
    ;
}

} // verus!
