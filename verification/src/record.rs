//! What a type must offer to be kept in a store: an id, and a byte
//! encoding that its decoder undoes.

use vstd::prelude::*;
use crate::durable::MAX_VALUE_BYTES;

verus! {

/// A record that a store can hold.
pub trait Record: View + Sized {
    /// The id under which a record is stored.
    spec fn key_of(v: Self::V) -> u64;

    /// The bytes that stand for a record.
    spec fn encoding(v: Self::V) -> Seq<u8>;

    /// The record that bytes stand for, if they stand for one.
    spec fn decoding(bytes: Seq<u8>) -> Option<Self::V>;

    /// Decoding undoes encoding, for every record small enough to store.
    proof fn lemma_round_trip(v: Self::V)
        requires
            Self::encoding(v).len() <= MAX_VALUE_BYTES,
        ensures
            Self::decoding(Self::encoding(v)) == Some(v),
    ;

    /// Bytes that decode are the encoding of what they decode to.
    proof fn lemma_canonical(bytes: Seq<u8>)
        requires
            Self::decoding(bytes) is Some,
        ensures
            Self::encoding(Self::decoding(bytes).unwrap()) == bytes,
    ;

    /// The id of the record.
    fn id(&self) -> (k: u64)
        ensures
            k == Self::key_of(self@),
    ;

    /// Encodes the record.
    fn encode(&self) -> (bytes: Vec<u8>)
        ensures
            bytes@ == Self::encoding(self@),
    ;

    /// Decodes a record, if the bytes stand for one.
    fn decode(bytes: &[u8]) -> (r: Option<Self>)
        ensures
            r matches Some(x) ==> Self::decoding(bytes@) == Some(x@),
            r is None ==> Self::decoding(bytes@) is None,
    ;
}

} // verus!
