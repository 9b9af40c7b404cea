//! Transactions and their wire decoding.
//!
//! A transaction is a protobuf message whose only field, tag 1, is the
//! `uint64` counter value it carries. Decoding goes through prost.

use vstd::prelude::*;

verus! {

#[verifier::external_type_specification]
#[verifier::external_body]
pub struct ExProstDecodeError(prost::DecodeError);

/// What prost's decoder makes of the bytes `b`: the counter value of the
/// message, or `None` where the bytes are not a well-formed message.
pub uninterp spec fn decoded_count(b: Seq<u8>) -> Option<u64>;

/// Relies on `<u64 as prost::Message>::decode`, the decoder of a message
/// whose single field is a `uint64` under tag 1. Its outcome depends on the
/// bytes alone, and an empty buffer decodes to the default value 0.
#[verifier::external_body]
fn decode_count(bytes: &[u8]) -> (r: Result<u64, prost::DecodeError>)
    ensures
        match r {
            Ok(c) => decoded_count(bytes@) == Some(c),
            Err(_) => decoded_count(bytes@) is None,
        },
        bytes@.len() == 0 ==> r matches Ok(0u64),
{
    <u64 as prost::Message>::decode(bytes)
}

/// Relies on the `Display` impl of `prost::DecodeError`: the decoder's
/// description of what went wrong.
#[verifier::external_body]
fn decode_error_text(e: &prost::DecodeError) -> (r: String) {
    e.to_string()
}

/// A decoded transaction.
#[derive(Clone, Copy, Debug, PartialEq, Eq)]
pub struct Transaction {
    /// The counter value this transaction carries.
    pub count: u64,
}

/// Bytes that do not decode to a transaction.
#[derive(Clone, Debug)]
pub struct TxDecodeError {
    /// The offending bytes, as received.
    pub bytes: Vec<u8>,
    /// The decoder's description of the failure.
    pub cause: String,
}

impl Transaction {
    /// Decodes a transaction from its wire bytes.
    pub fn decode(bytes: &[u8]) -> (r: Result<Transaction, TxDecodeError>)
        ensures
            match decoded_count(bytes@) {
                Some(c) => r == Ok::<Transaction, TxDecodeError>(Transaction { count: c }),
                None => r matches Err(e) && e.bytes@ == bytes@,
            },
    {
        match decode_count(bytes) {
            Ok(c) => Ok(Transaction { count: c }),
            Err(e) => {
                let cause = decode_error_text(&e);
                Err(TxDecodeError { bytes: vstd::slice::slice_to_vec(bytes), cause })
            },
        }
    }
}

} // verus!
