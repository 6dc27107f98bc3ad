//! Byte buffers: the `bytes::Bytes` type with the contracts the library relies on.

use vstd::prelude::*;
use bytes::Bytes;

verus! {

/// `bytes::Bytes`, an immutable buffer of bytes. What it holds is known only
/// through `bytes_contents`.
#[verifier::external_type_specification]
#[verifier::external_body]
pub struct ExBytes(bytes::Bytes);

/// The bytes that a buffer holds, in order.
pub uninterp spec fn bytes_contents(b: Bytes) -> Seq<u8>;

/// The contents of an optional buffer.
pub open spec fn option_contents(b: Option<Bytes>) -> Option<Seq<u8>> {
    match b {
        Some(b) => Some(bytes_contents(b)),
        None => None,
    }
}

/// `Bytes::clone` hands out a second handle on the same bytes.
pub assume_specification[ <bytes::Bytes as Clone>::clone ](b: &bytes::Bytes) -> (copy: bytes::Bytes)
    ensures
        bytes_contents(copy) == bytes_contents(*b),
;

/// Calls `Bytes::is_empty`, which tests the buffer's length against zero.
#[verifier::external_body]
pub(crate) fn bytes_is_empty(b: &Bytes) -> (empty: bool)
    ensures
        empty == (bytes_contents(*b).len() == 0),
{
    b.is_empty()
}

/// Calls `Bytes::len`, the number of bytes in the buffer.
#[verifier::external_body]
pub(crate) fn bytes_len(b: &Bytes) -> (len: usize)
    ensures
        len == bytes_contents(*b).len(),
{
    b.len()
}

/// Copies the buffer out through `Bytes::deref` and the slice's `to_vec`:
/// the vector holds the buffer's bytes.
#[verifier::external_body]
pub(crate) fn bytes_to_vec(b: &Bytes) -> (v: Vec<u8>)
    ensures
        v@ == bytes_contents(*b),
{
    b.to_vec()
}

/// Calls `Bytes::from` on a vector: the buffer takes the vector's bytes over.
#[verifier::external_body]
pub(crate) fn bytes_from_vec(v: Vec<u8>) -> (b: Bytes)
    ensures
        bytes_contents(b) == v@,
{
    Bytes::from(v)
}

} // verus!
