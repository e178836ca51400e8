//! Byte buffers shared by payloads and frames, backed by `bytes::Bytes`.

use vstd::prelude::*;
use bytes::Bytes;

verus! {

/// `bytes::Bytes`, a cheaply clonable immutable byte buffer.
#[verifier::external_type_specification]
#[verifier::external_body]
pub struct ExBytes(Bytes);

/// The bytes held by a `Bytes` buffer, in order.
pub uninterp spec fn bytes_content(b: Bytes) -> Seq<u8>;

/// `Bytes::copy_from_slice`: a new buffer holding a copy of `data`.
#[verifier::external_body]
pub(crate) fn bytes_copy_from_slice(data: &[u8]) -> (res: Bytes)
    ensures
        bytes_content(res) == data@,
{
    Bytes::copy_from_slice(data)
}

/// `Bytes::from(Vec<u8>)`: takes over the vector's bytes.
#[verifier::external_body]
pub(crate) fn bytes_from_vec(data: Vec<u8>) -> (res: Bytes)
    ensures
        bytes_content(res) == data@,
{
    Bytes::from(data)
}

/// `Bytes::len`: the number of bytes held.
#[verifier::external_body]
pub(crate) fn bytes_len(b: &Bytes) -> (res: usize)
    ensures
        res == bytes_content(*b).len(),
{
    b.len()
}

/// `Bytes` as a slice (`AsRef<[u8]>`): the held bytes, in order.
#[verifier::external_body]
pub(crate) fn bytes_as_slice(b: &Bytes) -> (res: &[u8])
    ensures
        res@ == bytes_content(*b),
{
    b.as_ref()
}

/// `Bytes::clone`: a second handle on the same bytes.
#[verifier::external_body]
pub(crate) fn bytes_clone(b: &Bytes) -> (res: Bytes)
    ensures
        bytes_content(res) == bytes_content(*b),
{
    b.clone()
}

} // verus!
