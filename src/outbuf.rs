//! Response frames handed to the transport, held in `bytes::BytesMut`.

use vstd::prelude::*;

verus! {

#[verifier::external_type_specification]
#[verifier::external_body]
pub struct ExBytesMut(bytes::BytesMut);

/// The bytes a `BytesMut` holds, in order.
pub uninterp spec fn bytes_mut_contents(b: bytes::BytesMut) -> Seq<u8>;

/// Relies on `<BytesMut as From<&[u8]>>::from`: a buffer holding a copy of
/// the slice.
#[verifier::external_body]
pub(crate) fn bytes_mut_from_slice(s: &[u8]) -> (r: bytes::BytesMut)
    ensures
        bytes_mut_contents(r) == s@,
{
    bytes::BytesMut::from(s)
}

/// Relies on `BytesMut::is_empty`: whether the buffer holds no byte.
#[verifier::external_body]
pub(crate) fn bytes_mut_is_empty(b: &bytes::BytesMut) -> (r: bool)
    ensures
        r == (bytes_mut_contents(*b).len() == 0),
{
    b.is_empty()
}

} // verus!
