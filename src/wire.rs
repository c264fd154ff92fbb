//! The byte buffer type that outgoing payloads are carried in.
use vstd::prelude::*;

use bytes::Bytes;

verus! {

#[verifier::external_type_specification]
#[verifier::external_body]
pub struct ExBytes(Bytes);

/// The bytes held by a `Bytes` buffer.
pub uninterp spec fn bytes_view(b: Bytes) -> Seq<u8>;

/// Relies on `<bytes::Bytes as From<Vec<u8>>>::from`: the buffer takes over
/// the vector's storage and holds exactly its bytes.
#[verifier::external_body]
pub(crate) fn bytes_from_vec(v: Vec<u8>) -> (r: Bytes)
    ensures
        bytes_view(r) == v@,
{
    Bytes::from(v)
}

} // verus!
