use vstd::prelude::*;
use bytes::Bytes;

verus! {

#[verifier::external_type_specification]
#[verifier::external_body]
pub struct ExBytes(Bytes);

/// The byte sequence a `bytes::Bytes` container holds.
pub uninterp spec fn byte_content(b: Bytes) -> Seq<u8>;

/// Relies on `bytes::Bytes::len`: the number of bytes the container
/// holds.
#[verifier::external_body]
pub fn payload_len(b: &Bytes) -> (r: usize)
    ensures
        r == byte_content(*b).len(),
{
    b.len()
}

/// Relies on `<bytes::Bytes as From<Vec<u8>>>::from`: the container
/// holds exactly the vector's bytes, in order.
#[verifier::external_body]
pub fn payload_from_vec(v: Vec<u8>) -> (r: Bytes)
    ensures
        byte_content(r) == v@,
{
    Bytes::from(v)
}

/// Relies on `<[u8]>::to_vec`, reached through `Bytes`'s deref to a
/// byte slice: copies the held bytes out unchanged.
#[verifier::external_body]
pub fn payload_to_vec(b: &Bytes) -> (r: Vec<u8>)
    ensures
        r@ == byte_content(*b),
{
    b.to_vec()
}

} // verus!
