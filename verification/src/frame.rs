//! Byte frames: the payload type that travels through every queue.

use bytes::Bytes;
use vstd::prelude::*;

verus! {

/// `bytes::Bytes`: a cheaply cloneable run of bytes.
#[verifier::external_type_specification]
#[verifier::external_body]
pub struct ExBytes(Bytes);

/// The octets that a frame holds, in order.
pub uninterp spec fn octets(frame: Bytes) -> Seq<u8>;

/// `Bytes::len`: the number of octets the frame holds.
pub assume_specification[ Bytes::len ](frame: &Bytes) -> (n: usize)
    ensures
        n == octets(*frame).len(),
;

/// `Bytes::clone`: a second handle on the same octets.
pub assume_specification[ <Bytes as Clone>::clone ](frame: &Bytes) -> (copy: Bytes)
    ensures
        octets(copy) == octets(*frame),
;

/// `Bytes::from(Vec<u8>)`: the frame holds exactly the octets of the vector.
#[verifier::external_body]
pub(crate) fn frame_from_vec(data: Vec<u8>) -> (frame: Bytes)
    ensures
        octets(frame) == data@,
{
    Bytes::from(data)
}

/// `Bytes::to_vec` (through its slice): the octets of the frame, copied out.
#[verifier::external_body]
pub(crate) fn frame_to_vec(frame: &Bytes) -> (data: Vec<u8>)
    ensures
        data@ == octets(*frame),
{
    frame.to_vec()
}

/// `Bytes == Bytes`: two frames compare equal exactly when they hold the same octets.
#[verifier::external_body]
pub(crate) fn frame_eq(a: &Bytes, b: &Bytes) -> (same: bool)
    ensures
        same == (octets(*a) == octets(*b)),
{
    a == b
}

} // verus!
