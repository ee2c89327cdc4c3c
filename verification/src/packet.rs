//! Packets in the form that data channels take and give.
use bytes::Bytes;
use vstd::prelude::*;

use crate::messages::Packet;

verus! {

/// A piece of shared memory.
#[verifier::external_type_specification]
#[verifier::external_body]
pub struct ExBytes(bytes::Bytes);

/// The bytes in a piece of shared memory.
pub uninterp spec fn byte_content(bytes: bytes::Bytes) -> Seq<u8>;

/// `<bytes::Bytes as From<Box<[u8]>>>::from`: holds the same bytes.
#[verifier::external_body]
pub(crate) fn to_bytes(packet: Packet) -> (res: Bytes)
    ensures
        byte_content(res) == packet@,
{
    Bytes::from(packet)
}

/// `<bytes::Bytes as Deref>::deref`, copied into a packet: the same bytes.
#[verifier::external_body]
pub(crate) fn to_packet(bytes: &Bytes) -> (res: Packet)
    ensures
        res@ == byte_content(*bytes),
{
    (**bytes).into()
}

} // verus!
