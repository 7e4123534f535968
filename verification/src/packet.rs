//! Fixed-capacity packets, held in `tinyvec::ArrayVec`.
use vstd::prelude::*;
use tinyvec::ArrayVec;

verus! {

/// A HID++ packet: at most twenty bytes, held inline.
pub type Packet = ArrayVec<[u8; 20]>;

/// The largest number of bytes a packet holds.
pub const PACKET_CAPACITY: usize = 20;

#[verifier::external_type_specification]
#[verifier::external_body]
#[verifier::reject_recursive_types(A)]
pub struct ExArrayVec<A>(ArrayVec<A>);

/// The bytes that a packet holds, in order.
pub uninterp spec fn packet_bytes(p: ArrayVec<[u8; 20]>) -> Seq<u8>;

/// `ArrayVec::new`: an empty packet.
#[verifier::external_body]
pub(crate) fn packet_new() -> (p: Packet)
    ensures
        packet_bytes(p) == Seq::<u8>::empty(),
{
    ArrayVec::new()
}

/// `ArrayVec::push`: appends one byte; tinyvec panics when the packet is
/// full, so a full packet is left out.
#[verifier::external_body]
pub(crate) fn packet_push(p: &mut Packet, b: u8)
    requires
        packet_bytes(*old(p)).len() < PACKET_CAPACITY,
    ensures
        packet_bytes(*final(p)) == packet_bytes(*old(p)).push(b),
{
    p.push(b)
}

/// `ArrayVec::as_slice`: the bytes held, never more than the capacity.
#[verifier::external_body]
pub(crate) fn packet_as_slice(p: &Packet) -> (s: &[u8])
    ensures
        s@ == packet_bytes(*p),
        s@.len() <= PACKET_CAPACITY,
{
    p.as_slice()
}

} // verus!
