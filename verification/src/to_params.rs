//! Parameters of requests: the bytes that follow the four header bytes.
//! Multi-byte integers travel most significant byte first.
use vstd::prelude::*;
use vstd::string::StringSliceAdditionalSpecFns;
use crate::encode::be_bytes;
use crate::packet::{Packet, PACKET_CAPACITY, packet_bytes, packet_push};

verus! {

/// A value that can stand as the parameters of a request.
pub trait ToParams {
    /// The bytes that `encode` appends.
    spec fn encoding(&self) -> Seq<u8>;

    /// Appends the encoding of `self` to `buf`; the packet must have room.
    fn encode(&self, buf: &mut Packet)
        requires
            packet_bytes(*old(buf)).len() + self.encoding().len() <= PACKET_CAPACITY,
        ensures
            packet_bytes(*final(buf)) == packet_bytes(*old(buf)) + self.encoding(),
    ;
}

impl ToParams for u8 {
    open spec fn encoding(&self) -> Seq<u8> {
        seq![*self]
    }

    fn encode(&self, buf: &mut Packet) {
        packet_push(buf, *self);
        assert(packet_bytes(*buf) =~= packet_bytes(*old(buf)) + self.encoding());
    }
}

impl ToParams for u16 {
    open spec fn encoding(&self) -> Seq<u8> {
        be_bytes(*self)
    }

    fn encode(&self, buf: &mut Packet) {
        let msb: u8 = (*self / 256) as u8;
        let lsb: u8 = (*self % 256) as u8;
        packet_push(buf, msb);
        packet_push(buf, lsb);
        assert(packet_bytes(*buf) =~= packet_bytes(*old(buf)) + self.encoding());
    }
}

impl<'a, T: ToParams + ?Sized> ToParams for &'a T {
    open spec fn encoding(&self) -> Seq<u8> {
        (**self).encoding()
    }

    fn encode(&self, buf: &mut Packet) {
        T::encode(*self, buf);
    }
}

/// Text is sent as its UTF-8 bytes, as a name chunk of `setFriendlyName` is.
impl ToParams for str {
    open spec fn encoding(&self) -> Seq<u8> {
        self.spec_bytes()
    }

    fn encode(&self, buf: &mut Packet) {
        let bytes = self.as_bytes();
        let mut i: usize = 0;
        while i < bytes.len()
            invariant
                i <= bytes@.len(),
                bytes@ == self.spec_bytes(),
                packet_bytes(*old(buf)).len() + bytes@.len() <= PACKET_CAPACITY,
                packet_bytes(*buf) == packet_bytes(*old(buf)) + bytes@.take(i as int),
            decreases bytes@.len() - i,
        {
            packet_push(buf, bytes[i]);
            i = i + 1;
            assert(packet_bytes(*buf) =~= packet_bytes(*old(buf)) + bytes@.take(i as int));
        }
        assert(bytes@.take(bytes@.len() as int) =~= bytes@);
    }
}

} // verus!
