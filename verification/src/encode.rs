//! Encoding of values into request packets and decoding of values out of
//! response payloads. Multi-byte integers travel most significant byte first.
use vstd::prelude::*;
use crate::packet::{Packet, PACKET_CAPACITY, packet_bytes, packet_push};

verus! {

/// The two bytes of a `u16`, most significant first.
pub open spec fn be_bytes(v: u16) -> Seq<u8> {
    seq![(v / 256) as u8, (v % 256) as u8]
}

/// The `u16` whose big-endian bytes are `msb` then `lsb`.
pub open spec fn from_be(msb: u8, lsb: u8) -> u16 {
    (msb * 256 + lsb) as u16
}

/// A value that can be appended to a packet.
pub trait Encode {
    /// The bytes that `encode` appends.
    spec fn encoding(&self) -> Seq<u8>;

    /// Appends the encoding of `self` to `buf`; the packet must have room.
    fn encode(&self, buf: &mut Packet)
        requires
            packet_bytes(*old(buf)).len() + self.encoding().len() <= PACKET_CAPACITY,
        ensures
            packet_bytes(*final(buf)) == packet_bytes(*old(buf)) + self.encoding(),
    ;
}

impl Encode for u8 {
    open spec fn encoding(&self) -> Seq<u8> {
        seq![*self]
    }

    fn encode(&self, buf: &mut Packet) {
        packet_push(buf, *self);
        assert(packet_bytes(*buf) =~= packet_bytes(*old(buf)) + self.encoding());
    }
}

impl Encode for u16 {
    open spec fn encoding(&self) -> Seq<u8> {
        be_bytes(*self)
    }

    fn encode(&self, buf: &mut Packet) {
        let msb: u8 = (*self / 256) as u8;
        let lsb: u8 = (*self % 256) as u8;
        packet_push(buf, msb);
        packet_push(buf, lsb);
        assert(packet_bytes(*buf) =~= packet_bytes(*old(buf)) + self.encoding());
    }
}

impl<'a, T: Encode + ?Sized> Encode for &'a T {
    open spec fn encoding(&self) -> Seq<u8> {
        (**self).encoding()
    }

    fn encode(&self, buf: &mut Packet) {
        T::encode(*self, buf);
    }
}

/// A value that can be read from the front of a byte slice.
pub trait Decode: Sized {
    /// How many bytes `decode` consumes.
    spec fn decode_len() -> nat;

    /// Whether the leading bytes of `bytes` form a value; `decode` is only
    /// called on bytes for which this holds.
    spec fn decodable(bytes: Seq<u8>) -> bool;

    /// The value that the leading bytes of `bytes` stand for.
    spec fn decoded(bytes: Seq<u8>) -> Self;

    /// Reads a value from the front of `buf` and advances `buf` past it.
    fn decode(buf: &mut &[u8]) -> (r: Self)
        requires
            Self::decode_len() <= old(buf)@.len(),
            Self::decodable(old(buf)@),
        ensures
            r == Self::decoded(old(buf)@),
            final(buf)@ == old(buf)@.skip(Self::decode_len() as int),
    ;
}

impl Decode for u8 {
    open spec fn decode_len() -> nat {
        1
    }

    open spec fn decodable(bytes: Seq<u8>) -> bool {
        true
    }

    open spec fn decoded(bytes: Seq<u8>) -> u8 {
        bytes[0]
    }

    fn decode(buf: &mut &[u8]) -> (r: u8) {
        assert(Self::decode_len() == 1);
        let b = buf[0];
        assert(Self::decoded(buf@) == b);
        *buf = &buf[1..buf.len()];
        b
    }
}

impl Decode for u16 {
    open spec fn decode_len() -> nat {
        2
    }

    open spec fn decodable(bytes: Seq<u8>) -> bool {
        true
    }

    open spec fn decoded(bytes: Seq<u8>) -> u16 {
        from_be(bytes[0], bytes[1])
    }

    fn decode(buf: &mut &[u8]) -> (r: u16) {
        let msb = u8::decode(buf);
        let lsb = u8::decode(buf);
        (msb as u16) * 256 + (lsb as u16)
    }
}


impl Decode for bool {
    open spec fn decode_len() -> nat {
        1
    }

    open spec fn decodable(bytes: Seq<u8>) -> bool {
        true
    }

    open spec fn decoded(bytes: Seq<u8>) -> bool {
        bytes[0] != 0
    }

    fn decode(buf: &mut &[u8]) -> (r: bool) {
        u8::decode(buf) != 0
    }
}

/// The array whose elements are `s`, where `s` has the array's length.
pub open spec fn array_of<T, const N: usize>(s: Seq<T>) -> [T; N] {
    choose|a: [T; N]| a@ == s
}

/// `<[T; N]>::try_from(Vec<T>)`, which succeeds when the lengths agree.
#[verifier::external_body]
fn array_from_vec<T, const N: usize>(v: Vec<T>) -> (a: [T; N])
    requires
        v@.len() == N,
    ensures
        a@ == v@,
{
    <[T; N]>::try_from(v).ok().unwrap()
}

/// The values decoded one after the other from the first `n` slots of
/// `bytes`, each slot `T::decode_len()` bytes wide.
pub open spec fn decoded_elems<T: Decode>(bytes: Seq<u8>, n: nat) -> Seq<T> {
    Seq::new(n, |i: int| T::decoded(bytes.skip(i * T::decode_len())))
}

impl<T: Decode, const N: usize> Decode for [T; N] {
    open spec fn decode_len() -> nat {
        N as nat * T::decode_len()
    }

    open spec fn decodable(bytes: Seq<u8>) -> bool {
        forall|i: int| 0 <= i < N ==> #[trigger] T::decodable(bytes.skip(i * T::decode_len()))
    }

    open spec fn decoded(bytes: Seq<u8>) -> [T; N] {
        array_of(decoded_elems::<T>(bytes, N as nat))
    }

    fn decode(buf: &mut &[u8]) -> (r: [T; N])
        ensures
            r@ == decoded_elems::<T>(old(buf)@, N as nat),
    {
        let ghost start = buf@;
        let mut items: Vec<T> = Vec::new();
        let mut i: usize = 0;
        while i < N
            invariant
                i <= N,
                N as nat * T::decode_len() <= start.len(),
                forall|k: int| 0 <= k < N ==> #[trigger] T::decodable(start.skip(k * T::decode_len())),
                buf@ == start.skip(i * T::decode_len()),
                items@ == decoded_elems::<T>(start, i as nat),
            decreases N - i,
        {
            proof {
                vstd::arithmetic::mul::lemma_mul_inequality(i as int + 1, N as int, T::decode_len() as int);
                vstd::arithmetic::mul::lemma_mul_is_distributive_add_other_way(T::decode_len() as int, i as int, 1);
                assert(start.skip(i * T::decode_len()).skip(T::decode_len() as int)
                    =~= start.skip((i + 1) * T::decode_len()));
                assert(T::decodable(start.skip(i * T::decode_len())));
            }
            let item = T::decode(buf);
            items.push(item);
            i = i + 1;
            assert(items@ =~= decoded_elems::<T>(start, i as nat));
        }
        let r: [T; N] = array_from_vec(items);
        proof {
            broadcast use vstd::array::group_array_axioms;
            assert(r@ == decoded_elems::<T>(start, N as nat));
        }
        r
    }
}

/// Decoding the byte that encoding a `u8` appends gives the `u8` back.
pub proof fn lemma_u8_roundtrip(v: u8, tail: Seq<u8>)
    ensures
        <u8 as Decode>::decoded(v.encoding() + tail) == v,
        <u8 as Decode>::decode_len() == v.encoding().len(),
{
}

/// Decoding the two bytes that encoding a `u16` appends gives the `u16` back.
pub proof fn lemma_u16_roundtrip(v: u16, tail: Seq<u8>)
    ensures
        <u16 as Decode>::decoded(v.encoding() + tail) == v,
        <u16 as Decode>::decode_len() == v.encoding().len(),
{
}

/// Encoding the `u16` that two bytes decode to gives the two bytes back.
pub proof fn lemma_u16_bytes_roundtrip(bytes: Seq<u8>)
    requires
        bytes.len() >= 2,
    ensures
        <u16 as Decode>::decoded(bytes).encoding() == bytes.take(2),
{
    assert(<u16 as Decode>::decoded(bytes).encoding() =~= bytes.take(2));
}

} // verus!
