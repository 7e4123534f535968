//! HID++ 2.0 features: their ids, and what their functions' responses mean.
use vstd::prelude::*;
use crate::encode::{Decode, Encode, be_bytes, from_be};
use crate::packet::Packet;

pub mod root;
pub mod feature_set;
pub mod device_information;
pub mod device_type_and_name;
pub mod device_friendly_name;

verus! {

/// The id of a feature, as the root feature knows it.
#[derive(Debug, Clone, Copy, PartialEq, Eq, Hash, PartialOrd, Ord, Structural)]
pub enum FeatureId {
    Root,
    FeatureSet,
    DeviceInformation,
    DeviceTypeAndName,
    Other(u16),
}

/// The number that each `FeatureId` stands for.
pub open spec fn feature_id_number(id: FeatureId) -> u16 {
    match id {
        FeatureId::Root => 0x0000,
        FeatureId::FeatureSet => 0x0001,
        FeatureId::DeviceInformation => 0x0003,
        FeatureId::DeviceTypeAndName => 0x0005,
        FeatureId::Other(n) => n,
    }
}

/// The `FeatureId` of a number; numbers without a name are `Other`.
pub open spec fn feature_id_of(n: u16) -> FeatureId {
    if n == 0x0000 {
        FeatureId::Root
    } else if n == 0x0001 {
        FeatureId::FeatureSet
    } else if n == 0x0003 {
        FeatureId::DeviceInformation
    } else if n == 0x0005 {
        FeatureId::DeviceTypeAndName
    } else {
        FeatureId::Other(n)
    }
}

impl From<u16> for FeatureId {
    fn from(n: u16) -> (r: Self)
        ensures
            feature_id_number(r) == n,
            r is Other <==> !(n == 0 || n == 1 || n == 3 || n == 5),
    {
        match n {
            0x0000 => FeatureId::Root,
            0x0001 => FeatureId::FeatureSet,
            0x0003 => FeatureId::DeviceInformation,
            0x0005 => FeatureId::DeviceTypeAndName,
            _ => FeatureId::Other(n),
        }
    }
}

impl vstd::std_specs::convert::FromSpecImpl<u16> for FeatureId {
    open spec fn obeys_from_spec() -> bool {
        true
    }

    open spec fn from_spec(n: u16) -> Self {
        feature_id_of(n)
    }
}

impl From<FeatureId> for u16 {
    fn from(id: FeatureId) -> (r: Self) {
        match id {
            FeatureId::Root => 0x0000,
            FeatureId::FeatureSet => 0x0001,
            FeatureId::DeviceInformation => 0x0003,
            FeatureId::DeviceTypeAndName => 0x0005,
            FeatureId::Other(n) => n,
        }
    }
}

impl vstd::std_specs::convert::FromSpecImpl<FeatureId> for u16 {
    open spec fn obeys_from_spec() -> bool {
        true
    }

    open spec fn from_spec(id: FeatureId) -> Self {
        feature_id_number(id)
    }
}

/// Whether `id` is the value that reading its own number gives: named ids
/// always are, `Other(n)` only when `n` has no name.
pub open spec fn is_canonical_feature_id(id: FeatureId) -> bool {
    feature_id_of(feature_id_number(id)) == id
}

/// Every named feature id reads back from its own number, which is 0, 1, 3
/// or 5; every other number reads as `Other`.
pub proof fn lemma_feature_id_names(id: FeatureId, n: u16)
    ensures
        !(id is Other) ==> feature_id_of(feature_id_number(id)) == id && (feature_id_number(id) == 0
            || feature_id_number(id) == 1 || feature_id_number(id) == 3 || feature_id_number(id) == 5),
        feature_id_of(n) is Other <==> !(n == 0 || n == 1 || n == 3 || n == 5),
{
}

/// A number read as a `FeatureId` and turned back is the same number.
pub proof fn lemma_feature_id_number_roundtrip(n: u16)
    ensures
        feature_id_number(feature_id_of(n)) == n,
{
}

/// A canonical `FeatureId` turned into its number and read back is the same
/// id; every id read from a number is canonical.
pub proof fn lemma_feature_id_roundtrip(id: FeatureId)
    ensures
        is_canonical_feature_id(id) ==> feature_id_of(feature_id_number(id)) == id,
        is_canonical_feature_id(feature_id_of(feature_id_number(id))),
{
}

impl Encode for FeatureId {
    open spec fn encoding(&self) -> Seq<u8> {
        be_bytes(feature_id_number(*self))
    }

    fn encode(&self, buf: &mut Packet) {
        let n: u16 = u16::from(*self);
        n.encode(buf);
    }
}

impl Decode for FeatureId {
    open spec fn decode_len() -> nat {
        2
    }

    open spec fn decodable(bytes: Seq<u8>) -> bool {
        true
    }

    open spec fn decoded(bytes: Seq<u8>) -> FeatureId {
        feature_id_of(from_be(bytes[0], bytes[1]))
    }

    fn decode(buf: &mut &[u8]) -> (r: FeatureId)
        ensures
            feature_id_number(r) == old(buf)@[0] * 256 + old(buf)@[1],
    {
        FeatureId::from(u16::decode(buf))
    }
}

/// Decoding the bytes that encoding a canonical `FeatureId` appends gives
/// the id back.
pub proof fn lemma_feature_id_encoding_roundtrip(id: FeatureId, tail: Seq<u8>)
    requires
        is_canonical_feature_id(id),
    ensures
        FeatureId::decoded(id.encoding() + tail) == id,
{
    crate::encode::lemma_u16_roundtrip(feature_id_number(id), tail);
}

} // verus!
