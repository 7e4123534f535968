//! The feature-set feature (id 1): it counts a device's features and names
//! the feature at each index.
use vstd::prelude::*;
use crate::encode::{Decode, from_be};
use crate::feature_lookup::{FeatureLookup, INDEX_SLOTS, ID_SLOTS};
use crate::features::{FeatureId, feature_id_number, feature_id_of};
use crate::features::root::FeatureType;
use crate::packet::{Packet, packet_bytes, packet_as_slice};

verus! {

/// The feature that a device offers at some index: its id, flags and version.
#[derive(Debug, Clone, Copy, PartialEq, Eq, Structural)]
pub struct FeatureDescriptor {
    pub id: FeatureId,
    pub tags: FeatureType,
    pub version: u8,
}

impl Decode for FeatureDescriptor {
    open spec fn decode_len() -> nat {
        4
    }

    open spec fn decodable(bytes: Seq<u8>) -> bool {
        true
    }

    open spec fn decoded(bytes: Seq<u8>) -> FeatureDescriptor {
        FeatureDescriptor {
            id: feature_id_of(from_be(bytes[0], bytes[1])),
            tags: FeatureType { value: bytes[2] },
            version: bytes[3],
        }
    }

    fn decode(buf: &mut &[u8]) -> (r: FeatureDescriptor)
        ensures
            feature_id_number(r.id) == old(buf)@[0] * 256 + old(buf)@[1],
            r.tags.value == old(buf)@[2],
            r.version == old(buf)@[3],
    {
        let id = FeatureId::decode(buf);
        let tags = FeatureType::decode(buf);
        let version = u8::decode(buf);
        FeatureDescriptor { id, tags, version }
    }
}

/// A decoded descriptor names the feature whose number is the big-endian
/// word of its first two bytes, then the flags byte and the version byte.
pub proof fn lemma_descriptor_fields(bytes: Seq<u8>)
    requires
        bytes.len() >= 4,
    ensures
        feature_id_number(FeatureDescriptor::decoded(bytes).id) == bytes[0] * 256 + bytes[1],
        FeatureDescriptor::decoded(bytes).tags.value == bytes[2],
        FeatureDescriptor::decoded(bytes).version == bytes[3],
{
    crate::features::lemma_feature_id_number_roundtrip(from_be(bytes[0], bytes[1]));
}

/// The answer of `getCount` (function 0): how many features the device
/// offers besides the root feature, the first payload byte.
pub fn get_count(response: &Packet) -> (r: u8)
    requires
        packet_bytes(*response).len() >= 5,
    ensures
        r == packet_bytes(*response)[4],
{
    let bytes = packet_as_slice(response);
    bytes[4]
}

/// The answer of `getFeatureID` (function 1) for `feature_index`: the
/// descriptor that follows the four header bytes. The feature is recorded
/// in `features` at `feature_index`.
pub fn get_feature_id(features: &mut FeatureLookup, feature_index: u8, response: &Packet) -> (r: FeatureDescriptor)
    requires
        old(features).wf(),
        packet_bytes(*response).len() >= 8,
        feature_index < INDEX_SLOTS,
        from_be(packet_bytes(*response)[4], packet_bytes(*response)[5]) < ID_SLOTS,
    ensures
        final(features).wf(),
        r == FeatureDescriptor::decoded(packet_bytes(*response).skip(4)),
        feature_id_number(r.id) == packet_bytes(*response)[4] * 256 + packet_bytes(*response)[5],
        r.tags.value == packet_bytes(*response)[6],
        r.version == packet_bytes(*response)[7],
        final(features).id_of(feature_index) == (if feature_index == 0 { Some(0u16) } else if feature_id_number(r.id) == 0 { None } else { Some(feature_id_number(r.id)) }),
        final(features).is_insert_of(*old(features), feature_index, feature_id_number(r.id)),
{
    let bytes = packet_as_slice(response);
    let mut payload: &[u8] = &bytes[4..bytes.len()];
    let descriptor = FeatureDescriptor::decode(&mut payload);
    proof {
        lemma_descriptor_fields(bytes@.skip(4));
    }
    features.insert(feature_index, u16::from(descriptor.id));
    descriptor
}

} // verus!
