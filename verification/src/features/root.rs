//! The root feature (id 0, always at index 0): it tells at which index a
//! device offers a feature.
use vstd::prelude::*;
use crate::encode::Decode;
use crate::feature_lookup::{FeatureLookup, INDEX_SLOTS, ID_SLOTS};
use crate::features::{FeatureId, feature_id_number};
use crate::packet::{Packet, packet_bytes, packet_as_slice};

verus! {

/// The flags of a feature: bits 0 to 2 unused, then compliance-deactivatable,
/// manufacturing-deactivatable, engineering, hidden and obsolete.
#[derive(Debug, Clone, Copy, PartialEq, Eq, Structural)]
pub struct FeatureType {
    pub value: u8,
}

/// Whether bit `k` of `v` is set.
pub open spec fn bit_set(v: u8, k: u8) -> bool {
    (v >> k) & 1u8 == 1u8
}

impl FeatureType {
    /// Bit 3.
    pub fn compliance_deactivatable(&self) -> (r: bool)
        ensures
            r == bit_set(self.value, 3),
    {
        (self.value >> 3u8) & 1u8 == 1u8
    }

    /// Bit 4.
    pub fn manufacturing_deactivatable(&self) -> (r: bool)
        ensures
            r == bit_set(self.value, 4),
    {
        (self.value >> 4u8) & 1u8 == 1u8
    }

    /// Bit 5.
    pub fn engineering(&self) -> (r: bool)
        ensures
            r == bit_set(self.value, 5),
    {
        (self.value >> 5u8) & 1u8 == 1u8
    }

    /// Bit 6.
    pub fn hidden(&self) -> (r: bool)
        ensures
            r == bit_set(self.value, 6),
    {
        (self.value >> 6u8) & 1u8 == 1u8
    }

    /// Bit 7.
    pub fn obsolete(&self) -> (r: bool)
        ensures
            r == bit_set(self.value, 7),
    {
        (self.value >> 7u8) & 1u8 == 1u8
    }
}

impl Default for FeatureType {
    fn default() -> (r: Self)
        ensures
            r.value == 0,
    {
        FeatureType { value: 0 }
    }
}

impl From<u8> for FeatureType {
    fn from(value: u8) -> (r: Self) {
        FeatureType { value }
    }
}

impl vstd::std_specs::convert::FromSpecImpl<u8> for FeatureType {
    open spec fn obeys_from_spec() -> bool {
        true
    }

    open spec fn from_spec(value: u8) -> Self {
        FeatureType { value }
    }
}

impl From<FeatureType> for u8 {
    fn from(t: FeatureType) -> (r: Self) {
        t.value
    }
}

impl vstd::std_specs::convert::FromSpecImpl<FeatureType> for u8 {
    open spec fn obeys_from_spec() -> bool {
        true
    }

    open spec fn from_spec(t: FeatureType) -> Self {
        t.value
    }
}

impl Decode for FeatureType {
    open spec fn decode_len() -> nat {
        1
    }

    open spec fn decodable(bytes: Seq<u8>) -> bool {
        true
    }

    open spec fn decoded(bytes: Seq<u8>) -> FeatureType {
        FeatureType { value: bytes[0] }
    }

    fn decode(buf: &mut &[u8]) -> (r: FeatureType) {
        FeatureType::from(u8::decode(buf))
    }
}

/// Where a device offers a feature: its index (0 when the device lacks the
/// feature), its flags and its version.
#[derive(Debug, Clone, Copy, PartialEq, Eq, Structural)]
pub struct FeatureDescriptor {
    pub index: u8,
    pub tags: FeatureType,
    pub version: u8,
}

impl Decode for FeatureDescriptor {
    open spec fn decode_len() -> nat {
        3
    }

    open spec fn decodable(bytes: Seq<u8>) -> bool {
        true
    }

    open spec fn decoded(bytes: Seq<u8>) -> FeatureDescriptor {
        FeatureDescriptor { index: bytes[0], tags: FeatureType { value: bytes[1] }, version: bytes[2] }
    }

    fn decode(buf: &mut &[u8]) -> (r: FeatureDescriptor)
        ensures
            r.index == old(buf)@[0],
            r.tags.value == old(buf)@[1],
            r.version == old(buf)@[2],
    {
        let index = u8::decode(buf);
        let tags = FeatureType::decode(buf);
        let version = u8::decode(buf);
        FeatureDescriptor { index, tags, version }
    }
}

/// What `get_feature` makes of a response whose bytes are `bytes`.
pub open spec fn feature_answer(bytes: Seq<u8>) -> Option<FeatureDescriptor> {
    if bytes[4] == 0 {
        None
    } else {
        Some(FeatureDescriptor::decoded(bytes.skip(4)))
    }
}

/// The root feature reports a feature absent exactly when the index byte is
/// 0; otherwise it names that index, the flags byte and the version byte,
/// whatever their values.
pub proof fn lemma_feature_answer(bytes: Seq<u8>)
    requires
        bytes.len() >= 7,
    ensures
        feature_answer(bytes) is None <==> bytes[4] == 0,
        feature_answer(bytes) matches Some(d) ==> d.index == bytes[4] && d.tags.value == bytes[5]
            && d.version == bytes[6],
{
}

/// The answer of the root feature's `getFeature` function (function 0) for
/// `feature_id`: the descriptor that follows the four header bytes, or `None`
/// when its index is 0. A known feature is recorded in `features`.
pub fn get_feature(features: &mut FeatureLookup, feature_id: FeatureId, response: &Packet) -> (r: Option<FeatureDescriptor>)
    requires
        old(features).wf(),
        packet_bytes(*response).len() >= 7,
        packet_bytes(*response)[4] != 0 ==> packet_bytes(*response)[4] < INDEX_SLOTS
            && feature_id_number(feature_id) < ID_SLOTS,
    ensures
        final(features).wf(),
        r == feature_answer(packet_bytes(*response)),
        r is None <==> packet_bytes(*response)[4] == 0,
        r matches Some(d) ==> d.index == packet_bytes(*response)[4] && d.tags.value == packet_bytes(*response)[5]
            && d.version == packet_bytes(*response)[6],
        r is None ==> *final(features) == *old(features),
        r matches Some(d) ==> final(features).is_insert_of(*old(features), d.index, feature_id_number(feature_id)),
{
    let bytes = packet_as_slice(response);
    let mut payload: &[u8] = &bytes[4..bytes.len()];
    let descriptor = FeatureDescriptor::decode(&mut payload);
    proof {
        lemma_feature_answer(bytes@);
    }
    if descriptor.index == 0 {
        return None;
    }
    features.insert(descriptor.index, u16::from(feature_id));
    Some(descriptor)
}

} // verus!
