//! The device-information feature: the entities, transports and model ids of
//! a device, its firmware versions and its serial number.
use vstd::prelude::*;
use tinyvec::ArrayVec;
use crate::ascii::{AsciiStr, valid_ascii_raw};
use crate::bcd::{PackedBcd, bcd, lemma_bcd_value_bound, lemma_bcd_u8_digits};
use crate::encode::from_be;
use crate::packet::{Packet, packet_bytes, packet_as_slice};
use crate::features::root::bit_set;

verus! {

/// The model ids of a device: at most three, held inline.
pub type ModelIds = ArrayVec<[u16; 3]>;

/// The model ids that a `ModelIds` holds, in order.
pub uninterp spec fn model_id_list(v: ArrayVec<[u16; 3]>) -> Seq<u16>;

/// `ArrayVec::new`: no model ids.
#[verifier::external_body]
fn model_ids_new() -> (v: ModelIds)
    ensures
        model_id_list(v) == Seq::<u16>::empty(),
{
    ArrayVec::new()
}

/// `ArrayVec::push`: appends a model id; tinyvec panics when all three slots
/// are taken, so a full list is left out.
#[verifier::external_body]
fn model_ids_push(v: &mut ModelIds, id: u16)
    requires
        model_id_list(*old(v)).len() < 3,
    ensures
        model_id_list(*final(v)) == model_id_list(*old(v)).push(id),
{
    v.push(id)
}

/// How many of the lowest `bits` bits of `v` are set.
pub open spec fn ones(v: nat, bits: nat) -> nat
    decreases bits,
{
    if bits == 0 {
        0
    } else {
        v % 2 + ones(v / 2, (bits - 1) as nat)
    }
}

/// The number of set bits of `v`.
pub fn count_ones(v: u16) -> (r: u32)
    ensures
        r == ones(v as nat, 16),
{
    let mut rest: u16 = v;
    let mut count: u32 = 0;
    let mut i: u32 = 0;
    while i < 16
        invariant
            i <= 16,
            count <= i,
            count + ones(rest as nat, (16 - i) as nat) == ones(v as nat, 16),
        decreases 16 - i,
    {
        let low: u16 = rest & 1;
        let next: u16 = rest >> 1u16;
        assert(low == rest % 2 && next == rest / 2) by (bit_vector)
            requires
                low == rest & 1,
                next == rest >> 1u16,
        ;
        count = count + low as u32;
        rest = next;
        i = i + 1;
    }
    count
}

/// The transports a device speaks: bit 0 Bluetooth, bit 1 BLE, bit 2 eQuad,
/// bit 3 USB; the upper twelve bits are reserved.
#[derive(Debug, Clone, Copy, PartialEq, Eq, Structural)]
pub struct Transports {
    pub value: u16,
}

/// Whether bit `k` of `v` is set.
pub open spec fn bit16_set(v: u16, k: u16) -> bool {
    (v >> k) & 1u16 == 1u16
}

impl Transports {
    /// Bit 0.
    pub fn bluetooth(&self) -> (r: bool)
        ensures
            r == bit16_set(self.value, 0),
    {
        (self.value >> 0u16) & 1u16 == 1u16
    }

    /// Bit 1.
    pub fn ble(&self) -> (r: bool)
        ensures
            r == bit16_set(self.value, 1),
    {
        (self.value >> 1u16) & 1u16 == 1u16
    }

    /// Bit 2.
    pub fn e_quad(&self) -> (r: bool)
        ensures
            r == bit16_set(self.value, 2),
    {
        (self.value >> 2u16) & 1u16 == 1u16
    }

    /// Bit 3.
    pub fn usb(&self) -> (r: bool)
        ensures
            r == bit16_set(self.value, 3),
    {
        (self.value >> 3u16) & 1u16 == 1u16
    }
}

impl From<u16> for Transports {
    fn from(value: u16) -> (r: Self) {
        Transports { value }
    }
}

impl vstd::std_specs::convert::FromSpecImpl<u16> for Transports {
    open spec fn obeys_from_spec() -> bool {
        true
    }

    open spec fn from_spec(value: u16) -> Self {
        Transports { value }
    }
}

/// The capabilities of a device: bit 0 tells whether it has a serial number;
/// the other bits are reserved.
#[derive(Debug, Clone, Copy, PartialEq, Eq, Structural)]
pub struct Capabilities {
    pub value: u8,
}

impl Capabilities {
    /// Bit 0.
    pub fn serial_number(&self) -> (r: bool)
        ensures
            r == bit_set(self.value, 0),
    {
        (self.value >> 0u8) & 1u8 == 1u8
    }
}

impl From<u8> for Capabilities {
    fn from(value: u8) -> (r: Self) {
        Capabilities { value }
    }
}

impl vstd::std_specs::convert::FromSpecImpl<u8> for Capabilities {
    open spec fn obeys_from_spec() -> bool {
        true
    }

    open spec fn from_spec(value: u8) -> Self {
        Capabilities { value }
    }
}

/// The kind of a firmware entity, numbered in declaration order from 0.
#[derive(Debug, Clone, Copy, PartialEq, Eq, Structural)]
pub enum EntityType {
    MainApplication,
    Bootloader,
    Hardware,
    Touchpad,
    OpticalSensor,
    SoftDevice,
    RfCompanionMcu,
    FactoryApplication,
    RgbCustomEffect,
    MotorDrive,
    Other(u8),
}

/// The number that each `EntityType` stands for.
pub open spec fn entity_type_number(t: EntityType) -> u8 {
    match t {
        EntityType::MainApplication => 0,
        EntityType::Bootloader => 1,
        EntityType::Hardware => 2,
        EntityType::Touchpad => 3,
        EntityType::OpticalSensor => 4,
        EntityType::SoftDevice => 5,
        EntityType::RfCompanionMcu => 6,
        EntityType::FactoryApplication => 7,
        EntityType::RgbCustomEffect => 8,
        EntityType::MotorDrive => 9,
        EntityType::Other(n) => n,
    }
}

/// The `EntityType` of a number; numbers past the named ones are `Other`.
pub open spec fn entity_type_of(n: u8) -> EntityType {
    if n == 0 {
        EntityType::MainApplication
    } else if n == 1 {
        EntityType::Bootloader
    } else if n == 2 {
        EntityType::Hardware
    } else if n == 3 {
        EntityType::Touchpad
    } else if n == 4 {
        EntityType::OpticalSensor
    } else if n == 5 {
        EntityType::SoftDevice
    } else if n == 6 {
        EntityType::RfCompanionMcu
    } else if n == 7 {
        EntityType::FactoryApplication
    } else if n == 8 {
        EntityType::RgbCustomEffect
    } else if n == 9 {
        EntityType::MotorDrive
    } else {
        EntityType::Other(n)
    }
}

impl From<u8> for EntityType {
    fn from(n: u8) -> (r: Self)
        ensures
            entity_type_number(r) == n,
            r is Other <==> n >= 10,
    {
        match n {
            0 => EntityType::MainApplication,
            1 => EntityType::Bootloader,
            2 => EntityType::Hardware,
            3 => EntityType::Touchpad,
            4 => EntityType::OpticalSensor,
            5 => EntityType::SoftDevice,
            6 => EntityType::RfCompanionMcu,
            7 => EntityType::FactoryApplication,
            8 => EntityType::RgbCustomEffect,
            9 => EntityType::MotorDrive,
            _ => EntityType::Other(n),
        }
    }
}

impl vstd::std_specs::convert::FromSpecImpl<u8> for EntityType {
    open spec fn obeys_from_spec() -> bool {
        true
    }

    open spec fn from_spec(n: u8) -> Self {
        entity_type_of(n)
    }
}

impl From<EntityType> for u8 {
    fn from(t: EntityType) -> (r: Self) {
        match t {
            EntityType::MainApplication => 0,
            EntityType::Bootloader => 1,
            EntityType::Hardware => 2,
            EntityType::Touchpad => 3,
            EntityType::OpticalSensor => 4,
            EntityType::SoftDevice => 5,
            EntityType::RfCompanionMcu => 6,
            EntityType::FactoryApplication => 7,
            EntityType::RgbCustomEffect => 8,
            EntityType::MotorDrive => 9,
            EntityType::Other(n) => n,
        }
    }
}

impl vstd::std_specs::convert::FromSpecImpl<EntityType> for u8 {
    open spec fn obeys_from_spec() -> bool {
        true
    }

    open spec fn from_spec(t: EntityType) -> Self {
        entity_type_number(t)
    }
}

/// Every named entity type reads back from its own number, numbers 0 to 9
/// name an entity type, and only numbers from 10 on read as `Other`.
pub proof fn lemma_entity_type_names(t: EntityType, n: u8)
    ensures
        !(t is Other) ==> entity_type_of(entity_type_number(t)) == t && entity_type_number(t) < 10,
        entity_type_of(n) is Other <==> n >= 10,
{
}

/// A number read as a `EntityType` and turned back is the same number.
pub proof fn lemma_entity_type_number_roundtrip(n: u8)
    ensures
        entity_type_number(entity_type_of(n)) == n,
{
}

/// What `getDeviceInfo` tells of a device.
#[derive(Debug, Clone, Copy)]
pub struct DeviceInfo {
    pub entity_cnt: u8,
    pub unit_id: [u8; 4],
    pub transports: Transports,
    pub model_ids: ModelIds,
    pub extended_model_id: u8,
    pub capabilities: Capabilities,
}

/// The transports word of a `getDeviceInfo` answer whose bytes are `b`.
pub open spec fn transports_word(b: Seq<u8>) -> u16 {
    from_be(b[9], b[10])
}

/// The `i`-th of the three model id slots of a `getDeviceInfo` answer.
pub open spec fn model_id_slot(b: Seq<u8>, i: int) -> u16 {
    from_be(b[11 + 2 * i], b[12 + 2 * i])
}

/// How many model id slots are in use: one per set bit of the transports
/// word, at most three.
pub open spec fn model_id_count(b: Seq<u8>) -> nat {
    let n = ones(transports_word(b) as nat, 16);
    if n < 3 { n } else { 3 }
}

/// The model ids in use, in slot order.
pub open spec fn reported_model_ids(b: Seq<u8>) -> Seq<u16> {
    Seq::new(model_id_count(b), |i: int| model_id_slot(b, i))
}

/// Every model id slot past those in use holds zero; the device answers no
/// other way.
pub open spec fn unused_model_ids_zero(b: Seq<u8>) -> bool {
    forall|i: int| model_id_count(b) <= i < 3 ==> #[trigger] model_id_slot(b, i) == 0
}

/// Whether the model id slots past those in use hold zero, as
/// `get_device_info` requires of its response.
pub fn unused_model_ids_are_zero(response: &Packet) -> (r: bool)
    requires
        packet_bytes(*response).len() >= 19,
    ensures
        r == unused_model_ids_zero(packet_bytes(*response)),
{
    let b = packet_as_slice(response);
    let ghost bytes = packet_bytes(*response);
    let in_use: u32 = count_ones((b[9] as u16) * 256 + (b[10] as u16));
    let mut i: usize = 0;
    while i < 3
        invariant
            i <= 3,
            b@ == bytes,
            bytes == packet_bytes(*response),
            bytes.len() >= 19,
            in_use == ones(transports_word(bytes) as nat, 16),
            forall|k: int| model_id_count(bytes) <= k < i ==> #[trigger] model_id_slot(bytes, k) == 0,
        decreases 3 - i,
    {
        let start: usize = 11 + 2 * i;
        let model_id: u16 = (b[start] as u16) * 256 + (b[start + 1] as u16);
        assert(model_id == model_id_slot(bytes, i as int));
        if (i as u32) >= in_use && model_id != 0 {
            assert(model_id_count(bytes) <= i < 3 && model_id_slot(bytes, i as int) != 0);
            assert(!unused_model_ids_zero(bytes));
            return false;
        }
        i = i + 1;
    }
    true
}

/// The answer of `getDeviceInfo` (function 0): entity count, unit id,
/// transports, model ids (one slot per transport bit set), extended model id
/// and capabilities.
pub fn get_device_info(response: &Packet) -> (r: DeviceInfo)
    requires
        packet_bytes(*response).len() >= 19,
        unused_model_ids_zero(packet_bytes(*response)),
    ensures
        r.entity_cnt == packet_bytes(*response)[4],
        r.unit_id@ == packet_bytes(*response).subrange(5, 9),
        r.transports.value == transports_word(packet_bytes(*response)),
        r.transports.value == packet_bytes(*response)[9] * 256 + packet_bytes(*response)[10],
        forall|i: int| 0 <= i < model_id_list(r.model_ids).len() ==> #[trigger] model_id_list(r.model_ids)[i]
            == packet_bytes(*response)[11 + 2 * i] * 256 + packet_bytes(*response)[12 + 2 * i],
        model_id_list(r.model_ids).len() <= 3,
        model_id_list(r.model_ids) == reported_model_ids(packet_bytes(*response)),
        r.extended_model_id == packet_bytes(*response)[17],
        r.capabilities.value == packet_bytes(*response)[18],
{
    let b = packet_as_slice(response);
    let ghost bytes = packet_bytes(*response);
    let transports: Transports = Transports::from((b[9] as u16) * 256 + (b[10] as u16));
    let in_use: u32 = count_ones(transports.value);
    let mut model_ids = model_ids_new();
    let mut i: usize = 0;
    while i < 3
        invariant
            i <= 3,
            b@ == bytes,
            bytes.len() >= 19,
            unused_model_ids_zero(bytes),
            in_use == ones(transports_word(bytes) as nat, 16),
            model_id_list(model_ids) == reported_model_ids(bytes).take(
                if (i as int) < model_id_count(bytes) { i as int } else { model_id_count(bytes) as int },
            ),
        decreases 3 - i,
    {
        let start: usize = 11 + 2 * i;
        let model_id: u16 = (b[start] as u16) * 256 + (b[start + 1] as u16);
        assert(model_id == model_id_slot(bytes, i as int));
        if (i as u32) < in_use {
            model_ids_push(&mut model_ids, model_id);
        } else {
            assert(model_id_slot(bytes, i as int) == 0);
        }
        i = i + 1;
        assert(model_id_list(model_ids) =~= reported_model_ids(bytes).take(
            if (i as int) < model_id_count(bytes) { i as int } else { model_id_count(bytes) as int },
        ));
    }
    assert(reported_model_ids(bytes).take(model_id_count(bytes) as int) =~= reported_model_ids(bytes));
    DeviceInfo {
        entity_cnt: b[4],
        unit_id: [b[5], b[6], b[7], b[8]],
        transports,
        model_ids,
        extended_model_id: b[17],
        capabilities: Capabilities::from(b[18]),
    }
}

/// What `getFwInfo` tells of one firmware entity.
#[derive(Debug, Clone, Copy)]
pub struct FirmwareInfo {
    pub entity_type: EntityType,
    pub fw_name: (AsciiStr<3>, u8),
    pub revision: u8,
    pub build: u16,
    pub active: bool,
    pub tr_pid: u16,
    pub extra_ver: [u8; 5],
}

/// The build number of a `getFwInfo` answer: binary-coded decimal except for
/// soft devices, whose build is a plain number.
pub open spec fn firmware_build(b: Seq<u8>) -> u16 {
    if entity_type_of(b[4]) == EntityType::SoftDevice {
        from_be(b[10], b[11])
    } else {
        from_be(b[10], b[11]).bcd_spec()
    }
}

/// The four nibbles of the word `msb`, `lsb` read as decimal digits, the
/// high nibble of `msb` the thousands.
pub open spec fn bcd_digits4(msb: u8, lsb: u8) -> int {
    (msb / 16) * 1000 + (msb % 16) * 100 + (lsb / 16) * 10 + lsb % 16
}

/// The build of a firmware entity: for every entity type other than soft
/// device (type 5) the big-endian word at bytes 10 and 11 read as four
/// decimal digits, for soft devices the plain word.
pub proof fn lemma_firmware_build(b: Seq<u8>)
    requires
        b.len() >= 20,
    ensures
        b[4] != 5 ==> firmware_build(b) == bcd_digits4(b[10], b[11]),
        b[4] == 5 ==> firmware_build(b) == b[10] * 256 + b[11],
{
    let w = from_be(b[10], b[11]);
    assert(w == b[10] * 256 + b[11]);
    assert(w as nat / 16 == b[10] * 16 + b[11] / 16);
    assert(w as nat / 16 / 16 == b[10]);
    assert(w as nat / 16 / 16 / 16 == b[10] / 16);
    reveal_with_fuel(crate::bcd::bcd_value, 5);
    lemma_bcd_value_bound(w as nat, 4);
    reveal_with_fuel(crate::bcd::pow10, 5);
}

/// The answer of `getFwInfo` (function 1) for one entity: its type, name
/// prefix and (binary-coded decimal) number, revision, build, whether it is
/// active, transport product id and extra version bytes.
pub fn get_fw_info(response: &Packet) -> (r: FirmwareInfo)
    requires
        packet_bytes(*response).len() >= 20,
        valid_ascii_raw(packet_bytes(*response).subrange(5, 8)),
    ensures
        r.entity_type == entity_type_of(packet_bytes(*response)[4]),
        entity_type_number(r.entity_type) == packet_bytes(*response)[4],
        r.fw_name.0@ == packet_bytes(*response).subrange(5, 8),
        r.fw_name.1 == packet_bytes(*response)[8].bcd_spec(),
        r.revision == packet_bytes(*response)[9],
        r.build == firmware_build(packet_bytes(*response)),
        packet_bytes(*response)[4] != 5 ==> r.build == bcd_digits4(packet_bytes(*response)[10], packet_bytes(*response)[11]),
        packet_bytes(*response)[4] == 5 ==> r.build == packet_bytes(*response)[10] * 256 + packet_bytes(*response)[11],
        r.fw_name.1 == (packet_bytes(*response)[8] / 16) * 10 + packet_bytes(*response)[8] % 16,
        r.active == (packet_bytes(*response)[12] != 0),
        r.tr_pid == from_be(packet_bytes(*response)[13], packet_bytes(*response)[14]),
        r.tr_pid == packet_bytes(*response)[13] * 256 + packet_bytes(*response)[14],
        r.extra_ver@ == packet_bytes(*response).subrange(15, 20),
{
    let b = packet_as_slice(response);
    let entity_type = EntityType::from(b[4]);
    let mut build: u16 = (b[10] as u16) * 256 + (b[11] as u16);
    if entity_type != EntityType::SoftDevice {
        build = bcd(build);
    }
    let name_raw: [u8; 3] = [b[5], b[6], b[7]];
    assert(name_raw@ =~= b@.subrange(5, 8));
    let name = AsciiStr::<3>::try_from_raw(name_raw).unwrap();
    let extra_ver: [u8; 5] = [b[15], b[16], b[17], b[18], b[19]];
    proof {
        lemma_firmware_build(b@);
        lemma_bcd_u8_digits(b@[8]);
    }
    assert(extra_ver@ =~= b@.subrange(15, 20));
    FirmwareInfo {
        entity_type,
        fw_name: (name, bcd(b[8])),
        revision: b[9],
        build,
        active: b[12] != 0,
        tr_pid: (b[13] as u16) * 256 + (b[14] as u16),
        extra_ver,
    }
}

/// The answer of `getDeviceSerialNumber` (function 2): the twelve payload
/// bytes that follow the header.
pub fn get_device_serial_number(response: &Packet) -> (r: AsciiStr<12>)
    requires
        packet_bytes(*response).len() >= 16,
        valid_ascii_raw(packet_bytes(*response).subrange(4, 16)),
    ensures
        r@ == packet_bytes(*response).subrange(4, 16),
{
    let b = packet_as_slice(response);
    let raw: [u8; 12] = [b[4], b[5], b[6], b[7], b[8], b[9], b[10], b[11], b[12], b[13], b[14], b[15]];
    assert(raw@ =~= b@.subrange(4, 16));
    AsciiStr::<12>::try_from_raw(raw).unwrap()
}

} // verus!
