//! The device-type-and-name feature: a device's marketing name, sent in
//! chunks, and its kind.
use vstd::prelude::*;
use crate::ascii::{AsciiStr, valid_ascii_raw};
use crate::encode::Decode;
use crate::packet::{Packet, packet_bytes, packet_as_slice};

verus! {

/// The kind of a device, numbered in declaration order from 0.
#[derive(Debug, Clone, Copy, PartialEq, Eq, Structural)]
pub enum DeviceType {
    Keyboard,
    RemoteControl,
    Numpad,
    Mouse,
    Trackpad,
    Trackball,
    Presenter,
    Receiver,
    Headset,
    Webcam,
    SteeringWheel,
    Joystick,
    Gamepad,
    Dock,
    Speaker,
    Microphone,
    IlluminationLight,
    ProgrammableController,
    CarSimPedals,
    Adapter,
    Other(u8),
}

/// The number that each `DeviceType` stands for.
pub open spec fn device_type_number(t: DeviceType) -> u8 {
    match t {
        DeviceType::Keyboard => 0,
        DeviceType::RemoteControl => 1,
        DeviceType::Numpad => 2,
        DeviceType::Mouse => 3,
        DeviceType::Trackpad => 4,
        DeviceType::Trackball => 5,
        DeviceType::Presenter => 6,
        DeviceType::Receiver => 7,
        DeviceType::Headset => 8,
        DeviceType::Webcam => 9,
        DeviceType::SteeringWheel => 10,
        DeviceType::Joystick => 11,
        DeviceType::Gamepad => 12,
        DeviceType::Dock => 13,
        DeviceType::Speaker => 14,
        DeviceType::Microphone => 15,
        DeviceType::IlluminationLight => 16,
        DeviceType::ProgrammableController => 17,
        DeviceType::CarSimPedals => 18,
        DeviceType::Adapter => 19,
        DeviceType::Other(n) => n,
    }
}

/// The `DeviceType` of a number; numbers past the named ones are `Other`.
pub open spec fn device_type_of(n: u8) -> DeviceType {
    if n == 0 {
        DeviceType::Keyboard
    } else if n == 1 {
        DeviceType::RemoteControl
    } else if n == 2 {
        DeviceType::Numpad
    } else if n == 3 {
        DeviceType::Mouse
    } else if n == 4 {
        DeviceType::Trackpad
    } else if n == 5 {
        DeviceType::Trackball
    } else if n == 6 {
        DeviceType::Presenter
    } else if n == 7 {
        DeviceType::Receiver
    } else if n == 8 {
        DeviceType::Headset
    } else if n == 9 {
        DeviceType::Webcam
    } else if n == 10 {
        DeviceType::SteeringWheel
    } else if n == 11 {
        DeviceType::Joystick
    } else if n == 12 {
        DeviceType::Gamepad
    } else if n == 13 {
        DeviceType::Dock
    } else if n == 14 {
        DeviceType::Speaker
    } else if n == 15 {
        DeviceType::Microphone
    } else if n == 16 {
        DeviceType::IlluminationLight
    } else if n == 17 {
        DeviceType::ProgrammableController
    } else if n == 18 {
        DeviceType::CarSimPedals
    } else if n == 19 {
        DeviceType::Adapter
    } else {
        DeviceType::Other(n)
    }
}

impl From<u8> for DeviceType {
    fn from(n: u8) -> (r: Self)
        ensures
            device_type_number(r) == n,
            r is Other <==> n >= 20,
    {
        match n {
            0 => DeviceType::Keyboard,
            1 => DeviceType::RemoteControl,
            2 => DeviceType::Numpad,
            3 => DeviceType::Mouse,
            4 => DeviceType::Trackpad,
            5 => DeviceType::Trackball,
            6 => DeviceType::Presenter,
            7 => DeviceType::Receiver,
            8 => DeviceType::Headset,
            9 => DeviceType::Webcam,
            10 => DeviceType::SteeringWheel,
            11 => DeviceType::Joystick,
            12 => DeviceType::Gamepad,
            13 => DeviceType::Dock,
            14 => DeviceType::Speaker,
            15 => DeviceType::Microphone,
            16 => DeviceType::IlluminationLight,
            17 => DeviceType::ProgrammableController,
            18 => DeviceType::CarSimPedals,
            19 => DeviceType::Adapter,
            _ => DeviceType::Other(n),
        }
    }
}

impl vstd::std_specs::convert::FromSpecImpl<u8> for DeviceType {
    open spec fn obeys_from_spec() -> bool {
        true
    }

    open spec fn from_spec(n: u8) -> Self {
        device_type_of(n)
    }
}

impl From<DeviceType> for u8 {
    fn from(t: DeviceType) -> (r: Self) {
        match t {
            DeviceType::Keyboard => 0,
            DeviceType::RemoteControl => 1,
            DeviceType::Numpad => 2,
            DeviceType::Mouse => 3,
            DeviceType::Trackpad => 4,
            DeviceType::Trackball => 5,
            DeviceType::Presenter => 6,
            DeviceType::Receiver => 7,
            DeviceType::Headset => 8,
            DeviceType::Webcam => 9,
            DeviceType::SteeringWheel => 10,
            DeviceType::Joystick => 11,
            DeviceType::Gamepad => 12,
            DeviceType::Dock => 13,
            DeviceType::Speaker => 14,
            DeviceType::Microphone => 15,
            DeviceType::IlluminationLight => 16,
            DeviceType::ProgrammableController => 17,
            DeviceType::CarSimPedals => 18,
            DeviceType::Adapter => 19,
            DeviceType::Other(n) => n,
        }
    }
}

impl vstd::std_specs::convert::FromSpecImpl<DeviceType> for u8 {
    open spec fn obeys_from_spec() -> bool {
        true
    }

    open spec fn from_spec(t: DeviceType) -> Self {
        device_type_number(t)
    }
}

/// Every named device type reads back from its own number, numbers 0 to 19
/// name a device type, and only numbers from 20 on read as `Other`.
pub proof fn lemma_device_type_names(t: DeviceType, n: u8)
    ensures
        !(t is Other) ==> device_type_of(device_type_number(t)) == t && device_type_number(t) < 20,
        device_type_of(n) is Other <==> n >= 20,
{
}

/// A number read as a `DeviceType` and turned back is the same number.
pub proof fn lemma_device_type_number_roundtrip(n: u8)
    ensures
        device_type_number(device_type_of(n)) == n,
{
}

impl Decode for DeviceType {
    open spec fn decode_len() -> nat {
        1
    }

    open spec fn decodable(bytes: Seq<u8>) -> bool {
        true
    }

    open spec fn decoded(bytes: Seq<u8>) -> DeviceType {
        device_type_of(bytes[0])
    }

    fn decode(buf: &mut &[u8]) -> (r: DeviceType) {
        DeviceType::from(u8::decode(buf))
    }
}

/// The answer of `getDeviceNameCount` (function 0): the length of the name,
/// the first payload byte.
pub fn get_device_name_count(response: &Packet) -> (r: u8)
    requires
        packet_bytes(*response).len() >= 5,
    ensures
        r == packet_bytes(*response)[4],
{
    let bytes = packet_as_slice(response);
    bytes[4]
}

/// The answer of `getDeviceName` (function 1): the sixteen payload bytes that
/// follow the header, a chunk of the name padded with NUL bytes.
pub fn get_device_name(response: &Packet) -> (r: AsciiStr<16>)
    requires
        packet_bytes(*response).len() >= 20,
        valid_ascii_raw(packet_bytes(*response).subrange(4, 20)),
    ensures
        r@ == packet_bytes(*response).subrange(4, 20),
{
    let bytes = packet_as_slice(response);
    let mut payload: &[u8] = &bytes[4..bytes.len()];
    proof {
        assert(payload@.take(16) =~= packet_bytes(*response).subrange(4, 20));
    }
    AsciiStr::<16>::decode(&mut payload)
}

/// The answer of `getDeviceType` (function 2): the kind named by the first
/// payload byte.
pub fn get_device_type(response: &Packet) -> (r: DeviceType)
    requires
        packet_bytes(*response).len() >= 5,
    ensures
        r == device_type_of(packet_bytes(*response)[4]),
        device_type_number(r) == packet_bytes(*response)[4],
        r is Other <==> packet_bytes(*response)[4] >= 20,
{
    let bytes = packet_as_slice(response);
    DeviceType::from(bytes[4])
}

} // verus!
