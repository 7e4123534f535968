//! The device-friendly-name feature: a user-settable name, read and written
//! in chunks, beside the default name.
use vstd::prelude::*;
use crate::ascii::{AsciiStr, valid_ascii_raw};
use crate::encode::Decode;
use crate::packet::{Packet, packet_bytes, packet_as_slice};

verus! {

/// The lengths of the friendly name: current, largest allowed, and default.
#[derive(Debug, Clone, Copy, PartialEq, Eq, Structural)]
pub struct FriendlyNameLengths {
    pub name_len: u8,
    pub name_max_len: u8,
    pub default_name_len: u8,
}

impl Decode for FriendlyNameLengths {
    open spec fn decode_len() -> nat {
        3
    }

    open spec fn decodable(bytes: Seq<u8>) -> bool {
        true
    }

    open spec fn decoded(bytes: Seq<u8>) -> FriendlyNameLengths {
        FriendlyNameLengths { name_len: bytes[0], name_max_len: bytes[1], default_name_len: bytes[2] }
    }

    fn decode(buf: &mut &[u8]) -> (r: FriendlyNameLengths) {
        let name_len = u8::decode(buf);
        let name_max_len = u8::decode(buf);
        let default_name_len = u8::decode(buf);
        FriendlyNameLengths { name_len, name_max_len, default_name_len }
    }
}

/// The answer of `getFriendlyNameLen` (function 0): the three lengths that
/// follow the header.
pub fn get_friendly_name_len(response: &Packet) -> (r: FriendlyNameLengths)
    requires
        packet_bytes(*response).len() >= 7,
    ensures
        r == FriendlyNameLengths::decoded(packet_bytes(*response).skip(4)),
{
    let bytes = packet_as_slice(response);
    let mut payload: &[u8] = &bytes[4..bytes.len()];
    FriendlyNameLengths::decode(&mut payload)
}

/// A chunk of a name in a `getFriendlyName` or `getDefaultFriendlyName`
/// answer: the fifteen bytes after the echoed byte index.
fn name_chunk(response: &Packet) -> (r: AsciiStr<15>)
    requires
        packet_bytes(*response).len() >= 20,
        valid_ascii_raw(packet_bytes(*response).subrange(5, 20)),
    ensures
        r@ == packet_bytes(*response).subrange(5, 20),
{
    let bytes = packet_as_slice(response);
    let mut payload: &[u8] = &bytes[5..bytes.len()];
    proof {
        assert(payload@.take(15) =~= packet_bytes(*response).subrange(5, 20));
    }
    AsciiStr::<15>::decode(&mut payload)
}

/// The answer of `getFriendlyName` (function 1): a chunk of the friendly
/// name, after the echoed byte index.
pub fn get_friendly_name(response: &Packet) -> (r: AsciiStr<15>)
    requires
        packet_bytes(*response).len() >= 20,
        valid_ascii_raw(packet_bytes(*response).subrange(5, 20)),
    ensures
        r@ == packet_bytes(*response).subrange(5, 20),
{
    name_chunk(response)
}

/// The answer of `getDefaultFriendlyName` (function 2): a chunk of the
/// default name, after the echoed byte index.
pub fn get_default_friendly_name(response: &Packet) -> (r: AsciiStr<15>)
    requires
        packet_bytes(*response).len() >= 20,
        valid_ascii_raw(packet_bytes(*response).subrange(5, 20)),
    ensures
        r@ == packet_bytes(*response).subrange(5, 20),
{
    name_chunk(response)
}

/// The answer of `setFriendlyName` (function 3): the first payload byte, the
/// name length the device now holds.
pub fn set_friendly_name(response: &Packet) -> (r: u8)
    requires
        packet_bytes(*response).len() >= 5,
    ensures
        r == packet_bytes(*response)[4],
{
    let bytes = packet_as_slice(response);
    bytes[4]
}

/// The answer of `resetFriendlyName` (function 4): the first payload byte,
/// the name length after the reset.
pub fn reset_friendly_name(response: &Packet) -> (r: u8)
    requires
        packet_bytes(*response).len() >= 5,
    ensures
        r == packet_bytes(*response)[4],
{
    let bytes = packet_as_slice(response);
    bytes[4]
}

} // verus!
