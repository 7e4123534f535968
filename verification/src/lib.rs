//! Logic of the HID++ protocol spoken by Logitech devices: the layout of
//! request and response packets, the encoding of request parameters, the
//! decoding of feature responses and the table that maps feature ids to the
//! per-device feature indices.
use vstd::prelude::*;

pub mod packet;
pub mod encode;
pub mod to_params;
mod tuples;
pub mod ascii;
pub mod bcd;
pub mod feature_lookup;
pub mod features;
pub mod request;

verus! {

/// What a device answers in place of a response when a request fails.
#[derive(Debug, Clone, Copy, PartialEq, Eq, Structural)]
pub enum ProtocolError {
    NoError,
    Unknown,
    InvalidArgument,
    OutOfRange,
    HwError,
    LogitechInternal,
    InvalidFeatureIndex,
    InvalidFunctionId,
    Busy,
    Unsupported,
    Other(u8),
}

/// The error code that each `ProtocolError` stands for.
pub open spec fn protocol_error_code(e: ProtocolError) -> u8 {
    match e {
        ProtocolError::NoError => 0,
        ProtocolError::Unknown => 1,
        ProtocolError::InvalidArgument => 2,
        ProtocolError::OutOfRange => 3,
        ProtocolError::HwError => 4,
        ProtocolError::LogitechInternal => 5,
        ProtocolError::InvalidFeatureIndex => 6,
        ProtocolError::InvalidFunctionId => 7,
        ProtocolError::Busy => 8,
        ProtocolError::Unsupported => 9,
        ProtocolError::Other(code) => code,
    }
}

/// The `ProtocolError` that an error code names; codes above 9 are `Other`.
pub open spec fn protocol_error_of(code: u8) -> ProtocolError {
    if code == 0 {
        ProtocolError::NoError
    } else if code == 1 {
        ProtocolError::Unknown
    } else if code == 2 {
        ProtocolError::InvalidArgument
    } else if code == 3 {
        ProtocolError::OutOfRange
    } else if code == 4 {
        ProtocolError::HwError
    } else if code == 5 {
        ProtocolError::LogitechInternal
    } else if code == 6 {
        ProtocolError::InvalidFeatureIndex
    } else if code == 7 {
        ProtocolError::InvalidFunctionId
    } else if code == 8 {
        ProtocolError::Busy
    } else if code == 9 {
        ProtocolError::Unsupported
    } else {
        ProtocolError::Other(code)
    }
}

impl From<u8> for ProtocolError {
    fn from(code: u8) -> (r: Self)
        ensures
            protocol_error_code(r) == code,
            r is Other <==> code >= 10,
    {
        match code {
            0 => ProtocolError::NoError,
            1 => ProtocolError::Unknown,
            2 => ProtocolError::InvalidArgument,
            3 => ProtocolError::OutOfRange,
            4 => ProtocolError::HwError,
            5 => ProtocolError::LogitechInternal,
            6 => ProtocolError::InvalidFeatureIndex,
            7 => ProtocolError::InvalidFunctionId,
            8 => ProtocolError::Busy,
            9 => ProtocolError::Unsupported,
            _ => ProtocolError::Other(code),
        }
    }
}

impl vstd::std_specs::convert::FromSpecImpl<u8> for ProtocolError {
    open spec fn obeys_from_spec() -> bool {
        true
    }

    open spec fn from_spec(code: u8) -> Self {
        protocol_error_of(code)
    }
}

impl From<ProtocolError> for u8 {
    fn from(e: ProtocolError) -> (r: Self) {
        match e {
            ProtocolError::NoError => 0,
            ProtocolError::Unknown => 1,
            ProtocolError::InvalidArgument => 2,
            ProtocolError::OutOfRange => 3,
            ProtocolError::HwError => 4,
            ProtocolError::LogitechInternal => 5,
            ProtocolError::InvalidFeatureIndex => 6,
            ProtocolError::InvalidFunctionId => 7,
            ProtocolError::Busy => 8,
            ProtocolError::Unsupported => 9,
            ProtocolError::Other(code) => code,
        }
    }
}

impl vstd::std_specs::convert::FromSpecImpl<ProtocolError> for u8 {
    open spec fn obeys_from_spec() -> bool {
        true
    }

    open spec fn from_spec(e: ProtocolError) -> Self {
        protocol_error_code(e)
    }
}

/// Every named protocol error reads back from its own code, codes 0 to 9
/// name an error, and only codes from 10 on read as `Other`.
pub proof fn lemma_protocol_error_names(e: ProtocolError, code: u8)
    ensures
        !(e is Other) ==> protocol_error_of(protocol_error_code(e)) == e && protocol_error_code(e) < 10,
        protocol_error_of(code) is Other <==> code >= 10,
{
}

/// Reading an error code into a `ProtocolError` and back gives the code.
pub proof fn lemma_protocol_error_code_roundtrip(code: u8)
    ensures
        protocol_error_code(protocol_error_of(code)) == code,
{
}

/// The errors of a request.
#[derive(Debug, Clone, Copy, PartialEq, Eq, Structural)]
pub enum HidppError {
    Protocol(ProtocolError),
}

} // verus!
