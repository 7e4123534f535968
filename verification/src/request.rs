//! Requests and the responses that answer them. A request is the report id
//! `0x11`, the device index, the feature index, the function index in the
//! high nibble and the software id in the low nibble of the fourth byte, then
//! the parameters. A response echoes those four bytes; an error response has
//! `0xFF` in place of the feature index, the echoed feature index and
//! function byte after it, then the error code.
use vstd::prelude::*;
use crate::{HidppError, ProtocolError, protocol_error_code, protocol_error_of};
use crate::feature_lookup::{FeatureLookup, ID_SLOTS};
use crate::features::{FeatureId, feature_id_number};
use crate::packet::{Packet, PACKET_CAPACITY, packet_bytes, packet_new, packet_push, packet_as_slice};
use crate::to_params::ToParams;

verus! {

/// The report id of a long HID++ report.
pub const REPORT_ID_LONG: u8 = 0x11;

/// The feature index with which a device marks an error response.
pub const ERROR_FEATURE_INDEX: u8 = 0xFF;

/// The fourth byte of a request: the function index in the high nibble, the
/// software id in the low one.
pub open spec fn function_byte(function_index: u8, swid: u8) -> u8 {
    ((function_index << 4u8) | swid) as u8
}

/// The four header bytes of a request.
pub open spec fn request_header(device_index: u8, feature_index: u8, function_index: u8, swid: u8) -> Seq<u8> {
    seq![REPORT_ID_LONG, device_index, feature_index, function_byte(function_index, swid)]
}

/// For a function index and a software id that each fit in a nibble, the
/// fourth request byte carries the function index in its high nibble and the
/// software id in its low nibble.
pub proof fn lemma_function_byte(function_index: u8, swid: u8)
    ensures
        function_index < 16 && swid < 16 ==> {
            &&& function_byte(function_index, swid) == function_index * 16 + swid
            &&& function_byte(function_index, swid) / 16 == function_index
            &&& function_byte(function_index, swid) % 16 == swid
        },
{
    assert(function_index < 16 && swid < 16 ==> ((function_index << 4u8) | swid) as u8 == function_index * 16 + swid)
        by (bit_vector);
}

/// Builds the request for function `function_index` of the feature
/// `feature_id`, sent with software id `swid`: the header, then the
/// parameters. The feature must be known to `features`.
pub fn build_request<P: ToParams>(
    features: &FeatureLookup,
    device_index: u8,
    feature_id: FeatureId,
    function_index: u8,
    swid: u8,
    params: &P,
) -> (r: Packet)
    requires
        features.wf(),
        function_index < 16,
        feature_id_number(feature_id) < ID_SLOTS,
        features.index_of(feature_id_number(feature_id)) is Some,
        params.encoding().len() <= PACKET_CAPACITY - 4,
    ensures
        packet_bytes(r) == request_header(
            device_index,
            features.index_of(feature_id_number(feature_id))->0,
            function_index,
            swid,
        ) + params.encoding(),
        packet_bytes(r)[2] != ERROR_FEATURE_INDEX,
        packet_bytes(r)[0] == REPORT_ID_LONG,
        packet_bytes(r)[1] == device_index,
        packet_bytes(r)[2] == features.index_of(feature_id_number(feature_id))->0,
        swid < 16 ==> packet_bytes(r)[3] == function_index * 16 + swid,
        swid < 16 ==> packet_bytes(r)[3] / 16 == function_index && packet_bytes(r)[3] % 16 == swid,
        packet_bytes(r).skip(4) == params.encoding(),
{
    let feature_index = features.get_index(u16::from(feature_id)).unwrap();
    let byte_3: u8 = (function_index << 4u8) | swid;
    let mut request = packet_new();
    packet_push(&mut request, REPORT_ID_LONG);
    packet_push(&mut request, device_index);
    packet_push(&mut request, feature_index);
    packet_push(&mut request, byte_3);
    assert(packet_bytes(request) =~= request_header(device_index, feature_index, function_index, swid));
    params.encode(&mut request);
    proof {
        lemma_function_byte(function_index, swid);
        assert(packet_bytes(request).skip(4) =~= params.encoding());
    }
    request
}

/// Whether the bytes that `handle_response` reads of `packet` are there: the
/// four it compares with the request, and for an error response also the
/// echoed header and the error code.
pub open spec fn response_in_bounds(request: Seq<u8>, packet: Seq<u8>) -> bool {
    &&& packet.len() >= 4
    &&& !echoes_request(request, packet) && packet[2] == ERROR_FEATURE_INDEX ==> {
        &&& packet.len() >= 5
        &&& echoes_failed_request(request, packet) ==> packet.len() >= 6
    }
}

/// The packet repeats the request's four header bytes.
pub open spec fn echoes_request(request: Seq<u8>, packet: Seq<u8>) -> bool {
    packet.take(4) == request.take(4)
}

/// The packet repeats the request's report id and device index, then, after
/// the error marker, its feature index and function byte.
pub open spec fn echoes_failed_request(request: Seq<u8>, packet: Seq<u8>) -> bool {
    &&& packet.take(2) == request.take(2)
    &&& packet.subrange(3, 5) == request.subrange(2, 4)
}

/// Whether `handle_response` can read what it needs of `packet`.
pub fn response_readable(request: &Packet, packet: &Packet) -> (r: bool)
    requires
        packet_bytes(*request).len() >= 4,
    ensures
        r == response_in_bounds(packet_bytes(*request), packet_bytes(*packet)),
{
    let q = packet_as_slice(request);
    let p = packet_as_slice(packet);
    let ghost qs = q@;
    let ghost ps = p@;
    if p.len() < 4 {
        return false;
    }
    assert(ps.take(4)[0] == ps[0] && ps.take(4)[1] == ps[1] && ps.take(4)[2] == ps[2] && ps.take(4)[3] == ps[3]);
    assert(qs.take(4)[0] == qs[0] && qs.take(4)[1] == qs[1] && qs.take(4)[2] == qs[2] && qs.take(4)[3] == qs[3]);
    let echoes = p[0] == q[0] && p[1] == q[1] && p[2] == q[2] && p[3] == q[3];
    if echoes {
        assert(ps.take(4) =~= qs.take(4));
    }
    if echoes || p[2] != ERROR_FEATURE_INDEX {
        return true;
    }
    if p.len() < 5 {
        return false;
    }
    assert(ps.take(2)[0] == ps[0] && ps.take(2)[1] == ps[1]);
    assert(qs.take(2)[0] == qs[0] && qs.take(2)[1] == qs[1]);
    assert(ps.subrange(3, 5)[0] == ps[3] && ps.subrange(3, 5)[1] == ps[4]);
    assert(qs.subrange(2, 4)[0] == qs[2] && qs.subrange(2, 4)[1] == qs[3]);
    let failed = p[0] == q[0] && p[1] == q[1] && p[3] == q[2] && p[4] == q[3];
    if failed {
        assert(ps.take(2) =~= qs.take(2));
        assert(ps.subrange(3, 5) =~= qs.subrange(2, 4));
    }
    !failed || p.len() >= 6
}

/// What a packet means for a pending request: `Some(Ok(()))` when it is the
/// response, `Some(Err(e))` when it reports the request failed with `e`, and
/// `None` when it concerns something else.
pub open spec fn response_outcome(request: Seq<u8>, packet: Seq<u8>) -> Option<Result<(), ProtocolError>> {
    if echoes_request(request, packet) {
        Some(Ok(()))
    } else if packet[2] == ERROR_FEATURE_INDEX && echoes_failed_request(request, packet) {
        Some(Err(protocol_error_of(packet[5])))
    } else {
        None
    }
}

/// Decides what a received `packet` means for the pending `request`: the
/// response itself, an error response for it, or (`None`) neither.
pub fn handle_response(request: &Packet, packet: Packet) -> (r: Option<Result<Packet, HidppError>>)
    requires
        packet_bytes(*request).len() >= 4,
        response_in_bounds(packet_bytes(*request), packet_bytes(packet)),
    ensures
        match r {
            None => response_outcome(packet_bytes(*request), packet_bytes(packet)) is None,
            Some(Ok(p)) => response_outcome(packet_bytes(*request), packet_bytes(packet)) == Some(
                Ok::<(), ProtocolError>(()),
            ) && p == packet,
            Some(Err(HidppError::Protocol(e))) => response_outcome(packet_bytes(*request), packet_bytes(packet))
                == Some(Err::<(), ProtocolError>(e)),
        },
        r matches Some(Ok(_)) ==> packet_bytes(packet).take(4) == packet_bytes(*request).take(4),
        r matches Some(Err(HidppError::Protocol(e))) ==> {
            &&& packet_bytes(packet)[2] == ERROR_FEATURE_INDEX
            &&& protocol_error_code(e) == packet_bytes(packet)[5]
        },
{
    let q = packet_as_slice(request);
    let p = packet_as_slice(&packet);
    let ghost qs = q@;
    let ghost ps = p@;
    if p[0] == q[0] && p[1] == q[1] && p[2] == q[2] && p[3] == q[3] {
        assert(ps.take(4) =~= qs.take(4));
        return Some(Ok(packet));
    }
    assert(!(ps.take(4) =~= qs.take(4)) ==> !echoes_request(qs, ps));
    assert(ps.take(4)[0] == ps[0] && ps.take(4)[1] == ps[1] && ps.take(4)[2] == ps[2] && ps.take(4)[3] == ps[3]);
    assert(qs.take(4)[0] == qs[0] && qs.take(4)[1] == qs[1] && qs.take(4)[2] == qs[2] && qs.take(4)[3] == qs[3]);
    if p[2] == ERROR_FEATURE_INDEX {
        if p[0] == q[0] && p[1] == q[1] && p[3] == q[2] && p[4] == q[3] {
            assert(ps.take(2) =~= qs.take(2));
            assert(ps.subrange(3, 5) =~= qs.subrange(2, 4));
            let code = p[5];
            proof {
                crate::lemma_protocol_error_code_roundtrip(code);
            }
            return Some(Err(HidppError::Protocol(ProtocolError::from(code))));
        }
        assert(ps.take(2)[0] == ps[0] && ps.take(2)[1] == ps[1]);
        assert(qs.take(2)[0] == qs[0] && qs.take(2)[1] == qs[1]);
        assert(ps.subrange(3, 5)[0] == ps[3] && ps.subrange(3, 5)[1] == ps[4]);
        assert(qs.subrange(2, 4)[0] == qs[2] && qs.subrange(2, 4)[1] == qs[3]);
    }
    None
}

/// A packet that begins with a request's four header bytes is the response
/// to that request, whatever follows.
pub proof fn lemma_echo_is_response(request: Seq<u8>, rest: Seq<u8>)
    requires
        request.len() >= 4,
    ensures
        response_in_bounds(request, request.take(4) + rest),
        response_outcome(request, request.take(4) + rest) == Some(Ok::<(), ProtocolError>(())),
{
    assert((request.take(4) + rest).take(4) =~= request.take(4));
}

/// The error response to a request (its report id and device index, the
/// error marker, its feature index and function byte, then an error code)
/// reports that code, for every request whose feature index is not the
/// marker itself.
pub proof fn lemma_error_response(request: Seq<u8>, code: u8, rest: Seq<u8>)
    requires
        request.len() >= 4,
        request[2] != ERROR_FEATURE_INDEX,
    ensures
        ({
            let p = request.take(2) + seq![ERROR_FEATURE_INDEX] + request.subrange(2, 4) + seq![code] + rest;
            &&& response_in_bounds(request, p)
            &&& response_outcome(request, p) == Some(Err::<(), ProtocolError>(protocol_error_of(code)))
        }),
{
    let p = request.take(2) + seq![ERROR_FEATURE_INDEX] + request.subrange(2, 4) + seq![code] + rest;
    assert(p[2] == ERROR_FEATURE_INDEX);
    assert(p.take(4)[2] != request.take(4)[2]);
    assert(p.take(2) =~= request.take(2));
    assert(p.subrange(3, 5) =~= request.subrange(2, 4));
    assert(p[5] == code);
}

} // verus!
