//! The calculator service: a concrete instance of the generated pattern.
//!
//! For a declared service `Calculator` with `add(left: u32, right: u32) ->
//! u32` and `is_forty_two(value: u32) -> bool`, the generator's output is a
//! request and a response variant set (one variant per method), the
//! `Calculator` interface, and a server wrapping an implementation of it.
//! This module is that output, written out with its contracts, together
//! with the payload codec the endpoints share. Neither method posts
//! anything out-of-band, so the frames of this service carry empty
//! out-of-band sequences.

use vstd::bytes::{spec_u32_from_le_bytes, spec_u32_to_le_bytes, u32_from_le_bytes, u32_to_le_bytes, lemma_auto_spec_u32_to_from_le_bytes};
use vstd::prelude::*;
use vstd::slice::slice_subrange;

use crate::client::CallFailure;
use crate::wire::Frame;

verus! {

/// What `add` returns: the sum, wrapping around the `u32` range.
pub open spec fn add_spec(left: u32, right: u32) -> u32 {
    ((left + right) % 0x1_0000_0000) as u32
}

/// The service interface: the one authoritative definition of what a
/// calculator server must implement.
pub trait Calculator {
    fn add(&self, left: u32, right: u32) -> (r: u32)
        ensures
            r == add_spec(left, right),
    ;

    fn is_forty_two(&self, value: u32) -> (r: bool)
        ensures
            r == (value == 42),
    ;
}

/// The server-side business logic.
pub struct CalculatorServiceImpl;

impl Calculator for CalculatorServiceImpl {
    fn add(&self, left: u32, right: u32) -> (r: u32) {
        let wide: u64 = left as u64 + right as u64;
        (wide % 0x1_0000_0000) as u32
    }

    fn is_forty_two(&self, value: u32) -> (r: bool) {
        value == 42
    }
}

/// The request variant set: one variant per method, holding the serialized
/// parameters.
#[derive(Clone, Copy, PartialEq, Eq, Structural, Debug)]
pub enum CalculatorRequest {
    Add { left: u32, right: u32 },
    IsFortyTwo { value: u32 },
}

/// The response variant set: one variant per method, holding the
/// serialized return value.
#[derive(Clone, Copy, PartialEq, Eq, Structural, Debug)]
pub enum CalculatorResponse {
    Add(u32),
    IsFortyTwo(bool),
}

// ===================== the payload codec =====================

/// The payload encoding of a request: a variant tag, then each field in
/// little-endian order.
pub open spec fn request_bytes(r: CalculatorRequest) -> Seq<u8> {
    match r {
        CalculatorRequest::Add { left, right } => seq![0u8] + spec_u32_to_le_bytes(left)
            + spec_u32_to_le_bytes(right),
        CalculatorRequest::IsFortyTwo { value } => seq![1u8] + spec_u32_to_le_bytes(value),
    }
}

/// The payload encoding of a response.
pub open spec fn response_bytes(r: CalculatorResponse) -> Seq<u8> {
    match r {
        CalculatorResponse::Add(x) => seq![0u8] + spec_u32_to_le_bytes(x),
        CalculatorResponse::IsFortyTwo(b) => seq![
            1u8,
            if b {
                1u8
            } else {
                0u8
            },
        ],
    }
}

/// Serializes a request.
pub fn encode_request(r: &CalculatorRequest) -> (v: Vec<u8>)
    ensures
        v@ == request_bytes(*r),
{
    let mut v: Vec<u8> = Vec::new();
    match r {
        CalculatorRequest::Add { left, right } => {
            v.push(0);
            let mut l = u32_to_le_bytes(*left);
            v.append(&mut l);
            let mut rr = u32_to_le_bytes(*right);
            v.append(&mut rr);
            proof {
                assert(v@ =~= request_bytes(*r));
            }
        },
        CalculatorRequest::IsFortyTwo { value } => {
            v.push(1);
            let mut b = u32_to_le_bytes(*value);
            v.append(&mut b);
            proof {
                assert(v@ =~= request_bytes(*r));
            }
        },
    }
    v
}

/// Serializes a response.
pub fn encode_response(r: &CalculatorResponse) -> (v: Vec<u8>)
    ensures
        v@ == response_bytes(*r),
{
    let mut v: Vec<u8> = Vec::new();
    match r {
        CalculatorResponse::Add(x) => {
            v.push(0);
            let mut b = u32_to_le_bytes(*x);
            v.append(&mut b);
            proof {
                assert(v@ =~= response_bytes(*r));
            }
        },
        CalculatorResponse::IsFortyTwo(b) => {
            v.push(1);
            v.push(if *b {
                1
            } else {
                0
            });
            proof {
                assert(v@ =~= response_bytes(*r));
            }
        },
    }
    v
}

/// Deserializes a request. Succeeds exactly on the payloads that encode
/// one; anything else is a decode failure — a protocol desync, reported,
/// never ignored.
pub fn decode_request(payload: &[u8]) -> (r: Result<CalculatorRequest, CallFailure>)
    ensures
        match r {
            Ok(req) => payload@ == request_bytes(req),
            Err(e) => e == CallFailure::Decode && forall|req: CalculatorRequest|
                payload@ != #[trigger] request_bytes(req),
        },
{
    proof {
        lemma_auto_spec_u32_to_from_le_bytes();
    }
    if payload.len() == 9 && payload[0] == 0 {
        let left = u32_from_le_bytes(slice_subrange(payload, 1, 5));
        let right = u32_from_le_bytes(slice_subrange(payload, 5, 9));
        proof {
            assert(payload@ =~= request_bytes(CalculatorRequest::Add { left, right }));
        }
        Ok(CalculatorRequest::Add { left, right })
    } else if payload.len() == 5 && payload[0] == 1 {
        let value = u32_from_le_bytes(slice_subrange(payload, 1, 5));
        proof {
            assert(payload@ =~= request_bytes(CalculatorRequest::IsFortyTwo { value }));
        }
        Ok(CalculatorRequest::IsFortyTwo { value })
    } else {
        proof {
            assert forall|req: CalculatorRequest| payload@ != #[trigger] request_bytes(req) by {
                match req {
                    CalculatorRequest::Add { left, right } => {
                        assert(request_bytes(req).len() == 9);
                        assert(request_bytes(req)[0] == 0);
                    },
                    CalculatorRequest::IsFortyTwo { value } => {
                        assert(request_bytes(req).len() == 5);
                        assert(request_bytes(req)[0] == 1);
                    },
                }
            }
        }
        Err(CallFailure::Decode)
    }
}

/// Deserializes a response. Succeeds exactly on the payloads that encode
/// one.
pub fn decode_response(payload: &[u8]) -> (r: Result<CalculatorResponse, CallFailure>)
    ensures
        match r {
            Ok(resp) => payload@ == response_bytes(resp),
            Err(e) => e == CallFailure::Decode && forall|resp: CalculatorResponse|
                payload@ != #[trigger] response_bytes(resp),
        },
{
    proof {
        lemma_auto_spec_u32_to_from_le_bytes();
    }
    if payload.len() == 5 && payload[0] == 0 {
        let x = u32_from_le_bytes(slice_subrange(payload, 1, 5));
        proof {
            assert(payload@ =~= response_bytes(CalculatorResponse::Add(x)));
        }
        Ok(CalculatorResponse::Add(x))
    } else if payload.len() == 2 && payload[0] == 1 && (payload[1] == 0 || payload[1] == 1) {
        let b = payload[1] == 1;
        proof {
            assert(payload@ =~= response_bytes(CalculatorResponse::IsFortyTwo(b)));
        }
        Ok(CalculatorResponse::IsFortyTwo(b))
    } else {
        proof {
            assert forall|resp: CalculatorResponse| payload@ != #[trigger] response_bytes(resp) by {
                match resp {
                    CalculatorResponse::Add(x) => {
                        assert(response_bytes(resp).len() == 5);
                        assert(response_bytes(resp)[0] == 0);
                    },
                    CalculatorResponse::IsFortyTwo(b) => {
                        assert(response_bytes(resp).len() == 2);
                        assert(response_bytes(resp)[0] == 1);
                        assert(response_bytes(resp)[1] == 0 || response_bytes(resp)[1] == 1);
                    },
                }
            }
        }
        Err(CallFailure::Decode)
    }
}

/// The payload encoding of requests is injective: a frame encodes at most
/// one request, so a response frame answers exactly the request its
/// inbound frame carried.
pub proof fn lemma_request_encoding_injective(a: CalculatorRequest, b: CalculatorRequest)
    requires
        request_bytes(a) == request_bytes(b),
    ensures
        a == b,
{
    lemma_auto_spec_u32_to_from_le_bytes();
    match (a, b) {
        (
            CalculatorRequest::Add { left: la, right: ra },
            CalculatorRequest::Add { left: lb, right: rb },
        ) => {
            assert(request_bytes(a).subrange(1, 5) =~= spec_u32_to_le_bytes(la));
            assert(request_bytes(a).subrange(5, 9) =~= spec_u32_to_le_bytes(ra));
            assert(request_bytes(b).subrange(1, 5) =~= spec_u32_to_le_bytes(lb));
            assert(request_bytes(b).subrange(5, 9) =~= spec_u32_to_le_bytes(rb));
            assert(la == spec_u32_from_le_bytes(spec_u32_to_le_bytes(la)));
            assert(lb == spec_u32_from_le_bytes(spec_u32_to_le_bytes(lb)));
            assert(ra == spec_u32_from_le_bytes(spec_u32_to_le_bytes(ra)));
            assert(rb == spec_u32_from_le_bytes(spec_u32_to_le_bytes(rb)));
        },
        (
            CalculatorRequest::IsFortyTwo { value: va },
            CalculatorRequest::IsFortyTwo { value: vb },
        ) => {
            assert(request_bytes(a).subrange(1, 5) =~= spec_u32_to_le_bytes(va));
            assert(request_bytes(b).subrange(1, 5) =~= spec_u32_to_le_bytes(vb));
            assert(va == spec_u32_from_le_bytes(spec_u32_to_le_bytes(va)));
            assert(vb == spec_u32_from_le_bytes(spec_u32_to_le_bytes(vb)));
        },
        (CalculatorRequest::Add { .. }, CalculatorRequest::IsFortyTwo { .. }) => {
            assert(request_bytes(a)[0] == 0);
            assert(request_bytes(b)[0] == 1);
        },
        (CalculatorRequest::IsFortyTwo { .. }, CalculatorRequest::Add { .. }) => {
            assert(request_bytes(a)[0] == 1);
            assert(request_bytes(b)[0] == 0);
        },
    }
}

/// The payload encoding of responses is injective too: what a caller
/// decodes is the one response the server packaged.
pub proof fn lemma_response_encoding_injective(a: CalculatorResponse, b: CalculatorResponse)
    requires
        response_bytes(a) == response_bytes(b),
    ensures
        a == b,
{
    lemma_auto_spec_u32_to_from_le_bytes();
    match (a, b) {
        (CalculatorResponse::Add(xa), CalculatorResponse::Add(xb)) => {
            assert(response_bytes(a).subrange(1, 5) =~= spec_u32_to_le_bytes(xa));
            assert(response_bytes(b).subrange(1, 5) =~= spec_u32_to_le_bytes(xb));
            assert(xa == spec_u32_from_le_bytes(spec_u32_to_le_bytes(xa)));
            assert(xb == spec_u32_from_le_bytes(spec_u32_to_le_bytes(xb)));
        },
        (CalculatorResponse::IsFortyTwo(ba), CalculatorResponse::IsFortyTwo(bb)) => {
            assert(response_bytes(a)[1] == response_bytes(b)[1]);
        },
        (CalculatorResponse::Add(_), CalculatorResponse::IsFortyTwo(_)) => {
            assert(response_bytes(a)[0] == 0);
            assert(response_bytes(b)[0] == 1);
        },
        (CalculatorResponse::IsFortyTwo(_), CalculatorResponse::Add(_)) => {
            assert(response_bytes(a)[0] == 1);
            assert(response_bytes(b)[0] == 0);
        },
    }
}

/// The response a correct server gives to each request.
pub open spec fn response_spec(req: CalculatorRequest) -> CalculatorResponse {
    match req {
        CalculatorRequest::Add { left, right } => CalculatorResponse::Add(add_spec(left, right)),
        CalculatorRequest::IsFortyTwo { value } => CalculatorResponse::IsFortyTwo(value == 42),
    }
}

/// The server: wraps an implementation of the service interface and turns
/// each decoded request into its response.
pub struct CalculatorServer<I> {
    pub server_impl: I,
}

impl<I: Calculator> CalculatorServer<I> {
    pub fn new(server_impl: I) -> (r: CalculatorServer<I>)
        ensures
            r.server_impl == server_impl,
    {
        CalculatorServer { server_impl }
    }

    /// Pattern-matches the request variant, calls the matching method of
    /// the wrapped implementation and packages its result.
    pub fn execute(&self, request: CalculatorRequest) -> (r: CalculatorResponse)
        ensures
            r == response_spec(request),
    {
        match request {
            CalculatorRequest::Add { left, right } => CalculatorResponse::Add(
                self.server_impl.add(left, right),
            ),
            CalculatorRequest::IsFortyTwo { value } => CalculatorResponse::IsFortyTwo(
                self.server_impl.is_forty_two(value),
            ),
        }
    }

    /// The server side of one inbound request frame: decode the payload,
    /// execute, and answer with a response frame carrying the same
    /// correlation id. Neither method of this service posts anything, so
    /// the response's out-of-band sequence is empty. A payload that is no
    /// request is a decode failure, reported to the caller.
    pub fn execute_frame(&self, frame: &Frame) -> (r: Result<Frame, CallFailure>)
        ensures
            match r {
                Ok(resp) => {
                    &&& exists|req: CalculatorRequest|
                        frame@.payload == #[trigger] request_bytes(req) && resp@.payload
                            == response_bytes(response_spec(req))
                    &&& resp@.id == frame@.id
                    &&& resp@.out_of_band.len() == 0
                    &&& resp@.transfer.len() == 0
                    &&& resp.wf()
                },
                Err(e) => e == CallFailure::Decode && forall|req: CalculatorRequest|
                    frame@.payload != #[trigger] request_bytes(req),
            },
    {
        let request = match decode_request(frame.payload.as_slice()) {
            Ok(req) => req,
            Err(e) => {
                return Err(e);
            },
        };
        let response = self.execute(request);
        let payload = encode_response(&response);
        Ok(Frame { id: frame.id, payload, out_of_band: Vec::new(), transfer: Vec::new() })
    }
}

/// The client's reading of an `add` response: the value of the one variant
/// `add` uses. Succeeds exactly on the payloads encoding an `Add`
/// response; any other payload — another variant included — is a protocol
/// desync.
pub fn add_result(payload: &[u8]) -> (r: Result<u32, CallFailure>)
    ensures
        match r {
            Ok(x) => payload@ == response_bytes(CalculatorResponse::Add(x)),
            Err(e) => e == CallFailure::Decode && forall|x: u32|
                payload@ != #[trigger] response_bytes(CalculatorResponse::Add(x)),
        },
{
    match decode_response(payload) {
        Ok(CalculatorResponse::Add(x)) => Ok(x),
        Ok(CalculatorResponse::IsFortyTwo(_)) => {
            proof {
                assert forall|x: u32|
                    payload@ != #[trigger] response_bytes(CalculatorResponse::Add(x)) by {
                    assert(response_bytes(CalculatorResponse::Add(x))[0] == 0);
                }
            }
            Err(CallFailure::Decode)
        },
        Err(e) => Err(e),
    }
}

/// The client's reading of an `is_forty_two` response.
pub fn is_forty_two_result(payload: &[u8]) -> (r: Result<bool, CallFailure>)
    ensures
        match r {
            Ok(b) => payload@ == response_bytes(CalculatorResponse::IsFortyTwo(b)),
            Err(e) => e == CallFailure::Decode && forall|b: bool|
                payload@ != #[trigger] response_bytes(CalculatorResponse::IsFortyTwo(b)),
        },
{
    match decode_response(payload) {
        Ok(CalculatorResponse::IsFortyTwo(b)) => Ok(b),
        Ok(CalculatorResponse::Add(_)) => {
            proof {
                assert forall|b: bool|
                    payload@ != #[trigger] response_bytes(CalculatorResponse::IsFortyTwo(b)) by {
                    assert(response_bytes(CalculatorResponse::IsFortyTwo(b))[0] == 1);
                }
            }
            Err(CallFailure::Decode)
        },
        Err(e) => Err(e),
    }
}

/// The generated client type of the calculator service, tied to its
/// request and response variant sets.
pub struct CalculatorClient;

impl crate::client::Client for CalculatorClient {
    type Request = CalculatorRequest;

    type Response = CalculatorResponse;
}

} // verus!
