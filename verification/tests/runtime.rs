use web_rpc::calc::{
    add_result, decode_request, encode_request, encode_response, is_forty_two_result,
    CalculatorRequest, CalculatorResponse, CalculatorServer, CalculatorServiceImpl,
};
use web_rpc::client::{cancel_call, CallFailure, RequestFuture};
use web_rpc::dispatch::{CancelOutcome, Delivery, Dispatcher};

/// Sends one request frame through a dispatcher and a server and returns
/// the response frame, exactly as the host event loop would.
fn call(
    dispatcher: &mut Dispatcher,
    server: &CalculatorServer<CalculatorServiceImpl>,
    request: CalculatorRequest,
) -> (RequestFuture, web_rpc::wire::Frame) {
    let payload = encode_request(&request);
    let id = dispatcher
        .submit(payload, vec![], vec![], 0)
        .expect("dispatcher is open");
    let frame = dispatcher.next_outbound().expect("the frame was enqueued");
    assert_eq!(frame.id, id);
    let fut = RequestFuture::new(frame.id);
    let response = server.execute_frame(&frame).expect("payload decodes");
    (fut, response)
}

#[test]
fn round_trip() {
    let mut dispatcher = Dispatcher::new();
    let server = CalculatorServer::new(CalculatorServiceImpl);

    let (mut fut, response) = call(
        &mut dispatcher,
        &server,
        CalculatorRequest::Add { left: 41, right: 1 },
    );
    let delivered = match dispatcher.handle_response(response) {
        Delivery::Completed { handle: _, result } => Some(result),
        Delivery::Discarded => None,
    };
    let result = fut.poll(delivered).expect("call completed");
    let sum = add_result(result.payload.as_slice()).expect("an add response");
    assert_eq!(sum, 42);

    let (mut fut, response) = call(
        &mut dispatcher,
        &server,
        CalculatorRequest::IsFortyTwo { value: sum },
    );
    let delivered = match dispatcher.handle_response(response) {
        Delivery::Completed { handle: _, result } => Some(result),
        Delivery::Discarded => None,
    };
    let result = fut.poll(delivered).expect("call completed");
    assert!(is_forty_two_result(result.payload.as_slice()).expect("an is_forty_two response"));
}

#[test]
fn concurrent_multiplexing() {
    let mut dispatcher = Dispatcher::new();
    let server = CalculatorServer::new(CalculatorServiceImpl);

    // A hundred distinct in-flight calls on one dispatcher.
    let mut futures = Vec::new();
    let mut responses = Vec::new();
    for i in 0..100u32 {
        let (fut, response) = call(
            &mut dispatcher,
            &server,
            CalculatorRequest::Add { left: i, right: 1000 + i },
        );
        futures.push(fut);
        responses.push(response);
    }

    // Responses arrive in reverse submission order; each call still gets
    // the result matching its own arguments.
    responses.reverse();
    let mut completed: Vec<(u64, u32)> = Vec::new();
    for response in responses {
        let id = response.id;
        match dispatcher.handle_response(response) {
            Delivery::Completed { handle: _, result } => {
                let sum = add_result(result.payload.as_slice()).expect("an add response");
                completed.push((id, sum));
            }
            Delivery::Discarded => panic!("every call is pending"),
        }
    }
    assert_eq!(completed.len(), 100);
    for (id, sum) in completed {
        let i = id as u32;
        assert_eq!(sum, i + 1000 + i);
    }
    // Every future's entry is gone: abandoning it cancels nothing more.
    for mut fut in futures {
        assert!(fut.poll(None).is_none());
        assert!(fut.abandon().is_some());
    }
}

#[test]
fn cancellation_discards_the_late_response() {
    let mut dispatcher = Dispatcher::new();
    let server = CalculatorServer::new(CalculatorServiceImpl);

    let (fut_a, response_a) = call(
        &mut dispatcher,
        &server,
        CalculatorRequest::Add { left: 1, right: 2 },
    );
    let (mut fut_b, response_b) = call(
        &mut dispatcher,
        &server,
        CalculatorRequest::Add { left: 30, right: 4 },
    );

    // Dropping the first future fires its guard: the entry leaves the map
    // and the remote side would be notified.
    match cancel_call(&mut dispatcher, fut_a) {
        Some(CancelOutcome::Removed { handle: _ }) => {}
        _ => panic!("an armed guard cancels a pending call"),
    }

    // The response that later arrives for the cancelled id is discarded
    // without a panic.
    assert!(matches!(
        dispatcher.handle_response(response_a),
        Delivery::Discarded
    ));

    // The other pending call is unaffected.
    let delivered = match dispatcher.handle_response(response_b) {
        Delivery::Completed { handle: _, result } => Some(result),
        Delivery::Discarded => panic!("the other call is still pending"),
    };
    let result = fut_b.poll(delivered).expect("call completed");
    assert_eq!(add_result(result.payload.as_slice()).unwrap(), 34);
}

#[test]
fn cancellation_is_idempotent() {
    let mut dispatcher = Dispatcher::new();
    let id = dispatcher
        .submit(vec![], vec![], vec![], 7)
        .expect("dispatcher is open");
    assert!(matches!(
        dispatcher.cancel(id),
        CancelOutcome::Removed { handle: 7 }
    ));
    assert!(matches!(dispatcher.cancel(id), CancelOutcome::NotPresent));
}

#[test]
fn no_double_completion() {
    let mut dispatcher = Dispatcher::new();
    let server = CalculatorServer::new(CalculatorServiceImpl);

    let (mut fut, response) = call(
        &mut dispatcher,
        &server,
        CalculatorRequest::Add { left: 20, right: 22 },
    );
    let duplicate = web_rpc::wire::Frame {
        id: response.id,
        payload: response.payload.clone(),
        out_of_band: vec![],
        transfer: vec![],
    };

    let delivered = match dispatcher.handle_response(response) {
        Delivery::Completed { handle: _, result } => Some(result),
        Delivery::Discarded => panic!("the call is pending"),
    };
    assert!(fut.poll(delivered).is_some());

    // A duplicate frame with the same id finds no entry: the handle is
    // resolved at most once and nothing else changes.
    assert!(matches!(
        dispatcher.handle_response(duplicate),
        Delivery::Discarded
    ));
}

#[test]
fn guard_fires_exactly_once() {
    let mut fut = RequestFuture::new(9);
    assert_eq!(fut.abort.fire(), Some(9));
    assert_eq!(fut.abort.fire(), None);
}

#[test]
fn completion_disarms_the_guard() {
    let mut dispatcher = Dispatcher::new();
    let server = CalculatorServer::new(CalculatorServiceImpl);
    let (mut fut, response) = call(
        &mut dispatcher,
        &server,
        CalculatorRequest::Add { left: 0, right: 0 },
    );
    let delivered = match dispatcher.handle_response(response) {
        Delivery::Completed { handle: _, result } => Some(result),
        Delivery::Discarded => None,
    };
    assert!(fut.poll(delivered).is_some());
    // Abandoning after completion cancels nothing.
    assert_eq!(fut.abandon(), None);
}

#[test]
fn teardown_is_idempotent() {
    let mut dispatcher = Dispatcher::new();
    let server = CalculatorServer::new(CalculatorServiceImpl);

    // A session whose calls all completed cleanly...
    let (mut fut, response) = call(
        &mut dispatcher,
        &server,
        CalculatorRequest::Add { left: 2, right: 3 },
    );
    let delivered = match dispatcher.handle_response(response) {
        Delivery::Completed { handle: _, result } => Some(result),
        Delivery::Discarded => None,
    };
    assert!(fut.poll(delivered).is_some());

    // ...tears down without failing anything, and tearing down again does
    // nothing further.
    assert_eq!(dispatcher.teardown(), 0);
    assert!(dispatcher.closed);
    assert_eq!(dispatcher.teardown(), 0);
    assert!(dispatcher.closed);
}

#[test]
fn teardown_fails_outstanding_calls() {
    let mut dispatcher = Dispatcher::new();
    let _ = dispatcher.submit(vec![], vec![], vec![], 1).unwrap();
    let id = dispatcher.submit(vec![], vec![], vec![], 2).unwrap();
    let mut fut = RequestFuture::new(id);

    // Two calls were outstanding when the transport went away.
    assert_eq!(dispatcher.teardown(), 2);

    // Racing the dispatcher's liveness resolves the pending call with a
    // transport failure instead of hanging.
    match fut.poll_call(dispatcher.closed, None) {
        Some(Err(CallFailure::TransportClosed)) => {}
        _ => panic!("a closed dispatcher fails the call"),
    }

    // Nothing can be submitted afterwards.
    assert!(dispatcher.submit(vec![], vec![], vec![], 3).is_none());
}

#[test]
fn decode_failure_is_reported() {
    let server = CalculatorServer::new(CalculatorServiceImpl);
    let bad = web_rpc::wire::Frame {
        id: 5,
        payload: vec![9, 9, 9],
        out_of_band: vec![],
        transfer: vec![],
    };
    assert!(matches!(server.execute_frame(&bad), Err(CallFailure::Decode)));

    // A response of the wrong variant is a protocol desync for the caller.
    let wrong = encode_response(&CalculatorResponse::IsFortyTwo(true));
    assert_eq!(add_result(wrong.as_slice()), Err(CallFailure::Decode));
    let wrong = encode_response(&CalculatorResponse::Add(3));
    assert_eq!(is_forty_two_result(wrong.as_slice()), Err(CallFailure::Decode));
}

#[test]
fn payload_codec_round_trips() {
    let req = CalculatorRequest::Add { left: 41, right: 1 };
    let bytes = encode_request(&req);
    assert_eq!(bytes, vec![0, 41, 0, 0, 0, 1, 0, 0, 0]);
    assert_eq!(decode_request(bytes.as_slice()), Ok(req));

    let req = CalculatorRequest::IsFortyTwo { value: 42 };
    let bytes = encode_request(&req);
    assert_eq!(bytes, vec![1, 42, 0, 0, 0]);
    assert_eq!(decode_request(bytes.as_slice()), Ok(req));

    let resp = CalculatorResponse::IsFortyTwo(true);
    assert_eq!(encode_response(&resp), vec![1, 1]);

    assert!(decode_request(&[]).is_err());
    assert!(decode_request(&[0, 1, 2]).is_err());
    assert!(decode_request(&[2, 0, 0, 0, 0]).is_err());
}

#[test]
fn ids_are_allocated_monotonically() {
    let mut dispatcher = Dispatcher::new();
    let a = dispatcher.submit(vec![], vec![], vec![], 0).unwrap();
    let b = dispatcher.submit(vec![], vec![], vec![], 0).unwrap();
    let c = dispatcher.submit(vec![], vec![], vec![], 0).unwrap();
    assert!(a < b && b < c);
}

#[test]
fn outbound_frames_leave_in_submission_order() {
    let mut dispatcher = Dispatcher::new();
    let a = dispatcher.submit(vec![1], vec![], vec![], 0).unwrap();
    let b = dispatcher.submit(vec![2], vec![], vec![], 0).unwrap();
    let c = dispatcher.submit(vec![3], vec![], vec![], 0).unwrap();
    assert_eq!(dispatcher.next_outbound().unwrap().id, a);
    assert_eq!(dispatcher.next_outbound().unwrap().id, b);
    let last = dispatcher.next_outbound().unwrap();
    assert_eq!(last.id, c);
    assert_eq!(last.payload, vec![3]);
    assert!(dispatcher.next_outbound().is_none());
}
