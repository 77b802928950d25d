use rex::rendezvous::{resolve_response, Delivery, ResponseError, FAILURE_STATUS};

#[test]
fn abandoned_handoff_reports_no_response() {
    let r: Result<u32, ResponseError<String>> = resolve_response(Delivery::Abandoned);
    match r {
        Err(e) => {
            assert!(e.is_no_response());
            assert_eq!(e.status(), 500);
        }
        Ok(_) => panic!("expected an error"),
    }
}

#[test]
fn written_response_is_returned() {
    let r: Result<&str, ResponseError<String>> = resolve_response(Delivery::Written(Ok("hello")));
    assert_eq!(r.unwrap(), "hello");
}

#[test]
fn written_failure_is_propagated() {
    let r: Result<u32, ResponseError<String>> =
        resolve_response(Delivery::Written(Err("boom".to_string())));
    match r {
        Err(ResponseError::Failed(e)) => assert_eq!(e, "boom"),
        _ => panic!("expected the written failure"),
    }
}

#[test]
fn handler_failure_maps_to_server_error() {
    let e: ResponseError<String> = ResponseError::Failed("trap".to_string());
    assert!(!e.is_no_response());
    assert_eq!(e.status(), FAILURE_STATUS);
    assert_eq!(FAILURE_STATUS, 500);
}
