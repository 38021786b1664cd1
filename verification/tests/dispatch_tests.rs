use lsp_core::dispatch::{
    response_for_handler_result, route_request, HandlerError, LspError, PoolDispatcher, RawRequest,
    RawResponse, RouteResult, ERROR_CODE_CONTENT_MODIFIED, ERROR_CODE_INTERNAL_ERROR,
    ERROR_CODE_REQUEST_CANCELLED,
};

fn req(id: u64, method: &str) -> RawRequest {
    RawRequest { id, method: method.to_owned(), params: b"{}".to_vec() }
}

fn methods() -> Vec<String> {
    vec!["alpha/one".to_owned(), "alpha/two".to_owned(), "beta/three".to_owned()]
}

#[test]
fn routing_finds_a_known_method() {
    match route_request(req(11, "alpha/two"), &methods()) {
        RouteResult::Routed { id, method, params } => {
            assert_eq!(id, 11);
            assert_eq!(method, "alpha/two");
            assert_eq!(params, b"{}".to_vec());
        }
        RouteResult::Unknown { .. } => panic!("should route"),
    }
}

#[test]
fn routing_returns_an_unknown_request_unchanged() {
    match route_request(req(12, "gamma/none"), &methods()) {
        RouteResult::Routed { .. } => panic!("should not route"),
        RouteResult::Unknown { req } => {
            assert_eq!(req.id, 12);
            assert_eq!(req.method, "gamma/none");
        }
    }
}

#[test]
fn dispatcher_never_both_routes_and_returns() {
    let mut d = PoolDispatcher::new(req(5, "beta/three"));
    assert!(d.on(&"alpha/one".to_owned()).is_none());
    let hit = d.on(&"beta/three".to_owned());
    assert_eq!(hit.map(|(id, _)| id), Some(5));
    // once routed, later methods see nothing and finish yields the id
    assert!(d.on(&"beta/three".to_owned()).is_none());
    assert_eq!(d.finish().ok(), Some(5));

    let mut d2 = PoolDispatcher::new(req(6, "delta/x"));
    assert!(d2.on(&"alpha/one".to_owned()).is_none());
    match d2.finish() {
        Ok(_) => panic!("nothing matched"),
        Err(back) => assert_eq!(back.id, 6),
    }
}

#[test]
fn lsp_error_keeps_its_code_and_message() {
    let e = LspError::new(-32099, "busy".to_owned());
    assert_eq!(e.code, -32099);
    assert_eq!(e.message, "busy");
}

#[test]
fn handler_success_becomes_a_result_response() {
    let r = response_for_handler_result(1, Ok(b"42".to_vec()));
    assert_eq!(r.id, 1);
    assert_eq!(r.result, Some(b"42".to_vec()));
    assert!(r.error.is_none());
}

#[test]
fn handler_lsp_error_keeps_its_code() {
    let e = HandlerError::Lsp(LspError::new(-32099, "busy".to_owned()));
    let r = response_for_handler_result(2, Err(e));
    let err = r.error.unwrap();
    assert_eq!(err.code, -32099);
    assert_eq!(err.message, "busy");
}

#[test]
fn cancelled_handler_becomes_content_modified() {
    let r = response_for_handler_result(3, Err(HandlerError::Canceled));
    let err = r.error.unwrap();
    assert_eq!(err.code, ERROR_CODE_CONTENT_MODIFIED);
    assert_eq!(err.message, "content modified");
}

#[test]
fn other_handler_errors_become_internal_errors() {
    let r = response_for_handler_result(4, Err(HandlerError::Other("boom".to_owned())));
    let err = r.error.unwrap();
    assert_eq!(err.code, ERROR_CODE_INTERNAL_ERROR);
    assert_eq!(err.message, "boom");
}

#[test]
fn error_response_shape() {
    let r = RawResponse::err(8, ERROR_CODE_REQUEST_CANCELLED, "canceled by client".to_owned());
    assert_eq!(r.id, 8);
    assert!(r.result.is_none());
    assert_eq!(r.error.unwrap().code, ERROR_CODE_REQUEST_CANCELLED);
}
