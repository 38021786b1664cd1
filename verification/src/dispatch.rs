//! Request dispatch: the wire-level request/response shapes, the protocol
//! error codes, the translation of handler outcomes into responses, and the
//! builder-style router that tries one method after another against a
//! request and yields either the routed id or the request unchanged.

use vstd::prelude::*;

verus! {

/// Protocol error code: the request's method is not recognized.
pub const ERROR_CODE_METHOD_NOT_FOUND: i32 = -32601;

/// Protocol error code: the handler failed for an internal reason.
pub const ERROR_CODE_INTERNAL_ERROR: i32 = -32603;

/// Protocol error code: the client cancelled the request.
pub const ERROR_CODE_REQUEST_CANCELLED: i32 = -32800;

/// Protocol error code: the request's inputs went stale while the handler
/// ran.
pub const ERROR_CODE_CONTENT_MODIFIED: i32 = -32801;

/// A handler error that already carries its protocol code and message.
pub struct LspError {
    pub code: i32,
    pub message: String,
}

impl LspError {
    pub fn new(code: i32, message: String) -> (r: LspError)
        ensures
            r.code == code,
            r.message == message,
    {
        LspError { code, message }
    }
}

/// An inbound client request: client-assigned id, method name, and the
/// still-serialized parameters, opaque to the core.
pub struct RawRequest {
    pub id: u64,
    pub method: String,
    pub params: Vec<u8>,
}

/// The error half of a response.
pub struct ResponseError {
    pub code: i32,
    pub message: String,
}

/// An outbound response: exactly one of `result` and `error` is set.
pub struct RawResponse {
    pub id: u64,
    pub result: Option<Vec<u8>>,
    pub error: Option<ResponseError>,
}

impl RawResponse {
    pub fn ok(id: u64, result: Vec<u8>) -> (r: RawResponse)
        ensures
            r.id == id,
            r.result == Some(result),
            r.error is None,
    {
        RawResponse { id, result: Some(result), error: None }
    }

    pub fn err(id: u64, code: i32, message: String) -> (r: RawResponse)
        ensures
            r.id == id,
            r.result is None,
            r.error matches Some(e) && e.code == code && e.message == message,
    {
        RawResponse { id, result: None, error: Some(ResponseError { code, message }) }
    }
}

/// An outbound notification.
pub enum RawNotification {
    /// Diagnostics for one document; an empty list clears stale marks.
    PublishDiagnostics { uri: Vec<u8>, diagnostics: Vec<Vec<u8>> },
    /// Decorations for one document, produced by a worker.
    PublishDecorations { uri: Vec<u8>, payload: Vec<u8> },
    /// Internal-mode progress feedback.
    InternalFeedback { message: String },
    /// Anything else, carried through opaquely.
    Other { method: String, params: Vec<u8> },
}

/// What a worker sends back to the loop: a response addressed to a pending
/// request, or an unsolicited notification.
pub enum Task {
    Respond(RawResponse),
    Notify(RawNotification),
}

/// Why a handler failed, as the dispatcher classifies it.
pub enum HandlerError {
    /// The handler produced a protocol-level error itself.
    Lsp(LspError),
    /// A read through the handler's snapshot was cancelled: the snapshot
    /// was superseded while the handler ran.
    Canceled,
    /// Any other failure, with its formatted description.
    Other(String),
}

/// Build the response for a finished handler: success carries the reply;
/// an error is classified into its protocol code — a handler-supplied code
/// verbatim, cancellation as `ContentModified`, anything else as
/// `InternalError` with the description.
pub fn response_for_handler_result(id: u64, outcome: Result<Vec<u8>, HandlerError>) -> (r:
    RawResponse)
    ensures
        r.id == id,
        match outcome {
            Ok(reply) => r.result == Some(reply) && r.error is None,
            Err(e) => r.result is None && (r.error matches Some(re) && (match e {
                HandlerError::Lsp(le) => re.code == le.code && re.message == le.message,
                HandlerError::Canceled => re.code == ERROR_CODE_CONTENT_MODIFIED && re.message@
                    == "content modified"@,
                HandlerError::Other(msg) => re.code == ERROR_CODE_INTERNAL_ERROR && re.message
                    == msg,
            })),
        },
{
    match outcome {
        Ok(reply) => RawResponse::ok(id, reply),
        Err(e) => match e {
            HandlerError::Lsp(le) => RawResponse::err(id, le.code, le.message),
            HandlerError::Canceled => RawResponse::err(
                id,
                ERROR_CODE_CONTENT_MODIFIED,
                "content modified".to_owned(),
            ),
            HandlerError::Other(msg) => RawResponse::err(id, ERROR_CODE_INTERNAL_ERROR, msg),
        },
    }
}

/// Builder-style router. It starts holding the request; each `on` call
/// tries one method. Once a method matches, the request is consumed and
/// only the routed id remains: a request is never both routed and
/// returned.
pub struct PoolDispatcher {
    req: Option<RawRequest>,
    res: Option<u64>,
}

impl PoolDispatcher {
    /// Exactly one of the carried request and the routed id is present.
    pub closed spec fn wf(&self) -> bool {
        (self.req is Some) != (self.res is Some)
    }

    /// The request still carried, if no method matched yet.
    pub closed spec fn req_view(&self) -> Option<RawRequest> {
        self.req
    }

    /// The routed id, once a method matched.
    pub closed spec fn res_view(&self) -> Option<u64> {
        self.res
    }

    pub fn new(req: RawRequest) -> (r: PoolDispatcher)
        ensures
            r.wf(),
            r.req_view() == Some(req),
            r.res_view() is None,
    {
        PoolDispatcher { req: Some(req), res: None }
    }

    /// Try one method: when the carried request's method equals `method`,
    /// consume it and hand back its id and parameters so the caller can
    /// snapshot the world and move the handler onto the pool; otherwise
    /// leave everything as it was.
    pub fn on(&mut self, method: &String) -> (r: Option<(u64, Vec<u8>)>)
        requires
            old(self).wf(),
        ensures
            final(self).wf(),
            match r {
                Some((id, params)) => {
                    &&& old(self).req_view() matches Some(req) && req.method@ == method@ && id
                        == req.id && params == req.params
                    &&& final(self).req_view() is None
                    &&& final(self).res_view() == Some(id)
                },
                None => {
                    &&& final(self).req_view() == old(self).req_view()
                    &&& final(self).res_view() == old(self).res_view()
                    &&& (old(self).req_view() matches Some(req) ==> req.method@ != method@)
                },
            },
    {
        let matched = match &self.req {
            None => false,
            Some(req) => req.method.eq(method),
        };
        if matched {
            let mut taken: Option<RawRequest> = None;
            std::mem::swap(&mut taken, &mut self.req);
            match taken {
                Some(req) => {
                    self.res = Some(req.id);
                    Some((req.id, req.params))
                },
                None => {
                    proof {
                        assert(false);
                    }
                    None
                },
            }
        } else {
            None
        }
    }

    /// End of the chain: either the routed id or the original request.
    pub fn finish(self) -> (r: Result<u64, RawRequest>)
        requires
            self.wf(),
        ensures
            match r {
                Ok(id) => self.res_view() == Some(id) && self.req_view() is None,
                Err(req) => self.req_view() == Some(req) && self.res_view() is None,
            },
    {
        match self {
            PoolDispatcher { req: None, res: Some(id) } => Ok(id),
            PoolDispatcher { req: Some(req), res: None } => Err(req),
            _ => {
                proof {
                    assert(false);
                }
                Ok(0)
            },
        }
    }
}

/// Outcome of routing one request across a method table.
pub enum RouteResult {
    /// A method matched: the id to register as pending, the matched method,
    /// and the parameters for the handler.
    Routed { id: u64, method: String, params: Vec<u8> },
    /// No method matched: the request comes back unchanged.
    Unknown { req: RawRequest },
}

/// Route `req` across the method table, trying each method in order, as
/// the handler chain does. The request is routed if and only if its method
/// is in the table.
#[verifier::loop_isolation(false)]
pub fn route_request(req: RawRequest, methods: &Vec<String>) -> (r: RouteResult)
    ensures
        match r {
            RouteResult::Routed { id, method, params } => id == req.id && method@ == req.method@
                && params == req.params && (exists|k: int|
                0 <= k < methods@.len() && methods@[k]@ == req.method@),
            RouteResult::Unknown { req: back } => back == req && (forall|k: int|
                0 <= k < methods@.len() ==> methods@[k]@ != req.method@),
        },
{
    let ghost reqv = req;
    let mut dispatcher = PoolDispatcher::new(req);
    let mut k: usize = 0;
    while k < methods.len()
        invariant
            dispatcher.wf(),
            0 <= k <= methods@.len(),
            dispatcher.req_view() == Some(reqv),
            forall|j: int| 0 <= j < k ==> methods@[j]@ != reqv.method@,
        decreases methods@.len() - k,
    {
        match dispatcher.on(&methods[k]) {
            Some((id, params)) => {
                let method = methods[k].clone();
                proof {
                    assert(methods@[k as int]@ == reqv.method@);
                }
                return RouteResult::Routed { id, method, params };
            },
            None => {},
        }
        k += 1;
    }
    match dispatcher.finish() {
        Err(back) => RouteResult::Unknown { req: back },
        Ok(id) => {
            proof {
                assert(false);
            }
            RouteResult::Routed { id, method: String::new(), params: Vec::new() }
        },
    }
}

} // verus!
