//! Routing of requests to the methods of a protocol.

use vstd::prelude::*;
use crate::error::Error as Failure;
use crate::error::ErrorView as FailureView;
use crate::json::{Json, JsonValue};
use crate::message::{Message, MessageView};
use crate::types::{
    Error,
    ErrorView,
    INTERNAL_ERROR,
    INVALID_PARAMS,
    METHOD_NOT_FOUND,
    Request,
    RequestId,
    RequestIdView,
    Response,
    ResponseView,
};

verus! {

/// Maps requests to the methods of a protocol and runs them.
///
/// An implementation decides which methods its protocol has and what each
/// of them does.
pub trait Router {
    /// The methods of the protocol.
    type Method;

    /// The method that a request asks for.
    fn route(&self, request: Request) -> Self::Method;

    /// Runs a method. `handler` holds the work of the method, for the router
    /// to call where it applies. `Ok(None)` stands for a result that is
    /// `null`.
    fn handle<F: FnOnce() -> Result<Json, Failure>>(
        &self,
        method: Self::Method,
        handler: F,
    ) -> Result<Option<Json>, Failure>;

    /// The response to a request for a method that the protocol lacks.
    fn unknown_method_response(&self, id: RequestId, method: &str) -> Response;
}

/// The code of the error that a router's failure is reported with.
pub const ROUTER_FAILURE: i32 = -32000;

/// The model of what a router returned.
pub open spec fn routed_view(outcome: Result<Option<Json>, Failure>) -> Result<
    Option<JsonValue>,
    FailureView,
> {
    match outcome {
        Ok(Some(v)) => Ok(Some(v@)),
        Ok(None) => Ok(None),
        Err(e) => Err(e@),
    }
}

/// Whether `response` is the response to the request `id` whose method
/// returned `outcome`: the result, `null` where there is none, or a server
/// error with the description of the failure.
pub open spec fn is_routed_reply(
    id: RequestIdView,
    outcome: Result<Option<JsonValue>, FailureView>,
    response: ResponseView,
) -> bool {
    match outcome {
        Ok(Some(v)) => response == ResponseView::success(id, v),
        Ok(None) => response == ResponseView::success(id, JsonValue::Null),
        Err(e) => exists|text: Seq<char>| #[trigger]
            e.has_description(text) && response == ResponseView::error(
                id,
                ErrorView::plain(ROUTER_FAILURE, text),
            ),
    }
}

/// Builds the response to the request `id` from what its method returned.
pub fn routed_response(id: RequestId, outcome: Result<Option<Json>, Failure>) -> (out: Response)
    ensures
        is_routed_reply(id@, routed_view(outcome), out@),
        out@.id == id@,
{
    match outcome {
        Ok(Some(v)) => Response::success(id, v),
        Ok(None) => Response::success(id, Json::Null),
        Err(e) => {
            let text = e.description();
            let out = Response::error(id, Error::new(ROUTER_FAILURE, text.as_str(), None));
            proof {
                assert(e@.has_description(text@));
            }
            out
        },
    }
}

/// Whether `response` is the response to the request `id` for some outcome
/// of its method.
pub open spec fn is_routed(id: RequestIdView, response: ResponseView) -> bool {
    exists|outcome: Result<Option<JsonValue>, FailureView>| #[trigger]
        is_routed_reply(id, outcome, response)
}

/// Answers a request through a router: the response is what
/// [`routed_response`] makes of the outcome of the method, and it carries the
/// identifier of the request.
pub fn handle_request<R: Router>(router: &R, request: Request) -> (out: Response)
    ensures
        out@.id == request@.id,
        is_routed(request@.id, out@),
{
    let id = request.id.duplicate();
    let method = router.route(request);
    let fallback = || -> (r: Result<Json, Failure>) { Err(Failure::protocol("Handler not configured")) };
    let outcome = router.handle(method, fallback);
    let out = routed_response(id, outcome);
    proof {
        assert(is_routed_reply(request@.id, routed_view(outcome), out@));
    }
    out
}

/// Handles one message through a router: a request is answered, everything
/// else is owed no response.
pub fn handle_message<R: Router>(router: &R, message: Message) -> (out: Option<Response>)
    ensures
        match message@ {
            MessageView::Request(q) => out matches Some(r) && r@.id == q.id && is_routed(q.id, r@),
            _ => out is None,
        },
{
    match message {
        Message::Request(request) => Some(handle_request(router, request)),
        Message::Notification(_) => None,
        Message::Response(_) => None,
        Message::Batch(items) => {
            proof {
                crate::message::lemma_batch_model(items);
            }
            None
        },
    }
}

/// Shorthands for the error objects that a router returns.
pub trait JsonRpcErrorExt: Sized {
    /// A method not found error (-32601).
    fn method_not_found(message: &str) -> Self;

    /// An invalid params error (-32602).
    fn invalid_params(message: &str) -> Self;

    /// An internal error (-32603).
    fn internal_error(message: &str) -> Self;

    /// The error response to the request `id`.
    fn into_response(self, id: RequestId) -> Response;
}

impl JsonRpcErrorExt for Error {
    fn method_not_found(message: &str) -> (out: Error)
        ensures
            out@ == ErrorView::plain(METHOD_NOT_FOUND, message@),
    {
        Error::new(METHOD_NOT_FOUND, message, None)
    }

    fn invalid_params(message: &str) -> (out: Error)
        ensures
            out@ == ErrorView::plain(INVALID_PARAMS, message@),
    {
        Error::new(INVALID_PARAMS, message, None)
    }

    fn internal_error(message: &str) -> (out: Error)
        ensures
            out@ == ErrorView::plain(INTERNAL_ERROR, message@),
    {
        Error::new(INTERNAL_ERROR, message, None)
    }

    fn into_response(self, id: RequestId) -> (out: Response)
        ensures
            out@ == ResponseView::error(id@, self@),
    {
        Response::error(id, self)
    }
}

/// Shorthands for failures.
pub trait ErrorExt: Sized {
    /// A protocol error with the given message.
    fn protocol(message: &str) -> Self;
}

impl ErrorExt for Failure {
    fn protocol(message: &str) -> (out: Failure)
        ensures
            out@ == FailureView::ProtocolError(message@),
    {
        Failure::ProtocolError(message.to_owned())
    }
}

} // verus!
