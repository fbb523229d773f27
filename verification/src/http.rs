//! What an HTTP endpoint answers to the body of a POST request.
//!
//! The endpoint itself, which reads the body and writes the reply, lives
//! outside. Here is the decision: which status, which content type and which
//! body go back.

use vstd::prelude::*;
use vstd::utf8::{decode_utf8, valid_utf8};
use crate::jsonrpc::JsonRpc;
use vstd::string::StringExecFns;
use crate::methods::{HandlerFn, Methods};

verus! {

/// The status of a reply that carries a response.
pub const STATUS_OK: u16 = 200;

/// The status of the reply to a message that is owed no response.
pub const STATUS_NO_CONTENT: u16 = 204;

/// The status of the reply to a body that could not be read as text.
pub const STATUS_BAD_REQUEST: u16 = 400;

/// The reply of the endpoint: its status, the content type where it has a
/// body, and the body.
#[derive(Debug, PartialEq)]
pub struct HttpReply {
    pub status: u16,
    pub content_type: Option<String>,
    pub body: String,
}

/// The model of an [`HttpReply`].
pub struct HttpReplyView {
    pub status: u16,
    pub content_type: Option<Seq<char>>,
    pub body: Seq<char>,
}

impl View for HttpReply {
    type V = HttpReplyView;

    open spec fn view(&self) -> HttpReplyView {
        HttpReplyView {
            status: self.status,
            content_type: match self.content_type {
                Some(t) => Some(t@),
                None => None,
            },
            body: self.body@,
        }
    }
}

impl HttpReplyView {
    /// A reply with the given status whose body is plain text.
    pub open spec fn plain(status: u16, body: Seq<char>) -> HttpReplyView {
        HttpReplyView { status, content_type: Some("text/plain; charset=utf-8"@), body }
    }

    /// The reply of the transport to what the engine emitted: the response,
    /// or an empty reply where it emitted nothing; both with status 200.
    pub open spec fn transporting(output: Option<Seq<char>>) -> HttpReplyView {
        match output {
            Some(text) => HttpReplyView::json(STATUS_OK, text),
            None => HttpReplyView { status: STATUS_OK, content_type: None, body: Seq::empty() },
        }
    }

    /// Whether this is the reply of the transport with the methods `methods`
    /// to a posted body, where `Err` holds why the body could not be read.
    pub open spec fn transports<H: HandlerFn>(
        self,
        methods: Methods<H>,
        body: Result<Seq<u8>, Seq<char>>,
    ) -> bool {
        match body {
            Err(why) => self == HttpReplyView::plain(
                STATUS_BAD_REQUEST,
                "Failed to read body: "@ + why,
            ),
            Ok(bytes) => if valid_utf8(bytes) {
                exists|output: Option<Seq<char>>|
                    #[trigger] methods.emits_for(decode_utf8(bytes), output) && self
                        == HttpReplyView::transporting(output)
            } else {
                self == HttpReplyView::plain(STATUS_BAD_REQUEST, "Invalid UTF-8 in request body"@)
            },
        }
    }

    /// A reply with the given status whose body is JSON.
    pub open spec fn json(status: u16, body: Seq<char>) -> HttpReplyView {
        HttpReplyView { status, content_type: Some("application/json"@), body }
    }

    /// The reply to a body that could not be read as text: a bad request
    /// that carries the parse error.
    pub open spec fn unreadable() -> HttpReplyView {
        HttpReplyView::json(
            STATUS_BAD_REQUEST,
            "{\"jsonrpc\":\"2.0\",\"error\":{\"code\":-32700,\"message\":\"Parse error\"},\"id\":null}"@,
        )
    }

    /// The reply that carries what the engine emitted: the response, or no
    /// content where it emitted nothing.
    pub open spec fn carrying(output: Option<Seq<char>>) -> HttpReplyView {
        match output {
            Some(text) => HttpReplyView::json(STATUS_OK, text),
            None => HttpReplyView {
                status: STATUS_NO_CONTENT,
                content_type: None,
                body: Seq::empty(),
            },
        }
    }

    /// Whether this is the reply of `json_rpc` to the body `body`, where
    /// `None` stands for a body that could not be read.
    pub open spec fn replies_to<H: HandlerFn>(
        self,
        json_rpc: JsonRpc<H>,
        body: Option<Seq<u8>>,
    ) -> bool {
        match body {
            Some(bytes) if valid_utf8(bytes) => exists|output: Option<Seq<char>>|
                #[trigger] json_rpc.methods().emits_for(decode_utf8(bytes), output) && self
                    == HttpReplyView::carrying(output),
            _ => self == HttpReplyView::unreadable(),
        }
    }
}

/// Reads bytes as UTF-8 text with `String::from_utf8`.
///
/// Trusted: the result is the text that the bytes encode, and `None`
/// exactly where the bytes are no valid UTF-8.
#[verifier::external_body]
fn text_from_utf8(bytes: Vec<u8>) -> (out: Option<String>)
    ensures
        match out {
            Some(text) => valid_utf8(bytes@) && text@ == decode_utf8(bytes@),
            None => !valid_utf8(bytes@),
        },
{
    String::from_utf8(bytes).ok()
}

/// The reply with status 200 that carries the response `json`.
pub fn success_response(json: &str) -> (out: HttpReply)
    ensures
        out@ == HttpReplyView::json(STATUS_OK, json@),
{
    HttpReply {
        status: STATUS_OK,
        content_type: Some("application/json".to_owned()),
        body: json.to_owned(),
    }
}

/// The reply with the given status that carries the error response `json`.
pub fn error_response(status: u16, json: &str) -> (out: HttpReply)
    ensures
        out@ == HttpReplyView::json(status, json@),
{
    HttpReply {
        status,
        content_type: Some("application/json".to_owned()),
        body: json.to_owned(),
    }
}

/// Answers the body of a POST request; `None` stands for a body that could
/// not be read.
///
/// A body that is no UTF-8 text, or that could not be read, gets a bad
/// request with the parse error. Any other body is handed to `json_rpc`:
/// what it emits goes back with status 200, and where it emits nothing the
/// reply has no content.
pub fn handler<H: HandlerFn>(json_rpc: &JsonRpc<H>, body: Option<Vec<u8>>) -> (out: HttpReply)
    ensures
        out@.replies_to(
            *json_rpc,
            match body {
                Some(b) => Some(b@),
                None => None,
            },
        ),
{
    let text = match body {
        Some(bytes) => text_from_utf8(bytes),
        None => None,
    };
    match text {
        Some(json_str) => match json_rpc.call(json_str.as_str()) {
            Some(response) => success_response(response.as_str()),
            None => HttpReply { status: STATUS_NO_CONTENT, content_type: None, body: String::new() },
        },
        None => error_response(
            STATUS_BAD_REQUEST,
            "{\"jsonrpc\":\"2.0\",\"error\":{\"code\":-32700,\"message\":\"Parse error\"},\"id\":null}",
        ),
    }
}

/// The model of what reading a body gave.
pub open spec fn body_view(body: Result<Vec<u8>, String>) -> Result<Seq<u8>, Seq<char>> {
    match body {
        Ok(bytes) => Ok(bytes@),
        Err(why) => Err(why@),
    }
}

/// Answers a body that was posted to the HTTP transport; `Err` holds why
/// the body could not be read.
///
/// A body that could not be read, or that is no UTF-8 text, gets a bad
/// request that says so in plain text. Any other body is handed to the
/// engine: what it emits goes back as JSON, and where it emits nothing the
/// reply is empty; both with status 200.
pub fn handle_jsonrpc<H: HandlerFn>(methods: &Methods<H>, body: Result<Vec<u8>, String>) -> (out:
    HttpReply)
    ensures
        out@.transports(*methods, body_view(body)),
{
    let bytes = match body {
        Ok(bytes) => bytes,
        Err(why) => {
            return HttpReply {
                status: STATUS_BAD_REQUEST,
                content_type: Some("text/plain; charset=utf-8".to_owned()),
                body: "Failed to read body: ".to_owned().concat(why.as_str()),
            };
        },
    };
    match text_from_utf8(bytes) {
        Some(json_str) => match methods.process_message(json_str.as_str()) {
            Some(response) => success_response(response.as_str()),
            None => HttpReply { status: STATUS_OK, content_type: None, body: String::new() },
        },
        None => HttpReply {
            status: STATUS_BAD_REQUEST,
            content_type: Some("text/plain; charset=utf-8".to_owned()),
            body: "Invalid UTF-8 in request body".to_owned(),
        },
    }
}

} // verus!
