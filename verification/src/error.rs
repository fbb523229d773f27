//! Failures that occur while a message is processed.
//!
//! These are the engine's own failures, distinct from the error objects that
//! travel on the wire.

use vstd::prelude::*;
use vstd::string::StringExecFns;
use vstd::string::to_string_from_display_ensures;

verus! {

/// A failure of a handler or of the engine.
#[derive(Debug, PartialEq)]
pub enum Error {
    /// Protocol-level failure, such as an invalid method or parameters.
    ProtocolError(String),
    /// An error declared by the application, with its code and message.
    RpcError { code: i32, message: String },
    /// A failure of the transport, by its description.
    TransportError(String),
    /// JSON text that could not be parsed, by the parser's description.
    ParseError(String),
    /// Well-formed JSON that is no JSON-RPC message.
    InvalidRequest(String),
    /// The operation was cancelled.
    Cancelled,
}

/// The model of an [`Error`].
pub enum ErrorView {
    ProtocolError(Seq<char>),
    RpcError { code: i32, message: Seq<char> },
    TransportError(Seq<char>),
    ParseError(Seq<char>),
    InvalidRequest(Seq<char>),
    Cancelled,
}

impl View for Error {
    type V = ErrorView;

    open spec fn view(&self) -> ErrorView {
        match self {
            Error::ProtocolError(m) => ErrorView::ProtocolError(m@),
            Error::RpcError { code, message } => ErrorView::RpcError {
                code: *code,
                message: message@,
            },
            Error::TransportError(m) => ErrorView::TransportError(m@),
            Error::ParseError(m) => ErrorView::ParseError(m@),
            Error::InvalidRequest(m) => ErrorView::InvalidRequest(m@),
            Error::Cancelled => ErrorView::Cancelled,
        }
    }
}

impl ErrorView {
    /// The description of this failure, where `digits` is the decimal text
    /// of the code of an application-declared error.
    pub open spec fn text_with(self, digits: Seq<char>) -> Seq<char> {
        match self {
            ErrorView::ProtocolError(m) => "Protocol error: "@ + m,
            ErrorView::RpcError { code, message } => "JSON-RPC error: code="@ + digits
                + ", message="@ + message,
            ErrorView::TransportError(m) => "Transport error: "@ + m,
            ErrorView::ParseError(m) => "Protocol error: "@ + m,
            ErrorView::InvalidRequest(m) => "Invalid Request: "@ + m,
            ErrorView::Cancelled => "Operation was cancelled"@,
        }
    }

    /// The description of a failure that carries no code.
    pub open spec fn text(self) -> Seq<char>
        recommends
            !(self is RpcError),
    {
        self.text_with(Seq::empty())
    }

    /// Whether `text` describes this failure, given the decimal `digits` of
    /// the code where the failure has one.
    pub open spec fn described_by(self, digits: Seq<char>, text: Seq<char>) -> bool {
        text == self.text_with(digits)
    }

    /// Whether `digits` is the decimal text of the code of this failure and
    /// `text` describes the failure with it.
    pub open spec fn described_with(self, digits: String, text: Seq<char>) -> bool {
        &&& self matches ErrorView::RpcError { code, .. } ==> to_string_from_display_ensures::<
            i32,
        >(&code, digits)
        &&& self.described_by(digits@, text)
    }

    /// Whether `text` is the description of this failure.
    pub open spec fn has_description(self, text: Seq<char>) -> bool {
        exists|digits: String| #[trigger] self.described_with(digits, text)
    }
}

impl Error {
    /// A protocol error with the given message.
    pub fn protocol(message: &str) -> (out: Error)
        ensures
            out@ == ErrorView::ProtocolError(message@),
    {
        Error::ProtocolError(message.to_owned())
    }

    /// A transport error with the given description.
    pub fn transport(description: &str) -> (out: Error)
        ensures
            out@ == ErrorView::TransportError(description@),
    {
        Error::TransportError(description.to_owned())
    }

    /// An application-declared error with its code and message.
    pub fn rpc(code: i32, message: &str) -> (out: Error)
        ensures
            out@ == (ErrorView::RpcError { code, message: message@ }),
    {
        Error::RpcError { code, message: message.to_owned() }
    }

    /// An invalid-request error with the given message.
    pub fn invalid_request(message: &str) -> (out: Error)
        ensures
            out@ == ErrorView::InvalidRequest(message@),
    {
        Error::InvalidRequest(message.to_owned())
    }

    /// A copy of the failure.
    pub fn duplicate(&self) -> (out: Error)
        ensures
            out@ == self@,
    {
        match self {
            Error::ProtocolError(m) => Error::ProtocolError(m.clone()),
            Error::RpcError { code, message } => Error::RpcError {
                code: *code,
                message: message.clone(),
            },
            Error::TransportError(m) => Error::TransportError(m.clone()),
            Error::ParseError(m) => Error::ParseError(m.clone()),
            Error::InvalidRequest(m) => Error::InvalidRequest(m.clone()),
            Error::Cancelled => Error::Cancelled,
        }
    }

    /// The text that describes this failure to a reader.
    pub fn description(&self) -> (out: String)
        ensures
            self@.has_description(out@),
            !(self is RpcError) ==> out@ == self@.text(),
    {
        let out = self.plain_description();
        proof {
            if !(self is RpcError) {
                assert(self@.described_with(out, out@));
            }
        }
        out
    }

    fn plain_description(&self) -> (out: String)
        ensures
            self is RpcError ==> self@.has_description(out@),
            !(self is RpcError) ==> self@.described_by(Seq::empty(), out@),
    {
        match self {
            Error::ProtocolError(m) => "Protocol error: ".to_owned().concat(m.as_str()),
            Error::RpcError { code, message } => {
                let digits = code.to_string();
                let out = "JSON-RPC error: code=".to_owned().concat(digits.as_str()).concat(
                    ", message=",
                ).concat(message.as_str());
                proof {
                    assert(self@.described_with(digits, out@));
                }
                out
            },
            Error::TransportError(m) => "Transport error: ".to_owned().concat(m.as_str()),
            Error::ParseError(m) => "Protocol error: ".to_owned().concat(m.as_str()),
            Error::InvalidRequest(m) => "Invalid Request: ".to_owned().concat(m.as_str()),
            Error::Cancelled => "Operation was cancelled".to_owned(),
        }
    }
}

impl Clone for Error {
    fn clone(&self) -> (out: Error)
        ensures
            out@ == self@,
    {
        self.duplicate()
    }
}

} // verus!
