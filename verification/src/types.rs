//! The JSON-RPC 2.0 message types.

use vstd::prelude::*;
use vstd::string::StringExecFns;
use vstd::string::to_string_from_display_ensures;
use crate::json::{Json, JsonValue, lemma_object_model};

verus! {

/// The identifier that correlates a request with its response.
#[derive(Debug, PartialEq)]
pub enum RequestId {
    /// The null identifier.
    Null,
    /// A non-negative integer.
    Number(u64),
    /// A string.
    String(String),
}

/// The model of a [`RequestId`].
pub enum RequestIdView {
    Null,
    Number(u64),
    String(Seq<char>),
}

impl View for RequestId {
    type V = RequestIdView;

    open spec fn view(&self) -> RequestIdView {
        match self {
            RequestId::Null => RequestIdView::Null,
            RequestId::Number(n) => RequestIdView::Number(*n),
            RequestId::String(s) => RequestIdView::String(s@),
        }
    }
}

impl RequestIdView {
    /// The JSON form of the identifier.
    pub open spec fn to_json(self) -> JsonValue {
        match self {
            RequestIdView::Null => JsonValue::Null,
            RequestIdView::Number(n) => JsonValue::Unsigned(n),
            RequestIdView::String(s) => JsonValue::String(s),
        }
    }

    /// The identifier that a JSON value stands for: `null`, a non-negative
    /// integer or a string. No other value is an identifier.
    pub open spec fn from_json(value: JsonValue) -> Option<RequestIdView> {
        match value {
            JsonValue::Null => Some(RequestIdView::Null),
            JsonValue::Unsigned(n) => Some(RequestIdView::Number(n)),
            JsonValue::Signed(n) => if n >= 0 {
                Some(RequestIdView::Number(n as u64))
            } else {
                None
            },
            JsonValue::String(s) => Some(RequestIdView::String(s)),
            _ => None,
        }
    }

    /// Whether `text` shows the identifier: `null`, the decimal digits of
    /// the number, or the string itself.
    pub open spec fn shown_as(self, text: String) -> bool {
        match self {
            RequestIdView::Null => text@ == "null"@,
            RequestIdView::Number(n) => to_string_from_display_ensures::<u64>(&n, text),
            RequestIdView::String(s) => text@ == s,
        }
    }
}

impl RequestId {
    /// A copy of the identifier.
    pub fn duplicate(&self) -> (out: RequestId)
        ensures
            out@ == self@,
    {
        match self {
            RequestId::Null => RequestId::Null,
            RequestId::Number(n) => RequestId::Number(*n),
            RequestId::String(s) => RequestId::String(s.clone()),
        }
    }

    /// Whether two identifiers are the same.
    pub fn same(&self, other: &RequestId) -> (out: bool)
        ensures
            out == (self@ == other@),
    {
        match (self, other) {
            (RequestId::Null, RequestId::Null) => true,
            (RequestId::Number(a), RequestId::Number(b)) => *a == *b,
            (RequestId::String(a), RequestId::String(b)) => *a == *b,
            _ => false,
        }
    }

    /// The JSON form of the identifier.
    pub fn to_json(&self) -> (out: Json)
        ensures
            out@ == self@.to_json(),
    {
        match self {
            RequestId::Null => Json::Null,
            RequestId::Number(n) => Json::Unsigned(*n),
            RequestId::String(s) => Json::String(s.clone()),
        }
    }

    /// Reads an identifier from a JSON value.
    pub fn from_json(value: &Json) -> (out: Option<RequestId>)
        ensures
            match out {
                Some(id) => RequestIdView::from_json(value@) == Some(id@),
                None => RequestIdView::from_json(value@).is_none(),
            },
    {
        match value {
            Json::Null => Some(RequestId::Null),
            Json::Unsigned(n) => Some(RequestId::Number(*n)),
            Json::Signed(n) => if *n >= 0 {
                Some(RequestId::Number(*n as u64))
            } else {
                None
            },
            Json::String(s) => Some(RequestId::String(s.clone())),
            _ => None,
        }
    }

    /// The identifier as a reader sees it.
    pub fn to_text(&self) -> (out: String)
        ensures
            self@.shown_as(out),
    {
        match self {
            RequestId::Null => "null".to_owned(),
            RequestId::Number(n) => n.to_string(),
            RequestId::String(s) => s.clone(),
        }
    }
}

impl Clone for RequestId {
    fn clone(&self) -> (out: RequestId)
        ensures
            out@ == self@,
    {
        self.duplicate()
    }
}

/// The error object of a response.
#[derive(Debug, PartialEq)]
pub struct Error {
    /// The code that tells the kind of error.
    pub code: i32,
    /// A short description of the error.
    pub message: String,
    /// Additional data, if any.
    pub data: Option<Json>,
}

/// The model of an [`Error`].
pub struct ErrorView {
    pub code: i32,
    pub message: Seq<char>,
    pub data: Option<JsonValue>,
}

/// The code of a parse error.
pub const PARSE_ERROR: i32 = -32700;

/// The code of an invalid request.
pub const INVALID_REQUEST: i32 = -32600;

/// The code of an unknown method.
pub const METHOD_NOT_FOUND: i32 = -32601;

/// The code of invalid parameters.
pub const INVALID_PARAMS: i32 = -32602;

/// The code of an internal error.
pub const INTERNAL_ERROR: i32 = -32603;

/// Whether `code` is one that the protocol defines: one of the five
/// standard codes, or one of the range that is reserved for server errors.
pub open spec fn is_defined_code(code: i32) -> bool {
    code == PARSE_ERROR || code == INVALID_REQUEST || code == METHOD_NOT_FOUND || code
        == INVALID_PARAMS || code == INTERNAL_ERROR || -32099 <= code <= -32000
}

/// The model of a code as a JSON number.
pub open spec fn code_to_json(code: i32) -> JsonValue {
    if code >= 0 {
        JsonValue::Unsigned(code as u64)
    } else {
        JsonValue::Signed(code as i64)
    }
}

/// The code that a JSON value stands for: an integer of 32 bits.
pub open spec fn code_from_json(value: JsonValue) -> Option<i32> {
    match value {
        JsonValue::Unsigned(n) => if n <= i32::MAX {
            Some(n as i32)
        } else {
            None
        },
        JsonValue::Signed(n) => if i32::MIN <= n <= i32::MAX {
            Some(n as i32)
        } else {
            None
        },
        _ => None,
    }
}

/// The text of a JSON string, where the value is one.
pub open spec fn text_from_json(value: Option<JsonValue>) -> Option<Seq<char>> {
    match value {
        Some(JsonValue::String(s)) => Some(s),
        _ => None,
    }
}

/// Whether `value` has the member `"jsonrpc"` with the string `"2.0"`.
pub open spec fn has_version(value: JsonValue) -> bool {
    value.member("jsonrpc"@) == Some(JsonValue::String("2.0"@))
}

/// The member that every message starts with.
pub open spec fn version_member() -> (Seq<char>, JsonValue) {
    ("jsonrpc"@, JsonValue::String("2.0"@))
}

/// `members` with the member `name`, where `value` is present.
pub open spec fn with_optional(
    members: Seq<(Seq<char>, JsonValue)>,
    name: Seq<char>,
    value: Option<JsonValue>,
) -> Seq<(Seq<char>, JsonValue)> {
    match value {
        Some(v) => members.push((name, v)),
        None => members,
    }
}

impl View for Error {
    type V = ErrorView;

    open spec fn view(&self) -> ErrorView {
        ErrorView {
            code: self.code,
            message: self.message@,
            data: match self.data {
                Some(d) => Some(d@),
                None => None,
            },
        }
    }
}

impl ErrorView {
    /// An error without data.
    pub open spec fn plain(code: i32, message: Seq<char>) -> ErrorView {
        ErrorView { code, message, data: None }
    }

    /// The JSON form: `code`, `message` and, where present, `data`.
    pub open spec fn to_json(self) -> JsonValue {
        JsonValue::Object(
            with_optional(
                seq![("code"@, code_to_json(self.code)), ("message"@, JsonValue::String(self.message))],
                "data"@,
                self.data,
            ),
        )
    }

    /// The error object that a JSON value holds: a member `code` that is an
    /// integer of 32 bits, a member `message` that is a string, and the
    /// optional member `data`.
    pub open spec fn from_json(value: JsonValue) -> Option<ErrorView> {
        match (value.member("code"@), text_from_json(value.member("message"@))) {
            (Some(c), Some(message)) => match code_from_json(c) {
                Some(code) => Some(
                    ErrorView {
                        code,
                        message,
                        data: JsonValue::optional(value.member("data"@)),
                    },
                ),
                None => None,
            },
            _ => None,
        }
    }

    /// Whether `text` describes the error, given the decimal `digits` of its
    /// code.
    pub open spec fn described_with(self, digits: String, text: Seq<char>) -> bool {
        &&& to_string_from_display_ensures::<i32>(&self.code, digits)
        &&& text == "JSON-RPC error "@ + digits@ + ": "@ + self.message
    }
}

/// A copy of an optional JSON value.
pub fn duplicate_optional(value: &Option<Json>) -> (out: Option<Json>)
    ensures
        optional_view(out) == optional_view(*value),
{
    match value {
        Some(v) => Some(v.duplicate()),
        None => None,
    }
}

/// The model of an optional JSON value.
pub open spec fn optional_view(value: Option<Json>) -> Option<JsonValue> {
    match value {
        Some(v) => Some(v@),
        None => None,
    }
}

impl Error {
    /// An error object with the given code, message and data.
    pub fn new(code: i32, message: &str, data: Option<Json>) -> (out: Error)
        ensures
            out@ == (ErrorView { code, message: message@, data: optional_view(data) }),
    {
        Error { code, message: message.to_owned(), data }
    }

    /// A parse error (-32700).
    pub fn parse_error(message: &str) -> (out: Error)
        ensures
            out@ == ErrorView::plain(PARSE_ERROR, message@),
    {
        Error::new(PARSE_ERROR, message, None)
    }

    /// An invalid request error (-32600).
    pub fn invalid_request(message: &str) -> (out: Error)
        ensures
            out@ == ErrorView::plain(INVALID_REQUEST, message@),
    {
        Error::new(INVALID_REQUEST, message, None)
    }

    /// A method not found error (-32601).
    pub fn method_not_found(message: &str) -> (out: Error)
        ensures
            out@ == ErrorView::plain(METHOD_NOT_FOUND, message@),
    {
        Error::new(METHOD_NOT_FOUND, message, None)
    }

    /// An invalid params error (-32602).
    pub fn invalid_params(message: &str) -> (out: Error)
        ensures
            out@ == ErrorView::plain(INVALID_PARAMS, message@),
    {
        Error::new(INVALID_PARAMS, message, None)
    }

    /// An internal error (-32603).
    pub fn internal_error(message: &str) -> (out: Error)
        ensures
            out@ == ErrorView::plain(INTERNAL_ERROR, message@),
    {
        Error::new(INTERNAL_ERROR, message, None)
    }

    /// Whether the code of the error is one that the protocol defines.
    /// Errors that an application declares are passed on with whatever code
    /// they carry; this tells whether that code keeps to the protocol.
    pub fn has_defined_code(&self) -> (out: bool)
        ensures
            out == is_defined_code(self.code),
    {
        self.code == PARSE_ERROR || self.code == INVALID_REQUEST || self.code == METHOD_NOT_FOUND
            || self.code == INVALID_PARAMS || self.code == INTERNAL_ERROR || (-32099 <= self.code
            && self.code <= -32000)
    }

    /// A copy of the error object.
    pub fn duplicate(&self) -> (out: Error)
        ensures
            out@ == self@,
    {
        Error { code: self.code, message: self.message.clone(), data: duplicate_optional(&self.data) }
    }

    /// The error as a reader sees it: the code, then the message.
    pub fn description(&self) -> (out: String)
        ensures
            exists|digits: String| #[trigger] self@.described_with(digits, out@),
    {
        let digits = self.code.to_string();
        let out = "JSON-RPC error ".to_owned().concat(digits.as_str()).concat(": ").concat(
            self.message.as_str(),
        );
        proof {
            assert(self@.described_with(digits, out@));
        }
        out
    }

    /// The JSON form of the error object.
    pub fn to_json(&self) -> (out: Json)
        ensures
            out@ == self@.to_json(),
    {
        let code = if self.code >= 0 {
            Json::Unsigned(self.code as u64)
        } else {
            Json::Signed(self.code as i64)
        };
        let mut members: Vec<(String, Json)> = Vec::new();
        members.push(("code".to_owned(), code));
        members.push(("message".to_owned(), Json::String(self.message.clone())));
        match &self.data {
            Some(d) => {
                members.push(("data".to_owned(), d.duplicate()));
            },
            None => {},
        }
        let out = Json::Object(members);
        proof {
            lemma_object_model(out->Object_0);
            assert(out@->Object_0 =~= self@.to_json()->Object_0);
        }
        out
    }

    /// Reads an error object from a JSON value.
    pub fn from_json(value: &Json) -> (out: Option<Error>)
        ensures
            match out {
                Some(e) => ErrorView::from_json(value@) == Some(e@),
                None => ErrorView::from_json(value@).is_none(),
            },
    {
        let code = match value.get("code") {
            Some(Json::Unsigned(n)) => if *n <= 2147483647u64 {
                *n as i32
            } else {
                return None;
            },
            Some(Json::Signed(n)) => if -2147483648i64 <= *n && *n <= 2147483647i64 {
                *n as i32
            } else {
                return None;
            },
            _ => {
                return None;
            },
        };
        let message = match value.get("message") {
            Some(Json::String(s)) => s.clone(),
            _ => {
                return None;
            },
        };
        let data = match value.get("data") {
            None => None,
            Some(Json::Null) => None,
            Some(d) => Some(d.duplicate()),
        };
        Some(Error { code, message, data })
    }
}

impl Clone for Error {
    fn clone(&self) -> (out: Error)
        ensures
            out@ == self@,
    {
        self.duplicate()
    }
}

/// A call that expects a response.
#[derive(Debug, PartialEq)]
pub struct Request {
    /// The identifier that the response will carry.
    pub id: RequestId,
    /// The name of the method to invoke.
    pub method: String,
    /// The parameters of the call, if any.
    pub params: Option<Json>,
}

/// The model of a [`Request`].
pub struct RequestView {
    pub id: RequestIdView,
    pub method: Seq<char>,
    pub params: Option<JsonValue>,
}

impl View for Request {
    type V = RequestView;

    open spec fn view(&self) -> RequestView {
        RequestView { id: self.id@, method: self.method@, params: optional_view(self.params) }
    }
}

impl RequestView {
    /// The JSON form: the version, `id`, `method` and, where present,
    /// `params`.
    pub open spec fn to_json(self) -> JsonValue {
        JsonValue::Object(
            with_optional(
                seq![
                    version_member(),
                    ("id"@, self.id.to_json()),
                    ("method"@, JsonValue::String(self.method)),
                ],
                "params"@,
                self.params,
            ),
        )
    }

    /// The request that a JSON value holds: version `"2.0"`, an `id` that is
    /// an identifier, a `method` that is a string, and optional `params`.
    pub open spec fn from_json(value: JsonValue) -> Option<RequestView> {
        match (value.member("id"@), text_from_json(value.member("method"@))) {
            (Some(i), Some(method)) => match RequestIdView::from_json(i) {
                Some(id) => if has_version(value) {
                    Some(
                        RequestView {
                            id,
                            method,
                            params: JsonValue::optional(value.member("params"@)),
                        },
                    )
                } else {
                    None
                },
                None => None,
            },
            _ => None,
        }
    }
}

/// Whether `value` carries the protocol version `"2.0"`.
pub fn check_version(value: &Json) -> (out: bool)
    ensures
        out == has_version(value@),
{
    match value.get("jsonrpc") {
        Some(Json::String(v)) => *v == "2.0".to_owned(),
        _ => false,
    }
}

/// Reads an optional member: absent and `null` both give `None`.
pub fn optional_member(value: &Json, name: &str) -> (out: Option<Json>)
    ensures
        optional_view(out) == JsonValue::optional(value@.member(name@)),
{
    match value.get(name) {
        None => None,
        Some(Json::Null) => None,
        Some(d) => Some(d.duplicate()),
    }
}

/// Reads a member that must be a string.
pub fn text_member(value: &Json, name: &str) -> (out: Option<String>)
    ensures
        match out {
            Some(s) => text_from_json(value@.member(name@)) == Some(s@),
            None => text_from_json(value@.member(name@)).is_none(),
        },
{
    match value.get(name) {
        Some(Json::String(s)) => Some(s.clone()),
        _ => None,
    }
}

impl Request {
    /// A request with the given identifier, method and parameters.
    pub fn new(id: RequestId, method: &str, params: Option<Json>) -> (out: Request)
        ensures
            out@ == (RequestView { id: id@, method: method@, params: optional_view(params) }),
    {
        Request { id, method: method.to_owned(), params }
    }

    /// A copy of the request.
    pub fn duplicate(&self) -> (out: Request)
        ensures
            out@ == self@,
    {
        Request {
            id: self.id.duplicate(),
            method: self.method.clone(),
            params: duplicate_optional(&self.params),
        }
    }

    /// The JSON form of the request.
    pub fn to_json(&self) -> (out: Json)
        ensures
            out@ == self@.to_json(),
    {
        let mut members: Vec<(String, Json)> = Vec::new();
        members.push(("jsonrpc".to_owned(), Json::string("2.0")));
        members.push(("id".to_owned(), self.id.to_json()));
        members.push(("method".to_owned(), Json::String(self.method.clone())));
        match &self.params {
            Some(p) => {
                members.push(("params".to_owned(), p.duplicate()));
            },
            None => {},
        }
        let out = Json::Object(members);
        proof {
            lemma_object_model(out->Object_0);
            assert(out@->Object_0 =~= self@.to_json()->Object_0);
        }
        out
    }

    /// Reads a request from a JSON value.
    pub fn from_json(value: &Json) -> (out: Option<Request>)
        ensures
            match out {
                Some(r) => RequestView::from_json(value@) == Some(r@),
                None => RequestView::from_json(value@).is_none(),
            },
    {
        let id = match value.get("id") {
            Some(i) => match RequestId::from_json(i) {
                Some(id) => id,
                None => {
                    return None;
                },
            },
            None => {
                return None;
            },
        };
        let method = match text_member(value, "method") {
            Some(m) => m,
            None => {
                return None;
            },
        };
        if !check_version(value) {
            return None;
        }
        let params = optional_member(value, "params");
        Some(Request { id, method, params })
    }
}

impl Clone for Request {
    fn clone(&self) -> (out: Request)
        ensures
            out@ == self@,
    {
        self.duplicate()
    }
}

/// A call that expects no response.
#[derive(Debug, PartialEq)]
pub struct Notification {
    /// The name of the method to invoke.
    pub method: String,
    /// The parameters of the call, if any.
    pub params: Option<Json>,
}

/// The model of a [`Notification`].
pub struct NotificationView {
    pub method: Seq<char>,
    pub params: Option<JsonValue>,
}

impl View for Notification {
    type V = NotificationView;

    open spec fn view(&self) -> NotificationView {
        NotificationView { method: self.method@, params: optional_view(self.params) }
    }
}

impl NotificationView {
    /// The JSON form: the version, `method` and, where present, `params`.
    pub open spec fn to_json(self) -> JsonValue {
        JsonValue::Object(
            with_optional(
                seq![version_member(), ("method"@, JsonValue::String(self.method))],
                "params"@,
                self.params,
            ),
        )
    }

    /// The notification that a JSON value holds: version `"2.0"`, a `method`
    /// that is a string, and optional `params`.
    pub open spec fn from_json(value: JsonValue) -> Option<NotificationView> {
        match text_from_json(value.member("method"@)) {
            Some(method) => if has_version(value) {
                Some(
                    NotificationView {
                        method,
                        params: JsonValue::optional(value.member("params"@)),
                    },
                )
            } else {
                None
            },
            None => None,
        }
    }
}

impl Notification {
    /// A notification with the given method and parameters.
    pub fn new(method: &str, params: Option<Json>) -> (out: Notification)
        ensures
            out@ == (NotificationView { method: method@, params: optional_view(params) }),
    {
        Notification { method: method.to_owned(), params }
    }

    /// A copy of the notification.
    pub fn duplicate(&self) -> (out: Notification)
        ensures
            out@ == self@,
    {
        Notification { method: self.method.clone(), params: duplicate_optional(&self.params) }
    }

    /// The JSON form of the notification.
    pub fn to_json(&self) -> (out: Json)
        ensures
            out@ == self@.to_json(),
    {
        let mut members: Vec<(String, Json)> = Vec::new();
        members.push(("jsonrpc".to_owned(), Json::string("2.0")));
        members.push(("method".to_owned(), Json::String(self.method.clone())));
        match &self.params {
            Some(p) => {
                members.push(("params".to_owned(), p.duplicate()));
            },
            None => {},
        }
        let out = Json::Object(members);
        proof {
            lemma_object_model(out->Object_0);
            assert(out@->Object_0 =~= self@.to_json()->Object_0);
        }
        out
    }

    /// Reads a notification from a JSON value.
    pub fn from_json(value: &Json) -> (out: Option<Notification>)
        ensures
            match out {
                Some(n) => NotificationView::from_json(value@) == Some(n@),
                None => NotificationView::from_json(value@).is_none(),
            },
    {
        let method = match text_member(value, "method") {
            Some(m) => m,
            None => {
                return None;
            },
        };
        if !check_version(value) {
            return None;
        }
        let params = optional_member(value, "params");
        Some(Notification { method, params })
    }
}

impl Clone for Notification {
    fn clone(&self) -> (out: Notification)
        ensures
            out@ == self@,
    {
        self.duplicate()
    }
}

/// What a response carries: the result of the call or the error that it
/// ended in. A response holds exactly one of the two by construction.
#[derive(Debug, PartialEq)]
pub enum Payload {
    /// The result of a successful call.
    Result(Json),
    /// The error of a failed call.
    Error(Error),
}

/// The model of a [`Payload`].
pub enum PayloadView {
    Result(JsonValue),
    Error(ErrorView),
}

impl View for Payload {
    type V = PayloadView;

    open spec fn view(&self) -> PayloadView {
        match self {
            Payload::Result(v) => PayloadView::Result(v@),
            Payload::Error(e) => PayloadView::Error(e@),
        }
    }
}

/// The reply to a request.
#[derive(Debug, PartialEq)]
pub struct Response {
    /// The identifier of the request that this answers.
    pub id: RequestId,
    /// The result or the error.
    pub payload: Payload,
}

/// The model of a [`Response`].
pub struct ResponseView {
    pub id: RequestIdView,
    pub payload: PayloadView,
}

impl View for Response {
    type V = ResponseView;

    open spec fn view(&self) -> ResponseView {
        ResponseView { id: self.id@, payload: self.payload@ }
    }
}

impl ResponseView {
    /// The successful response to `id`.
    pub open spec fn success(id: RequestIdView, result: JsonValue) -> ResponseView {
        ResponseView { id, payload: PayloadView::Result(result) }
    }

    /// The error response to `id`.
    pub open spec fn error(id: RequestIdView, error: ErrorView) -> ResponseView {
        ResponseView { id, payload: PayloadView::Error(error) }
    }

    /// The member that holds the payload: `result` or `error`.
    pub open spec fn payload_member(self) -> (Seq<char>, JsonValue) {
        match self.payload {
            PayloadView::Result(v) => ("result"@, v),
            PayloadView::Error(e) => ("error"@, e.to_json()),
        }
    }

    /// The JSON form: the version, then `result` or `error`, then `id`.
    pub open spec fn to_json(self) -> JsonValue {
        JsonValue::Object(seq![version_member(), self.payload_member(), ("id"@, self.id.to_json())])
    }

    /// The response that a JSON value holds: version `"2.0"`, an `id` that is
    /// an identifier, and exactly one of `result` and `error`, where `null`
    /// counts as absent.
    pub open spec fn from_json(value: JsonValue) -> Option<ResponseView> {
        match value.member("id"@) {
            Some(i) => match RequestIdView::from_json(i) {
                Some(id) => if has_version(value) {
                    match (
                        JsonValue::optional(value.member("result"@)),
                        JsonValue::optional(value.member("error"@)),
                    ) {
                        (Some(r), None) => Some(ResponseView::success(id, r)),
                        (None, Some(e)) => match ErrorView::from_json(e) {
                            Some(error) => Some(ResponseView::error(id, error)),
                            None => None,
                        },
                        _ => None,
                    }
                } else {
                    None
                },
                None => None,
            },
            None => None,
        }
    }
}

impl Response {
    /// The successful response to `id`.
    pub fn success(id: RequestId, result: Json) -> (out: Response)
        ensures
            out@ == ResponseView::success(id@, result@),
    {
        Response { id, payload: Payload::Result(result) }
    }

    /// The error response to `id`.
    pub fn error(id: RequestId, error: Error) -> (out: Response)
        ensures
            out@ == ResponseView::error(id@, error@),
    {
        Response { id, payload: Payload::Error(error) }
    }

    /// The result, where the call succeeded.
    pub fn result(&self) -> (out: Option<&Json>)
        ensures
            match out {
                Some(v) => self@.payload == PayloadView::Result(v@),
                None => self@.payload is Error,
            },
    {
        match &self.payload {
            Payload::Result(v) => Some(v),
            Payload::Error(_) => None,
        }
    }

    /// The error, where the call failed.
    pub fn error_object(&self) -> (out: Option<&Error>)
        ensures
            match out {
                Some(e) => self@.payload == PayloadView::Error(e@),
                None => self@.payload is Result,
            },
    {
        match &self.payload {
            Payload::Result(_) => None,
            Payload::Error(e) => Some(e),
        }
    }

    /// Checks that the response holds exactly one of result and error. The
    /// type holds no other response, so the check always passes.
    pub fn validate(&self) -> (out: Result<(), String>)
        ensures
            out is Ok,
            self@.payload is Result != self@.payload is Error,
    {
        Ok(())
    }

    /// A copy of the response.
    pub fn duplicate(&self) -> (out: Response)
        ensures
            out@ == self@,
    {
        let payload = match &self.payload {
            Payload::Result(v) => Payload::Result(v.duplicate()),
            Payload::Error(e) => Payload::Error(e.duplicate()),
        };
        Response { id: self.id.duplicate(), payload }
    }

    /// The JSON form of the response.
    pub fn to_json(&self) -> (out: Json)
        ensures
            out@ == self@.to_json(),
    {
        let mut members: Vec<(String, Json)> = Vec::new();
        members.push(("jsonrpc".to_owned(), Json::string("2.0")));
        match &self.payload {
            Payload::Result(v) => {
                members.push(("result".to_owned(), v.duplicate()));
            },
            Payload::Error(e) => {
                members.push(("error".to_owned(), e.to_json()));
            },
        }
        members.push(("id".to_owned(), self.id.to_json()));
        let out = Json::Object(members);
        proof {
            lemma_object_model(out->Object_0);
            assert(out@->Object_0 =~= self@.to_json()->Object_0);
        }
        out
    }

    /// Reads a response from a JSON value.
    pub fn from_json(value: &Json) -> (out: Option<Response>)
        ensures
            match out {
                Some(r) => ResponseView::from_json(value@) == Some(r@),
                None => ResponseView::from_json(value@).is_none(),
            },
    {
        let id = match value.get("id") {
            Some(i) => match RequestId::from_json(i) {
                Some(id) => id,
                None => {
                    return None;
                },
            },
            None => {
                return None;
            },
        };
        if !check_version(value) {
            return None;
        }
        let result = optional_member(value, "result");
        let error = optional_member(value, "error");
        match (result, error) {
            (Some(r), None) => Some(Response::success(id, r)),
            (None, Some(e)) => match Error::from_json(&e) {
                Some(error) => Some(Response::error(id, error)),
                None => None,
            },
            _ => None,
        }
    }
}

impl Clone for Response {
    fn clone(&self) -> (out: Response)
        ensures
            out@ == self@,
    {
        self.duplicate()
    }
}

} // verus!
