//! The text of messages on the wire.
//!
//! The members of a message are written in a fixed order. The values inside
//! them, and the strings and numbers of the message itself, are printed as
//! JSON by the codec.

use vstd::prelude::*;
use vstd::string::StringExecFns;
use crate::codec::printed_json;
use crate::json::{Json, JsonValue};
use crate::types::{
    Error,
    ErrorView,
    Notification,
    NotificationView,
    Payload,
    PayloadView,
    Request,
    RequestView,
    Response,
    ResponseView,
    code_to_json,
    optional_view,
};

verus! {

/// The text of the optional member `name` with its comma before it: empty
/// where the member is absent. `name` is the quoted name and the colon.
pub open spec fn optional_member_text(name: Seq<char>, value: Option<JsonValue>) -> Seq<char> {
    match value {
        Some(v) => ","@ + name + printed_json(v),
        None => Seq::empty(),
    }
}

/// Appends an optional member to the text of an object.
fn push_optional_member(text: String, name: &str, value: &Option<Json>) -> (out: String)
    ensures
        out@ == text@ + optional_member_text(name@, optional_view(*value)),
{
    match value {
        Some(v) => {
            let out = text.concat(",").concat(name).concat(v.to_text().as_str());
            proof {
                assert(out@ =~= text@ + optional_member_text(name@, optional_view(*value)));
            }
            out
        },
        None => {
            proof {
                assert(text@ =~= text@ + Seq::<char>::empty());
            }
            text
        },
    }
}

impl ErrorView {
    /// The text of the error object on the wire: `code`, `message` and,
    /// where present, `data`, in this order.
    pub open spec fn wire_text(self) -> Seq<char> {
        "{\"code\":"@ + printed_json(code_to_json(self.code)) + ",\"message\":"@ + printed_json(
            JsonValue::String(self.message),
        ) + optional_member_text("\"data\":"@, self.data) + "}"@
    }
}

impl Error {
    /// The text of the error object on the wire.
    pub fn to_text(&self) -> (out: String)
        ensures
            out@ == self@.wire_text(),
    {
        let code = if self.code >= 0 {
            Json::Unsigned(self.code as u64)
        } else {
            Json::Signed(self.code as i64)
        };
        let message = Json::String(self.message.clone());
        let head = "{\"code\":".to_owned().concat(code.to_text().as_str()).concat(
            ",\"message\":",
        ).concat(message.to_text().as_str());
        push_optional_member(head, "\"data\":", &self.data).concat("}")
    }
}

impl RequestView {
    /// The text of the request on the wire: the version, `id`, `method`
    /// and, where present, `params`, in this order.
    pub open spec fn wire_text(self) -> Seq<char> {
        "{\"jsonrpc\":\"2.0\",\"id\":"@ + printed_json(self.id.to_json()) + ",\"method\":"@
            + printed_json(JsonValue::String(self.method)) + optional_member_text(
            "\"params\":"@,
            self.params,
        ) + "}"@
    }
}

impl Request {
    /// The text of the request on the wire.
    pub fn to_text(&self) -> (out: String)
        ensures
            out@ == self@.wire_text(),
    {
        let method = Json::String(self.method.clone());
        let head = "{\"jsonrpc\":\"2.0\",\"id\":".to_owned().concat(
            self.id.to_json().to_text().as_str(),
        ).concat(",\"method\":").concat(method.to_text().as_str());
        push_optional_member(head, "\"params\":", &self.params).concat("}")
    }
}

impl NotificationView {
    /// The text of the notification on the wire: the version, `method` and,
    /// where present, `params`, in this order.
    pub open spec fn wire_text(self) -> Seq<char> {
        "{\"jsonrpc\":\"2.0\",\"method\":"@ + printed_json(JsonValue::String(self.method))
            + optional_member_text("\"params\":"@, self.params) + "}"@
    }
}

impl Notification {
    /// The text of the notification on the wire.
    pub fn to_text(&self) -> (out: String)
        ensures
            out@ == self@.wire_text(),
    {
        let method = Json::String(self.method.clone());
        let head = "{\"jsonrpc\":\"2.0\",\"method\":".to_owned().concat(method.to_text().as_str());
        push_optional_member(head, "\"params\":", &self.params).concat("}")
    }
}

impl ResponseView {
    /// The text of the payload on the wire: the member `result` or the
    /// member `error`.
    pub open spec fn payload_text(self) -> Seq<char> {
        match self.payload {
            PayloadView::Result(v) => "\"result\":"@ + printed_json(v),
            PayloadView::Error(e) => "\"error\":"@ + e.wire_text(),
        }
    }

    /// The text of the response on the wire: the version, then `result` or
    /// `error`, then `id`.
    pub open spec fn wire_text(self) -> Seq<char> {
        "{\"jsonrpc\":\"2.0\","@ + self.payload_text() + ",\"id\":"@ + printed_json(
            self.id.to_json(),
        ) + "}"@
    }
}

impl Response {
    /// The text of the response on the wire.
    pub fn to_text(&self) -> (out: String)
        ensures
            out@ == self@.wire_text(),
    {
        let payload = match &self.payload {
            Payload::Result(v) => "\"result\":".to_owned().concat(v.to_text().as_str()),
            Payload::Error(e) => "\"error\":".to_owned().concat(e.to_text().as_str()),
        };
        "{\"jsonrpc\":\"2.0\",".to_owned().concat(payload.as_str()).concat(",\"id\":").concat(
            self.id.to_json().to_text().as_str(),
        ).concat("}")
    }
}

} // verus!
