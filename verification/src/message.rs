//! Classification of JSON values into protocol messages.
//!
//! Whether a value has the member `id` decides first: with an `id`, the
//! member `error` makes it a response and the member `method` a request;
//! without an `id` it is read as a notification. An array is a batch, whose
//! elements are classified one by one.

use vstd::prelude::*;
use crate::error::Error as Failure;
use crate::error::ErrorView as FailureView;
use crate::json::{Json, JsonValue, lemma_array_model};
use crate::types::{
    Error,
    ErrorView,
    INVALID_REQUEST,
    Notification,
    NotificationView,
    Request,
    RequestId,
    RequestIdView,
    RequestView,
    Response,
    ResponseView,
};

verus! {

/// Any JSON-RPC message: a request, a response, a notification or a batch.
#[derive(Debug, PartialEq)]
pub enum Message {
    /// A call that expects a response.
    Request(Request),
    /// The reply to a request.
    Response(Response),
    /// A call that expects no response.
    Notification(Notification),
    /// Several messages that are answered together.
    Batch(Vec<Message>),
}

/// The model of a [`Message`].
pub enum MessageView {
    Request(RequestView),
    Response(ResponseView),
    Notification(NotificationView),
    Batch(Seq<MessageView>),
}

/// The model of `message`.
pub open spec fn message_model(message: Message) -> MessageView
    decreases message,
{
    match message {
        Message::Request(r) => MessageView::Request(r@),
        Message::Response(r) => MessageView::Response(r@),
        Message::Notification(n) => MessageView::Notification(n@),
        Message::Batch(items) => MessageView::Batch(
            Seq::new(
                items.len() as nat,
                |i: int|
                    if 0 <= i < items.len() {
                        message_model(items[i])
                    } else {
                        MessageView::Batch(Seq::empty())
                    },
            ),
        ),
    }
}

impl View for Message {
    type V = MessageView;

    open spec fn view(&self) -> MessageView {
        message_model(*self)
    }
}

/// The models of a sequence of messages.
pub open spec fn models(messages: Seq<Message>) -> Seq<MessageView> {
    Seq::new(messages.len(), |i: int| messages[i]@)
}

/// The model of a batch holds the models of its messages, in order.
pub proof fn lemma_batch_model(items: Vec<Message>)
    ensures
        Message::Batch(items)@ == MessageView::Batch(models(items@)),
{
    reveal_with_fuel(message_model, 2);
    assert(Message::Batch(items)@->Batch_0 =~= models(items@));
}

/// The identifier that can be read from `value`: that of its member `id`,
/// where the member is an identifier. A member of any other type counts as
/// absent.
pub open spec fn extracted_id(value: JsonValue) -> Option<RequestIdView> {
    match value.member("id"@) {
        Some(i) => RequestIdView::from_json(i),
        None => None,
    }
}

/// The response that rejects `value` as an invalid request. It carries the
/// identifier that can be read from `value`, else `null`.
pub open spec fn rejection(value: JsonValue) -> ResponseView {
    ResponseView::error(
        match extracted_id(value) {
            Some(id) => id,
            None => RequestIdView::Null,
        },
        ErrorView::plain(INVALID_REQUEST, "Invalid Request"@),
    )
}

/// The messages that the elements of a batch stand for, in order. An invalid
/// element from which no identifier can be read, but which has a `method`,
/// is left out.
pub open spec fn classify_elements(items: Seq<JsonValue>) -> Seq<MessageView>
    decreases items.len(),
{
    if items.len() == 0 {
        Seq::empty()
    } else {
        let before = classify_elements(items.drop_last());
        match MessageView::classify_element(items.last()) {
            Some(m) => before.push(m),
            None => before,
        }
    }
}

impl MessageView {
    /// The message that a single JSON value stands for, `None` where it is
    /// no valid message.
    pub open spec fn classify_single(value: JsonValue) -> Option<MessageView> {
        if value.member("id"@).is_some() {
            if value.member("error"@).is_some() {
                match ResponseView::from_json(value) {
                    Some(r) => Some(MessageView::Response(r)),
                    None => None,
                }
            } else if value.member("method"@).is_some() {
                match RequestView::from_json(value) {
                    Some(r) => Some(MessageView::Request(r)),
                    None => None,
                }
            } else {
                None
            }
        } else {
            match NotificationView::from_json(value) {
                Some(n) => Some(MessageView::Notification(n)),
                None => None,
            }
        }
    }

    /// The message that stands for one element of a batch. A valid element
    /// stands for itself. An invalid one from which no identifier can be
    /// read, but which has a `method`, is a broken notification and stands
    /// for nothing. Every other invalid element stands for the response that
    /// rejects it.
    pub open spec fn classify_element(value: JsonValue) -> Option<MessageView> {
        match MessageView::classify_single(value) {
            Some(m) => Some(m),
            None => if extracted_id(value).is_none() && value.member("method"@).is_some() {
                None
            } else {
                Some(MessageView::Response(rejection(value)))
            },
        }
    }

    /// The message that a JSON value stands for, `None` where it is an
    /// invalid request. An empty array is invalid; any other array is a
    /// batch.
    pub open spec fn classify(value: JsonValue) -> Option<MessageView> {
        match value {
            JsonValue::Array(items) => if items.len() == 0 {
                None
            } else {
                Some(MessageView::Batch(classify_elements(items)))
            },
            _ => MessageView::classify_single(value),
        }
    }

    /// The JSON form of the message; a batch is the array of the forms of
    /// its messages.
    pub open spec fn to_json(self) -> JsonValue
        decreases self,
    {
        match self {
            MessageView::Request(r) => r.to_json(),
            MessageView::Response(r) => r.to_json(),
            MessageView::Notification(n) => n.to_json(),
            MessageView::Batch(items) => JsonValue::Array(
                Seq::new(
                    items.len(),
                    |i: int|
                        if 0 <= i < items.len() {
                            items[i].to_json()
                        } else {
                            JsonValue::Null
                        },
                ),
            ),
        }
    }

    /// The identifier of a request or a response.
    pub open spec fn id(self) -> Option<RequestIdView> {
        match self {
            MessageView::Request(r) => Some(r.id),
            MessageView::Response(r) => Some(r.id),
            _ => None,
        }
    }
}

/// Reads the identifier of `value`, where it has one.
pub fn extract_id(value: &Json) -> (out: Option<RequestId>)
    ensures
        match out {
            Some(id) => extracted_id(value@) == Some(id@),
            None => extracted_id(value@).is_none(),
        },
{
    match value.get("id") {
        Some(i) => RequestId::from_json(i),
        None => None,
    }
}

/// Builds the response that rejects `value` as an invalid request.
pub fn reject(value: &Json) -> (out: Response)
    ensures
        out@ == rejection(value@),
{
    let id = match extract_id(value) {
        Some(id) => id,
        None => RequestId::Null,
    };
    Response::error(id, Error::invalid_request("Invalid Request"))
}

impl Message {
    /// Classifies a JSON value.
    ///
    /// Returns the message that the value stands for, or the failure
    /// `InvalidRequest` where it stands for none.
    pub fn from_json(value: Json) -> (out: Result<Message, Failure>)
        ensures
            match MessageView::classify(value@) {
                Some(m) => out matches Ok(message) && message@ == m,
                None => out matches Err(e) && e@ == FailureView::InvalidRequest(
                    "Invalid Request"@,
                ),
            },
    {
        match &value {
            Json::Array(items) => {
                proof {
                    lemma_array_model(*items);
                }
                if items.len() == 0 {
                    return Err(Failure::invalid_request("Invalid Request"));
                }
                let ghost elements = value@->Array_0;
                let mut messages: Vec<Message> = Vec::new();
                let mut i: usize = 0;
                proof {
                    assert(elements.take(0) =~= Seq::empty());
                    assert(models(messages@) =~= Seq::empty());
                }
                while i < items.len()
                    invariant
                        i <= items.len(),
                        elements.len() == items.len(),
                        forall|k: int| 0 <= k < items.len() ==> elements[k] == items[k]@,
                        models(messages@) == classify_elements(elements.take(i as int)),
                    decreases items.len() - i,
                {
                    let ghost before = messages@;
                    proof {
                        assert(elements.take(i as int + 1).drop_last() =~= elements.take(i as int));
                    }
                    match Message::classify_element(&items[i]) {
                        Some(m) => {
                            messages.push(m);
                            proof {
                                assert(models(messages@) =~= models(before).push(m@));
                            }
                        },
                        None => {},
                    }
                    i += 1;
                }
                proof {
                    assert(elements.take(i as int) =~= elements);
                    lemma_batch_model(messages);
                }
                Ok(Message::Batch(messages))
            },
            _ => match Message::from_json_internal(&value) {
                Ok(m) => Ok(m),
                Err(e) => Err(e),
            },
        }
    }

    /// Classifies a JSON value as a single message, never as a batch.
    pub fn from_json_internal(value: &Json) -> (out: Result<Message, Failure>)
        ensures
            match MessageView::classify_single(value@) {
                Some(m) => out matches Ok(message) && message@ == m,
                None => out matches Err(e) && e@ == FailureView::InvalidRequest(
                    "Invalid Request"@,
                ),
            },
    {
        let found = if value.get("id").is_some() {
            if value.get("error").is_some() {
                match Response::from_json(value) {
                    Some(r) => Some(Message::Response(r)),
                    None => None,
                }
            } else if value.get("method").is_some() {
                match Request::from_json(value) {
                    Some(r) => Some(Message::Request(r)),
                    None => None,
                }
            } else {
                None
            }
        } else {
            match Notification::from_json(value) {
                Some(n) => Some(Message::Notification(n)),
                None => None,
            }
        };
        match found {
            Some(m) => Ok(m),
            None => Err(Failure::invalid_request("Invalid Request")),
        }
    }

    /// Classifies one element of a batch.
    pub fn classify_element(value: &Json) -> (out: Option<Message>)
        ensures
            match MessageView::classify_element(value@) {
                Some(m) => out matches Some(message) && message@ == m,
                None => out is None,
            },
    {
        match Message::from_json_internal(value) {
            Ok(m) => Some(m),
            Err(_) => if extract_id(value).is_none() && value.get("method").is_some() {
                None
            } else {
                Some(Message::Response(reject(value)))
            },
        }
    }

    /// A deep copy.
    pub fn duplicate(&self) -> (out: Message)
        ensures
            out@ == self@,
        decreases self,
    {
        match self {
            Message::Request(r) => Message::Request(r.duplicate()),
            Message::Response(r) => Message::Response(r.duplicate()),
            Message::Notification(n) => Message::Notification(n.duplicate()),
            Message::Batch(items) => {
                let mut copy: Vec<Message> = Vec::new();
                let mut i: usize = 0;
                while i < items.len()
                    invariant
                        *self == Message::Batch(*items),
                        i <= items.len(),
                        copy.len() == i,
                        forall|k: int| 0 <= k < i ==> copy[k]@ == items[k]@,
                    decreases items.len() - i,
                {
                    proof {
                        vstd::std_specs::vec::axiom_vec_index_decreases(*items, i as int);
                        assert(decreases_to!(*self => self->Batch_0));
                    }
                    let item = items[i].duplicate();
                    copy.push(item);
                    i += 1;
                }
                let out = Message::Batch(copy);
                proof {
                    lemma_batch_model(*items);
                    lemma_batch_model(out->Batch_0);
                    assert(models(out->Batch_0@) =~= models(items@));
                }
                out
            },
        }
    }

    /// The JSON form of the message.
    pub fn to_json(&self) -> (out: Json)
        ensures
            out@ == self@.to_json(),
        decreases self,
    {
        match self {
            Message::Request(r) => r.to_json(),
            Message::Response(r) => r.to_json(),
            Message::Notification(n) => n.to_json(),
            Message::Batch(items) => {
                let mut forms: Vec<Json> = Vec::new();
                let mut i: usize = 0;
                while i < items.len()
                    invariant
                        *self == Message::Batch(*items),
                        i <= items.len(),
                        forms.len() == i,
                        forall|k: int| 0 <= k < i ==> forms[k]@ == items[k]@.to_json(),
                    decreases items.len() - i,
                {
                    proof {
                        vstd::std_specs::vec::axiom_vec_index_decreases(*items, i as int);
                        assert(decreases_to!(*self => self->Batch_0));
                    }
                    let form = items[i].to_json();
                    forms.push(form);
                    i += 1;
                }
                let out = Json::Array(forms);
                proof {
                    lemma_batch_model(*items);
                    lemma_array_model(out->Array_0);
                    reveal_with_fuel(MessageView::to_json, 2);
                    assert(out@->Array_0 =~= self@.to_json()->Array_0);
                }
                out
            },
        }
    }

    /// The identifier, if this is a request or a response.
    pub fn id(&self) -> (out: Option<&RequestId>)
        ensures
            match out {
                Some(id) => self@.id() == Some(id@),
                None => self@.id().is_none(),
            },
    {
        match self {
            Message::Request(r) => Some(&r.id),
            Message::Response(r) => Some(&r.id),
            Message::Notification(_) => None,
            Message::Batch(_) => None,
        }
    }

    /// Whether this message is a request.
    pub fn is_request(&self) -> (out: bool)
        ensures
            out == (self@ is Request),
    {
        matches!(self, Message::Request(_))
    }

    /// Whether this message is a response.
    pub fn is_response(&self) -> (out: bool)
        ensures
            out == (self@ is Response),
    {
        matches!(self, Message::Response(_))
    }

    /// Whether this message is a notification.
    pub fn is_notification(&self) -> (out: bool)
        ensures
            out == (self@ is Notification),
    {
        matches!(self, Message::Notification(_))
    }

    /// Whether this message is a batch.
    pub fn is_batch(&self) -> (out: bool)
        ensures
            out == (self@ is Batch),
    {
        matches!(self, Message::Batch(_))
    }
}

impl Clone for Message {
    fn clone(&self) -> (out: Message)
        ensures
            out@ == self@,
    {
        self.duplicate()
    }
}

/// Makes the member names of the wire format known as sequences of
/// characters.
pub proof fn lemma_member_names()
    ensures
        "jsonrpc"@.len() == 7,
        "id"@.len() == 2,
        "method"@.len() == 6,
        "params"@.len() == 6,
        "result"@.len() == 6,
        "error"@.len() == 5,
        "code"@.len() == 4,
        "message"@.len() == 7,
        "data"@.len() == 4,
        "method"@[0] == 'm',
        "params"@[0] == 'p',
        "result"@[0] == 'r',
        "code"@[0] == 'c',
        "data"@[0] == 'd',
        "jsonrpc"@[0] == 'j',
        "message"@[0] == 'm',
{
    reveal_strlit("jsonrpc");
    reveal_strlit("id");
    reveal_strlit("method");
    reveal_strlit("params");
    reveal_strlit("result");
    reveal_strlit("error");
    reveal_strlit("code");
    reveal_strlit("message");
    reveal_strlit("data");
}

impl MessageView {
    /// Whether the message is one that its JSON form tells completely: a
    /// request or a notification whose parameters, where present, are not
    /// `null`, or an error response whose data, where present, is not `null`.
    ///
    /// A `null` under an optional member reads back as absent, and a
    /// response with a result has no member `error`, by which alone a
    /// response is recognised.
    pub open spec fn is_field_complete(self) -> bool {
        match self {
            MessageView::Request(r) => r.params != Some(JsonValue::Null),
            MessageView::Notification(n) => n.params != Some(JsonValue::Null),
            MessageView::Response(r) => r.payload matches crate::types::PayloadView::Error(e)
                && e.data != Some(JsonValue::Null),
            MessageView::Batch(_) => false,
        }
    }
}

/// An error object that is read from its own JSON form is the same error
/// object, unless its data is `null`.
pub proof fn lemma_error_round_trip(e: ErrorView)
    requires
        e.data != Some(JsonValue::Null),
    ensures
        ErrorView::from_json(e.to_json()) == Some(e),
{
    lemma_member_names();
    reveal_with_fuel(crate::json::find_member, 4);
    let members = e.to_json()->Object_0;
    assert(members[0] == ("code"@, crate::types::code_to_json(e.code)));
    assert(members[1] == ("message"@, JsonValue::String(e.message)));
    lemma_prefixes(members);
}

/// The prefixes of a short sequence, as the lookup of a member walks them.
proof fn lemma_prefixes(members: Seq<(Seq<char>, JsonValue)>)
    requires
        members.len() <= 4,
    ensures
        members.len() >= 1 ==> members.drop_last() =~= members.take(members.len() - 1),
        members.len() >= 2 ==> members.drop_last().drop_last() =~= members.take(members.len() - 2)
            && members.drop_last().last() == members[members.len() - 2],
        members.len() >= 3 ==> members.drop_last().drop_last().drop_last() =~= members.take(
            members.len() - 3,
        ) && members.drop_last().drop_last().last() == members[members.len() - 3],
        members.len() >= 4 ==> members.drop_last().drop_last().drop_last().drop_last()
            =~= members.take(members.len() - 4) && members.drop_last().drop_last().drop_last().last()
            == members[members.len() - 4],
{
}

/// Round trip: a field-complete message that is classified from its own
/// JSON form is the same message, and so has the same JSON form again.
pub proof fn law_round_trip(m: MessageView)
    requires
        m.is_field_complete(),
    ensures
        MessageView::classify(m.to_json()) == Some(m),
        MessageView::classify(m.to_json())->0.to_json() == m.to_json(),
{
    lemma_member_names();
    reveal_with_fuel(crate::json::find_member, 5);
    let members = m.to_json()->Object_0;
    lemma_prefixes(members);
    match m {
        MessageView::Response(r) => {
            lemma_error_round_trip(r.payload->Error_0);
        },
        _ => {},
    }
}

/// The JSON form of a response has exactly one of the members `result` and
/// `error`, and it holds the payload of the response.
pub proof fn law_one_payload(r: ResponseView)
    ensures
        r.to_json().member("result"@).is_some() != r.to_json().member("error"@).is_some(),
        r.payload matches crate::types::PayloadView::Result(v) ==> r.to_json().member("result"@)
            == Some(v),
        r.payload matches crate::types::PayloadView::Error(e) ==> r.to_json().member("error"@)
            == Some(e.to_json()),
{
    lemma_member_names();
    reveal_with_fuel(crate::json::find_member, 4);
    lemma_prefixes(r.to_json()->Object_0);
}

/// The messages that the elements of a batch stand for are requests,
/// notifications and responses: a batch holds no batch.
pub proof fn lemma_elements_are_single(items: Seq<JsonValue>)
    ensures
        forall|i: int|
            0 <= i < classify_elements(items).len() ==> !((#[trigger] classify_elements(
                items,
            )[i]) is Batch),
    decreases items.len(),
{
    if items.len() > 0 {
        lemma_elements_are_single(items.drop_last());
    }
}

/// Whether `name` is one of the members of a request.
pub open spec fn is_request_member(name: Seq<char>) -> bool {
    name == "jsonrpc"@ || name == "id"@ || name == "method"@ || name == "params"@
}

/// Whether `name` is one of the members of a notification.
pub open spec fn is_notification_member(name: Seq<char>) -> bool {
    name == "jsonrpc"@ || name == "method"@ || name == "params"@
}

/// Whether `name` is one of the members of an error response.
pub open spec fn is_response_member(name: Seq<char>) -> bool {
    name == "jsonrpc"@ || name == "error"@ || name == "id"@
}

/// Whether `name` is one of the members of an error object.
pub open spec fn is_error_member(name: Seq<char>) -> bool {
    name == "code"@ || name == "message"@ || name == "data"@
}

/// Whether `value` is the field-complete JSON form of a request, of a
/// notification or of an error response, its members in any order: it
/// stands for such a message, it has no member but those of the message,
/// and none of its optional members is `null`.
pub open spec fn is_field_complete_form(value: JsonValue) -> bool {
    match MessageView::classify_single(value) {
        Some(MessageView::Request(_)) => {
            &&& value.member("params"@) != Some(JsonValue::Null)
            &&& forall|name: Seq<char>|
                (#[trigger] value.member(name)).is_some() ==> is_request_member(name)
        },
        Some(MessageView::Notification(_)) => {
            &&& value.member("params"@) != Some(JsonValue::Null)
            &&& forall|name: Seq<char>|
                (#[trigger] value.member(name)).is_some() ==> is_notification_member(name)
        },
        Some(MessageView::Response(r)) => {
            &&& r.payload is Error
            &&& forall|name: Seq<char>|
                (#[trigger] value.member(name)).is_some() ==> is_response_member(name)
            &&& value.member("error"@)->0.member("data"@) != Some(JsonValue::Null)
            &&& forall|name: Seq<char>|
                (#[trigger] value.member("error"@)->0.member(name)).is_some() ==> is_error_member(
                    name,
                )
        },
        _ => false,
    }
}

/// An error object that was read from a JSON value with no other members
/// has a JSON form like that value.
proof fn lemma_error_form(value: JsonValue)
    requires
        ErrorView::from_json(value).is_some(),
        value.member("data"@) != Some(JsonValue::Null),
        forall|name: Seq<char>| (#[trigger] value.member(name)).is_some() ==> is_error_member(name),
    ensures
        ErrorView::from_json(value)->0.to_json().alike_within(value, 1),
{
    lemma_member_names();
    reveal_with_fuel(crate::json::find_member, 4);
    reveal_with_fuel(JsonValue::alike_within, 2);
    let e = ErrorView::from_json(value)->0;
    let form = e.to_json();
    lemma_prefixes(form->Object_0);
    assert(value is Object);
    assert forall|name: Seq<char>| match (#[trigger] form.member(name), value.member(name)) {
        (None, None) => true,
        (Some(a), Some(b)) => a.alike_within(b, 0),
        _ => false,
    } by {
        if name == "code"@ {
        } else if name == "message"@ {
        } else if name == "data"@ {
        } else {
            assert(!is_error_member(name));
        }
    }
}

/// Round trip, whatever the order of the members: a field-complete JSON
/// form of a request, a notification or an error response is classified as
/// a message whose own JSON form is like the value it was read from. No
/// member is added, lost or changed.
pub proof fn law_round_trip_any_order(value: JsonValue)
    requires
        is_field_complete_form(value),
    ensures
        MessageView::classify(value) == MessageView::classify_single(value),
        MessageView::classify_single(value)->0.is_field_complete(),
        MessageView::classify_single(value)->0.to_json().alike_within(value, 2),
{
    lemma_member_names();
    reveal_with_fuel(crate::json::find_member, 5);
    reveal_with_fuel(JsonValue::alike_within, 3);
    let m = MessageView::classify_single(value)->0;
    let form = m.to_json();
    lemma_prefixes(form->Object_0);
    assert(value is Object);
    match m {
        MessageView::Request(r) => {
            assert forall|name: Seq<char>| match (#[trigger] form.member(name), value.member(name)) {
                (None, None) => true,
                (Some(a), Some(b)) => a.alike_within(b, 1),
                _ => false,
            } by {
                if name == "jsonrpc"@ {
                } else if name == "id"@ {
                } else if name == "method"@ {
                } else if name == "params"@ {
                } else {
                    assert(!is_request_member(name));
                }
            }
        },
        MessageView::Notification(n) => {
            assert forall|name: Seq<char>| match (#[trigger] form.member(name), value.member(name)) {
                (None, None) => true,
                (Some(a), Some(b)) => a.alike_within(b, 1),
                _ => false,
            } by {
                if name == "jsonrpc"@ {
                } else if name == "method"@ {
                } else if name == "params"@ {
                } else {
                    assert(!is_notification_member(name));
                }
            }
        },
        MessageView::Response(r) => {
            lemma_error_form(value.member("error"@)->0);
            assert forall|name: Seq<char>| match (#[trigger] form.member(name), value.member(name)) {
                (None, None) => true,
                (Some(a), Some(b)) => a.alike_within(b, 1),
                _ => false,
            } by {
                if name == "jsonrpc"@ {
                } else if name == "error"@ {
                } else if name == "id"@ {
                } else {
                    assert(!is_response_member(name));
                }
            }
        },
        MessageView::Batch(_) => {},
    }
}

} // verus!
