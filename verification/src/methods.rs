//! The method registry and the engine that answers messages with it.

use vstd::prelude::*;
use vstd::string::StringExecFns;
use crate::codec::{parse_json, parsed_json};
use crate::error::Error as Failure;
use crate::error::ErrorView as FailureView;
use crate::json::{Json, JsonValue};
use crate::message::{Message, MessageView, reject, rejection, lemma_batch_model, models};
use crate::types::{
    Error,
    ErrorView,
    INTERNAL_ERROR,
    INVALID_REQUEST,
    METHOD_NOT_FOUND,
    Notification,
    PARSE_ERROR,
    Request,
    RequestId,
    RequestIdView,
    RequestView,
    Response,
    ResponseView,
    optional_view,
};

verus! {

/// A method: it takes the untyped parameters of a call and returns the
/// untyped result or a failure.
pub trait HandlerFn {
    /// Whether the method may return `outcome` when it is run on `params`.
    /// An implementation says here what it does; the engine's contracts
    /// speak of the outcome of a call through this relation. One that says
    /// nothing leaves every outcome open.
    open spec fn may_return(
        &self,
        params: JsonValue,
        outcome: Result<JsonValue, FailureView>,
    ) -> bool {
        true
    }

    /// Runs the method on `params`.
    fn call(&self, params: Json) -> (out: Result<Json, Failure>)
        ensures
            self.may_return(params@, outcome_view(out)),
    ;
}

/// The parameters that a handler is handed: those of the call, and `null`
/// where the call has none.
pub open spec fn handed(params: Option<JsonValue>) -> JsonValue {
    match params {
        Some(v) => v,
        None => JsonValue::Null,
    }
}

/// Makes the parameters that a handler is handed.
pub fn handed_params(params: &Option<Json>) -> (out: Json)
    ensures
        out@ == handed(optional_view(*params)),
{
    match params {
        Some(p) => p.duplicate(),
        None => Json::Null,
    }
}

/// The handler that was registered last under `name`.
pub open spec fn lookup<H>(entries: Seq<(Seq<char>, H)>, name: Seq<char>) -> Option<H>
    decreases entries.len(),
{
    if entries.len() == 0 {
        None
    } else if entries.last().0 == name {
        Some(entries.last().1)
    } else {
        lookup(entries.drop_last(), name)
    }
}

/// The model of what a handler returned.
pub open spec fn outcome_view(outcome: Result<Json, Failure>) -> Result<JsonValue, FailureView> {
    match outcome {
        Ok(v) => Ok(v@),
        Err(e) => Err(e@),
    }
}

/// The response to the request `id` whose handler returned `outcome`: the
/// result on success; the code and message of an application-declared error
/// as they are; for any other failure an internal error with the failure's
/// description.
pub open spec fn reply(id: RequestIdView, outcome: Result<JsonValue, FailureView>) -> ResponseView {
    match outcome {
        Ok(v) => ResponseView::success(id, v),
        Err(FailureView::RpcError { code, message }) => ResponseView::error(
            id,
            ErrorView::plain(code, message),
        ),
        Err(e) => ResponseView::error(id, ErrorView::plain(INTERNAL_ERROR, e.text())),
    }
}

/// The response to a request for a method that is not registered.
pub open spec fn unknown_method(request: RequestView) -> ResponseView {
    ResponseView::error(
        request.id,
        ErrorView::plain(METHOD_NOT_FOUND, "Unknown method: "@ + request.method),
    )
}

/// The response to text that is no JSON.
pub open spec fn parse_failure() -> ResponseView {
    ResponseView::error(RequestIdView::Null, ErrorView::plain(PARSE_ERROR, "Parse error"@))
}

/// The response that stands for a batch inside a batch.
pub open spec fn nested_batch() -> ResponseView {
    ResponseView::error(
        RequestIdView::Null,
        ErrorView::plain(INVALID_REQUEST, "Invalid Request"@),
    )
}

/// The texts of `responses`, each followed by a comma but for the last.
pub open spec fn joined(responses: Seq<ResponseView>) -> Seq<char>
    decreases responses.len(),
{
    if responses.len() == 0 {
        Seq::empty()
    } else if responses.len() == 1 {
        responses[0].wire_text()
    } else {
        joined(responses.drop_last()) + ","@ + responses.last().wire_text()
    }
}

/// The text of a batch of responses on the wire: a JSON array of their
/// texts, in order.
pub open spec fn batch_wire_text(responses: Seq<ResponseView>) -> Seq<char> {
    "["@ + joined(responses) + "]"@
}

/// The text that is emitted for the responses of a batch: nothing where
/// there is none, else their JSON array.
pub open spec fn batch_output(responses: Seq<ResponseView>) -> Option<Seq<char>> {
    if responses.len() == 0 {
        None
    } else {
        Some(batch_wire_text(responses))
    }
}

/// The models of a sequence of responses.
pub open spec fn response_models(responses: Seq<Response>) -> Seq<ResponseView> {
    Seq::new(responses.len(), |i: int| responses[i]@)
}

/// Builds the response to a request for a method that is not registered.
pub fn not_found(request: &Request) -> (out: Response)
    ensures
        out@ == unknown_method(request@),
{
    let message = "Unknown method: ".to_owned().concat(request.method.as_str());
    Response::error(request.id.duplicate(), Error::method_not_found(message.as_str()))
}

/// Builds the response to the request `id` from what its handler returned.
pub fn respond(id: RequestId, outcome: Result<Json, Failure>) -> (out: Response)
    ensures
        out@ == reply(id@, outcome_view(outcome)),
{
    match outcome {
        Ok(v) => Response::success(id, v),
        Err(Failure::RpcError { code, message }) => Response::error(
            id,
            Error::new(code, message.as_str(), None),
        ),
        Err(e) => {
            let text = e.description();
            Response::error(id, Error::new(INTERNAL_ERROR, text.as_str(), None))
        },
    }
}

/// The text of one response.
pub fn response_text(response: &Response) -> (out: String)
    ensures
        out@ == response@.wire_text(),
{
    response.to_text()
}

/// The text of a batch of responses: one JSON array, in the given order.
pub fn batch_text(responses: &Vec<Response>) -> (out: String)
    ensures
        out@ == batch_wire_text(response_models(responses@)),
{
    let mut text = String::new();
    let mut i: usize = 0;
    proof {
        assert(response_models(responses@).take(0) =~= Seq::empty());
    }
    while i < responses.len()
        invariant
            i <= responses.len(),
            text@ == joined(response_models(responses@).take(i as int)),
        decreases responses.len() - i,
    {
        let ghost before = response_models(responses@).take(i as int);
        let ghost next = response_models(responses@).take(i as int + 1);
        proof {
            assert(next.drop_last() =~= before);
            assert(next.last() == responses[i as int]@);
        }
        if i > 0 {
            text = text.concat(",");
        }
        text = text.concat(responses[i].to_text().as_str());
        proof {
            if i == 0 {
                assert(next[0] == responses[0]@);
                assert(text@ =~= next[0].wire_text());
            }
        }
        i += 1;
    }
    proof {
        assert(response_models(responses@).take(i as int) =~= response_models(responses@));
    }
    "[".to_owned().concat(text.as_str()).concat("]")
}

/// The message that the text `input` stands for, or else the text of the
/// response that refuses it: the parse error for text that is no JSON, the
/// rejection for JSON that is no message.
pub open spec fn received(input: Seq<char>) -> Result<MessageView, Seq<char>> {
    match parsed_json(input) {
        None => Err(parse_failure().wire_text()),
        Some(value) => match MessageView::classify(value) {
            None => Err(rejection(value).wire_text()),
            Some(message) => Ok(message),
        },
    }
}

/// Parses and classifies one inbound text.
pub fn receive(json_str: &str) -> (out: Result<Message, String>)
    ensures
        match received(json_str@) {
            Ok(m) => out matches Ok(message) && message@ == m,
            Err(t) => out matches Err(text) && text@ == t,
        },
{
    let value = match parse_json(json_str) {
        Some(v) => v,
        None => {
            let response = Response::error(RequestId::Null, Error::parse_error("Parse error"));
            return Err(response_text(&response));
        },
    };
    let rejected = reject(&value);
    match Message::from_json(value) {
        Ok(message) => Ok(message),
        Err(_) => Err(response_text(&rejected)),
    }
}

/// A registry of methods by name.
pub struct Methods<H> {
    entries: Vec<(String, H)>,
}

impl<H: HandlerFn> Methods<H> {
    /// The registrations in the order in which they were made.
    pub closed spec fn entries(&self) -> Seq<(Seq<char>, H)> {
        Seq::new(self.entries.len() as nat, |i: int| (self.entries[i].0@, self.entries[i].1))
    }

    /// The handler of the method `name`, if one is registered.
    pub open spec fn handler_for(&self, name: Seq<char>) -> Option<H> {
        lookup(self.entries(), name)
    }

    /// Whether a method `name` is registered.
    pub open spec fn registered(&self, name: Seq<char>) -> bool {
        self.handler_for(name).is_some()
    }

    /// Whether `response` is what [`reply`] makes of an outcome that
    /// `handler` may return when it is handed the parameters of `request`.
    pub open spec fn replies_through(
        handler: H,
        request: RequestView,
        response: ResponseView,
    ) -> bool {
        exists|outcome: Result<JsonValue, FailureView>|
            handler.may_return(handed(request.params), outcome) && response == #[trigger] reply(
                request.id,
                outcome,
            )
    }

    /// Whether `response` answers `request`: it carries the identifier of
    /// the request; for an unknown method it is the method-not-found error;
    /// for a known one it is what [`reply`] makes of an outcome of the
    /// handler of the method on the parameters of the request.
    pub open spec fn answers(&self, request: RequestView, response: ResponseView) -> bool {
        &&& response.id == request.id
        &&& match self.handler_for(request.method) {
            Some(handler) => Self::replies_through(handler, request, response),
            None => response == unknown_method(request),
        }
    }

    /// Whether `responses` answers the batch `messages`: each request is
    /// answered, each response stands for itself, notifications contribute
    /// nothing, and the order is that of the batch.
    pub open spec fn answers_batch(
        &self,
        messages: Seq<MessageView>,
        responses: Seq<ResponseView>,
    ) -> bool
        decreases messages.len(),
    {
        if messages.len() == 0 {
            responses.len() == 0
        } else {
            match messages.last() {
                MessageView::Notification(_) => self.answers_batch(messages.drop_last(), responses),
                MessageView::Request(q) => responses.len() > 0 && self.answers(q, responses.last())
                    && self.answers_batch(messages.drop_last(), responses.drop_last()),
                MessageView::Response(p) => responses.len() > 0 && responses.last() == p
                    && self.answers_batch(messages.drop_last(), responses.drop_last()),
                MessageView::Batch(_) => responses.len() > 0 && responses.last() == nested_batch()
                    && self.answers_batch(messages.drop_last(), responses.drop_last()),
            }
        }
    }

    /// Whether `output` is the text of `response` and `response` answers
    /// `request`.
    pub open spec fn emits_reply(
        &self,
        request: RequestView,
        response: ResponseView,
        output: Option<Seq<char>>,
    ) -> bool {
        self.answers(request, response) && output == Some(response.wire_text())
    }

    /// Whether `responses` answers the batch `messages` and `output` is
    /// their text: nothing where there is no response, else one array.
    pub open spec fn emits_batch(
        &self,
        messages: Seq<MessageView>,
        responses: Seq<ResponseView>,
        output: Option<Seq<char>>,
    ) -> bool {
        self.answers_batch(messages, responses) && output == batch_output(responses)
    }

    /// Whether `output` is the text of a response that answers `request`.
    pub open spec fn emits_answer(&self, request: RequestView, output: Option<Seq<char>>) -> bool {
        exists|r: ResponseView| #[trigger] self.emits_reply(request, r, output)
    }

    /// Whether `output` is the text of responses that answer the batch
    /// `messages`.
    pub open spec fn emits_answers(
        &self,
        messages: Seq<MessageView>,
        output: Option<Seq<char>>,
    ) -> bool {
        exists|rs: Seq<ResponseView>| #[trigger] self.emits_batch(messages, rs, output)
    }

    /// Whether `output` is what the engine emits for `message`: the answer
    /// to a request, nothing for a notification or a response, and for a
    /// batch the answers to it.
    pub open spec fn emits(&self, message: MessageView, output: Option<Seq<char>>) -> bool {
        match message {
            MessageView::Request(q) => self.emits_answer(q, output),
            MessageView::Notification(_) => output.is_none(),
            MessageView::Response(_) => output.is_none(),
            MessageView::Batch(messages) => self.emits_answers(messages, output),
        }
    }

    /// Whether `output` is what the engine emits for the text `input`: the
    /// refusal of text that stands for no message, and else what it emits
    /// for the message.
    pub open spec fn emits_for(&self, input: Seq<char>, output: Option<Seq<char>>) -> bool {
        match received(input) {
            Err(refusal) => output == Some(refusal),
            Ok(message) => self.emits(message, output),
        }
    }

    /// An empty registry.
    pub fn new() -> (out: Self)
        ensures
            out.entries() == Seq::<(Seq<char>, H)>::empty(),
            forall|name: Seq<char>| !out.registered(name),
    {
        let out = Methods { entries: Vec::new() };
        proof {
            assert(out.entries() =~= Seq::<(Seq<char>, H)>::empty());
        }
        out
    }

    /// Registers `handler` under the name `method`. A later registration
    /// under the same name takes the place of an earlier one.
    pub fn add(self, method: &str, handler: H) -> (out: Self)
        ensures
            out.entries() == self.entries().push((method@, handler)),
            out.handler_for(method@) == Some(handler),
            forall|name: Seq<char>| name != method@ ==> out.handler_for(name) == self.handler_for(name),
    {
        let mut entries = self.entries;
        entries.push((method.to_owned(), handler));
        let out = Methods { entries };
        proof {
            assert(out.entries() =~= self.entries().push((method@, handler)));
            assert(out.entries().drop_last() =~= self.entries());
        }
        out
    }

    /// The handler of the method `method`, if one is registered.
    pub fn get_handler(&self, method: &str) -> (out: Option<&H>)
        ensures
            match out {
                Some(h) => self.handler_for(method@) == Some(*h),
                None => !self.registered(method@),
            },
    {
        let wanted = method.to_owned();
        let mut i: usize = self.entries.len();
        proof {
            assert(self.entries().take(i as int) =~= self.entries());
        }
        while i > 0
            invariant
                i <= self.entries.len(),
                wanted@ == method@,
                lookup(self.entries(), method@) == lookup(self.entries().take(i as int), method@),
            decreases i,
        {
            proof {
                assert(self.entries().take(i as int).drop_last() =~= self.entries().take(
                    i as int - 1,
                ));
            }
            i -= 1;
            if self.entries[i].0 == wanted {
                return Some(&self.entries[i].1);
            }
        }
        None
    }

    /// Answers one request: looks up the handler, runs it and builds the
    /// response from what it returns.
    pub fn dispatch(&self, request: &Request) -> (out: Response)
        ensures
            self.answers(request@, out@),
            out@.id == request@.id,
    {
        let id = request.id.duplicate();
        match self.get_handler(request.method.as_str()) {
            Some(handler) => {
                let outcome = handler.call(handed_params(&request.params));
                let out = respond(id, outcome);
                proof {
                    assert(out@ == reply(request@.id, outcome_view(outcome)));
                }
                out
            },
            None => not_found(request),
        }
    }

    /// Runs the handler of a notification, if there is one. Whatever the
    /// handler returns is dropped: a notification is never answered.
    pub fn notify(&self, notification: &Notification) {
        match self.get_handler(notification.method.as_str()) {
            Some(handler) => {
                let _ = handler.call(handed_params(&notification.params));
            },
            None => {},
        }
    }

    /// Answers the messages of a batch one after the other.
    pub fn answer_batch(&self, messages: &Vec<Message>) -> (out: Vec<Response>)
        ensures
            self.answers_batch(models(messages@), response_models(out@)),
    {
        let mut responses: Vec<Response> = Vec::new();
        let mut i: usize = 0;
        proof {
            assert(models(messages@).take(0) =~= Seq::empty());
            assert(response_models(responses@) =~= Seq::empty());
        }
        while i < messages.len()
            invariant
                i <= messages.len(),
                self.answers_batch(models(messages@).take(i as int), response_models(responses@)),
            decreases messages.len() - i,
        {
            let ghost before = response_models(responses@);
            let ghost done = models(messages@).take(i as int);
            let ghost next = models(messages@).take(i as int + 1);
            proof {
                assert(next.drop_last() =~= done);
                assert(next.last() == messages[i as int]@);
            }
            match &messages[i] {
                Message::Request(request) => {
                    let response = self.dispatch(request);
                    responses.push(response);
                    proof {
                        assert(response_models(responses@).drop_last() =~= before);
                    }
                },
                Message::Notification(notification) => {
                    self.notify(notification);
                },
                Message::Response(response) => {
                    responses.push(response.duplicate());
                    proof {
                        assert(response_models(responses@).drop_last() =~= before);
                    }
                },
                Message::Batch(inner) => {
                    proof {
                        lemma_batch_model(*inner);
                    }
                    responses.push(
                        Response::error(RequestId::Null, Error::invalid_request("Invalid Request")),
                    );
                    proof {
                        assert(response_models(responses@).drop_last() =~= before);
                    }
                },
            }
            i += 1;
        }
        proof {
            assert(models(messages@).take(i as int) =~= models(messages@));
        }
        responses
    }

    /// Answers a classified message: the text to emit, if any.
    pub fn answer(&self, message: &Message) -> (out: Option<String>)
        ensures
            self.emits(message@, option_text(out)),
    {
        match message {
            Message::Request(request) => {
                let response = self.dispatch(request);
                let out = Some(response_text(&response));
                proof {
                    assert(self.emits_reply(request@, response@, option_text(out)));
                }
                out
            },
            Message::Notification(notification) => {
                self.notify(notification);
                None
            },
            Message::Response(_) => None,
            Message::Batch(messages) => {
                proof {
                    lemma_batch_model(*messages);
                }
                let responses = self.answer_batch(messages);
                let out = if responses.len() == 0 {
                    None
                } else {
                    Some(batch_text(&responses))
                };
                proof {
                    let rs = response_models(responses@);
                    assert(rs.len() == responses.len());
                    assert(self.emits_batch(models(messages@), rs, option_text(out)));
                    assert(self.emits_answers(models(messages@), option_text(out)));
                }
                out
            },
        }
    }

    /// Processes one inbound message and returns the text to send back, if
    /// any.
    pub fn process_message(&self, json_str: &str) -> (out: Option<String>)
        ensures
            self.emits_for(json_str@, option_text(out)),
    {
        match receive(json_str) {
            Ok(message) => self.answer(&message),
            Err(refusal) => Some(refusal),
        }
    }
}

/// The model of an optional text.
pub open spec fn option_text(text: Option<String>) -> Option<Seq<char>> {
    match text {
        Some(t) => Some(t@),
        None => None,
    }
}

} // verus!
