//! The behaviour of the engine on concrete values: classification, the JSON
//! forms, the registry, the batch correlator and the shutdown of the loop.

use json_rpc::batch::BatchContext;
use json_rpc::cancellation::{cancellation_check, CancellationToken};
use json_rpc::error::Error;
use json_rpc::http::{error_response, handle_jsonrpc, handler, success_response, HttpReply};
use json_rpc::json::Json;
use json_rpc::jsonrpc::JsonRpc;
use json_rpc::message::{extract_id, reject, Message};
use json_rpc::methods::{
    batch_text, handed_params, not_found, receive, respond, response_text, HandlerFn, Methods,
};
use json_rpc::router::{
    handle_message, handle_request, routed_response, ErrorExt, JsonRpcErrorExt, Router,
};
use json_rpc::coordinator::Coordinator;
use json_rpc::lifecycle::{Lifecycle, Step};
use json_rpc::server::{process_batch, Job, ResponseData, Server};
use json_rpc::shutdown::{shutdown_check, ShutdownSignal};
use json_rpc::transports::{line_of, strip_line_end};
use json_rpc::types::{Error as ErrorObject, Notification, Payload, Request, RequestId, Response};

struct Method(Box<dyn Fn(Json) -> Result<Json, Error>>);

impl HandlerFn for Method {
    fn call(&self, params: Json) -> Result<Json, Error> {
        (self.0)(params)
    }
}

fn echo() -> Method {
    Method(Box::new(Ok))
}

fn failing() -> Method {
    Method(Box::new(|_| Err(Error::Cancelled)))
}

fn parse(text: &str) -> Json {
    Json::parse(text).expect("the text is JSON")
}

fn classify(text: &str) -> Result<Message, Error> {
    Message::from_json(parse(text))
}

fn invalid_request() -> Error {
    Error::InvalidRequest("Invalid Request".to_string())
}

fn rejection_with(id: RequestId) -> Message {
    Message::Response(Response::error(id, ErrorObject::invalid_request("Invalid Request")))
}

// Reading and writing JSON text.

#[test]
fn json_text_is_parsed_into_its_variants() {
    assert_eq!(Json::parse("null"), Some(Json::Null));
    assert_eq!(Json::parse("true"), Some(Json::Bool(true)));
    assert_eq!(Json::parse("18446744073709551615"), Some(Json::Unsigned(u64::MAX)));
    assert_eq!(Json::parse("-7"), Some(Json::Signed(-7)));
    assert_eq!(Json::parse("2.5"), Some(Json::Real("2.5".to_string())));
    assert_eq!(Json::parse(r#""a\nb""#), Some(Json::String("a\nb".to_string())));
    assert_eq!(
        Json::parse(r#"[1,{"b":null,"a":[]}]"#),
        Some(Json::Array(vec![
            Json::Unsigned(1),
            Json::Object(vec![
                ("a".to_string(), Json::Array(vec![])),
                ("b".to_string(), Json::Null),
            ]),
        ]))
    );
}

#[test]
fn text_that_is_no_json_is_not_parsed() {
    assert_eq!(Json::parse(""), None);
    assert_eq!(Json::parse("{"), None);
    assert_eq!(Json::parse("invalid json"), None);
    assert_eq!(Json::parse("[1,]"), None);
}

#[test]
fn json_values_are_printed_compactly() {
    assert_eq!(Json::Null.to_text(), "null");
    assert_eq!(Json::Unsigned(42).to_text(), "42");
    assert_eq!(Json::Signed(-32601).to_text(), "-32601");
    assert_eq!(Json::Real("42.5".to_string()).to_text(), "42.5");
    assert_eq!(Json::string("a\"b").to_text(), r#""a\"b""#);
    let object = Json::Object(vec![
        ("z".to_string(), Json::Bool(false)),
        ("a".to_string(), Json::Array(vec![Json::Null, Json::Unsigned(1)])),
    ]);
    assert_eq!(object.to_text(), r#"{"a":[null,1],"z":false}"#);
}

#[test]
fn a_real_that_is_no_number_is_printed_as_null() {
    assert_eq!(Json::Real("one".to_string()).to_text(), "null");
}

#[test]
fn printed_json_reads_back_as_the_same_value() {
    let text = r#"{"k":[1,-2,3.25,"s",true,null,{"n":{}}]}"#;
    assert_eq!(parse(text).to_text(), text);
}

#[test]
fn get_finds_the_last_member_of_that_name() {
    let object = Json::Object(vec![
        ("a".to_string(), Json::Unsigned(1)),
        ("b".to_string(), Json::Unsigned(2)),
        ("a".to_string(), Json::Unsigned(3)),
    ]);
    assert_eq!(object.get("a"), Some(&Json::Unsigned(3)));
    assert_eq!(object.get("b"), Some(&Json::Unsigned(2)));
    assert_eq!(object.to_text(), r#"{"a":3,"b":2}"#);
    assert_eq!(object.get("c"), None);
    assert_eq!(Json::Array(vec![Json::Null]).get("a"), None);
    assert_eq!(Json::string("a").get("a"), None);
}

#[test]
fn a_duplicate_is_equal_to_its_source() {
    let value = parse(r#"{"a":[1,{"b":"c"},-3,4.5,null,false]}"#);
    assert_eq!(value.duplicate(), value);
    assert_eq!(value.clone(), value);
}

// Classification.

#[test]
fn an_empty_object_is_an_invalid_request() {
    assert_eq!(classify("{}"), Err(invalid_request()));
}

#[test]
fn an_empty_array_is_an_invalid_request() {
    assert_eq!(classify("[]"), Err(invalid_request()));
}

#[test]
fn a_batch_of_one_number_holds_one_rejection_with_null_id() {
    assert_eq!(classify("[1]"), Ok(Message::Batch(vec![rejection_with(RequestId::Null)])));
}

#[test]
fn scalars_are_invalid_requests() {
    for text in ["1", "null", "true", r#""text""#, "2.5"] {
        assert_eq!(classify(text), Err(invalid_request()));
    }
}

#[test]
fn a_request_is_classified_with_its_fields() {
    assert_eq!(
        classify(r#"{"jsonrpc":"2.0","method":"sum","params":[1,2],"id":"abc"}"#),
        Ok(Message::Request(Request::new(
            RequestId::String("abc".to_string()),
            "sum",
            Some(Json::Array(vec![Json::Unsigned(1), Json::Unsigned(2)])),
        )))
    );
    assert_eq!(
        classify(r#"{"jsonrpc":"2.0","method":"m","id":null}"#),
        Ok(Message::Request(Request::new(RequestId::Null, "m", None)))
    );
    assert_eq!(
        classify(r#"{"jsonrpc":"2.0","method":"m","id":7,"params":null}"#),
        Ok(Message::Request(Request::new(RequestId::Number(7), "m", None)))
    );
}

#[test]
fn a_message_without_id_is_a_notification() {
    assert_eq!(
        classify(r#"{"jsonrpc":"2.0","method":"x"}"#),
        Ok(Message::Notification(Notification::new("x", None)))
    );
    assert_eq!(
        classify(r#"{"jsonrpc":"2.0","method":"x","params":{"a":1}}"#),
        Ok(Message::Notification(Notification::new(
            "x",
            Some(Json::Object(vec![("a".to_string(), Json::Unsigned(1))])),
        )))
    );
}

#[test]
fn an_id_without_method_or_error_is_an_invalid_request() {
    assert_eq!(classify(r#"{"jsonrpc":"2.0","id":1}"#), Err(invalid_request()));
    assert_eq!(classify(r#"{"jsonrpc":"2.0","id":1,"result":5}"#), Err(invalid_request()));
}

#[test]
fn a_wrong_version_is_an_invalid_request() {
    assert_eq!(classify(r#"{"jsonrpc":"1.0","method":"x","id":1}"#), Err(invalid_request()));
    assert_eq!(classify(r#"{"jsonrpc":"1.0","method":"x"}"#), Err(invalid_request()));
    assert_eq!(classify(r#"{"jsonrpc":2.0,"method":"x","id":1}"#), Err(invalid_request()));
    assert_eq!(classify(r#"{"method":"x"}"#), Err(invalid_request()));
}

#[test]
fn an_id_that_is_no_identifier_is_an_invalid_request() {
    for id in ["-1", "1.5", "true", "[1]", "{}"] {
        let text = format!(r#"{{"jsonrpc":"2.0","method":"x","id":{}}}"#, id);
        assert_eq!(classify(&text), Err(invalid_request()));
    }
}

#[test]
fn a_message_with_id_and_error_is_a_response() {
    assert_eq!(
        classify(r#"{"jsonrpc":"2.0","error":{"code":-32000,"message":"no","data":[1]},"id":3}"#),
        Ok(Message::Response(Response::error(
            RequestId::Number(3),
            ErrorObject::new(-32000, "no", Some(Json::Array(vec![Json::Unsigned(1)]))),
        )))
    );
    assert_eq!(
        classify(r#"{"jsonrpc":"2.0","error":null,"result":"ok","id":3}"#),
        Ok(Message::Response(Response::success(RequestId::Number(3), Json::string("ok"))))
    );
}

#[test]
fn a_response_with_both_or_neither_payload_is_an_invalid_request() {
    assert_eq!(
        classify(r#"{"jsonrpc":"2.0","error":{"code":1,"message":"m"},"result":1,"id":3}"#),
        Err(invalid_request())
    );
    assert_eq!(classify(r#"{"jsonrpc":"2.0","error":null,"id":3}"#), Err(invalid_request()));
}

#[test]
fn a_malformed_error_object_is_an_invalid_request() {
    for error in [
        r#""text""#,
        r#"{"code":1}"#,
        r#"{"message":"m"}"#,
        r#"{"code":"1","message":"m"}"#,
        r#"{"code":1.5,"message":"m"}"#,
        r#"{"code":2147483648,"message":"m"}"#,
        r#"{"code":-2147483649,"message":"m"}"#,
        r#"{"code":1,"message":2}"#,
    ] {
        let text = format!(r#"{{"jsonrpc":"2.0","error":{},"id":3}}"#, error);
        assert_eq!(classify(&text), Err(invalid_request()));
    }
}

#[test]
fn error_codes_at_the_limits_of_32_bits_are_read() {
    for (code, value) in [("2147483647", i32::MAX), ("-2147483648", i32::MIN), ("0", 0)] {
        let text = format!(r#"{{"jsonrpc":"2.0","error":{{"code":{},"message":"m"}},"id":3}}"#, code);
        assert_eq!(
            classify(&text),
            Ok(Message::Response(Response::error(
                RequestId::Number(3),
                ErrorObject::new(value, "m", None)
            )))
        );
    }
}

#[test]
fn invalid_batch_elements_are_rejected_or_dropped() {
    let batch = classify(
        r#"[{"id":5,"foo":1},{"id":[1],"method":"x"},{"method":1},{"method":"x","jsonrpc":"1.0"},{"foo":1},[],{"jsonrpc":"2.0","method":"n"}]"#,
    );
    assert_eq!(
        batch,
        Ok(Message::Batch(vec![
            rejection_with(RequestId::Number(5)),
            rejection_with(RequestId::Null),
            rejection_with(RequestId::Null),
            Message::Notification(Notification::new("n", None)),
        ]))
    );
}

#[test]
fn an_id_of_an_unrecognised_type_counts_as_absent() {
    assert_eq!(
        classify(r#"[{"jsonrpc":"2.0","id":[1],"method":"x"}]"#),
        Ok(Message::Batch(vec![]))
    );
    assert_eq!(
        classify(r#"[{"jsonrpc":"2.0","id":1.5,"method":"x"},{"id":{},"method":1}]"#),
        Ok(Message::Batch(vec![]))
    );
    assert_eq!(
        classify(r#"[{"id":[1]},{"id":null,"foo":1},{"id":null,"method":1}]"#),
        Ok(Message::Batch(vec![
            rejection_with(RequestId::Null),
            rejection_with(RequestId::Null),
            rejection_with(RequestId::Null),
        ]))
    );
    let methods = Methods::new().add("echo", echo());
    assert_eq!(methods.process_message(r#"[{"jsonrpc":"2.0","id":[1],"method":"echo"}]"#), None);
}

#[test]
fn a_batch_of_broken_notifications_is_an_empty_batch() {
    assert_eq!(classify(r#"[{"method":1},{"method":"x"}]"#), Ok(Message::Batch(vec![])));
}

#[test]
fn the_rejection_carries_the_id_where_it_is_an_identifier() {
    assert_eq!(
        Message::Response(reject(&parse(r#"{"id":"q","foo":1}"#))),
        rejection_with(RequestId::String("q".to_string()))
    );
    assert_eq!(
        Message::Response(reject(&parse(r#"{"id":1.5}"#))),
        rejection_with(RequestId::Null)
    );
    assert_eq!(Message::Response(reject(&parse("3"))), rejection_with(RequestId::Null));
}

#[test]
fn message_kinds_and_ids_are_told_apart() {
    let request = Message::Request(Request::new(RequestId::Number(1), "m", None));
    let response = Message::Response(Response::success(RequestId::Null, Json::Null));
    let notification = Message::Notification(Notification::new("m", None));
    let batch = Message::Batch(vec![]);
    assert!(request.is_request() && !request.is_response());
    assert!(response.is_response() && !response.is_notification());
    assert!(notification.is_notification() && !notification.is_batch());
    assert!(batch.is_batch() && !batch.is_request());
    assert_eq!(request.id(), Some(&RequestId::Number(1)));
    assert_eq!(response.id(), Some(&RequestId::Null));
    assert_eq!(notification.id(), None);
    assert_eq!(batch.id(), None);
}

// The JSON forms.

#[test]
fn field_complete_messages_round_trip() {
    let fixtures = [
        r#"{"id":1,"jsonrpc":"2.0","method":"echo","params":"hi"}"#,
        r#"{"id":"x","jsonrpc":"2.0","method":"echo","params":{"a":[1,2]}}"#,
        r#"{"id":null,"jsonrpc":"2.0","method":"echo"}"#,
        r#"{"jsonrpc":"2.0","method":"note","params":[1]}"#,
        r#"{"jsonrpc":"2.0","method":"note"}"#,
        r#"{"error":{"code":-32601,"message":"no"},"id":2,"jsonrpc":"2.0"}"#,
        r#"{"error":{"code":7,"data":{"k":1},"message":"no"},"id":"r","jsonrpc":"2.0"}"#,
    ];
    for text in fixtures {
        let message = classify(text).expect("the fixture is a message");
        assert_eq!(message.to_json().to_text(), text);
        assert_eq!(Message::from_json(message.to_json()), Ok(message));
    }
}

#[test]
fn field_complete_forms_round_trip_in_any_order() {
    let fixtures = [
        r#"{"method":"m","id":1,"jsonrpc":"2.0"}"#,
        r#"{"params":{"b":[1],"a":2},"method":"echo","jsonrpc":"2.0","id":"x"}"#,
        r#"{"params":[1],"jsonrpc":"2.0","method":"note"}"#,
        r#"{"id":2,"error":{"message":"no","data":{"k":1},"code":-32601},"jsonrpc":"2.0"}"#,
    ];
    for text in fixtures {
        let message = classify(text).expect("the fixture is a message");
        let before: serde_json::Value = serde_json::from_str(text).unwrap();
        let after: serde_json::Value =
            serde_json::from_str(&message.to_json().to_text()).unwrap();
        assert_eq!(after, before);
    }
}

#[test]
fn messages_that_are_not_field_complete_do_not_round_trip() {
    let success = Message::Response(Response::success(RequestId::Number(1), Json::Null));
    assert_eq!(Message::from_json(success.to_json()), Err(invalid_request()));
    let null_params = Message::Request(Request::new(RequestId::Number(1), "m", Some(Json::Null)));
    assert_eq!(
        Message::from_json(null_params.to_json()),
        Ok(Message::Request(Request::new(RequestId::Number(1), "m", None)))
    );
}

#[test]
fn a_batch_is_the_array_of_its_messages() {
    let batch = Message::Batch(vec![
        Message::Notification(Notification::new("n", None)),
        Message::Response(Response::success(RequestId::Number(1), Json::Unsigned(2))),
    ]);
    assert_eq!(
        batch.to_json(),
        Json::Array(vec![
            Json::Object(vec![
                ("jsonrpc".to_string(), Json::string("2.0")),
                ("method".to_string(), Json::string("n")),
            ]),
            Json::Object(vec![
                ("jsonrpc".to_string(), Json::string("2.0")),
                ("result".to_string(), Json::Unsigned(2)),
                ("id".to_string(), Json::Unsigned(1)),
            ]),
        ])
    );
}

#[test]
fn messages_are_written_in_wire_order() {
    assert_eq!(
        Request::new(RequestId::Number(1), "m", Some(Json::Array(vec![]))).to_text(),
        r#"{"jsonrpc":"2.0","id":1,"method":"m","params":[]}"#
    );
    assert_eq!(
        Request::new(RequestId::String("a\"b".to_string()), "m", None).to_text(),
        r#"{"jsonrpc":"2.0","id":"a\"b","method":"m"}"#
    );
    assert_eq!(
        Notification::new("n", Some(Json::Null)).to_text(),
        r#"{"jsonrpc":"2.0","method":"n","params":null}"#
    );
    assert_eq!(Notification::new("n", None).to_text(), r#"{"jsonrpc":"2.0","method":"n"}"#);
    assert_eq!(
        ErrorObject::new(7, "m", Some(Json::Bool(true))).to_text(),
        r#"{"code":7,"message":"m","data":true}"#
    );
    assert_eq!(ErrorObject::new(-7, "m", None).to_text(), r#"{"code":-7,"message":"m"}"#);
    assert_eq!(batch_text(&vec![]), "[]");
}

#[test]
fn nested_members_are_written_in_the_order_of_their_names() {
    let methods = Methods::new().add("echo", echo());
    assert_eq!(
        methods.process_message(
            r#"{"jsonrpc":"2.0","method":"echo","params":{"message":"hello","count":42},"id":2}"#
        ),
        Some(r#"{"jsonrpc":"2.0","result":{"count":42,"message":"hello"},"id":2}"#.to_string())
    );
}

#[test]
fn a_response_has_exactly_one_of_result_and_error() {
    let success = Response::success(RequestId::Number(1), Json::Null);
    let failure = Response::error(RequestId::Number(1), ErrorObject::internal_error("x"));
    assert!(success.to_json().get("result").is_some());
    assert!(success.to_json().get("error").is_none());
    assert!(failure.to_json().get("result").is_none());
    assert!(failure.to_json().get("error").is_some());
    assert_eq!(success.validate(), Ok(()));
    assert_eq!(failure.validate(), Ok(()));
    assert_eq!(success.result(), Some(&Json::Null));
    assert_eq!(success.error_object(), None);
    assert_eq!(failure.result(), None);
    assert_eq!(failure.error_object(), Some(&ErrorObject::internal_error("x")));
    assert!(matches!(success.payload, Payload::Result(_)));
}

#[test]
fn responses_are_written_in_wire_order() {
    assert_eq!(
        response_text(&Response::success(RequestId::String("a".to_string()), Json::Bool(true))),
        r#"{"jsonrpc":"2.0","result":true,"id":"a"}"#
    );
    assert_eq!(
        response_text(&Response::error(
            RequestId::Null,
            ErrorObject::new(-32000, "m", Some(Json::Unsigned(1)))
        )),
        r#"{"jsonrpc":"2.0","error":{"code":-32000,"message":"m","data":1},"id":null}"#
    );
    assert_eq!(
        batch_text(&vec![
            Response::success(RequestId::Number(1), Json::Null),
            Response::success(RequestId::Number(2), Json::Null),
        ]),
        r#"[{"jsonrpc":"2.0","result":null,"id":1},{"jsonrpc":"2.0","result":null,"id":2}]"#
    );
}

#[test]
fn the_standard_errors_have_their_codes() {
    assert_eq!(ErrorObject::parse_error("m"), ErrorObject::new(-32700, "m", None));
    assert_eq!(ErrorObject::invalid_request("m"), ErrorObject::new(-32600, "m", None));
    assert_eq!(ErrorObject::method_not_found("m"), ErrorObject::new(-32601, "m", None));
    assert_eq!(ErrorObject::invalid_params("m"), ErrorObject::new(-32602, "m", None));
    assert_eq!(ErrorObject::internal_error("m"), ErrorObject::new(-32603, "m", None));
    assert_eq!(
        <ErrorObject as JsonRpcErrorExt>::method_not_found("m"),
        ErrorObject::new(-32601, "m", None)
    );
    assert_eq!(
        <ErrorObject as JsonRpcErrorExt>::invalid_params("m"),
        ErrorObject::new(-32602, "m", None)
    );
    assert_eq!(
        <ErrorObject as JsonRpcErrorExt>::internal_error("m"),
        ErrorObject::new(-32603, "m", None)
    );
    assert_eq!(
        JsonRpcErrorExt::into_response(ErrorObject::new(1, "m", None), RequestId::Number(4)),
        Response::error(RequestId::Number(4), ErrorObject::new(1, "m", None))
    );
}

#[test]
fn errors_and_identifiers_are_described() {
    assert_eq!(ErrorObject::new(-32601, "no such", None).description(), "JSON-RPC error -32601: no such");
    assert_eq!(RequestId::Null.to_text(), "null");
    assert_eq!(RequestId::Number(17).to_text(), "17");
    assert_eq!(RequestId::String("abc".to_string()).to_text(), "abc");
    assert_eq!(Error::protocol("p").description(), "Protocol error: p");
    assert_eq!(Error::rpc(-5, "m").description(), "JSON-RPC error: code=-5, message=m");
    assert_eq!(Error::transport("t").description(), "Transport error: t");
    assert_eq!(Error::ParseError("e".to_string()).description(), "Protocol error: e");
    assert_eq!(Error::invalid_request("i").description(), "Invalid Request: i");
    assert_eq!(Error::Cancelled.description(), "Operation was cancelled");
    assert_eq!(<Error as ErrorExt>::protocol("p"), Error::ProtocolError("p".to_string()));
}

#[test]
fn identifiers_compare_by_kind_and_value() {
    assert!(RequestId::Null.same(&RequestId::Null));
    assert!(RequestId::Number(1).same(&RequestId::Number(1)));
    assert!(!RequestId::Number(1).same(&RequestId::Number(2)));
    assert!(!RequestId::Number(1).same(&RequestId::String("1".to_string())));
    assert!(RequestId::String("a".to_string()).same(&RequestId::String("a".to_string())));
    assert_eq!(RequestId::from_json(&Json::Signed(1)), Some(RequestId::Number(1)));
    assert_eq!(RequestId::from_json(&Json::Signed(-1)), None);
    assert_eq!(RequestId::from_json(&Json::Bool(true)), None);
    assert_eq!(RequestId::from_json(&Json::Unsigned(1)), Some(RequestId::Number(1)));
    assert_eq!(RequestId::Number(9).to_json(), Json::Unsigned(9));
}

// The registry and the engine.

#[test]
fn the_last_registration_under_a_name_wins() {
    let methods = Methods::new().add("m", failing()).add("other", failing()).add("m", echo());
    assert!(methods.get_handler("missing").is_none());
    let handler = methods.get_handler("m").expect("m is registered");
    assert_eq!(handler.call(Json::Unsigned(1)), Ok(Json::Unsigned(1)));
    assert_eq!(methods.get_handler("other").unwrap().call(Json::Null), Err(Error::Cancelled));
}

#[test]
fn the_response_is_built_from_what_the_handler_returned() {
    let id = RequestId::Number(1);
    assert_eq!(respond(id.clone(), Ok(Json::Bool(true))), Response::success(id.clone(), Json::Bool(true)));
    assert_eq!(
        respond(id.clone(), Err(Error::rpc(-32000, "declared"))),
        Response::error(id.clone(), ErrorObject::new(-32000, "declared", None))
    );
    assert_eq!(
        respond(id.clone(), Err(Error::rpc(5, "outside the reserved ranges"))),
        Response::error(id.clone(), ErrorObject::new(5, "outside the reserved ranges", None))
    );
    assert_eq!(
        respond(id.clone(), Err(Error::Cancelled)),
        Response::error(id.clone(), ErrorObject::new(-32603, "Operation was cancelled", None))
    );
    assert_eq!(
        respond(id.clone(), Err(Error::protocol("bad"))),
        Response::error(id, ErrorObject::new(-32603, "Protocol error: bad", None))
    );
}

#[test]
fn the_response_carries_the_id_of_the_request() {
    let methods = Methods::new().add("echo", echo()).add("fail", failing());
    for id in [RequestId::Null, RequestId::Number(0), RequestId::Number(u64::MAX), RequestId::String("id".to_string())] {
        for method in ["echo", "fail", "missing"] {
            let response = methods.dispatch(&Request::new(id.clone(), method, None));
            assert_eq!(response.id, id);
        }
    }
}

#[test]
fn absent_params_reach_the_handler_as_null() {
    let methods = Methods::new().add("echo", echo());
    assert_eq!(
        methods.dispatch(&Request::new(RequestId::Number(1), "echo", None)),
        Response::success(RequestId::Number(1), Json::Null)
    );
}

#[test]
fn a_notification_is_never_answered() {
    let methods = Methods::new().add("echo", echo()).add("fail", failing());
    for method in ["echo", "fail", "missing"] {
        let text = format!(r#"{{"jsonrpc":"2.0","method":"{}","params":1}}"#, method);
        assert_eq!(methods.process_message(&text), None);
    }
}

#[test]
fn an_inbound_response_is_dropped() {
    let methods = Methods::new().add("echo", echo());
    assert_eq!(
        methods.process_message(r#"{"jsonrpc":"2.0","error":{"code":1,"message":"m"},"id":1}"#),
        None
    );
}

#[test]
fn a_mixed_batch_is_answered_in_order() {
    let methods = Methods::new().add("echo", echo());
    let out = methods.process_message(
        r#"[{"jsonrpc":"2.0","method":"echo","params":"a","id":1},{"bad":"x"},{"jsonrpc":"2.0","method":"echo","params":"b","id":2}]"#,
    );
    assert_eq!(
        out,
        Some(
            r#"[{"jsonrpc":"2.0","result":"a","id":1},{"jsonrpc":"2.0","error":{"code":-32600,"message":"Invalid Request"},"id":null},{"jsonrpc":"2.0","result":"b","id":2}]"#
                .to_string()
        )
    );
}

#[test]
fn a_batch_of_notifications_has_no_output() {
    let methods = Methods::new().add("echo", echo());
    assert_eq!(
        methods.process_message(r#"[{"jsonrpc":"2.0","method":"echo","params":"x"}]"#),
        None
    );
    assert_eq!(methods.answer(&Message::Batch(vec![])), None);
}

#[test]
fn a_batch_inside_a_batch_is_rejected() {
    let methods = Methods::new().add("echo", echo());
    let responses = methods.answer_batch(&vec![Message::Batch(vec![])]);
    assert_eq!(
        responses,
        vec![Response::error(RequestId::Null, ErrorObject::invalid_request("Invalid Request"))]
    );
}

// The coordinator and the batch correlator.

fn answer(index: usize) -> Response {
    Response::success(RequestId::Number(index as u64), Json::Unsigned(index as u64 * 10))
}

#[test]
fn slots_are_filled_in_any_order_and_drained_in_slot_order() {
    let orders: [[usize; 4]; 5] =
        [[0, 1, 2, 3], [3, 2, 1, 0], [2, 0, 3, 1], [1, 3, 0, 2], [3, 0, 1, 2]];
    for order in orders {
        let mut context = BatchContext::new(4);
        assert_eq!(context.len(), 4);
        for (done, index) in order.iter().enumerate() {
            assert!(!context.is_complete());
            assert!(context.fill(*index, answer(*index)));
            assert_eq!(context.is_complete(), done == 3);
        }
        assert_eq!(context.drain(), vec![answer(0), answer(1), answer(2), answer(3)]);
    }
}

#[test]
fn a_slot_that_the_batch_lacks_is_not_filled() {
    let mut context = BatchContext::new(2);
    assert!(!context.fill(2, answer(2)));
    assert!(context.fill(1, answer(1)));
    assert!(!context.is_complete());
    assert_eq!(context.drain(), vec![answer(1)]);
    assert!(BatchContext::new(0).is_complete());
}

fn latency_server() -> Server<Method> {
    let mut server = Server::new().with_thread_pool_size(3);
    server.register("echo", echo()).unwrap();
    server
}

fn batch_of_requests(count: usize) -> String {
    let requests: Vec<String> = (0..count)
        .map(|i| format!(r#"{{"jsonrpc":"2.0","method":"echo","params":"value{}","id":{}}}"#, i, i))
        .collect();
    format!("[{}]", requests.join(","))
}

#[test]
fn a_batch_is_emitted_in_input_order_whatever_the_completion_order() {
    let server = latency_server();
    let expected = r#"[{"jsonrpc":"2.0","result":"value0","id":0},{"jsonrpc":"2.0","result":"value1","id":1},{"jsonrpc":"2.0","result":"value2","id":2},{"jsonrpc":"2.0","result":"value3","id":3},{"jsonrpc":"2.0","result":"value4","id":4}]"#;
    let orders: [[usize; 5]; 4] =
        [[0, 1, 2, 3, 4], [4, 3, 2, 1, 0], [2, 4, 0, 3, 1], [1, 0, 4, 2, 3]];
    for order in orders {
        let mut coordinator = Coordinator::new();
        let message = receive(&batch_of_requests(5)).unwrap();
        let admission = coordinator.accept(&message);
        assert_eq!(admission.reply, None);
        assert_eq!(admission.jobs.len(), 5);
        assert_eq!(coordinator.open_batches(), 1);
        for (done, index) in order.iter().enumerate() {
            let data = server.process_request_with_batch(&admission.jobs[*index]);
            let emitted = coordinator.complete(data);
            if done < 4 {
                assert_eq!(emitted, None);
            } else {
                assert_eq!(emitted, Some(expected.to_string()));
            }
        }
        assert_eq!(coordinator.open_batches(), 0);
    }
}

#[test]
fn interleaved_batches_are_kept_apart() {
    let server = latency_server();
    let mut coordinator = Coordinator::new();
    let first = coordinator.accept(&receive(&batch_of_requests(2)).unwrap());
    let second = coordinator.accept(&receive(&batch_of_requests(1)).unwrap());
    assert_eq!(first.jobs[0].batch_id, Some(0));
    assert_eq!(first.jobs[1].batch_index, Some(1));
    assert_eq!(second.jobs[0].batch_id, Some(1));
    assert_eq!(coordinator.open_batches(), 2);
    assert_eq!(coordinator.complete(server.process_request_with_batch(&first.jobs[1])), None);
    assert_eq!(
        coordinator.complete(server.process_request_with_batch(&second.jobs[0])),
        Some(r#"[{"jsonrpc":"2.0","result":"value0","id":0}]"#.to_string())
    );
    assert_eq!(
        coordinator.complete(server.process_request_with_batch(&first.jobs[0])),
        Some(
            r#"[{"jsonrpc":"2.0","result":"value0","id":0},{"jsonrpc":"2.0","result":"value1","id":1}]"#
                .to_string()
        )
    );
    assert_eq!(coordinator.open_batches(), 0);
}

#[test]
fn rejected_elements_hold_their_slots_from_the_start() {
    let server = latency_server();
    let mut coordinator = Coordinator::new();
    let message = receive(
        r#"[{"jsonrpc":"2.0","method":"echo","params":"a","id":1},{"bad":"x"},{"jsonrpc":"2.0","method":"echo","params":"n"},{"jsonrpc":"2.0","method":"echo","params":"b","id":2}]"#,
    )
    .unwrap();
    let admission = coordinator.accept(&message);
    assert_eq!(admission.notifications, vec![Notification::new("echo", Some(Json::string("n")))]);
    assert_eq!(admission.jobs.len(), 2);
    assert_eq!(admission.jobs[0].batch_index, Some(0));
    assert_eq!(admission.jobs[1].batch_index, Some(2));
    assert_eq!(coordinator.complete(server.process_request_with_batch(&admission.jobs[1])), None);
    assert_eq!(
        coordinator.complete(server.process_request_with_batch(&admission.jobs[0])),
        Some(
            r#"[{"jsonrpc":"2.0","result":"a","id":1},{"jsonrpc":"2.0","error":{"code":-32600,"message":"Invalid Request"},"id":null},{"jsonrpc":"2.0","result":"b","id":2}]"#
                .to_string()
        )
    );
}

#[test]
fn a_batch_without_requests_is_answered_at_once() {
    let mut coordinator = Coordinator::new();
    let admission = coordinator.accept(&receive(r#"[1,{"jsonrpc":"2.0","method":"echo"}]"#).unwrap());
    assert_eq!(
        admission.reply,
        Some(
            r#"[{"jsonrpc":"2.0","error":{"code":-32600,"message":"Invalid Request"},"id":null}]"#
                .to_string()
        )
    );
    assert!(admission.jobs.is_empty());
    assert_eq!(admission.notifications.len(), 1);
    assert_eq!(coordinator.open_batches(), 0);
    let silent = coordinator.accept(&receive(r#"[{"jsonrpc":"2.0","method":"echo","params":"x"}]"#).unwrap());
    assert_eq!(silent.reply, None);
    assert!(silent.jobs.is_empty());
    assert_eq!(coordinator.open_batches(), 0);
}

#[test]
fn single_messages_are_accepted_without_a_batch() {
    let server = latency_server();
    let mut coordinator = Coordinator::new();
    let request = coordinator.accept(&receive(r#"{"jsonrpc":"2.0","method":"echo","params":"hi","id":1}"#).unwrap());
    assert_eq!(request.jobs.len(), 1);
    assert_eq!(request.jobs[0].batch_id, None);
    assert_eq!(request.jobs[0].batch_index, None);
    assert_eq!(
        coordinator.complete(server.process_request(&request.jobs[0].request)),
        Some(r#"{"jsonrpc":"2.0","result":"hi","id":1}"#.to_string())
    );
    let notification = coordinator.accept(&receive(r#"{"jsonrpc":"2.0","method":"echo"}"#).unwrap());
    assert!(notification.jobs.is_empty());
    assert_eq!(notification.notifications, vec![Notification::new("echo", None)]);
    assert_eq!(server.process_notification(&notification.notifications[0]), Ok(()));
    let response = coordinator.accept(&Message::Response(answer(1)));
    assert!(response.jobs.is_empty() && response.notifications.is_empty());
    assert_eq!(response.reply, None);
}

#[test]
fn a_response_without_a_slot_is_emitted_by_itself() {
    let mut coordinator = Coordinator::new();
    let stray = ResponseData { response: answer(1), batch_id: Some(9), batch_index: Some(0) };
    assert_eq!(
        coordinator.complete(stray),
        Some(r#"{"jsonrpc":"2.0","result":10,"id":1}"#.to_string())
    );
    let _ = coordinator.accept(&receive(&batch_of_requests(1)).unwrap());
    let beyond = ResponseData { response: answer(2), batch_id: Some(0), batch_index: Some(1) };
    assert_eq!(
        coordinator.complete(beyond),
        Some(r#"{"jsonrpc":"2.0","result":20,"id":2}"#.to_string())
    );
    let half = ResponseData { response: answer(3), batch_id: Some(0), batch_index: None };
    assert_eq!(
        coordinator.complete(half),
        Some(r#"{"jsonrpc":"2.0","result":30,"id":3}"#.to_string())
    );
    assert_eq!(coordinator.open_batches(), 1);
}

#[test]
fn batches_under_way_are_given_up_when_the_connection_closes() {
    let server = latency_server();
    let mut coordinator = Coordinator::new();
    let first = coordinator.accept(&receive(&batch_of_requests(2)).unwrap());
    let _ = coordinator.accept(&receive(&batch_of_requests(3)).unwrap());
    assert_eq!(coordinator.complete(server.process_request_with_batch(&first.jobs[0])), None);
    assert_eq!(coordinator.abandon(), 2);
    assert_eq!(coordinator.open_batches(), 0);
    assert_eq!(coordinator.abandon(), 0);
    assert_eq!(
        coordinator.complete(server.process_request_with_batch(&first.jobs[1])),
        Some(r#"{"jsonrpc":"2.0","result":"value1","id":1}"#.to_string())
    );
}

#[test]
fn a_batch_is_planned_in_its_order() {
    let plan = process_batch(
        7,
        &vec![
            Message::Notification(Notification::new("n", None)),
            Message::Response(answer(5)),
            Message::Request(Request::new(RequestId::Number(1), "m", None)),
            Message::Batch(vec![]),
            Message::Request(Request::new(RequestId::Number(2), "m", None)),
        ],
    );
    assert_eq!(plan.context.len(), 3);
    assert!(!plan.context.is_complete());
    assert_eq!(plan.notifications, vec![Notification::new("n", None)]);
    let tags: Vec<(Option<usize>, Option<usize>, RequestId)> = plan
        .jobs
        .iter()
        .map(|job: &Job| (job.batch_id, job.batch_index, job.request.id.clone()))
        .collect();
    assert_eq!(
        tags,
        vec![
            (Some(7), Some(1), RequestId::Number(1)),
            (Some(7), Some(2), RequestId::Number(2)),
        ]
    );
    assert_eq!(plan.context.drain(), vec![answer(5)]);
}

#[test]
fn inbound_text_is_received_or_refused() {
    assert_eq!(
        receive("{"),
        Err(r#"{"jsonrpc":"2.0","error":{"code":-32700,"message":"Parse error"},"id":null}"#.to_string())
    );
    assert_eq!(
        receive(r#"{"id":"k"}"#),
        Err(r#"{"jsonrpc":"2.0","error":{"code":-32600,"message":"Invalid Request"},"id":"k"}"#.to_string())
    );
    assert_eq!(
        receive(r#"{"jsonrpc":"2.0","method":"m"}"#),
        Ok(Message::Notification(Notification::new("m", None)))
    );
}

#[test]
fn the_server_is_configured_by_its_builder() {
    let server: Server<Method> = Server::new();
    assert!(server.thread_pool_size() >= 1);
    assert!(server.shutdown_signal().is_none());
    assert!(server.registry().get_handler("echo").is_none());
    let mut server = server.with_thread_pool_size(4).with_shutdown_signal(ShutdownSignal::new());
    assert_eq!(server.thread_pool_size(), 4);
    assert!(server.shutdown_signal().is_some());
    assert_eq!(server.register("echo", echo()), Ok(()));
    assert!(server.registry().get_handler("echo").is_some());
}

#[test]
fn submit_emits_what_the_engine_emits() {
    let server = latency_server();
    let methods = Methods::new().add("echo", echo());
    let mut coordinator = Coordinator::new();
    let inputs = [
        r#"{"jsonrpc":"2.0","method":"echo","params":"hi","id":1}"#,
        r#"{"jsonrpc":"2.0","method":"missing","id":2}"#,
        r#"[{"jsonrpc":"2.0","method":"echo","params":"a","id":1},{"bad":"x"},{"jsonrpc":"2.0","method":"echo","params":"b","id":2}]"#,
        r#"[{"jsonrpc":"2.0","method":"echo","params":"x"}]"#,
        r#"{"jsonrpc":"2.0","method":"echo","params":"x"}"#,
        r#"[1,2,{"id":"k"}]"#,
        r#"[{"method":1}]"#,
        r#"[{"jsonrpc":"2.0","error":{"code":1,"message":"m"},"id":4},{"jsonrpc":"2.0","method":"echo","id":5}]"#,
        r#"{"jsonrpc":"2.0","error":{"code":1,"message":"m"},"id":4}"#,
        "[]",
        "{}",
        "nonsense",
    ];
    for input in inputs {
        let emitted = coordinator.submit(&server, input);
        assert_eq!(emitted.first().cloned(), methods.process_message(input));
        assert!(emitted.len() <= 1);
        assert_eq!(coordinator.open_batches(), 0);
    }
    assert_eq!(
        coordinator.submit(&server, inputs[2]),
        vec![
            r#"[{"jsonrpc":"2.0","result":"a","id":1},{"jsonrpc":"2.0","error":{"code":-32600,"message":"Invalid Request"},"id":null},{"jsonrpc":"2.0","result":"b","id":2}]"#
                .to_string()
        ]
    );
    assert_eq!(coordinator.submit(&server, inputs[3]), Vec::<String>::new());
}

// Shutdown and cancellation.

#[test]
fn requests_in_flight_are_drained_before_the_loop_stops() {
    let mut lifecycle = Lifecycle::new();
    assert_eq!(lifecycle.step(), Step::Receive);
    assert!(lifecycle.dispatched(3));
    lifecycle.observe(false);
    assert_eq!(lifecycle.step(), Step::Receive);
    lifecycle.observe(true);
    assert!(!lifecycle.dispatched(1));
    for _ in 0..3 {
        assert_eq!(lifecycle.step(), Step::Drain);
        lifecycle.completed();
    }
    assert_eq!(lifecycle.step(), Step::Stop);
    lifecycle.observe(false);
    assert_eq!(lifecycle.step(), Step::Stop);
    lifecycle.completed();
    assert_eq!(lifecycle.step(), Step::Stop);
}

#[test]
fn the_drain_is_bounded() {
    let mut lifecycle = Lifecycle::new().with_patience(2);
    assert!(lifecycle.dispatched(2));
    lifecycle.timed_out();
    lifecycle.observe(true);
    assert_eq!(lifecycle.step(), Step::Drain);
    lifecycle.timed_out();
    assert_eq!(lifecycle.step(), Step::Drain);
    lifecycle.completed();
    assert_eq!(lifecycle.step(), Step::Drain);
    lifecycle.timed_out();
    assert_eq!(lifecycle.step(), Step::Stop);
    lifecycle.timed_out();
    assert_eq!(lifecycle.step(), Step::Stop);
    let mut impatient = Lifecycle::new();
    assert!(impatient.dispatched(1));
    impatient.observe(true);
    assert_eq!(impatient.step(), Step::Drain);
    impatient.timed_out();
    assert_eq!(impatient.step(), Step::Stop);
}

#[test]
fn the_count_in_flight_does_not_overflow() {
    let mut lifecycle = Lifecycle::new();
    assert!(lifecycle.dispatched(usize::MAX));
    assert!(!lifecycle.dispatched(1));
    assert!(lifecycle.dispatched(0));
}

#[test]
fn a_shutdown_signal_is_shared_and_stays_raised() {
    let signal = ShutdownSignal::new();
    let clone = signal.clone();
    assert!(!signal.is_shutdown_requested());
    assert_eq!(signal.check_shutdown(), Ok(()));
    clone.signal();
    assert!(signal.is_shutdown_requested());
    signal.signal();
    assert!(clone.is_shutdown_requested());
    assert_eq!(
        signal.check_shutdown(),
        Err(Error::ProtocolError("Shutdown requested".to_string()))
    );
    assert_eq!(shutdown_check(false), Ok(()));
    assert_eq!(shutdown_check(true), Err(Error::ProtocolError("Shutdown requested".to_string())));
    assert!(!ShutdownSignal::default().is_shutdown_requested());
}

#[test]
fn a_cancellation_token_is_shared_and_stays_cancelled() {
    let token = CancellationToken::new();
    let clone = token.clone();
    assert!(!token.is_cancelled());
    assert_eq!(token.check_cancelled(), Ok(()));
    clone.cancel();
    assert!(token.is_cancelled());
    token.cancel();
    assert!(clone.is_cancelled());
    assert_eq!(token.check_cancelled(), Err(Error::Cancelled));
    assert_eq!(cancellation_check(false), Ok(()));
    assert_eq!(cancellation_check(true), Err(Error::Cancelled));
    assert!(!CancellationToken::default().is_cancelled());
}

// Routing.

struct EchoRouter;

enum EchoMethod {
    Echo(Json),
    Nothing,
    Unknown,
}

impl Router for EchoRouter {
    type Method = EchoMethod;

    fn route(&self, request: Request) -> EchoMethod {
        match request.method.as_str() {
            "echo" => EchoMethod::Echo(request.params.unwrap_or(Json::Null)),
            "nothing" => EchoMethod::Nothing,
            _ => EchoMethod::Unknown,
        }
    }

    fn handle<F: FnOnce() -> Result<Json, Error>>(
        &self,
        method: EchoMethod,
        handler: F,
    ) -> Result<Option<Json>, Error> {
        match method {
            EchoMethod::Echo(params) => Ok(Some(params)),
            EchoMethod::Nothing => Ok(None),
            EchoMethod::Unknown => handler().map(Some),
        }
    }

    fn unknown_method_response(&self, id: RequestId, method: &str) -> Response {
        Response::error(id, ErrorObject::method_not_found(&format!("Method '{}' not found", method)))
    }
}

#[test]
fn a_router_answers_requests_only() {
    let id = RequestId::Number(1);
    assert_eq!(
        handle_request(&EchoRouter, Request::new(id.clone(), "echo", Some(Json::Unsigned(5)))),
        Response::success(id.clone(), Json::Unsigned(5))
    );
    assert_eq!(
        handle_request(&EchoRouter, Request::new(id.clone(), "nothing", None)),
        Response::success(id.clone(), Json::Null)
    );
    assert_eq!(
        handle_request(&EchoRouter, Request::new(id.clone(), "other", None)),
        Response::error(
            id.clone(),
            ErrorObject::new(-32000, "Protocol error: Handler not configured", None)
        )
    );
    assert_eq!(
        handle_message(&EchoRouter, Message::Request(Request::new(id.clone(), "echo", None))),
        Some(Response::success(id.clone(), Json::Null))
    );
    assert_eq!(handle_message(&EchoRouter, Message::Notification(Notification::new("echo", None))), None);
    assert_eq!(handle_message(&EchoRouter, Message::Response(answer(1))), None);
    assert_eq!(handle_message(&EchoRouter, Message::Batch(vec![])), None);
    assert_eq!(
        EchoRouter.unknown_method_response(id.clone(), "m"),
        Response::error(id, ErrorObject::new(-32601, "Method 'm' not found", None))
    );
}

#[test]
fn a_routed_failure_is_a_server_error() {
    let id = RequestId::String("r".to_string());
    assert_eq!(
        routed_response(id.clone(), Err(Error::rpc(-1, "m"))),
        Response::error(id.clone(), ErrorObject::new(-32000, "JSON-RPC error: code=-1, message=m", None))
    );
    assert_eq!(routed_response(id.clone(), Ok(None)), Response::success(id.clone(), Json::Null));
    assert_eq!(
        routed_response(id.clone(), Ok(Some(Json::Bool(false)))),
        Response::success(id, Json::Bool(false))
    );
}

// Framing.

#[test]
fn the_line_end_is_stripped_once() {
    assert_eq!(strip_line_end("abc\n"), "abc");
    assert_eq!(strip_line_end("abc\r\n"), "abc");
    assert_eq!(strip_line_end("abc"), "abc");
    assert_eq!(strip_line_end("abc\r"), "abc\r");
    assert_eq!(strip_line_end("abc\n\n"), "abc\n");
    assert_eq!(strip_line_end("\n"), "");
    assert_eq!(strip_line_end("\r\n"), "");
    assert_eq!(strip_line_end(""), "");
    assert_eq!(strip_line_end("世界\r\n"), "世界");
}

#[test]
fn a_message_is_written_as_one_line() {
    assert_eq!(line_of("{}"), "{}\n");
    assert_eq!(line_of(""), "\n");
}

// The HTTP endpoint.

#[test]
fn the_endpoint_answers_bodies() {
    let json_rpc = JsonRpc::new().add("echo", echo());
    let parse_error = r#"{"jsonrpc":"2.0","error":{"code":-32700,"message":"Parse error"},"id":null}"#;
    let json = Some("application/json".to_string());
    assert_eq!(
        handler(&json_rpc, Some(br#"{"jsonrpc":"2.0","method":"echo","params":"hi","id":1}"#.to_vec())),
        HttpReply {
            status: 200,
            content_type: json.clone(),
            body: r#"{"jsonrpc":"2.0","result":"hi","id":1}"#.to_string(),
        }
    );
    assert_eq!(
        handler(&json_rpc, Some(br#"{"jsonrpc":"2.0","method":"echo"}"#.to_vec())),
        HttpReply { status: 204, content_type: None, body: String::new() }
    );
    assert_eq!(
        handler(&json_rpc, Some(vec![0xff, 0xfe])),
        HttpReply { status: 400, content_type: json.clone(), body: parse_error.to_string() }
    );
    assert_eq!(
        handler(&json_rpc, None),
        HttpReply { status: 400, content_type: json.clone(), body: parse_error.to_string() }
    );
    assert_eq!(
        handler(&json_rpc, Some(b"{".to_vec())),
        HttpReply { status: 200, content_type: json.clone(), body: parse_error.to_string() }
    );
    assert_eq!(
        handler(&json_rpc, Some("\"世界\"".as_bytes().to_vec())).body,
        r#"{"jsonrpc":"2.0","error":{"code":-32600,"message":"Invalid Request"},"id":null}"#
    );
    assert_eq!(
        success_response("{}"),
        HttpReply { status: 200, content_type: json.clone(), body: "{}".to_string() }
    );
    assert_eq!(
        error_response(400, "{}"),
        HttpReply { status: 400, content_type: json, body: "{}".to_string() }
    );
}

#[test]
fn the_transport_answers_bodies_in_its_own_way() {
    let methods = Methods::new().add("echo", echo());
    let plain = Some("text/plain; charset=utf-8".to_string());
    assert_eq!(
        handle_jsonrpc(&methods, Ok(br#"{"jsonrpc":"2.0","method":"echo","params":1,"id":1}"#.to_vec())),
        HttpReply {
            status: 200,
            content_type: Some("application/json".to_string()),
            body: r#"{"jsonrpc":"2.0","result":1,"id":1}"#.to_string(),
        }
    );
    assert_eq!(
        handle_jsonrpc(&methods, Ok(br#"{"jsonrpc":"2.0","method":"echo"}"#.to_vec())),
        HttpReply { status: 200, content_type: None, body: String::new() }
    );
    assert_eq!(
        handle_jsonrpc(&methods, Ok(vec![0xc0])),
        HttpReply {
            status: 400,
            content_type: plain.clone(),
            body: "Invalid UTF-8 in request body".to_string(),
        }
    );
    assert_eq!(
        handle_jsonrpc(&methods, Err("length limit exceeded".to_string())),
        HttpReply {
            status: 400,
            content_type: plain,
            body: "Failed to read body: length limit exceeded".to_string(),
        }
    );
}

#[test]
fn unknown_methods_and_handed_params() {
    assert_eq!(
        not_found(&Request::new(RequestId::Number(2), "missing", None)),
        Response::error(RequestId::Number(2), ErrorObject::new(-32601, "Unknown method: missing", None))
    );
    assert_eq!(handed_params(&None), Json::Null);
    assert_eq!(handed_params(&Some(Json::Unsigned(3))), Json::Unsigned(3));
    assert_eq!(extract_id(&parse(r#"{"id":7}"#)), Some(RequestId::Number(7)));
    assert_eq!(extract_id(&parse(r#"{"id":[7]}"#)), None);
    assert_eq!(extract_id(&parse(r#"{"id":null}"#)), Some(RequestId::Null));
    assert_eq!(extract_id(&parse("[]")), None);
}

#[test]
fn defined_codes_are_the_standard_ones_and_the_server_range() {
    for code in [-32700, -32600, -32601, -32602, -32603, -32000, -32099, -32050] {
        assert!(ErrorObject::new(code, "m", None).has_defined_code());
    }
    for code in [0, 1, -1, -31999, -32100, -32604, -32699, i32::MIN, i32::MAX] {
        assert!(!ErrorObject::new(code, "m", None).has_defined_code());
    }
}
