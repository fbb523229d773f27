//! The error handling of a handler with the methods `hello` and
//! `internal_error`, message by message.

use json_rpc::error::Error;
use json_rpc::json::Json;
use json_rpc::jsonrpc::JsonRpc;
use json_rpc::methods::HandlerFn;

struct Method(Box<dyn Fn(Json) -> Result<Json, Error>>);

impl HandlerFn for Method {
    fn call(&self, params: Json) -> Result<Json, Error> {
        (self.0)(params)
    }
}

fn text_param(params: &Json) -> Result<String, Error> {
    let value: serde_json::Value = serde_json::from_str(&params.to_text()).unwrap();
    serde_json::from_value::<String>(value).map_err(|e| Error::ParseError(e.to_string()))
}

fn hello(params: Json) -> Result<Json, Error> {
    let text = text_param(&params)?;
    if text == "world" {
        Ok(Json::String(format!("Hello, {}!", text)))
    } else {
        Err(Error::rpc(-32000, "text must be 'world'"))
    }
}

fn internal_error(_params: Json) -> Result<Json, Error> {
    Err(Error::protocol("Internal error occurred"))
}

fn send_request(request: &str) -> String {
    let json_rpc = JsonRpc::new()
        .add("hello", Method(Box::new(hello)))
        .add("internal_error", Method(Box::new(internal_error)));
    match json_rpc.call(request.trim()) {
        Some(response) => format!("{}\n", response),
        None => String::new(),
    }
}

#[test]
fn basic_stdio_hello_success() {
    let request = r##"{"id":1,"jsonrpc":"2.0","method":"hello","params":"world"}"##;
    let response = send_request(request).trim_end().to_string();
    let expected_response = r##"{"jsonrpc":"2.0","result":"Hello, world!","id":1}"##;
    assert_eq!(response, expected_response);
}

#[test]
fn basic_stdio_parse_error_invalid_json() {
    let request = r##"{"jsonrpc":"2.0","method":"hello","params":"world""##;
    let response = send_request(request).trim_end().to_string();
    let expected_response = r##"{"jsonrpc":"2.0","error":{"code":-32700,"message":"Parse error"},"id":null}"##;
    assert_eq!(response, expected_response);
}

#[test]
fn basic_stdio_parse_error_malformed_json() {
    let request = r##"invalid json"##;
    let response = send_request(request).trim_end().to_string();
    let expected_response = r##"{"jsonrpc":"2.0","error":{"code":-32700,"message":"Parse error"},"id":null}"##;
    assert_eq!(response, expected_response);
}

#[test]
fn basic_stdio_invalid_request_missing_jsonrpc() {
    let request = r##"{"id":1,"method":"hello","params":"world"}"##;
    let response = send_request(request).trim_end().to_string();
    let expected_response = r##"{"jsonrpc":"2.0","error":{"code":-32600,"message":"Invalid Request"},"id":1}"##;
    assert_eq!(response, expected_response);
}

#[test]
fn basic_stdio_invalid_request_missing_method() {
    let request = r##"{"id":1,"jsonrpc":"2.0","params":"world"}"##;
    let response = send_request(request).trim_end().to_string();
    let expected_response = r##"{"jsonrpc":"2.0","error":{"code":-32600,"message":"Invalid Request"},"id":1}"##;
    assert_eq!(response, expected_response);
}

#[test]
fn basic_stdio_invalid_request_invalid_jsonrpc_value() {
    let request = r##"{"id":1,"jsonrpc":"1.0","method":"hello","params":"world"}"##;
    let response = send_request(request).trim_end().to_string();
    let expected_response = r##"{"jsonrpc":"2.0","error":{"code":-32600,"message":"Invalid Request"},"id":1}"##;
    assert_eq!(response, expected_response);
}

#[test]
fn basic_stdio_invalid_request_method_wrong_type() {
    let request = r##"{"id":1,"jsonrpc":"2.0","method":123,"params":"world"}"##;
    let response = send_request(request).trim_end().to_string();
    let expected_response = r##"{"jsonrpc":"2.0","error":{"code":-32600,"message":"Invalid Request"},"id":1}"##;
    assert_eq!(response, expected_response);
}

#[test]
fn basic_stdio_invalid_request_empty_object() {
    let request = r##"{}"##;
    let response = send_request(request).trim_end().to_string();
    let expected_response = r##"{"jsonrpc":"2.0","error":{"code":-32600,"message":"Invalid Request"},"id":null}"##;
    assert_eq!(response, expected_response);
}

#[test]
fn basic_stdio_method_not_found_nonexistent_method() {
    let request = r##"{"id":1,"jsonrpc":"2.0","method":"nonexistent","params":"test"}"##;
    let response = send_request(request).trim_end().to_string();
    let expected_response = r##"{"jsonrpc":"2.0","error":{"code":-32601,"message":"Unknown method: nonexistent"},"id":1}"##;
    assert_eq!(response, expected_response);
}

#[test]
fn basic_stdio_invalid_params_missing_for_hello() {
    let request = r##"{"id":1,"jsonrpc":"2.0","method":"hello"}"##;
    let response = send_request(request).trim_end().to_string();
    let expected_response = r##"{"jsonrpc":"2.0","error":{"code":-32603,"message":"Protocol error: invalid type: null, expected a string"},"id":1}"##;
    assert_eq!(response, expected_response);
}

#[test]
fn basic_stdio_invalid_params_wrong_type() {
    let request = r##"{"id":1,"jsonrpc":"2.0","method":"hello","params":123}"##;
    let response = send_request(request).trim_end().to_string();
    let expected_response = r##"{"jsonrpc":"2.0","error":{"code":-32603,"message":"Protocol error: invalid type: integer `123`, expected a string"},"id":1}"##;
    assert_eq!(response, expected_response);
}

#[test]
fn basic_stdio_invalid_params_object_instead_of_string() {
    let request = r##"{"id":1,"jsonrpc":"2.0","method":"hello","params":{"text":"world"}}"##;
    let response = send_request(request).trim_end().to_string();
    let expected_response = r##"{"jsonrpc":"2.0","error":{"code":-32603,"message":"Protocol error: invalid type: map, expected a string"},"id":1}"##;
    assert_eq!(response, expected_response);
}

#[test]
fn basic_stdio_invalid_params_multiple_params() {
    let request = r##"{"id":1,"jsonrpc":"2.0","method":"hello","params":["world","extra"]}"##;
    let response = send_request(request).trim_end().to_string();
    let expected_response = r##"{"jsonrpc":"2.0","error":{"code":-32603,"message":"Protocol error: invalid type: sequence, expected a string"},"id":1}"##;
    assert_eq!(response, expected_response);
}

#[test]
fn basic_stdio_internal_error() {
    let request = r##"{"id":1,"jsonrpc":"2.0","method":"internal_error"}"##;
    let response = send_request(request).trim_end().to_string();
    let expected_response = r##"{"jsonrpc":"2.0","error":{"code":-32603,"message":"Protocol error: Internal error occurred"},"id":1}"##;
    assert_eq!(response, expected_response);
}

#[test]
fn basic_stdio_server_error_custom() {
    let request = r##"{"id":1,"jsonrpc":"2.0","method":"hello","params":"earth"}"##;
    let response = send_request(request).trim_end().to_string();
    let expected_response = r##"{"jsonrpc":"2.0","error":{"code":-32000,"message":"text must be 'world'"},"id":1}"##;
    assert_eq!(response, expected_response);
}

#[test]
fn basic_stdio_batch_invalid_request_empty_array() {
    let request = r##"[]"##;
    let response = send_request(request).trim_end().to_string();
    let expected_response = r##"{"jsonrpc":"2.0","error":{"code":-32600,"message":"Invalid Request"},"id":null}"##;
    assert_eq!(response, expected_response);
}

#[test]
fn basic_stdio_batch_invalid_individual_request() {
    let request = r##"[1]"##;
    let response = send_request(request).trim_end().to_string();
    let expected_response = r##"[{"jsonrpc":"2.0","error":{"code":-32600,"message":"Invalid Request"},"id":null}]"##;
    assert_eq!(response, expected_response);
}

#[test]
fn basic_stdio_batch_mixed_valid_invalid_requests() {
    let request = r##"[{"id":1,"jsonrpc":"2.0","method":"hello","params":"world"},{"foo":"boo"},{"id":2,"jsonrpc":"2.0","method":"hello","params":"earth"}]"##;
    let response = send_request(request).trim_end().to_string();
    let expected_response = r##"[{"jsonrpc":"2.0","result":"Hello, world!","id":1},{"jsonrpc":"2.0","error":{"code":-32600,"message":"Invalid Request"},"id":null},{"jsonrpc":"2.0","error":{"code":-32000,"message":"text must be 'world'"},"id":2}]"##;
    assert_eq!(response, expected_response);
}

#[test]
fn basic_stdio_notification_valid_no_response() {
    let request = r##"{"jsonrpc":"2.0","method":"hello","params":"world"}"##;
    let response = send_request(request);
    assert_eq!(response, "");
}

#[test]
fn basic_stdio_notification_with_invalid_params_no_response() {
    let request = r##"{"jsonrpc":"2.0","method":"hello","params":123}"##;
    let response = send_request(request);
    assert_eq!(response, "");
}

#[test]
fn basic_stdio_notification_nonexistent_method_no_response() {
    let request = r##"{"jsonrpc":"2.0","method":"nonexistent","params":"test"}"##;
    let response = send_request(request);
    assert_eq!(response, "");
}

#[test]
fn basic_stdio_hello_with_empty_string() {
    let request = r##"{"id":1,"jsonrpc":"2.0","method":"hello","params":""}"##;
    let response = send_request(request).trim_end().to_string();
    let expected_response = r##"{"jsonrpc":"2.0","error":{"code":-32000,"message":"text must be 'world'"},"id":1}"##;
    assert_eq!(response, expected_response);
}

#[test]
fn basic_stdio_hello_case_sensitive() {
    let request = r##"{"id":1,"jsonrpc":"2.0","method":"hello","params":"World"}"##;
    let response = send_request(request).trim_end().to_string();
    let expected_response = r##"{"jsonrpc":"2.0","error":{"code":-32000,"message":"text must be 'world'"},"id":1}"##;
    assert_eq!(response, expected_response);
}

#[test]
fn basic_stdio_method_not_found_with_params() {
    let request = r##"{"id":1,"jsonrpc":"2.0","method":"unknown","params":{"key":"value"}}"##;
    let response = send_request(request).trim_end().to_string();
    let expected_response = r##"{"jsonrpc":"2.0","error":{"code":-32601,"message":"Unknown method: unknown"},"id":1}"##;
    assert_eq!(response, expected_response);
}
