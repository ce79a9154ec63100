use omegga::codec::{decode, encode};
use omegga::json::Json;
use omegga::rpc::{Error, Message, RequestId, Response};

fn s(text: &str) -> String {
    text.to_string()
}

fn round_trip(m: Message) {
    let line = encode(&m);
    assert!(!line.contains('\n'));
    assert_eq!(decode(&line), Some(m));
}

#[test]
fn encodes_request_with_null_params() {
    let m = Message::request(RequestId::Int(-1), s("getPlayers"), None);
    assert_eq!(
        encode(&m),
        r#"{"jsonrpc":"2.0","id":-1,"method":"getPlayers","params":null}"#
    );
}

#[test]
fn encodes_response_and_notification() {
    let m = Message::response(RequestId::Str(s("a")), Some(Json::Bool(true)), None);
    assert_eq!(encode(&m), r#"{"jsonrpc":"2.0","id":"a","result":true,"error":null}"#);
    let e = Error { code: -32601, message: s("no such method"), data: None };
    let m = Message::response(RequestId::Int(7), None, Some(e));
    assert_eq!(
        encode(&m),
        r#"{"jsonrpc":"2.0","id":7,"result":null,"error":{"code":-32601,"message":"no such method","data":null}}"#
    );
    let m = Message::notification(s("log"), Some(Json::Str(s("hi"))));
    assert_eq!(encode(&m), r#"{"jsonrpc":"2.0","method":"log","params":"hi"}"#);
}

#[test]
fn escapes_strings_on_one_line() {
    let m = Message::notification(s("say \"x\""), Some(Json::Str(s("a\nb\\c"))));
    assert_eq!(
        encode(&m),
        r#"{"jsonrpc":"2.0","method":"say \"x\"","params":"a\nb\\c"}"#
    );
}

#[test]
fn round_trips_each_variant() {
    let nested = Json::Object(vec![
        (s("xs"), Json::Array(vec![Json::Int(1), Json::Number(s("2.5")), Json::Null])),
        (s("ok"), Json::Bool(false)),
    ]);
    round_trip(Message::request(RequestId::Int(-3), s("player.get"), Some(nested)));
    round_trip(Message::request(RequestId::Str(s("init")), s("init"), None));
    round_trip(Message::response(RequestId::Int(i32::MIN), Some(Json::Array(vec![])), None));
    round_trip(Message::response(RequestId::Int(4), None, None));
    round_trip(Message::response(
        RequestId::Str(s("q")),
        None,
        Some(Error { code: 3, message: s("bad"), data: Some(Json::Str(s("why"))) }),
    ));
    round_trip(Message::notification(
        s("chat"),
        Some(Json::Array(vec![Json::Str(s("alice")), Json::Str(s("hello"))])),
    ));
    round_trip(Message::notification(s("stop"), None));
}

#[test]
fn json_form_reads_back() {
    let m = Message::request(RequestId::Int(9), s("m"), Some(Json::Int(1)));
    let j = Message::request(RequestId::Int(9), s("m"), Some(Json::Int(1))).to_json();
    assert_eq!(Message::from_json(j), Some(m));
}

#[test]
fn decodes_notification() {
    let m = decode(r#"{"jsonrpc":"2.0","method":"chat","params":["alice","hello"]}"#);
    assert_eq!(
        m,
        Some(Message::notification(
            s("chat"),
            Some(Json::Array(vec![Json::Str(s("alice")), Json::Str(s("hello"))]))
        ))
    );
}

#[test]
fn reply_members_take_precedence_over_method() {
    let m = decode(r#"{"jsonrpc":"2.0","id":5,"method":"x","result":1}"#);
    assert_eq!(m, Some(Message::response(RequestId::Int(5), Some(Json::Int(1)), None)));
}

#[test]
fn bare_id_is_an_empty_response() {
    let m = decode(r#"{"jsonrpc":"2.0","id":"k"}"#);
    assert_eq!(m, Some(Message::response(RequestId::Str(s("k")), None, None)));
}

#[test]
fn null_payloads_read_as_none() {
    let m = decode(r#"{"jsonrpc":"2.0","id":1,"method":"m","params":null}"#);
    assert_eq!(m, Some(Message::request(RequestId::Int(1), s("m"), None)));
}

#[test]
fn unusable_id_falls_back_to_notification() {
    let m = decode(r#"{"jsonrpc":"2.0","id":1.5,"method":"m"}"#);
    assert_eq!(m, Some(Message::notification(s("m"), None)));
    let m = decode(r#"{"jsonrpc":"2.0","id":3000000000,"method":"m"}"#);
    assert_eq!(m, Some(Message::notification(s("m"), None)));
}

#[test]
fn rejects_malformed_frames() {
    assert_eq!(decode("not json"), None);
    assert_eq!(decode(""), None);
    assert_eq!(decode("[1,2]"), None);
    assert_eq!(decode(r#"{"id":1,"method":"m"}"#), None);
    assert_eq!(decode(r#"{"jsonrpc":2,"method":"m"}"#), None);
    assert_eq!(decode(r#"{"jsonrpc":"2.0"}"#), None);
    assert_eq!(decode(r#"{"jsonrpc":"2.0","id":1,"error":"bad"}"#), None);
    assert_eq!(decode(r#"{"jsonrpc":"2.0","id":null,"result":1}"#), None);
}

#[test]
fn decodes_error_object() {
    let m = decode(r#"{"jsonrpc":"2.0","id":-1,"error":{"code":-32000,"message":"denied","data":{"why":"x"}}}"#);
    let e = Error {
        code: -32000,
        message: s("denied"),
        data: Some(Json::Object(vec![(s("why"), Json::Str(s("x")))])),
    };
    assert_eq!(m, Some(Message::response(RequestId::Int(-1), None, Some(e))));
}

#[test]
fn parses_numbers() {
    assert_eq!(Json::parse("-7"), Some(Json::Int(-7)));
    assert_eq!(Json::parse("1.5"), Some(Json::Number(s("1.5"))));
    assert_eq!(
        Json::parse("18446744073709551615"),
        Some(Json::Number(s("18446744073709551615")))
    );
    assert_eq!(Json::parse("{\"a\":[true,null]}").map(|j| j.to_text()), Some(s("{\"a\":[true,null]}")));
    assert_eq!(Json::parse("{"), None);
}

#[test]
fn response_conversions() {
    let r = Response::try_from(Message::response(RequestId::Int(2), Some(Json::Int(1)), None));
    assert_eq!(r, Ok(Response { id: RequestId::Int(2), result: Some(Json::Int(1)), error: None }));
    assert_eq!(Response::try_from(Message::notification(s("x"), None)), Err(()));
    let m = Message::from(Response { id: RequestId::Int(3), result: None, error: None });
    assert_eq!(m, Message::response(RequestId::Int(3), None, None));
    assert_eq!(RequestId::from(s("a")), RequestId::Str(s("a")));
    assert_eq!(RequestId::from(-4), RequestId::Int(-4));
}

#[test]
fn line_breaks_in_strings_stay_escaped() {
    let m = Message::request(RequestId::Str(s("a\nb")), s("x\ny"), Some(Json::Str(s("\n"))));
    let line = encode(&m);
    assert!(!line.contains('\n'));
    assert_eq!(decode(&line), Some(m));
}
