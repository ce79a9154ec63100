use omegga::codec::encode;
use omegga::json::Json;
use omegga::rpc::{Error, Message, RequestId, Response};
use omegga::{Omegga, ResponseAwaiter, ResponseError, Routed};

fn s(text: &str) -> String {
    text.to_string()
}

#[test]
fn request_reply_round() {
    let mut om = Omegga::new();
    let (m, mut aw) = om.request(s("getPlayers"), None).unwrap();
    assert_eq!(aw.id(), &RequestId::Int(-1));
    assert_eq!(
        encode(&m),
        r#"{"jsonrpc":"2.0","id":-1,"method":"getPlayers","params":null}"#
    );
    assert!(om.is_pending(&RequestId::Int(-1)));
    assert_eq!(aw.poll(), None);
    let r = om.handle_line(r#"{"jsonrpc":"2.0","id":-1,"result":[]}"#);
    assert_eq!(r, Routed::Resolved(-1));
    assert!(!om.is_pending(&RequestId::Int(-1)));
    assert_eq!(aw.poll(), Some(Ok(Some(Json::Array(vec![])))));
}

#[test]
fn ids_are_unique_and_descending() {
    let mut om = Omegga::new();
    let mut seen = Vec::new();
    for k in 1..=50 {
        let (_, aw) = om.request(s("m"), None).unwrap();
        assert_eq!(aw.id(), &RequestId::Int(-k));
        assert!(!seen.contains(aw.id()));
        seen.push(aw.id().clone());
    }
}

#[test]
fn notification_is_delivered_in_order() {
    let mut om = Omegga::new();
    let a = om.handle_line(r#"{"jsonrpc":"2.0","method":"start","params":{"map":"Plate"}}"#);
    let b = om.handle_line(r#"{"jsonrpc":"2.0","method":"chat","params":["alice","hello"]}"#);
    let c = om.handle_line(r#"{"jsonrpc":"2.0","id":"init","method":"init","params":{}}"#);
    assert_eq!(
        a,
        Routed::Event(Message::notification(
            s("start"),
            Some(Json::Object(vec![(s("map"), Json::Str(s("Plate")))]))
        ))
    );
    assert_eq!(
        b,
        Routed::Event(Message::notification(
            s("chat"),
            Some(Json::Array(vec![Json::Str(s("alice")), Json::Str(s("hello"))]))
        ))
    );
    assert_eq!(
        c,
        Routed::Event(Message::request(RequestId::Str(s("init")), s("init"), Some(Json::Object(vec![]))))
    );
}

#[test]
fn bad_line_between_good_ones_is_skipped() {
    let mut om = Omegga::new();
    let (_, mut aw) = om.request(s("getSaves"), None).unwrap();
    let first = om.handle_line(r#"{"jsonrpc":"2.0","method":"chat","params":["bob","hi"]}"#);
    let bad = om.handle_line("not json");
    let second = om.handle_line(r#"{"jsonrpc":"2.0","id":-1,"result":["a"]}"#);
    assert!(matches!(first, Routed::Event(Message::Notification { .. })));
    assert_eq!(bad, Routed::Skipped);
    assert_eq!(second, Routed::Resolved(-1));
    assert_eq!(aw.poll(), Some(Ok(Some(Json::Array(vec![Json::Str(s("a"))])))));
}

#[test]
fn late_reply_is_dropped() {
    let mut om = Omegga::new();
    let (_, mut aw) = om.request(s("m"), None).unwrap();
    assert!(om.cancel(aw.id()));
    assert!(!om.cancel(&RequestId::Int(-1)));
    let r = om.handle_line(r#"{"jsonrpc":"2.0","id":-1,"result":1}"#);
    assert_eq!(r, Routed::Dropped);
    assert_eq!(aw.poll(), Some(Err(ResponseError::Recv)));
}

#[test]
fn unknown_and_duplicate_replies_are_dropped() {
    let mut om = Omegga::new();
    let (_, _aw) = om.request(s("m"), None).unwrap();
    assert_eq!(om.handle_line(r#"{"jsonrpc":"2.0","id":5,"result":1}"#), Routed::Dropped);
    assert_eq!(om.handle_line(r#"{"jsonrpc":"2.0","id":"x","result":1}"#), Routed::Dropped);
    assert_eq!(om.handle_line(r#"{"jsonrpc":"2.0","id":-1,"result":1}"#), Routed::Resolved(-1));
    assert_eq!(om.handle_line(r#"{"jsonrpc":"2.0","id":-1,"result":2}"#), Routed::Dropped);
}

#[test]
fn replies_resolve_out_of_order() {
    let mut om = Omegga::new();
    let (_, mut a) = om.request(s("first"), None).unwrap();
    let (_, mut b) = om.request(s("second"), None).unwrap();
    assert_eq!(a.id(), &RequestId::Int(-1));
    assert_eq!(b.id(), &RequestId::Int(-2));
    let r = om.handle_line(r#"{"jsonrpc":"2.0","id":-2,"result":"b"}"#);
    assert_eq!(r, Routed::Resolved(-2));
    assert_eq!(b.poll(), Some(Ok(Some(Json::Str(s("b"))))));
    assert_eq!(a.poll(), None);
    assert!(om.is_pending(&RequestId::Int(-1)));
}

#[test]
fn bounded_wait_times_out() {
    let mut om = Omegga::new();
    let (_, mut aw) = om.request(s("slow"), None).unwrap();
    let id = aw.id().clone();
    assert_eq!(om.time_out(&id), ResponseError::Timeout);
    assert!(!om.is_pending(&id));
    assert_eq!(om.handle_line(r#"{"jsonrpc":"2.0","id":-1,"result":1}"#), Routed::Dropped);
    assert_eq!(aw.poll(), Some(Err(ResponseError::Recv)));
}

#[test]
fn remote_error_is_surfaced() {
    let mut om = Omegga::new();
    let (_, mut aw) = om.request(s("m"), None).unwrap();
    let r = om.handle_line(r#"{"jsonrpc":"2.0","id":-1,"error":{"code":-32601,"message":"nope"}}"#);
    assert_eq!(r, Routed::Resolved(-1));
    let e = Error { code: -32601, message: s("nope"), data: None };
    assert_eq!(aw.poll(), Some(Err(ResponseError::Rpc(e))));
}

#[test]
fn closing_resolves_everything_pending() {
    let mut om = Omegga::new();
    let (_, mut a) = om.request(s("x"), None).unwrap();
    let (_, mut b) = om.request(s("y"), None).unwrap();
    om.close();
    assert!(!om.is_pending(&RequestId::Int(-1)));
    assert_eq!(a.poll(), Some(Err(ResponseError::Recv)));
    assert_eq!(b.poll(), Some(Err(ResponseError::Recv)));
    let (_, c) = om.request(s("z"), None).unwrap();
    assert_eq!(c.id(), &RequestId::Int(-3));
}

#[test]
fn outcome_mapping() {
    assert_eq!(ResponseAwaiter::outcome(None), Err(ResponseError::Recv));
    let ok = Response { id: RequestId::Int(-1), result: Some(Json::Int(3)), error: None };
    assert_eq!(ResponseAwaiter::outcome(Some(ok)), Ok(Some(Json::Int(3))));
    let e = Error { code: 1, message: s("m"), data: None };
    let bad = Response { id: RequestId::Int(-1), result: Some(Json::Int(3)), error: Some(e) };
    assert_eq!(
        ResponseAwaiter::outcome(Some(bad)),
        Err(ResponseError::Rpc(Error { code: 1, message: s("m"), data: None }))
    );
}

#[test]
fn response_through_route() {
    let mut om = Omegga::new();
    assert_eq!(om.route(None).0, Routed::Skipped);
    let n = Message::notification(s("n"), None);
    assert_eq!(om.route(Some(n)).0, Routed::Event(Message::notification(s("n"), None)));
}

#[test]
fn route_hands_over_the_reply() {
    let mut om = Omegga::new();
    let (_, mut aw) = om.request(s("m"), None).unwrap();
    let reply = Message::response(RequestId::Int(-1), Some(Json::Str(s("ok"))), None);
    let (routed, delivery) = om.route(Some(reply));
    assert_eq!(routed, Routed::Resolved(-1));
    assert_eq!(aw.poll(), None);
    delivery.unwrap().deliver();
    assert_eq!(aw.poll(), Some(Ok(Some(Json::Str(s("ok"))))));
}

#[test]
fn reply_with_method_resolves_the_request() {
    let mut om = Omegga::new();
    let (_, mut aw) = om.request(s("m"), None).unwrap();
    let r = om.handle_line(r#"{"jsonrpc":"2.0","id":-1,"method":"m","result":1}"#);
    assert_eq!(r, Routed::Resolved(-1));
    assert_eq!(aw.poll(), Some(Ok(Some(Json::Int(1)))));
}
