//! The envelope codec: a `Message` as a JSON object, and as one line of text.
//!
//! Decoding reads the object's members structurally. A frame with a `result`
//! or `error` member is tried as a `Response` first; then a frame with an `id`
//! and a `method` is a `Request`; then one with a `method` is a
//! `Notification`; last, one with only a usable `id` is a `Response` with
//! neither result nor error. Every message must carry a string `jsonrpc`.
use vstd::prelude::*;

use crate::json::{parsed, no_newline, one_line, lemma_concat_no_newline, lemma_decimal_one_line, decimal_text, int_text, items_text, json_quoted, json_text, member_text, members_text, quote, write_json, Json};
use crate::rpc::{Error, Message, RequestId};

verus! {

pub open spec fn key_jsonrpc() -> Seq<char> {
    seq!['j', 's', 'o', 'n', 'r', 'p', 'c']
}

pub open spec fn key_id() -> Seq<char> {
    seq!['i', 'd']
}

pub open spec fn key_method() -> Seq<char> {
    seq!['m', 'e', 't', 'h', 'o', 'd']
}

pub open spec fn key_params() -> Seq<char> {
    seq!['p', 'a', 'r', 'a', 'm', 's']
}

pub open spec fn key_result() -> Seq<char> {
    seq!['r', 'e', 's', 'u', 'l', 't']
}

pub open spec fn key_error() -> Seq<char> {
    seq!['e', 'r', 'r', 'o', 'r']
}

pub open spec fn key_code() -> Seq<char> {
    seq!['c', 'o', 'd', 'e']
}

pub open spec fn key_message() -> Seq<char> {
    seq!['m', 'e', 's', 's', 'a', 'g', 'e']
}

pub open spec fn key_data() -> Seq<char> {
    seq!['d', 'a', 't', 'a']
}

/// The value of the last member named `key`, as serde_json keeps the last of
/// repeated keys.
pub open spec fn member(ms: Seq<(String, Json)>, key: Seq<char>) -> Option<Json>
    decreases ms.len(),
{
    if ms.len() == 0 {
        None
    } else {
        let rest = member(ms.drop_first(), key);
        if rest is Some {
            rest
        } else if ms[0].0@ == key {
            Some(ms[0].1)
        } else {
            None
        }
    }
}

/// An optional payload: a missing member and `null` both mean none.
pub open spec fn payload_of(v: Option<Json>) -> Option<Json> {
    match v {
        Some(Json::Null) => None,
        _ => v,
    }
}

/// A request id: a string, or an integer in the range of `i32`.
pub open spec fn id_of(v: Option<Json>) -> Option<RequestId> {
    match v {
        Some(Json::Str(s)) => Some(RequestId::Str(s)),
        Some(Json::Int(i)) => if i32::MIN <= i <= i32::MAX {
            Some(RequestId::Int(i as i32))
        } else {
            None
        },
        _ => None,
    }
}

pub open spec fn text_of(v: Option<Json>) -> Option<String> {
    match v {
        Some(Json::Str(s)) => Some(s),
        _ => None,
    }
}

pub open spec fn code_of(v: Option<Json>) -> Option<i32> {
    match v {
        Some(Json::Int(i)) => if i32::MIN <= i <= i32::MAX {
            Some(i as i32)
        } else {
            None
        },
        _ => None,
    }
}

/// The `error` member: `Some(None)` when it is missing or `null`,
/// `Some(Some(e))` for a well-formed error object, `None` otherwise.
pub open spec fn error_of(v: Option<Json>) -> Option<Option<Error>> {
    match v {
        None => Some(None),
        Some(Json::Null) => Some(None),
        Some(Json::Object(ms)) => match (code_of(member(ms@, key_code())), text_of(member(ms@, key_message()))) {
            (Some(code), Some(message)) => Some(
                Some(Error { code, message, data: payload_of(member(ms@, key_data())) }),
            ),
            _ => None,
        },
        _ => None,
    }
}

/// The message that the members of a JSON object frame, if any.
pub open spec fn members_message(ms: Seq<(String, Json)>) -> Option<Message> {
    let jsonrpc = text_of(member(ms, key_jsonrpc()));
    let id = id_of(member(ms, key_id()));
    let method = text_of(member(ms, key_method()));
    let error = error_of(member(ms, key_error()));
    let replied = member(ms, key_result()) is Some || member(ms, key_error()) is Some;
    let response_ok = id is Some && error is Some;
    if jsonrpc is None {
        None
    } else if replied && response_ok {
        Some(Message::Response {
            jsonrpc: jsonrpc->0,
            id: id->0,
            result: payload_of(member(ms, key_result())),
            error: error->0,
        })
    } else if id is Some && method is Some {
        Some(Message::Request {
            jsonrpc: jsonrpc->0,
            id: id->0,
            method: method->0,
            params: payload_of(member(ms, key_params())),
        })
    } else if method is Some {
        Some(Message::Notification {
            jsonrpc: jsonrpc->0,
            method: method->0,
            params: payload_of(member(ms, key_params())),
        })
    } else if response_ok {
        Some(Message::Response { jsonrpc: jsonrpc->0, id: id->0, result: None, error: error->0 })
    } else {
        None
    }
}

/// The message that a JSON value frames, if any: it must be an object.
pub open spec fn message_of(j: Json) -> Option<Message> {
    match j {
        Json::Object(ms) => members_message(ms@),
        _ => None,
    }
}

/// Takes the members apart: for each of `keys`, the value of the last member
/// of that name.
fn take_members(ms: Vec<(String, Json)>, keys: &Vec<String>) -> (slots: Vec<Option<Json>>)
    requires
        forall|a: int, b: int| 0 <= a < b < keys.len() ==> keys[a]@ != keys[b]@,
    ensures
        slots.len() == keys.len(),
        forall|i: int| 0 <= i < keys.len() ==> slots[i] == member(ms@, keys[i]@),
{
    let ghost all = ms@;
    let mut ms = ms;
    let mut slots: Vec<Option<Json>> = Vec::new();
    let mut i: usize = 0;
    while i < keys.len()
        invariant
            i <= keys.len(),
            slots.len() == i,
            forall|k: int| 0 <= k < i ==> slots[k] is None,
        decreases keys.len() - i,
    {
        slots.push(None);
        i = i + 1;
    }
    proof {
        assert(all.skip(all.len() as int) =~= Seq::<(String, Json)>::empty());
    }
    while ms.len() > 0
        invariant
            slots.len() == keys.len(),
            ms@ == all.take(ms.len() as int),
            ms.len() <= all.len(),
            forall|a: int, b: int| 0 <= a < b < keys.len() ==> keys[a]@ != keys[b]@,
            forall|k: int| 0 <= k < keys.len() ==> slots[k] == member(all.skip(ms.len() as int), keys[k]@),
        decreases ms.len(),
    {
        let ghost before = slots@;
        let entry = ms.pop().unwrap();
        let (name, value) = entry;
        let ghost rest = all.skip(ms.len() + 1);
        let ghost here = all.skip(ms.len() as int);
        proof {
            assert(here.drop_first() =~= rest);
            assert(here[0] == all[ms.len() as int]);
            assert(all.take(ms.len() + 1)[ms.len() as int] == all[ms.len() as int]);
        }
        let mut j: usize = 0;
        let mut found: usize = keys.len();
        while j < keys.len()
            invariant
                j <= keys.len(),
                found <= keys.len(),
                found < keys.len() ==> keys[found as int]@ == name@,
                found == keys.len() ==> forall|k: int| 0 <= k < j ==> keys[k]@ != name@,
            decreases keys.len() - j,
        {
            if found == keys.len() && keys[j] == name {
                found = j;
            }
            j = j + 1;
        }
        if found < keys.len() && slots[found].is_none() {
            slots[found] = Some(value);
        }
        proof {
            assert(name == here[0].0 && value == here[0].1);
            assert forall|k: int| 0 <= k < keys.len() implies slots[k] == member(here, keys[k]@) by {
                assert(before[k] == member(rest, keys[k]@));
                assert(member(here, keys[k]@) == (if member(rest, keys[k]@) is Some {
                    member(rest, keys[k]@)
                } else if here[0].0@ == keys[k]@ {
                    Some(here[0].1)
                } else {
                    None
                }));
            }
            assert(ms@ =~= all.take(ms.len() as int));
        }
    }
    proof {
        assert(all.skip(0) =~= all);
    }
    slots
}

fn payload_from(v: Option<Json>) -> (r: Option<Json>)
    ensures
        r == payload_of(v),
{
    match v {
        Some(Json::Null) => None,
        _ => v,
    }
}

fn id_from(v: Option<Json>) -> (r: Option<RequestId>)
    ensures
        r == id_of(v),
{
    match v {
        Some(Json::Str(s)) => Some(RequestId::Str(s)),
        Some(Json::Int(i)) => if i32::MIN as i64 <= i && i <= i32::MAX as i64 {
            Some(RequestId::Int(i as i32))
        } else {
            None
        },
        _ => None,
    }
}

fn text_from(v: Option<Json>) -> (r: Option<String>)
    ensures
        r == text_of(v),
{
    match v {
        Some(Json::Str(s)) => Some(s),
        _ => None,
    }
}

fn code_from(v: Option<Json>) -> (r: Option<i32>)
    ensures
        r == code_of(v),
{
    match v {
        Some(Json::Int(i)) => if i32::MIN as i64 <= i && i <= i32::MAX as i64 {
            Some(i as i32)
        } else {
            None
        },
        _ => None,
    }
}

fn key(s: &str) -> (r: String)
    ensures
        r@ == s@,
{
    String::from_str(s)
}

fn error_keys() -> (keys: Vec<String>)
    ensures
        keys.len() == 3,
        keys[0]@ == key_code(),
        keys[1]@ == key_message(),
        keys[2]@ == key_data(),
{
    proof {
        reveal_strlit("code");
        reveal_strlit("message");
        reveal_strlit("data");
    }
    let mut keys: Vec<String> = Vec::new();
    keys.push(key("code"));
    keys.push(key("message"));
    keys.push(key("data"));
    proof {
        assert(keys[0]@ =~= key_code());
        assert(keys[1]@ =~= key_message());
        assert(keys[2]@ =~= key_data());
    }
    keys
}

fn envelope_keys() -> (keys: Vec<String>)
    ensures
        keys.len() == 6,
        keys[0]@ == key_jsonrpc(),
        keys[1]@ == key_id(),
        keys[2]@ == key_method(),
        keys[3]@ == key_params(),
        keys[4]@ == key_result(),
        keys[5]@ == key_error(),
{
    proof {
        reveal_strlit("jsonrpc");
        reveal_strlit("id");
        reveal_strlit("method");
        reveal_strlit("params");
        reveal_strlit("result");
        reveal_strlit("error");
    }
    let mut keys: Vec<String> = Vec::new();
    keys.push(key("jsonrpc"));
    keys.push(key("id"));
    keys.push(key("method"));
    keys.push(key("params"));
    keys.push(key("result"));
    keys.push(key("error"));
    proof {
        assert(keys[0]@ =~= key_jsonrpc());
        assert(keys[1]@ =~= key_id());
        assert(keys[2]@ =~= key_method());
        assert(keys[3]@ =~= key_params());
        assert(keys[4]@ =~= key_result());
        assert(keys[5]@ =~= key_error());
    }
    keys
}

proof fn lemma_keys_differ()
    ensures
        key_jsonrpc() != key_id(),
        key_jsonrpc() != key_method(),
        key_jsonrpc() != key_params(),
        key_jsonrpc() != key_result(),
        key_jsonrpc() != key_error(),
        key_id() != key_method(),
        key_id() != key_params(),
        key_id() != key_result(),
        key_id() != key_error(),
        key_method() != key_params(),
        key_method() != key_result(),
        key_method() != key_error(),
        key_params() != key_result(),
        key_params() != key_error(),
        key_result() != key_error(),
        key_code() != key_message(),
        key_code() != key_data(),
        key_message() != key_data(),
{
    assert(key_jsonrpc().len() != key_id().len());
    assert(key_jsonrpc().len() != key_method().len());
    assert(key_jsonrpc().len() != key_params().len());
    assert(key_jsonrpc().len() != key_result().len());
    assert(key_jsonrpc().len() != key_error().len());
    assert(key_id().len() != key_method().len());
    assert(key_id().len() != key_params().len());
    assert(key_id().len() != key_result().len());
    assert(key_id().len() != key_error().len());
    assert(key_method()[0] != key_params()[0]);
    assert(key_method()[0] != key_result()[0]);
    assert(key_method().len() != key_error().len());
    assert(key_params()[0] != key_result()[0]);
    assert(key_params().len() != key_error().len());
    assert(key_result().len() != key_error().len());
    assert(key_code().len() != key_message().len());
    assert(key_code()[0] != key_data()[0]);
    assert(key_message().len() != key_data().len());
}

fn error_from(v: Option<Json>) -> (r: Option<Option<Error>>)
    ensures
        r == error_of(v),
{
    match v {
        None => Some(None),
        Some(Json::Null) => Some(None),
        Some(Json::Object(ms)) => {
            let keys = error_keys();
            proof {
                lemma_keys_differ();
            }
            let mut slots = take_members(ms, &keys);
            let data = payload_from(slots.pop().unwrap());
            let message = text_from(slots.pop().unwrap());
            let code = code_from(slots.pop().unwrap());
            match (code, message) {
                (Some(code), Some(message)) => Some(Some(Error { code, message, data })),
                _ => None,
            }
        },
        _ => None,
    }
}

impl Message {
    /// The message that a JSON value frames; `None` when it frames none.
    pub fn from_json(j: Json) -> (r: Option<Message>)
        ensures
            r == message_of(j),
    {
        match j {
            Json::Object(ms) => {
                let keys = envelope_keys();
                proof {
                    lemma_keys_differ();
                }
                let mut slots = take_members(ms, &keys);
                let error_member = slots.pop().unwrap();
                let result_member = slots.pop().unwrap();
                let replied = result_member.is_some() || error_member.is_some();
                let error = error_from(error_member);
                let result = payload_from(result_member);
                let params = payload_from(slots.pop().unwrap());
                let method = text_from(slots.pop().unwrap());
                let id = id_from(slots.pop().unwrap());
                let jsonrpc = text_from(slots.pop().unwrap());
                let response_ok = id.is_some() && error.is_some();
                match jsonrpc {
                    None => None,
                    Some(jsonrpc) => if replied && response_ok {
                        Some(Message::Response { jsonrpc, id: id.unwrap(), result, error: error.unwrap() })
                    } else if id.is_some() && method.is_some() {
                        Some(Message::Request { jsonrpc, id: id.unwrap(), method: method.unwrap(), params })
                    } else if method.is_some() {
                        Some(Message::Notification { jsonrpc, method: method.unwrap(), params })
                    } else if response_ok {
                        Some(Message::Response { jsonrpc, id: id.unwrap(), result: None, error: error.unwrap() })
                    } else {
                        None
                    },
                }
            },
            _ => None,
        }
    }
}

/// What a missing optional value is written as.
pub open spec fn or_null(v: Option<Json>) -> Json {
    match v {
        Some(j) => j,
        None => Json::Null,
    }
}

pub open spec fn id_json(id: RequestId) -> Json {
    match id {
        RequestId::Str(s) => Json::Str(s),
        RequestId::Int(i) => Json::Int(i as i64),
    }
}

pub open spec fn is_member(m: (String, Json), key: Seq<char>, value: Json) -> bool {
    m.0@ == key && m.1 == value
}

/// `j` is the JSON object that frames the error `e`.
pub open spec fn encodes_error(e: Error, j: Json) -> bool {
    &&& j is Object
    &&& j->Object_0@.len() == 3
    &&& is_member(j->Object_0@[0], key_code(), Json::Int(e.code as i64))
    &&& is_member(j->Object_0@[1], key_message(), Json::Str(e.message))
    &&& is_member(j->Object_0@[2], key_data(), or_null(e.data))
}

pub open spec fn encodes_opt_error(e: Option<Error>, j: Json) -> bool {
    match e {
        Some(e) => encodes_error(e, j),
        None => j == Json::Null,
    }
}

/// `j` is the JSON object that frames the message `m`: the version tag, then
/// the variant's fields in their declared order, a missing optional value
/// written as `null`.
pub open spec fn encodes(m: Message, j: Json) -> bool {
    j is Object && {
        let ms = j->Object_0@;
        match m {
            Message::Request { jsonrpc, id, method, params } => {
                &&& ms.len() == 4
                &&& is_member(ms[0], key_jsonrpc(), Json::Str(jsonrpc))
                &&& is_member(ms[1], key_id(), id_json(id))
                &&& is_member(ms[2], key_method(), Json::Str(method))
                &&& is_member(ms[3], key_params(), or_null(params))
            },
            Message::Response { jsonrpc, id, result, error } => {
                &&& ms.len() == 4
                &&& is_member(ms[0], key_jsonrpc(), Json::Str(jsonrpc))
                &&& is_member(ms[1], key_id(), id_json(id))
                &&& is_member(ms[2], key_result(), or_null(result))
                &&& ms[3].0@ == key_error()
                &&& encodes_opt_error(error, ms[3].1)
            },
            Message::Notification { jsonrpc, method, params } => {
                &&& ms.len() == 3
                &&& is_member(ms[0], key_jsonrpc(), Json::Str(jsonrpc))
                &&& is_member(ms[1], key_method(), Json::Str(method))
                &&& is_member(ms[2], key_params(), or_null(params))
            },
        }
    }
}

/// One `"key":value` pair of the wire text.
pub open spec fn pair(key: Seq<char>, value: Seq<char>) -> Seq<char> {
    json_quoted(key) + seq![':'] + value
}

pub open spec fn opt_text(v: Option<Json>) -> Seq<char> {
    json_text(or_null(v))
}

pub open spec fn error_text(e: Option<Error>) -> Seq<char> {
    match e {
        None => seq!['n', 'u', 'l', 'l'],
        Some(e) => seq!['{'] + pair(key_code(), decimal_text(e.code as int)) + seq![','] + pair(
            key_message(),
            json_quoted(e.message@),
        ) + seq![','] + pair(key_data(), opt_text(e.data)) + seq!['}'],
    }
}

/// The wire text of a message: one JSON object on one line.
pub open spec fn message_text(m: Message) -> Seq<char> {
    match m {
        Message::Request { jsonrpc, id, method, params } => seq!['{'] + pair(
            key_jsonrpc(),
            json_quoted(jsonrpc@),
        ) + seq![','] + pair(key_id(), json_text(id_json(id))) + seq![','] + pair(
            key_method(),
            json_quoted(method@),
        ) + seq![','] + pair(key_params(), opt_text(params)) + seq!['}'],
        Message::Response { jsonrpc, id, result, error } => seq!['{'] + pair(
            key_jsonrpc(),
            json_quoted(jsonrpc@),
        ) + seq![','] + pair(key_id(), json_text(id_json(id))) + seq![','] + pair(
            key_result(),
            opt_text(result),
        ) + seq![','] + pair(key_error(), error_text(error)) + seq!['}'],
        Message::Notification { jsonrpc, method, params } => seq!['{'] + pair(
            key_jsonrpc(),
            json_quoted(jsonrpc@),
        ) + seq![','] + pair(key_method(), json_quoted(method@)) + seq![','] + pair(
            key_params(),
            opt_text(params),
        ) + seq!['}'],
    }
}

pub open spec fn opt_one_line(v: Option<Json>) -> bool {
    match v {
        Some(j) => one_line(j),
        None => true,
    }
}

pub open spec fn error_one_line(e: Option<Error>) -> bool {
    match e {
        Some(e) => opt_one_line(e.data),
        None => true,
    }
}

impl Message {
    /// Messages whose wire text is one line: no number text in a payload
    /// holds a line break.
    pub open spec fn one_line(self) -> bool {
        match self {
            Message::Request { params, .. } => opt_one_line(params),
            Message::Response { result, error, .. } => opt_one_line(result) && error_one_line(error),
            Message::Notification { params, .. } => opt_one_line(params),
        }
    }

    /// Messages that survive a trip through their JSON form unchanged: an
    /// optional value is never `Some(Json::Null)`, which reads back as none.
    pub open spec fn valid(self) -> bool {
        match self {
            Message::Request { params, .. } => params != Some(Json::Null),
            Message::Response { result, error, .. } => result != Some(Json::Null) && match error {
                Some(e) => e.data != Some(Json::Null),
                None => true,
            },
            Message::Notification { params, .. } => params != Some(Json::Null),
        }
    }
}

fn write_quoted(out: &mut String, s: &str)
    ensures
        final(out)@ == old(out)@ + json_quoted(s@),
        no_newline(json_quoted(s@)),
{
    let t = quote(s);
    out.append(t.as_str());
}

/// Appends `"key":` for a key whose view is `k`.
fn write_key(out: &mut String, key: &str, k: Ghost<Seq<char>>)
    requires
        key@ =~= k@,
    ensures
        final(out)@ == old(out)@ + json_quoted(k@) + seq![':'],
        no_newline(json_quoted(k@)),
{
    proof {
        reveal_strlit(":");
    }
    write_quoted(out, key);
    out.append(":");
}

fn write_opt(out: &mut String, v: &Option<Json>)
    ensures
        final(out)@ == old(out)@ + opt_text(*v),
        opt_one_line(*v) ==> no_newline(opt_text(*v)),
{
    match v {
        Some(j) => write_json(j, out),
        None => write_json(&Json::Null, out),
    }
}

fn write_id(out: &mut String, id: &RequestId)
    ensures
        final(out)@ == old(out)@ + json_text(id_json(*id)),
        no_newline(json_text(id_json(*id))),
{
    match id {
        RequestId::Str(s) => write_quoted(out, s.as_str()),
        RequestId::Int(i) => {
            let t = int_text(*i as i64);
            out.append(t.as_str());
            proof {
                lemma_decimal_one_line(*i as int);
            }
        },
    }
}

fn write_error(out: &mut String, e: &Option<Error>)
    ensures
        final(out)@ == old(out)@ + error_text(*e),
        error_one_line(*e) ==> no_newline(error_text(*e)),
{
    proof {
        reveal_strlit("null");
        reveal_strlit("{");
        reveal_strlit("}");
        reveal_strlit(",");
        reveal_strlit("code");
        reveal_strlit("message");
        reveal_strlit("data");
    }
    match e {
        None => {
            out.append("null");
            assert(no_newline(seq!['n', 'u', 'l', 'l']));
        },
        Some(e) => {
            let ghost start = out@;
            out.append("{");
            write_key(out, "code", Ghost(key_code()));
            let t = int_text(e.code as i64);
            out.append(t.as_str());
            out.append(",");
            write_key(out, "message", Ghost(key_message()));
            write_quoted(out, e.message.as_str());
            out.append(",");
            write_key(out, "data", Ghost(key_data()));
            write_opt(out, &e.data);
            out.append("}");
            proof {
                assert(out@ =~= start + error_text(Some(*e)));
                lemma_decimal_one_line(e.code as int);
                broadcast use lemma_concat_no_newline;
                assert(no_newline(seq!['{']) && no_newline(seq![',']) && no_newline(seq!['}'])
                    && no_newline(seq![':']));
            }
        },
    }
}

#[verifier::rlimit(40)]
fn write_request(out: &mut String, jsonrpc: &String, id: &RequestId, method: &String, params: &Option<Json>)
    ensures
        final(out)@ == old(out)@ + message_text(
            Message::Request { jsonrpc: *jsonrpc, id: *id, method: *method, params: *params },
        ),
        (Message::Request { jsonrpc: *jsonrpc, id: *id, method: *method, params: *params }).one_line() ==> no_newline(message_text(
            Message::Request { jsonrpc: *jsonrpc, id: *id, method: *method, params: *params },
        )),
{
    proof {
        reveal_strlit("{");
        reveal_strlit("}");
        reveal_strlit(",");
        reveal_strlit("jsonrpc");
        reveal_strlit("id");
        reveal_strlit("method");
        reveal_strlit("params");
    }
    let ghost start = out@;
    out.append("{");
    write_key(out, "jsonrpc", Ghost(key_jsonrpc()));
    write_quoted(out, jsonrpc.as_str());
    out.append(",");
    write_key(out, "id", Ghost(key_id()));
    write_id(out, id);
    out.append(",");
    write_key(out, "method", Ghost(key_method()));
    write_quoted(out, method.as_str());
    out.append(",");
    write_key(out, "params", Ghost(key_params()));
    write_opt(out, params);
    out.append("}");
    proof {
        assert(out@ =~= start + message_text(
            Message::Request { jsonrpc: *jsonrpc, id: *id, method: *method, params: *params },
        ));
        broadcast use lemma_concat_no_newline;
        assert(no_newline(seq!['{']) && no_newline(seq![',']) && no_newline(seq!['}'])
            && no_newline(seq![':']));
    }
}

#[verifier::rlimit(40)]
fn write_response(out: &mut String, jsonrpc: &String, id: &RequestId, result: &Option<Json>, error: &Option<Error>)
    ensures
        final(out)@ == old(out)@ + message_text(
            Message::Response { jsonrpc: *jsonrpc, id: *id, result: *result, error: *error },
        ),
        (Message::Response { jsonrpc: *jsonrpc, id: *id, result: *result, error: *error }).one_line() ==> no_newline(message_text(
            Message::Response { jsonrpc: *jsonrpc, id: *id, result: *result, error: *error },
        )),
{
    proof {
        reveal_strlit("{");
        reveal_strlit("}");
        reveal_strlit(",");
        reveal_strlit("jsonrpc");
        reveal_strlit("id");
        reveal_strlit("result");
        reveal_strlit("error");
    }
    let ghost start = out@;
    out.append("{");
    write_key(out, "jsonrpc", Ghost(key_jsonrpc()));
    write_quoted(out, jsonrpc.as_str());
    out.append(",");
    write_key(out, "id", Ghost(key_id()));
    write_id(out, id);
    out.append(",");
    write_key(out, "result", Ghost(key_result()));
    write_opt(out, result);
    out.append(",");
    write_key(out, "error", Ghost(key_error()));
    write_error(out, error);
    out.append("}");
    proof {
        assert(out@ =~= start + message_text(
            Message::Response { jsonrpc: *jsonrpc, id: *id, result: *result, error: *error },
        ));
        broadcast use lemma_concat_no_newline;
        assert(no_newline(seq!['{']) && no_newline(seq![',']) && no_newline(seq!['}'])
            && no_newline(seq![':']));
    }
}

fn write_notification(out: &mut String, jsonrpc: &String, method: &String, params: &Option<Json>)
    ensures
        final(out)@ == old(out)@ + message_text(
            Message::Notification { jsonrpc: *jsonrpc, method: *method, params: *params },
        ),
        (Message::Notification { jsonrpc: *jsonrpc, method: *method, params: *params }).one_line() ==> no_newline(message_text(
            Message::Notification { jsonrpc: *jsonrpc, method: *method, params: *params },
        )),
{
    proof {
        reveal_strlit("{");
        reveal_strlit("}");
        reveal_strlit(",");
        reveal_strlit("jsonrpc");
        reveal_strlit("method");
        reveal_strlit("params");
    }
    let ghost start = out@;
    out.append("{");
    write_key(out, "jsonrpc", Ghost(key_jsonrpc()));
    write_quoted(out, jsonrpc.as_str());
    out.append(",");
    write_key(out, "method", Ghost(key_method()));
    write_quoted(out, method.as_str());
    out.append(",");
    write_key(out, "params", Ghost(key_params()));
    write_opt(out, params);
    out.append("}");
    proof {
        assert(out@ =~= start + message_text(
            Message::Notification { jsonrpc: *jsonrpc, method: *method, params: *params },
        ));
        broadcast use lemma_concat_no_newline;
        assert(no_newline(seq!['{']) && no_newline(seq![',']) && no_newline(seq!['}'])
            && no_newline(seq![':']));
    }
}

/// The wire text of a message, without the line break.
pub fn encode(message: &Message) -> (r: String)
    ensures
        r@ == message_text(*message),
        message.one_line() ==> no_newline(r@),
{
    let mut out = String::new();
    match message {
        Message::Request { jsonrpc, id, method, params } => write_request(&mut out, jsonrpc, id, method, params),
        Message::Response { jsonrpc, id, result, error } => write_response(&mut out, jsonrpc, id, result, error),
        Message::Notification { jsonrpc, method, params } => write_notification(&mut out, jsonrpc, method, params),
    }
    proof {
        assert(out@ =~= message_text(*message));
    }
    out
}

fn or_null_from(v: Option<Json>) -> (r: Json)
    ensures
        r == or_null(v),
{
    match v {
        Some(j) => j,
        None => Json::Null,
    }
}

fn id_to_json(id: RequestId) -> (r: Json)
    ensures
        r == id_json(id),
{
    match id {
        RequestId::Str(s) => Json::Str(s),
        RequestId::Int(i) => Json::Int(i as i64),
    }
}

fn error_to_json(e: Option<Error>) -> (j: Json)
    ensures
        encodes_opt_error(e, j),
{
    match e {
        None => Json::Null,
        Some(e) => {
            let keys = error_keys();
            let mut keys = keys;
            let data_key = keys.pop().unwrap();
            let message_key = keys.pop().unwrap();
            let code_key = keys.pop().unwrap();
            let mut ms: Vec<(String, Json)> = Vec::new();
            ms.push((code_key, Json::Int(e.code as i64)));
            ms.push((message_key, Json::Str(e.message)));
            ms.push((data_key, or_null_from(e.data)));
            Json::Object(ms)
        },
    }
}

impl Message {
    /// The JSON object that frames this message on the wire.
    pub fn to_json(self) -> (j: Json)
        ensures
            encodes(self, j),
    {
        let mut keys = envelope_keys();
        let error_key = keys.pop().unwrap();
        let result_key = keys.pop().unwrap();
        let params_key = keys.pop().unwrap();
        let method_key = keys.pop().unwrap();
        let id_key = keys.pop().unwrap();
        let jsonrpc_key = keys.pop().unwrap();
        let mut ms: Vec<(String, Json)> = Vec::new();
        match self {
            Message::Request { jsonrpc, id, method, params } => {
                ms.push((jsonrpc_key, Json::Str(jsonrpc)));
                ms.push((id_key, id_to_json(id)));
                ms.push((method_key, Json::Str(method)));
                ms.push((params_key, or_null_from(params)));
            },
            Message::Response { jsonrpc, id, result, error } => {
                ms.push((jsonrpc_key, Json::Str(jsonrpc)));
                ms.push((id_key, id_to_json(id)));
                ms.push((result_key, or_null_from(result)));
                ms.push((error_key, error_to_json(error)));
            },
            Message::Notification { jsonrpc, method, params } => {
                ms.push((jsonrpc_key, Json::Str(jsonrpc)));
                ms.push((method_key, Json::Str(method)));
                ms.push((params_key, or_null_from(params)));
            },
        }
        Json::Object(ms)
    }
}

/// The message that a line of input frames, if any.
pub open spec fn decoded(line: Seq<char>) -> Option<Message> {
    match parsed(line) {
        Some(j) => message_of(j),
        None => None,
    }
}

/// A line of input as a message; `None` when the line is not JSON or frames
/// no message, which the caller skips.
pub fn decode(line: &str) -> (r: Option<Message>)
    ensures
        r == decoded(line@),
        r matches Some(m) ==> m.valid(),
{
    match Json::parse(line) {
        Some(j) => Message::from_json(j),
        None => None,
    }
}

pub(crate) proof fn lemma_member_last(ms: Seq<(String, Json)>, i: int, key: Seq<char>)
    requires
        0 <= i < ms.len(),
        ms[i].0@ == key,
        forall|k: int| i < k < ms.len() ==> ms[k].0@ != key,
    ensures
        member(ms, key) == Some(ms[i].1),
    decreases ms.len(),
{
    if i > 0 {
        lemma_member_last(ms.drop_first(), i - 1, key);
    } else {
        lemma_member_absent(ms.drop_first(), key);
    }
}

pub(crate) proof fn lemma_member_absent(ms: Seq<(String, Json)>, key: Seq<char>)
    requires
        forall|k: int| 0 <= k < ms.len() ==> ms[k].0@ != key,
    ensures
        member(ms, key) is None,
    decreases ms.len(),
{
    if ms.len() > 0 {
        lemma_member_absent(ms.drop_first(), key);
    }
}

proof fn lemma_error_round_trip(e: Error, j: Json)
    requires
        e.data != Some(Json::Null),
        encodes_error(e, j),
    ensures
        error_of(Some(j)) == Some(Some(e)),
        json_text(j) == error_text(Some(e)),
{
    let ms = j->Object_0@;
    lemma_keys_differ();
    lemma_member_last(ms, 0, key_code());
    lemma_member_last(ms, 1, key_message());
    lemma_member_last(ms, 2, key_data());
    assert(member_text(ms[0]) == pair(key_code(), decimal_text(e.code as int)));
    assert(member_text(ms[1]) == pair(key_message(), json_quoted(e.message@)));
    assert(member_text(ms[2]) == pair(key_data(), opt_text(e.data)));
    assert(members_text(ms, 1) == member_text(ms[0]));
    assert(members_text(ms, 2) == members_text(ms, 1) + seq![','] + member_text(ms[1]));
    assert(members_text(ms, 3) == members_text(ms, 2) + seq![','] + member_text(ms[2]));
    assert(json_text(j) == seq!['{'] + members_text(ms, 3) + seq!['}']);
    assert(json_text(j) =~= error_text(Some(e)));
}

/// A valid message read back from the JSON object that frames it is the same
/// message, and that object's compact text is exactly what `encode` writes.
pub proof fn lemma_round_trip(m: Message, j: Json)
    requires
        m.valid(),
        encodes(m, j),
    ensures
        message_of(j) == Some(m),
        json_text(j) == message_text(m),
{
    let ms = j->Object_0@;
    lemma_keys_differ();
    assert(json_text(j) == seq!['{'] + members_text(ms, ms.len()) + seq!['}']);
    assert(members_text(ms, 1) == member_text(ms[0]));
    assert(members_text(ms, 2) == members_text(ms, 1) + seq![','] + member_text(ms[1]));
    assert(members_text(ms, 3) == members_text(ms, 2) + seq![','] + member_text(ms[2]));
    if ms.len() == 4 {
        assert(members_text(ms, 4) == members_text(ms, 3) + seq![','] + member_text(ms[3]));
    }
    match m {
        Message::Request { jsonrpc, id, method, params } => {
            lemma_member_last(ms, 0, key_jsonrpc());
            lemma_member_last(ms, 1, key_id());
            lemma_member_last(ms, 2, key_method());
            lemma_member_last(ms, 3, key_params());
            lemma_member_absent(ms, key_result());
            lemma_member_absent(ms, key_error());
            assert(member_text(ms[0]) == pair(key_jsonrpc(), json_quoted(jsonrpc@)));
            assert(member_text(ms[1]) == pair(key_id(), json_text(id_json(id))));
            assert(member_text(ms[2]) == pair(key_method(), json_quoted(method@)));
            assert(member_text(ms[3]) == pair(key_params(), opt_text(params)));
            assert(json_text(j) =~= message_text(m));
        },
        Message::Response { jsonrpc, id, result, error } => {
            lemma_member_last(ms, 0, key_jsonrpc());
            lemma_member_last(ms, 1, key_id());
            lemma_member_last(ms, 2, key_result());
            lemma_member_last(ms, 3, key_error());
            lemma_member_absent(ms, key_method());
            lemma_member_absent(ms, key_params());
            if let Some(e) = error {
                lemma_error_round_trip(e, ms[3].1);
            }
            assert(json_text(ms[3].1) == error_text(error));
            assert(member_text(ms[0]) == pair(key_jsonrpc(), json_quoted(jsonrpc@)));
            assert(member_text(ms[1]) == pair(key_id(), json_text(id_json(id))));
            assert(member_text(ms[2]) == pair(key_result(), opt_text(result)));
            assert(member_text(ms[3]) == pair(key_error(), error_text(error)));
            assert(json_text(j) =~= message_text(m));
        },
        Message::Notification { jsonrpc, method, params } => {
            lemma_member_last(ms, 0, key_jsonrpc());
            lemma_member_last(ms, 1, key_method());
            lemma_member_last(ms, 2, key_params());
            lemma_member_absent(ms, key_id());
            lemma_member_absent(ms, key_result());
            lemma_member_absent(ms, key_error());
            assert(member_text(ms[0]) == pair(key_jsonrpc(), json_quoted(jsonrpc@)));
            assert(member_text(ms[1]) == pair(key_method(), json_quoted(method@)));
            assert(member_text(ms[2]) == pair(key_params(), opt_text(params)));
            assert(json_text(j) =~= message_text(m));
        },
    }
}

/// The index of the last member named `key`, whose value `member` gives.
pub(crate) fn find_member(ms: &Vec<(String, Json)>, key: &str) -> (r: Option<usize>)
    ensures
        r matches Some(i) ==> i < ms@.len() && member(ms@, key@) == Some(ms@[i as int].1),
        r is None ==> member(ms@, key@) is None,
{
    let k = String::from_str(key);
    let mut i: usize = ms.len();
    while i > 0
        invariant
            i <= ms.len(),
            k@ == key@,
            forall|j: int| i <= j < ms@.len() ==> ms@[j].0@ != key@,
        decreases i,
    {
        if ms[i - 1].0 == k {
            proof {
                lemma_member_last(ms@, i - 1, key@);
            }
            return Some(i - 1);
        }
        i = i - 1;
    }
    proof {
        lemma_member_absent(ms@, key@);
    }
    None
}

} // verus!
