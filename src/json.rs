//! A JSON value model that verified code can read, with its compact text form.
use vstd::prelude::*;

verus! {

broadcast use vstd::std_specs::vec::group_vec_axioms;

/// A JSON value.
///
/// Integers that fit in an `i64` are held as `Int`; every other number is
/// held as `Number`, by its JSON text.
#[derive(Debug, PartialEq)]
pub enum Json {
    Null,
    Bool(bool),
    Int(i64),
    Number(String),
    Str(String),
    Array(Vec<Json>),
    Object(Vec<(String, Json)>),
}

/// The JSON text of a string: quoted, with the characters that JSON requires
/// escaped.
pub uninterp spec fn json_quoted(s: Seq<char>) -> Seq<char>;

pub open spec fn digit_char(d: nat) -> char {
    ((d + 48) as u8) as char
}

/// Decimal digits of a natural number, most significant first.
pub open spec fn digits(n: nat) -> Seq<char>
    decreases n,
{
    if n < 10 {
        seq![digit_char(n)]
    } else {
        digits(n / 10).push(digit_char(n % 10))
    }
}

/// Decimal text of an integer, with a leading `-` when it is negative.
pub open spec fn decimal_text(i: int) -> Seq<char> {
    if i < 0 {
        seq!['-'] + digits((-i) as nat)
    } else {
        digits(i as nat)
    }
}

/// Compact JSON text of a value: no whitespace, members and elements in the
/// order held.
pub open spec fn json_text(j: Json) -> Seq<char>
    decreases j, 0nat,
{
    match j {
        Json::Null => seq!['n', 'u', 'l', 'l'],
        Json::Bool(b) => if b {
            seq!['t', 'r', 'u', 'e']
        } else {
            seq!['f', 'a', 'l', 's', 'e']
        },
        Json::Int(i) => decimal_text(i as int),
        Json::Number(s) => s@,
        Json::Str(s) => json_quoted(s@),
        Json::Array(items) => seq!['['] + items_text(items@, items@.len()) + seq![']'],
        Json::Object(members) => seq!['{'] + members_text(members@, members@.len()) + seq!['}'],
    }
}

/// Text of the first `n` elements, separated by commas.
pub open spec fn items_text(items: Seq<Json>, n: nat) -> Seq<char>
    decreases items, n,
{
    if n == 0 || n > items.len() {
        Seq::empty()
    } else if n == 1 {
        json_text(items[0])
    } else {
        items_text(items, (n - 1) as nat) + seq![','] + json_text(items[n - 1])
    }
}

/// Text of one object member: the quoted key, a colon, the value.
pub open spec fn member_text(m: (String, Json)) -> Seq<char>
    decreases m, 0nat,
{
    json_quoted(m.0@) + seq![':'] + json_text(m.1)
}

/// Text of the first `n` members, separated by commas.
pub open spec fn members_text(members: Seq<(String, Json)>, n: nat) -> Seq<char>
    decreases members, n,
{
    if n == 0 || n > members.len() {
        Seq::empty()
    } else if n == 1 {
        member_text(members[0])
    } else {
        members_text(members, (n - 1) as nat) + seq![','] + member_text(members[n - 1])
    }
}

/// No line break in the text.
pub open spec fn no_newline(s: Seq<char>) -> bool {
    forall|i: int| 0 <= i < s.len() ==> s[i] != '\n'
}

/// A value whose text fits on one line: no number text holds a line break.
/// (String values never break a line: their line breaks are escaped.)
pub open spec fn one_line(j: Json) -> bool
    decreases j, 0nat,
{
    match j {
        Json::Number(s) => no_newline(s@),
        Json::Array(items) => items_one_line(items@, items@.len()),
        Json::Object(members) => members_one_line(members@, members@.len()),
        _ => true,
    }
}

/// The first `n` elements fit on one line.
pub open spec fn items_one_line(items: Seq<Json>, n: nat) -> bool
    decreases items, n,
{
    if n == 0 || n > items.len() {
        true
    } else {
        items_one_line(items, (n - 1) as nat) && one_line(items[n - 1])
    }
}

/// The values of the first `n` members fit on one line.
pub open spec fn members_one_line(members: Seq<(String, Json)>, n: nat) -> bool
    decreases members, n,
{
    if n == 0 || n > members.len() {
        true
    } else {
        members_one_line(members, (n - 1) as nat) && member_one_line(members[n - 1])
    }
}

pub open spec fn member_one_line(m: (String, Json)) -> bool
    decreases m, 0nat,
{
    one_line(m.1)
}

proof fn lemma_item_one_line(items: Seq<Json>, n: nat, k: int)
    requires
        items_one_line(items, n),
        0 <= k < n <= items.len(),
    ensures
        one_line(items[k]),
    decreases n,
{
    if k < n - 1 {
        lemma_item_one_line(items, (n - 1) as nat, k);
    }
}

proof fn lemma_member_one_line(members: Seq<(String, Json)>, n: nat, k: int)
    requires
        members_one_line(members, n),
        0 <= k < n <= members.len(),
    ensures
        one_line(members[k].1),
    decreases n,
{
    if k < n - 1 {
        lemma_member_one_line(members, (n - 1) as nat, k);
    } else {
        assert(member_one_line(members[k]));
    }
}

pub broadcast proof fn lemma_concat_no_newline(a: Seq<char>, b: Seq<char>)
    ensures
        no_newline(a) && no_newline(b) ==> #[trigger] no_newline(a + b),
{
    if no_newline(a) && no_newline(b) {
        lemma_concat_one_line(a, b);
    }
}

pub proof fn lemma_concat_one_line(a: Seq<char>, b: Seq<char>)
    requires
        no_newline(a),
        no_newline(b),
    ensures
        no_newline(a + b),
{
    assert forall|i: int| 0 <= i < (a + b).len() implies (a + b)[i] != '\n' by {
        if i >= a.len() {
            assert((a + b)[i] == b[i - a.len()]);
        }
    }
}

pub proof fn lemma_digits_one_line(n: nat)
    ensures
        no_newline(digits(n)),
    decreases n,
{
    if n >= 10 {
        lemma_digits_one_line(n / 10);
        lemma_concat_one_line(digits(n / 10), seq![digit_char(n % 10)]);
        assert(digits(n / 10).push(digit_char(n % 10)) =~= digits(n / 10) + seq![digit_char(n % 10)]);
    }
}

pub proof fn lemma_decimal_one_line(i: int)
    ensures
        no_newline(decimal_text(i)),
{
    if i < 0 {
        lemma_digits_one_line((-i) as nat);
        lemma_concat_one_line(seq!['-'], digits((-i) as nat));
    } else {
        lemma_digits_one_line(i as nat);
    }
}

/// Relies on serde_json::to_string on a `&str`: the string as a JSON string
/// literal, in which a line break is escaped as `\n` (its escape table).
/// Serializing a string into memory cannot fail.
#[verifier::external_body]
pub(crate) fn quote(s: &str) -> (r: String)
    ensures
        r@ == json_quoted(s@),
        no_newline(r@),
{
    serde_json::to_string(s).unwrap_or_default()
}

/// Relies on `i64::to_string`: the decimal text of the integer.
#[verifier::external_body]
pub(crate) fn int_text(i: i64) -> (r: String)
    ensures
        r@ == decimal_text(i as int),
{
    i.to_string()
}

/// Appends the compact text of `j` to `out`.
pub fn write_json(j: &Json, out: &mut String)
    ensures
        final(out)@ == old(out)@ + json_text(*j),
        one_line(*j) ==> no_newline(json_text(*j)),
    decreases j,
{
    match j {
        Json::Null => {
            proof {
                reveal_strlit("null");
            }
            out.append("null");
        },
        Json::Bool(b) => {
            proof {
                reveal_strlit("true");
                reveal_strlit("false");
            }
            if *b {
                out.append("true");
            } else {
                out.append("false");
            }
        },
        Json::Int(i) => {
            let t = int_text(*i);
            out.append(t.as_str());
            proof {
                lemma_decimal_one_line(*i as int);
            }
        },
        Json::Number(s) => {
            out.append(s.as_str());
        },
        Json::Str(s) => {
            let t = quote(s.as_str());
            out.append(t.as_str());
        },
        Json::Array(items) => {
            proof {
                reveal_strlit("[");
                reveal_strlit("]");
                reveal_strlit(",");
            }
            let ghost start = out@;
            out.append("[");
            let mut i: usize = 0;
            while i < items.len()
                invariant
                    i <= items.len(),
                    *j == Json::Array(*items),
                    out@ == start + seq!['['] + items_text(items@, i as nat),
                    one_line(*j) ==> no_newline(items_text(items@, i as nat)),
                decreases items.len() - i,
            {
                proof {
                    reveal_strlit(",");
                    assert(decreases_to!(*j => (*j)->Array_0));
                    assert(decreases_to!(*items => items[i as int]));
                }
                let ghost before = out@;
                if i > 0 {
                    out.append(",");
                }
                write_json(&items[i], out);
                proof {
                    if i == 0 {
                        assert(out@ =~= before + json_text(items@[0]));
                    } else {
                        assert(out@ =~= before + seq![','] + json_text(items@[i as int]));
                    }
                    assert(out@ =~= start + seq!['['] + items_text(items@, (i + 1) as nat));
                    if one_line(*j) {
                        lemma_item_one_line(items@, items@.len(), i as int);
                        if i > 0 {
                            lemma_concat_one_line(items_text(items@, i as nat), seq![',']);
                            lemma_concat_one_line(items_text(items@, i as nat) + seq![','], json_text(items@[i as int]));
                        }
                    }
                }
                i = i + 1;
            }
            out.append("]");
            proof {
                if one_line(*j) {
                    lemma_concat_one_line(seq!['['], items_text(items@, items@.len()));
                    lemma_concat_one_line(seq!['['] + items_text(items@, items@.len()), seq![']']);
                }
            }
        },
        Json::Object(members) => {
            proof {
                reveal_strlit("{");
                reveal_strlit("}");
                reveal_strlit(",");
                reveal_strlit(":");
            }
            let ghost start = out@;
            out.append("{");
            let mut i: usize = 0;
            while i < members.len()
                invariant
                    i <= members.len(),
                    *j == Json::Object(*members),
                    out@ == start + seq!['{'] + members_text(members@, i as nat),
                    one_line(*j) ==> no_newline(members_text(members@, i as nat)),
                decreases members.len() - i,
            {
                proof {
                    reveal_strlit(",");
                    reveal_strlit(":");
                }
                let ghost before = out@;
                if i > 0 {
                    out.append(",");
                }
                let ghost mid = out@;
                let t = quote(members[i].0.as_str());
                out.append(t.as_str());
                out.append(":");
                proof {
                    assert(decreases_to!(*j => (*j)->Object_0));
                    assert(decreases_to!(*members => members[i as int]));
                    assert(decreases_to!(members[i as int] => members[i as int].1));
                }
                write_json(&members[i].1, out);
                proof {
                    assert(out@ =~= mid + member_text(members@[i as int]));
                    if i == 0 {
                        assert(out@ =~= before + member_text(members@[0]));
                    } else {
                        assert(out@ =~= before + seq![','] + member_text(members@[i as int]));
                    }
                    assert(out@ =~= start + seq!['{'] + members_text(members@, (i + 1) as nat));
                    if one_line(*j) {
                        lemma_member_one_line(members@, members@.len(), i as int);
                        lemma_concat_one_line(t@, seq![':']);
                        lemma_concat_one_line(t@ + seq![':'], json_text(members@[i as int].1));
                        assert(member_text(members@[i as int]) =~= t@ + seq![':'] + json_text(members@[i as int].1));
                        if i > 0 {
                            lemma_concat_one_line(members_text(members@, i as nat), seq![',']);
                            lemma_concat_one_line(members_text(members@, i as nat) + seq![','], member_text(members@[i as int]));
                        }
                    }
                }
                i = i + 1;
            }
            out.append("}");
            proof {
                if one_line(*j) {
                    lemma_concat_one_line(seq!['{'], members_text(members@, members@.len()));
                    lemma_concat_one_line(seq!['{'] + members_text(members@, members@.len()), seq!['}']);
                }
            }
        },
    }
}

impl Clone for Json {
    /// A deep copy.
    fn clone(&self) -> (r: Json)
        decreases self,
    {
        match self {
            Json::Null => Json::Null,
            Json::Bool(b) => Json::Bool(*b),
            Json::Int(i) => Json::Int(*i),
            Json::Number(s) => Json::Number(s.clone()),
            Json::Str(s) => Json::Str(s.clone()),
            Json::Array(items) => {
                let mut out: Vec<Json> = Vec::new();
                let mut i: usize = 0;
                while i < items.len()
                    invariant
                        i <= items.len(),
                        *self == Json::Array(*items),
                    decreases items.len() - i,
                {
                    proof {
                        assert(decreases_to!(*self => (*self)->Array_0));
                        assert(decreases_to!(*items => items[i as int]));
                    }
                    out.push(items[i].clone());
                    i = i + 1;
                }
                Json::Array(out)
            },
            Json::Object(members) => {
                let mut out: Vec<(String, Json)> = Vec::new();
                let mut i: usize = 0;
                while i < members.len()
                    invariant
                        i <= members.len(),
                        *self == Json::Object(*members),
                    decreases members.len() - i,
                {
                    proof {
                        assert(decreases_to!(*self => (*self)->Object_0));
                        assert(decreases_to!(*members => members[i as int]));
                        assert(decreases_to!(members[i as int] => members[i as int].1));
                    }
                    out.push((members[i].0.clone(), members[i].1.clone()));
                    i = i + 1;
                }
                Json::Object(out)
            },
        }
    }
}

#[verifier::external_type_specification]
#[verifier::external_body]
pub struct ExValue(serde_json::Value);

#[verifier::external_type_specification]
#[verifier::external_body]
pub struct ExNumber(serde_json::Number);

/// Relies on serde_json's `Number::as_i64`: the number as an `i64` when it is
/// an integer in that range.
pub assume_specification[ serde_json::Number::as_i64 ](n: &serde_json::Number) -> Option<i64>;

/// One level of a parsed `serde_json::Value`, its children not yet converted.
enum Parts {
    Null,
    Bool(bool),
    Number(serde_json::Number),
    Str(String),
    Array(Vec<serde_json::Value>),
    Object(Vec<(String, serde_json::Value)>),
}

/// Relies on the variants of `serde_json::Value`: takes one level apart.
#[verifier::external_body]
fn split_value(v: serde_json::Value) -> (r: Parts) {
    match v {
        serde_json::Value::Null => Parts::Null,
        serde_json::Value::Bool(b) => Parts::Bool(b),
        serde_json::Value::Number(n) => Parts::Number(n),
        serde_json::Value::String(s) => Parts::Str(s),
        serde_json::Value::Array(a) => Parts::Array(a),
        serde_json::Value::Object(m) => Parts::Object(m.into_iter().collect()),
    }
}

/// Nesting beyond what serde_json's parser accepts; no parsed value reaches it.
const NESTING_LIMIT: u32 = 256;

/// Converts a parsed value, or fails if it nests deeper than `depth` levels.
fn from_value(v: serde_json::Value, depth: u32) -> (r: Option<Json>)
    decreases depth,
{
    if depth == 0 {
        return None;
    }
    let inner: u32 = depth - 1;
    match split_value(v) {
        Parts::Null => Some(Json::Null),
        Parts::Bool(b) => Some(Json::Bool(b)),
        Parts::Number(n) => match n.as_i64() {
            Some(i) => Some(Json::Int(i)),
            None => Some(Json::Number(n.to_string())),
        },
        Parts::Str(s) => Some(Json::Str(s)),
        Parts::Array(values) => {
            let mut items: Vec<Json> = Vec::new();
            for x in values
                invariant
                    inner < depth,
            {
                match from_value(x, inner) {
                    Some(item) => items.push(item),
                    None => return None,
                }
            }
            Some(Json::Array(items))
        },
        Parts::Object(entries) => {
            let mut members: Vec<(String, Json)> = Vec::new();
            for e in entries
                invariant
                    inner < depth,
            {
                let (key, x) = e;
                match from_value(x, inner) {
                    Some(item) => members.push((key, item)),
                    None => return None,
                }
            }
            Some(Json::Object(members))
        },
    }
}

/// The value that one JSON text denotes; `None` when the text is not
/// exactly one JSON value.
pub uninterp spec fn parsed(text: Seq<char>) -> Option<Json>;

/// Relies on serde_json::from_str into a `Value`, which parses one JSON text
/// and fails on anything else (including nesting deeper than 128 levels);
/// `from_value` changes the value's type, level by level. The result depends
/// on the text alone.
#[verifier::external_body]
fn parse_json(text: &str) -> (r: Option<Json>)
    ensures
        r == parsed(text@),
{
    serde_json::from_str(text).ok().and_then(|v| from_value(v, NESTING_LIMIT))
}

impl Json {
    /// Parses one JSON text; `None` when it is not valid JSON.
    pub fn parse(text: &str) -> (r: Option<Json>)
        ensures
            r == parsed(text@),
    {
        parse_json(text)
    }

    /// The compact JSON text of this value.
    pub fn to_text(&self) -> (r: String)
        ensures
            r@ == json_text(*self),
    {
        let mut out = String::new();
        write_json(self, &mut out);
        out
    }
}

} // verus!
