//! Typed resources of the host's domain, and chat markup helpers.
use vstd::prelude::*;

use crate::codec::{find_member, member, text_of};
use crate::json::{decimal_text, int_text, Json};
use std::collections::HashMap;

verus! {

/// `<color="CODE">TEXT</>`
pub open spec fn color_markup(code: Seq<char>, text: Seq<char>) -> Seq<char> {
    seq!['<', 'c', 'o', 'l', 'o', 'r', '=', '"'] + code + seq!['"', '>'] + text + seq!['<', '/', '>']
}

/// `<size="N">TEXT</>`
pub open spec fn size_markup(size: int, text: Seq<char>) -> Seq<char> {
    seq!['<', 's', 'i', 'z', 'e', '=', '"'] + decimal_text(size) + seq!['"', '>'] + text + seq!['<', '/', '>']
}

/// Chat markup that the host renders.
pub trait Colorize: Sized {
    /// The text this value stands for.
    spec fn markup(&self) -> Seq<char>;

    /// `**TEXT**`
    fn bold(self) -> (r: Self)
        ensures
            r.markup() == seq!['*', '*'] + self.markup() + seq!['*', '*'],
    ;

    /// `*TEXT*`
    fn italics(self) -> (r: Self)
        ensures
            r.markup() == seq!['*'] + self.markup() + seq!['*'],
    ;

    /// Colors the text with a hex color code.
    fn color(self, code: &str) -> (r: Self)
        ensures
            r.markup() == color_markup(code@, self.markup()),
    ;

    /// `[TEXT](LINK)`
    fn hyperlink(self, link: &str) -> (r: Self)
        ensures
            r.markup() == seq!['['] + self.markup() + seq![']', '('] + link@ + seq![')'],
    ;

    /// Sets the text's size: `<size="N">TEXT</>`, the size in the tag and the
    /// text inside it, as the host's markup reads it.
    fn size(self, size: i32) -> (r: Self)
        ensures
            r.markup() == size_markup(size as int, self.markup()),
    ;

    fn red(self) -> (r: Self)
        ensures
            r.markup() == color_markup(seq!['f', '0', '0'], self.markup()),
    {
        proof {
            reveal_strlit("f00");
        }
        self.color("f00")
    }

    fn green(self) -> (r: Self)
        ensures
            r.markup() == color_markup(seq!['0', 'f', '0'], self.markup()),
    {
        proof {
            reveal_strlit("0f0");
        }
        self.color("0f0")
    }

    fn blue(self) -> (r: Self)
        ensures
            r.markup() == color_markup(seq!['0', '0', 'f'], self.markup()),
    {
        proof {
            reveal_strlit("00f");
        }
        self.color("00f")
    }

    fn yellow(self) -> (r: Self)
        ensures
            r.markup() == color_markup(seq!['f', 'f', '0'], self.markup()),
    {
        proof {
            reveal_strlit("ff0");
        }
        self.color("ff0")
    }

    fn teal(self) -> (r: Self)
        ensures
            r.markup() == color_markup(seq!['0', 'f', 'f'], self.markup()),
    {
        proof {
            reveal_strlit("0ff");
        }
        self.color("0ff")
    }

    fn magenta(self) -> (r: Self)
        ensures
            r.markup() == color_markup(seq!['f', '0', 'f'], self.markup()),
    {
        proof {
            reveal_strlit("f0f");
        }
        self.color("f0f")
    }

    fn white(self) -> (r: Self)
        ensures
            r.markup() == color_markup(seq!['f', 'f', 'f'], self.markup()),
    {
        proof {
            reveal_strlit("fff");
        }
        self.color("fff")
    }

    fn black(self) -> (r: Self)
        ensures
            r.markup() == color_markup(seq!['0', '0', '0'], self.markup()),
    {
        proof {
            reveal_strlit("000");
        }
        self.color("000")
    }

    fn dark_gray(self) -> (r: Self)
        ensures
            r.markup() == color_markup(seq!['6', '6', '6'], self.markup()),
    {
        proof {
            reveal_strlit("666");
        }
        self.color("666")
    }

    fn light_gray(self) -> (r: Self)
        ensures
            r.markup() == color_markup(seq!['b', 'b', 'b'], self.markup()),
    {
        proof {
            reveal_strlit("bbb");
        }
        self.color("bbb")
    }
}

impl Colorize for String {
    open spec fn markup(&self) -> Seq<char> {
        self@
    }

    fn bold(self) -> (r: String) {
        proof {
            reveal_strlit("**");
        }
        let mut out = String::from_str("**");
        out.append(self.as_str());
        out.append("**");
        proof {
            assert(out@ =~= seq!['*', '*'] + self@ + seq!['*', '*']);
        }
        out
    }

    fn italics(self) -> (r: String) {
        proof {
            reveal_strlit("*");
        }
        let mut out = String::from_str("*");
        out.append(self.as_str());
        out.append("*");
        proof {
            assert(out@ =~= seq!['*'] + self@ + seq!['*']);
        }
        out
    }

    fn color(self, code: &str) -> (r: String) {
        proof {
            reveal_strlit("<color=\"");
            reveal_strlit("\">");
            reveal_strlit("</>");
        }
        let mut out = String::from_str("<color=\"");
        out.append(code);
        out.append("\">");
        out.append(self.as_str());
        out.append("</>");
        proof {
            assert(out@ =~= color_markup(code@, self@));
        }
        out
    }

    fn hyperlink(self, link: &str) -> (r: String) {
        proof {
            reveal_strlit("[");
            reveal_strlit("](");
            reveal_strlit(")");
        }
        let mut out = String::from_str("[");
        out.append(self.as_str());
        out.append("](");
        out.append(link);
        out.append(")");
        proof {
            assert(out@ =~= seq!['['] + self@ + seq![']', '('] + link@ + seq![')']);
        }
        out
    }

    fn size(self, size: i32) -> (r: String) {
        proof {
            reveal_strlit("<size=\"");
            reveal_strlit("\">");
            reveal_strlit("</>");
        }
        let n = int_text(size as i64);
        let mut out = String::from_str("<size=\"");
        out.append(n.as_str());
        out.append("\">");
        out.append(self.as_str());
        out.append("</>");
        proof {
            assert(out@ =~= size_markup(size as int, self@));
        }
        out
    }
}

/// A player.
#[derive(Debug, Clone, PartialEq)]
pub struct Player {
    pub name: String,
    pub id: String,
    pub controller: String,
    pub state: String,
    pub host: Option<bool>,
}

/// Player paint data.
#[derive(Debug, PartialEq)]
pub struct PlayerPaint {
    pub material_index: String,
    pub material_alpha: String,
    pub material: String,
    pub color: (u8, u8, u8),
}

/// A plugin.
#[derive(Debug, Clone, PartialEq)]
pub struct Plugin {
    pub name: String,
    pub description: String,
    pub author: String,
    pub config: HashMap<String, ConfigEntry>,
    pub commands: Vec<Command>,
}

/// A config entry.
#[derive(Debug, Clone, PartialEq)]
pub struct ConfigEntry {
    pub description: String,
    pub entry_type: String,
    pub item_type: Option<String>,
    pub default: Json,
}

/// A config command.
#[derive(Debug, Clone, PartialEq)]
pub struct Command {
    pub name: String,
    pub description: String,
    pub example: String,
    pub args: Vec<CommandArg>,
}

/// A config command arg.
#[derive(Debug, Clone, PartialEq)]
pub struct CommandArg {
    pub name: String,
    pub description: String,
    pub required: bool,
}

/// Every item read with `f`, or `None` when one of them cannot be.
pub open spec fn all_of<T>(items: Seq<Json>, f: spec_fn(Json) -> Option<T>) -> Option<Seq<T>>
    decreases items.len(),
{
    if items.len() == 0 {
        Some(Seq::empty())
    } else {
        match (all_of(items.drop_last(), f), f(items.last())) {
            (Some(done), Some(x)) => Some(done.push(x)),
            _ => None,
        }
    }
}

/// Once a prefix of the items fails to read, so do all of them.
pub proof fn lemma_all_of_prefix_fails<T>(items: Seq<Json>, f: spec_fn(Json) -> Option<T>, j: int)
    requires
        0 <= j <= items.len(),
        all_of(items.take(j), f) is None,
    ensures
        all_of(items, f) is None,
    decreases items.len(),
{
    if j == items.len() {
        assert(items.take(j) =~= items);
    } else {
        assert(items.drop_last().take(j) =~= items.take(j));
        lemma_all_of_prefix_fails(items.drop_last(), f, j);
    }
}

/// A list result: the items when the result is an array whose items all
/// read with `f`; no items otherwise.
pub open spec fn list_of<T>(result: Option<Json>, f: spec_fn(Json) -> Option<T>) -> Seq<T> {
    match result {
        Some(Json::Array(items)) => match all_of(items@, f) {
            Some(xs) => xs,
            None => Seq::empty(),
        },
        _ => Seq::empty(),
    }
}

/// An optional member: missing or `null` is `Some(None)`; `None` when it is
/// present with the wrong type.
pub open spec fn opt_bool_of(v: Option<Json>) -> Option<Option<bool>> {
    match v {
        None => Some(None),
        Some(Json::Null) => Some(None),
        Some(Json::Bool(b)) => Some(Some(b)),
        _ => None,
    }
}

pub open spec fn opt_text_of(v: Option<Json>) -> Option<Option<String>> {
    match v {
        None => Some(None),
        Some(Json::Null) => Some(None),
        Some(Json::Str(s)) => Some(Some(s)),
        _ => None,
    }
}

/// A flag that defaults to `false` when missing.
pub open spec fn flag_of(v: Option<Json>) -> Option<bool> {
    match v {
        None => Some(false),
        Some(Json::Bool(b)) => Some(b),
        _ => None,
    }
}

pub open spec fn string_of(j: Json) -> Option<String> {
    text_of(Some(j))
}

pub open spec fn byte_of(j: Json) -> Option<u8> {
    match j {
        Json::Int(i) => if 0 <= i <= 255 {
            Some(i as u8)
        } else {
            None
        },
        _ => None,
    }
}

/// A player object: `name`, `id`, `controller` and `state` strings, and an
/// optional `host` flag.
pub open spec fn player_of(j: Json) -> Option<Player> {
    match j {
        Json::Object(ms) => {
            let name = text_of(member(ms@, "name"@));
            let id = text_of(member(ms@, "id"@));
            let controller = text_of(member(ms@, "controller"@));
            let state = text_of(member(ms@, "state"@));
            let host = opt_bool_of(member(ms@, "host"@));
            if name is Some && id is Some && controller is Some && state is Some && host is Some {
                Some(
                    Player {
                        name: name->0,
                        id: id->0,
                        controller: controller->0,
                        state: state->0,
                        host: host->0,
                    },
                )
            } else {
                None
            }
        },
        _ => None,
    }
}

/// An array of three bytes.
pub open spec fn color_of(v: Option<Json>) -> Option<(u8, u8, u8)> {
    match v {
        Some(Json::Array(c)) => if c@.len() == 3 && byte_of(c@[0]) is Some && byte_of(c@[1]) is Some
            && byte_of(c@[2]) is Some {
            Some((byte_of(c@[0])->0, byte_of(c@[1])->0, byte_of(c@[2])->0))
        } else {
            None
        },
        _ => None,
    }
}

/// A paint object: `materialIndex`, `materialAlpha` and `material` strings,
/// and a `color` array of three bytes.
pub open spec fn paint_of(j: Json) -> Option<PlayerPaint> {
    match j {
        Json::Object(ms) => {
            let index = text_of(member(ms@, "materialIndex"@));
            let alpha = text_of(member(ms@, "materialAlpha"@));
            let material = text_of(member(ms@, "material"@));
            let color = color_of(member(ms@, "color"@));
            if index is Some && alpha is Some && material is Some && color is Some {
                Some(
                    PlayerPaint {
                        material_index: index->0,
                        material_alpha: alpha->0,
                        material: material->0,
                        color: color->0,
                    },
                )
            } else {
                None
            }
        },
        _ => None,
    }
}

/// `player_of` as a value, for lists.
pub open spec fn player_reader() -> spec_fn(Json) -> Option<Player> {
    |j: Json| player_of(j)
}

/// `string_of` as a value, for lists.
pub open spec fn string_reader() -> spec_fn(Json) -> Option<String> {
    |j: Json| string_of(j)
}

fn text_member(ms: &Vec<(String, Json)>, key: &str) -> (r: Option<String>)
    ensures
        r == text_of(member(ms@, key@)),
{
    match find_member(ms, key) {
        Some(i) => match &ms[i].1 {
            Json::Str(s) => Some(s.clone()),
            _ => None,
        },
        None => None,
    }
}

fn opt_bool_member(ms: &Vec<(String, Json)>, key: &str) -> (r: Option<Option<bool>>)
    ensures
        r == opt_bool_of(member(ms@, key@)),
{
    match find_member(ms, key) {
        Some(i) => match &ms[i].1 {
            Json::Null => Some(None),
            Json::Bool(b) => Some(Some(*b)),
            _ => None,
        },
        None => Some(None),
    }
}

fn opt_text_member(ms: &Vec<(String, Json)>, key: &str) -> (r: Option<Option<String>>)
    ensures
        r == opt_text_of(member(ms@, key@)),
{
    match find_member(ms, key) {
        Some(i) => match &ms[i].1 {
            Json::Null => Some(None),
            Json::Str(s) => Some(Some(s.clone())),
            _ => None,
        },
        None => Some(None),
    }
}

fn flag_member(ms: &Vec<(String, Json)>, key: &str) -> (r: Option<bool>)
    ensures
        r == flag_of(member(ms@, key@)),
{
    match find_member(ms, key) {
        Some(i) => match &ms[i].1 {
            Json::Bool(b) => Some(*b),
            _ => None,
        },
        None => Some(false),
    }
}

fn byte_from(j: &Json) -> (r: Option<u8>)
    ensures
        r == byte_of(*j),
{
    match j {
        Json::Int(i) => if 0 <= *i && *i <= 255 {
            Some(*i as u8)
        } else {
            None
        },
        _ => None,
    }
}

impl Player {
    /// Reads a player object.
    pub fn from_json(j: &Json) -> (r: Option<Player>)
        ensures
            r == player_of(*j),
    {
        match j {
            Json::Object(ms) => {
                let name = text_member(ms, "name");
                let id = text_member(ms, "id");
                let controller = text_member(ms, "controller");
                let state = text_member(ms, "state");
                let host = opt_bool_member(ms, "host");
                match (name, id, controller, state, host) {
                    (Some(name), Some(id), Some(controller), Some(state), Some(host)) => Some(
                        Player { name, id, controller, state, host },
                    ),
                    _ => None,
                }
            },
            _ => None,
        }
    }

    /// Reads a list of players; no players unless the result is an array of
    /// player objects.
    pub fn list_from(result: &Option<Json>) -> (r: Vec<Player>)
        ensures
            r@ == list_of(*result, player_reader()),
    {
        let items = match result {
            Some(Json::Array(items)) => items,
            _ => return Vec::new(),
        };
        let mut out: Vec<Player> = Vec::new();
        let mut i: usize = 0;
        while i < items.len()
            invariant
                i <= items.len(),
                *result == Some(Json::Array(*items)),
                all_of(items@.take(i as int), player_reader()) == Some(out@),
            decreases items.len() - i,
        {
            proof {
                assert(items@.take(i + 1).drop_last() =~= items@.take(i as int));
            }
            match Player::from_json(&items[i]) {
                Some(p) => out.push(p),
                None => {
                    proof {
                        lemma_all_of_prefix_fails(items@, player_reader(), i + 1);
                    }
                    return Vec::new();
                },
            }
            i = i + 1;
        }
        proof {
            assert(items@.take(i as int) =~= items@);
        }
        out
    }
}

impl PlayerPaint {
    /// Reads a paint object.
    pub fn from_json(j: &Json) -> (r: Option<PlayerPaint>)
        ensures
            r == paint_of(*j),
    {
        match j {
            Json::Object(ms) => {
                let index = text_member(ms, "materialIndex");
                let alpha = text_member(ms, "materialAlpha");
                let material = text_member(ms, "material");
                let color = match find_member(ms, "color") {
                    Some(k) => match &ms[k].1 {
                        Json::Array(c) => if c.len() == 3 {
                            match (byte_from(&c[0]), byte_from(&c[1]), byte_from(&c[2])) {
                                (Some(r), Some(g), Some(b)) => Some((r, g, b)),
                                _ => None,
                            }
                        } else {
                            None
                        },
                        _ => None,
                    },
                    None => None,
                };
                match (index, alpha, material, color) {
                    (Some(material_index), Some(material_alpha), Some(material), Some(color)) => Some(
                        PlayerPaint { material_index, material_alpha, material, color },
                    ),
                    _ => None,
                }
            },
            _ => None,
        }
    }
}

/// The strings of a result that is an array of strings; `None` otherwise.
pub open spec fn strings_of(result: Option<Json>) -> Option<Seq<String>> {
    match result {
        Some(Json::Array(items)) => all_of(items@, string_reader()),
        _ => None,
    }
}

/// Reads an array of strings; `None` unless the result is one.
pub fn string_list_from(result: &Option<Json>) -> (r: Option<Vec<String>>)
    ensures
        r is Some <==> strings_of(*result) is Some,
        r matches Some(v) ==> strings_of(*result) == Some(v@),
{
    let items = match result {
        Some(Json::Array(items)) => items,
        _ => return None,
    };
    let mut out: Vec<String> = Vec::new();
    let mut i: usize = 0;
    while i < items.len()
        invariant
            i <= items.len(),
            *result == Some(Json::Array(*items)),
            all_of(items@.take(i as int), string_reader()) == Some(out@),
        decreases items.len() - i,
    {
        proof {
            assert(items@.take(i + 1).drop_last() =~= items@.take(i as int));
        }
        match &items[i] {
            Json::Str(s) => out.push(s.clone()),
            _ => {
                proof {
                    lemma_all_of_prefix_fails(items@, string_reader(), i + 1);
                }
                return None;
            },
        }
        i = i + 1;
    }
    proof {
        assert(items@.take(i as int) =~= items@);
    }
    Some(out)
}

/// Reads a list of strings; none unless the result is an array of strings.
pub fn strings_from(result: &Option<Json>) -> (r: Vec<String>)
    ensures
        r@ == list_of(*result, string_reader()),
{
    match string_list_from(result) {
        Some(v) => v,
        None => Vec::new(),
    }
}

/// Reads a string result.
pub fn string_from(result: &Option<Json>) -> (r: Option<String>)
    ensures
        r == text_of(*result),
{
    match result {
        Some(Json::Str(s)) => Some(s.clone()),
        _ => None,
    }
}

} // verus!
