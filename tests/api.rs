use omegga::codec::{decode, encode};
use omegga::json::Json;
use omegga::resources::{string_from, string_list_from, strings_from, Player, PlayerPaint};
use omegga::rpc::{Error, RequestId};
use omegga::Omegga;

fn s(text: &str) -> String {
    text.to_string()
}

fn parse(text: &str) -> Json {
    Json::parse(text).unwrap()
}

#[test]
fn console_notifications() {
    let om = Omegga::new();
    assert_eq!(encode(&om.log(s("hello"))), r#"{"jsonrpc":"2.0","method":"log","params":"hello"}"#);
    assert_eq!(encode(&om.error(s("e"))), r#"{"jsonrpc":"2.0","method":"error","params":"e"}"#);
    assert_eq!(encode(&om.info(s("i"))), r#"{"jsonrpc":"2.0","method":"info","params":"i"}"#);
    assert_eq!(encode(&om.warn(s("w"))), r#"{"jsonrpc":"2.0","method":"warn","params":"w"}"#);
    assert_eq!(encode(&om.trace(s("t"))), r#"{"jsonrpc":"2.0","method":"trace","params":"t"}"#);
    assert_eq!(encode(&om.writeln(s("Chat.Command"))), r#"{"jsonrpc":"2.0","method":"exec","params":"Chat.Command"}"#);
    assert_eq!(encode(&om.broadcast(s("b"))), r#"{"jsonrpc":"2.0","method":"broadcast","params":"b"}"#);
}

#[test]
fn object_notifications() {
    let om = Omegga::new();
    assert_eq!(
        encode(&om.whisper(s("bob"), s("psst"))),
        r#"{"jsonrpc":"2.0","method":"whisper","params":{"target":"bob","line":"psst"}}"#
    );
    assert_eq!(
        encode(&om.clear_bricks(s("bob"), true)),
        r#"{"jsonrpc":"2.0","method":"clearBricks","params":{"target":"bob","quiet":true}}"#
    );
    assert_eq!(
        encode(&om.clear_all_bricks(false)),
        r#"{"jsonrpc":"2.0","method":"clearAllBricks","params":{"quiet":false}}"#
    );
}

#[test]
fn store_messages() {
    let mut om = Omegga::new();
    assert_eq!(
        encode(&om.store_set(s("k"), Json::Int(5))),
        r#"{"jsonrpc":"2.0","method":"store.set","params":["k",5]}"#
    );
    assert_eq!(encode(&om.store_delete(s("k"))), r#"{"jsonrpc":"2.0","method":"store.delete","params":"k"}"#);
    assert_eq!(encode(&om.store_wipe()), r#"{"jsonrpc":"2.0","method":"store.wipe","params":null}"#);
    let (m, _) = om.store_get(s("k")).unwrap();
    assert_eq!(encode(&m), r#"{"jsonrpc":"2.0","id":-1,"method":"store.get","params":"k"}"#);
    let (m, _) = om.store_keys().unwrap();
    assert_eq!(encode(&m), r#"{"jsonrpc":"2.0","id":-2,"method":"store.keys","params":null}"#);
}

#[test]
fn request_builders() {
    let mut om = Omegga::new();
    let (m, _) = om.load_bricks(s("castle"), true, (1, -2, 3)).unwrap();
    assert_eq!(
        encode(&m),
        r#"{"jsonrpc":"2.0","id":-1,"method":"loadBricks","params":{"name":"castle","quiet":true,"offX":1,"offY":-2,"offZ":3}}"#
    );
    let (m, _) = om.load_data_at_ghost_brick(s("bob"), Json::Null, (0, 0, 1), false, true).unwrap();
    assert_eq!(
        encode(&m),
        r#"{"jsonrpc":"2.0","id":-2,"method":"player.loadDataAtGhostBrick","params":{"target":"bob","data":null,"offX":0,"offY":0,"offZ":1,"rotate":false,"quiet":true}}"#
    );
    let (m, _) = om.emit_plugin(s("other"), s("ping"), vec![Json::Int(1), Json::Bool(true)]).unwrap();
    assert_eq!(
        encode(&m),
        r#"{"jsonrpc":"2.0","id":-3,"method":"plugin.emit","params":["other","ping",1,true]}"#
    );
    let (m, _) = om.get_player_name_color(s("bob")).unwrap();
    assert_eq!(encode(&m), r#"{"jsonrpc":"2.0","id":-4,"method":"player.getNameColor","params":"bob"}"#);
    let (m, _) = om.load_save_data(parse("{\"a\":1}"), false, (0, 0, 0)).unwrap();
    assert_eq!(
        encode(&m),
        r#"{"jsonrpc":"2.0","id":-5,"method":"loadSaveData","params":{"data":{"a":1},"quiet":false,"offX":0,"offY":0,"offZ":0}}"#
    );
}

#[test]
fn write_builders() {
    let om = Omegga::new();
    let e = Error { code: 1, message: s("x"), data: None };
    assert_eq!(
        encode(&om.write_response(RequestId::Str(s("init")), None, Some(e))),
        r#"{"jsonrpc":"2.0","id":"init","result":null,"error":{"code":1,"message":"x","data":null}}"#
    );
    assert_eq!(
        encode(&om.write_request(RequestId::Int(9), s("m"), Some(Json::Int(2)))),
        r#"{"jsonrpc":"2.0","id":9,"method":"m","params":2}"#
    );
    let m = om.write_notification(s("n"), None);
    assert_eq!(decode(&encode(&m)), Some(om.write_notification(s("n"), None)));
}

#[test]
fn reads_players() {
    let j = parse(r#"[{"name":"alice","id":"1","controller":"c1","state":"s","host":true},{"name":"bob","id":"2","controller":"c2","state":"s","extra":0}]"#);
    let players = Player::list_from(&Some(j));
    assert_eq!(
        players,
        vec![
            Player { name: s("alice"), id: s("1"), controller: s("c1"), state: s("s"), host: Some(true) },
            Player { name: s("bob"), id: s("2"), controller: s("c2"), state: s("s"), host: None },
        ]
    );
    let bad = parse(r#"[{"name":"alice","id":"1","controller":"c1","state":"s"},{"name":"bob"}]"#);
    assert_eq!(Player::list_from(&Some(bad)), vec![]);
    assert_eq!(Player::list_from(&None), vec![]);
    assert_eq!(Player::from_json(&parse(r#"{"name":"a","id":"1","controller":"c","state":"s","host":"yes"}"#)), None);
}

#[test]
fn reads_paint() {
    let j = parse(r#"{"materialIndex":"0","materialAlpha":"5","material":"BMC_Plastic","color":[255,0,17]}"#);
    assert_eq!(
        PlayerPaint::from_json(&j),
        Some(PlayerPaint {
            material_index: s("0"),
            material_alpha: s("5"),
            material: s("BMC_Plastic"),
            color: (255, 0, 17),
        })
    );
    let out_of_range = parse(r#"{"materialIndex":"0","materialAlpha":"5","material":"m","color":[256,0,0]}"#);
    assert_eq!(PlayerPaint::from_json(&out_of_range), None);
}

#[test]
fn reads_strings() {
    assert_eq!(strings_from(&Some(parse(r#"["a","b"]"#))), vec![s("a"), s("b")]);
    assert_eq!(strings_from(&Some(parse(r#"["a",1]"#))), Vec::<String>::new());
    assert_eq!(strings_from(&None), Vec::<String>::new());
    assert_eq!(string_from(&Some(Json::Str(s("p")))), Some(s("p")));
    assert_eq!(string_from(&Some(Json::Int(1))), None);
}

#[test]
fn reads_string_lists() {
    assert_eq!(string_list_from(&Some(parse(r#"["admin","mod"]"#))), Some(vec![s("admin"), s("mod")]));
    assert_eq!(string_list_from(&Some(parse("[]"))), Some(vec![]));
    assert_eq!(string_list_from(&Some(parse(r#"["a",null]"#))), None);
    assert_eq!(string_list_from(&None), None);
}
