//! The host's domain API as messages: each call names a method and builds
//! its parameters, and goes out as a notification or as a request whose
//! awaiter yields the result.
use vstd::prelude::*;

use crate::json::Json;
use crate::rpc::{version_text, Error, Message, RequestId};
use crate::{issues, method_of, notifies, object_of, params_of, Omegga, ResponseAwaiter};

verus! {

fn text(s: &str) -> (r: String)
    ensures
        r@ == s@,
{
    String::from_str(s)
}

fn entry(key: &str, value: Json) -> (r: (String, Json))
    ensures
        r.0@ == key@,
        r.1 == value,
{
    (String::from_str(key), value)
}

impl Omegga {
    /// A notification of `method`.
    pub fn write_notification(&self, method: String, params: Option<Json>) -> (r: Message)
        ensures
            notifies(r, method@),
            params_of(r) == params,
    {
        Message::notification(method, params)
    }

    /// A reply to a request of the host.
    pub fn write_response(&self, id: RequestId, params: Option<Json>, error: Option<Error>) -> (r: Message)
        ensures
            r matches Message::Response { jsonrpc, id: i, result, error: e } && jsonrpc@
                == version_text() && i == id && result == params && e == error,
    {
        Message::response(id, params, error)
    }

    /// A request with a caller-chosen id, which no awaiter tracks.
    pub fn write_request(&self, id: RequestId, method: String, params: Option<Json>) -> (r: Message)
        ensures
            r matches Message::Request { jsonrpc, id: i, .. } && jsonrpc@ == version_text() && i
                == id,
            method_of(r) == method@,
            params_of(r) == params,
    {
        Message::request(id, method, params)
    }

    /// Prints a line to the host console.
    pub fn log(&self, line: String) -> (r: Message)
        ensures
            notifies(r, "log"@),
            params_of(r) == Some(Json::Str(line)),
    {
        Message::notification(text("log"), Some(Json::Str(line)))
    }

    /// Prints a line to the host console in error color.
    pub fn error(&self, line: String) -> (r: Message)
        ensures
            notifies(r, "error"@),
            params_of(r) == Some(Json::Str(line)),
    {
        Message::notification(text("error"), Some(Json::Str(line)))
    }

    /// Prints a line to the host console in info color.
    pub fn info(&self, line: String) -> (r: Message)
        ensures
            notifies(r, "info"@),
            params_of(r) == Some(Json::Str(line)),
    {
        Message::notification(text("info"), Some(Json::Str(line)))
    }

    /// Prints a line to the host console in warn color.
    pub fn warn(&self, line: String) -> (r: Message)
        ensures
            notifies(r, "warn"@),
            params_of(r) == Some(Json::Str(line)),
    {
        Message::notification(text("warn"), Some(Json::Str(line)))
    }

    /// Prints a line to the host console in trace color.
    pub fn trace(&self, line: String) -> (r: Message)
        ensures
            notifies(r, "trace"@),
            params_of(r) == Some(Json::Str(line)),
    {
        Message::notification(text("trace"), Some(Json::Str(line)))
    }

    /// Writes a line to the game server.
    pub fn writeln(&self, line: String) -> (r: Message)
        ensures
            notifies(r, "exec"@),
            params_of(r) == Some(Json::Str(line)),
    {
        Message::notification(text("exec"), Some(Json::Str(line)))
    }

    /// Broadcasts a line to every player.
    pub fn broadcast(&self, line: String) -> (r: Message)
        ensures
            notifies(r, "broadcast"@),
            params_of(r) == Some(Json::Str(line)),
    {
        Message::notification(text("broadcast"), Some(Json::Str(line)))
    }

    /// Deletes a key from the plugin store.
    pub fn store_delete(&self, key: String) -> (r: Message)
        ensures
            notifies(r, "store.delete"@),
            params_of(r) == Some(Json::Str(key)),
    {
        Message::notification(text("store.delete"), Some(Json::Str(key)))
    }

    /// Sets a key of the plugin store.
    pub fn store_set(&self, key: String, value: Json) -> (r: Message)
        ensures
            notifies(r, "store.set"@),
            params_of(r) matches Some(Json::Array(v)) && v@ == seq![Json::Str(key), value],
    {
        let mut v: Vec<Json> = Vec::new();
        v.push(Json::Str(key));
        v.push(value);
        Message::notification(text("store.set"), Some(Json::Array(v)))
    }

    /// Wipes the plugin store.
    pub fn store_wipe(&self) -> (r: Message)
        ensures
            notifies(r, "store.wipe"@),
            params_of(r) is None,
    {
        Message::notification(text("store.wipe"), None)
    }

    /// Whispers a line to one player, by name.
    pub fn whisper(&self, username: String, line: String) -> (r: Message)
        ensures
            notifies(r, "whisper"@),
            object_of(params_of(r), seq![("target"@, Json::Str(username)), ("line"@, Json::Str(line))]),
    {
        let mut ms: Vec<(String, Json)> = Vec::new();
        ms.push(entry("target", Json::Str(username)));
        ms.push(entry("line", Json::Str(line)));
        Message::notification(text("whisper"), Some(Json::Object(ms)))
    }

    /// Clears one player's bricks, by name.
    pub fn clear_bricks(&self, target: String, quiet: bool) -> (r: Message)
        ensures
            notifies(r, "clearBricks"@),
            object_of(params_of(r), seq![("target"@, Json::Str(target)), ("quiet"@, Json::Bool(quiet))]),
    {
        let mut ms: Vec<(String, Json)> = Vec::new();
        ms.push(entry("target", Json::Str(target)));
        ms.push(entry("quiet", Json::Bool(quiet)));
        Message::notification(text("clearBricks"), Some(Json::Object(ms)))
    }

    /// Clears every brick.
    pub fn clear_all_bricks(&self, quiet: bool) -> (r: Message)
        ensures
            notifies(r, "clearAllBricks"@),
            object_of(params_of(r), seq![("quiet"@, Json::Bool(quiet))]),
    {
        let mut ms: Vec<(String, Json)> = Vec::new();
        ms.push(entry("quiet", Json::Bool(quiet)));
        Message::notification(text("clearAllBricks"), Some(Json::Object(ms)))
    }

    /// Lists the keys of the plugin store.
    pub fn store_keys(&mut self) -> (r: Option<(Message, ResponseAwaiter)>)
        requires
            old(self).wf(),
        ensures
            final(self).wf(),
            issues(*old(self), *final(self), r, "store.keys"@),
            r matches Some((m, _)) ==> params_of(m) is None,
    {
        self.request(text("store.keys"), None)
    }

    /// Lists the players online.
    pub fn get_players(&mut self) -> (r: Option<(Message, ResponseAwaiter)>)
        requires
            old(self).wf(),
        ensures
            final(self).wf(),
            issues(*old(self), *final(self), r, "getPlayers"@),
            r matches Some((m, _)) ==> params_of(m) is None,
    {
        self.request(text("getPlayers"), None)
    }

    /// Lists every player with their position.
    pub fn get_all_player_positions(&mut self) -> (r: Option<(Message, ResponseAwaiter)>)
        requires
            old(self).wf(),
        ensures
            final(self).wf(),
            issues(*old(self), *final(self), r, "getAllPlayerPositions"@),
            r matches Some((m, _)) ==> params_of(m) is None,
    {
        self.request(text("getAllPlayerPositions"), None)
    }

    /// Gets the role setup.
    pub fn get_role_setup(&mut self) -> (r: Option<(Message, ResponseAwaiter)>)
        requires
            old(self).wf(),
        ensures
            final(self).wf(),
            issues(*old(self), *final(self), r, "getRoleSetup"@),
            r matches Some((m, _)) ==> params_of(m) is None,
    {
        self.request(text("getRoleSetup"), None)
    }

    /// Gets the ban list.
    pub fn get_ban_list(&mut self) -> (r: Option<(Message, ResponseAwaiter)>)
        requires
            old(self).wf(),
        ensures
            final(self).wf(),
            issues(*old(self), *final(self), r, "getBanList"@),
            r matches Some((m, _)) ==> params_of(m) is None,
    {
        self.request(text("getBanList"), None)
    }

    /// Lists the server's saves.
    pub fn get_saves(&mut self) -> (r: Option<(Message, ResponseAwaiter)>)
        requires
            old(self).wf(),
        ensures
            final(self).wf(),
            issues(*old(self), *final(self), r, "getSaves"@),
            r matches Some((m, _)) ==> params_of(m) is None,
    {
        self.request(text("getSaves"), None)
    }

    /// Gets the current save data.
    pub fn get_save_data(&mut self) -> (r: Option<(Message, ResponseAwaiter)>)
        requires
            old(self).wf(),
        ensures
            final(self).wf(),
            issues(*old(self), *final(self), r, "getSaveData"@),
            r matches Some((m, _)) ==> params_of(m) is None,
    {
        self.request(text("getSaveData"), None)
    }

    /// Gets a value of the plugin store.
    pub fn store_get(&mut self, key: String) -> (r: Option<(Message, ResponseAwaiter)>)
        requires
            old(self).wf(),
        ensures
            final(self).wf(),
            issues(*old(self), *final(self), r, "store.get"@),
            r matches Some((m, _)) ==> params_of(m) == Some(Json::Str(key)),
    {
        self.request(text("store.get"), Some(Json::Str(key)))
    }

    /// Gets the path of a save.
    pub fn get_save_path(&mut self, save: String) -> (r: Option<(Message, ResponseAwaiter)>)
        requires
            old(self).wf(),
        ensures
            final(self).wf(),
            issues(*old(self), *final(self), r, "getSavePath"@),
            r matches Some((m, _)) ==> params_of(m) == Some(Json::Str(save)),
    {
        self.request(text("getSavePath"), Some(Json::Str(save)))
    }

    /// Saves the bricks under a name.
    pub fn save_bricks(&mut self, name: String) -> (r: Option<(Message, ResponseAwaiter)>)
        requires
            old(self).wf(),
        ensures
            final(self).wf(),
            issues(*old(self), *final(self), r, "saveBricks"@),
            r matches Some((m, _)) ==> params_of(m) == Some(Json::Str(name)),
    {
        self.request(text("saveBricks"), Some(Json::Str(name)))
    }

    /// Reads a save file's data.
    pub fn read_save_data(&mut self, name: String) -> (r: Option<(Message, ResponseAwaiter)>)
        requires
            old(self).wf(),
        ensures
            final(self).wf(),
            issues(*old(self), *final(self), r, "readSaveData"@),
            r matches Some((m, _)) ==> params_of(m) == Some(Json::Str(name)),
    {
        self.request(text("readSaveData"), Some(Json::Str(name)))
    }

    /// Changes the map.
    pub fn change_map(&mut self, map: String) -> (r: Option<(Message, ResponseAwaiter)>)
        requires
            old(self).wf(),
        ensures
            final(self).wf(),
            issues(*old(self), *final(self), r, "changeMap"@),
            r matches Some((m, _)) ==> params_of(m) == Some(Json::Str(map)),
    {
        self.request(text("changeMap"), Some(Json::Str(map)))
    }

    /// Gets a player.
    pub fn get_player(&mut self, target: String) -> (r: Option<(Message, ResponseAwaiter)>)
        requires
            old(self).wf(),
        ensures
            final(self).wf(),
            issues(*old(self), *final(self), r, "player.get"@),
            r matches Some((m, _)) ==> params_of(m) == Some(Json::Str(target)),
    {
        self.request(text("player.get"), Some(Json::Str(target)))
    }

    /// Gets a player's roles.
    pub fn get_player_roles(&mut self, target: String) -> (r: Option<(Message, ResponseAwaiter)>)
        requires
            old(self).wf(),
        ensures
            final(self).wf(),
            issues(*old(self), *final(self), r, "player.getRoles"@),
            r matches Some((m, _)) ==> params_of(m) == Some(Json::Str(target)),
    {
        self.request(text("player.getRoles"), Some(Json::Str(target)))
    }

    /// Gets a player's permissions.
    pub fn get_player_permissions(&mut self, target: String) -> (r: Option<(Message, ResponseAwaiter)>)
        requires
            old(self).wf(),
        ensures
            final(self).wf(),
            issues(*old(self), *final(self), r, "player.getPermissions"@),
            r matches Some((m, _)) ==> params_of(m) == Some(Json::Str(target)),
    {
        self.request(text("player.getPermissions"), Some(Json::Str(target)))
    }

    /// Gets a player's name color (six hex digits).
    pub fn get_player_name_color(&mut self, target: String) -> (r: Option<(Message, ResponseAwaiter)>)
        requires
            old(self).wf(),
        ensures
            final(self).wf(),
            issues(*old(self), *final(self), r, "player.getNameColor"@),
            r matches Some((m, _)) ==> params_of(m) == Some(Json::Str(target)),
    {
        self.request(text("player.getNameColor"), Some(Json::Str(target)))
    }

    /// Gets a player's position.
    pub fn get_player_position(&mut self, target: String) -> (r: Option<(Message, ResponseAwaiter)>)
        requires
            old(self).wf(),
        ensures
            final(self).wf(),
            issues(*old(self), *final(self), r, "player.getPosition"@),
            r matches Some((m, _)) ==> params_of(m) == Some(Json::Str(target)),
    {
        self.request(text("player.getPosition"), Some(Json::Str(target)))
    }

    /// Gets a player's ghost brick.
    pub fn get_player_ghost_brick(&mut self, target: String) -> (r: Option<(Message, ResponseAwaiter)>)
        requires
            old(self).wf(),
        ensures
            final(self).wf(),
            issues(*old(self), *final(self), r, "player.getGhostBrick"@),
            r matches Some((m, _)) ==> params_of(m) == Some(Json::Str(target)),
    {
        self.request(text("player.getGhostBrick"), Some(Json::Str(target)))
    }

    /// Gets a player's paint.
    pub fn get_player_paint(&mut self, target: String) -> (r: Option<(Message, ResponseAwaiter)>)
        requires
            old(self).wf(),
        ensures
            final(self).wf(),
            issues(*old(self), *final(self), r, "player.getPaint"@),
            r matches Some((m, _)) ==> params_of(m) == Some(Json::Str(target)),
    {
        self.request(text("player.getPaint"), Some(Json::Str(target)))
    }

    /// Gets a player's template bounds.
    pub fn get_player_template_bounds(&mut self, target: String) -> (r: Option<(Message, ResponseAwaiter)>)
        requires
            old(self).wf(),
        ensures
            final(self).wf(),
            issues(*old(self), *final(self), r, "player.getTemplateBounds"@),
            r matches Some((m, _)) ==> params_of(m) == Some(Json::Str(target)),
    {
        self.request(text("player.getTemplateBounds"), Some(Json::Str(target)))
    }

    /// Gets the save data inside a player's template bounds.
    pub fn get_player_template_bounds_data(&mut self, target: String) -> (r: Option<(Message, ResponseAwaiter)>)
        requires
            old(self).wf(),
        ensures
            final(self).wf(),
            issues(*old(self), *final(self), r, "player.getTemplateBoundsData"@),
            r matches Some((m, _)) ==> params_of(m) == Some(Json::Str(target)),
    {
        self.request(text("player.getTemplateBoundsData"), Some(Json::Str(target)))
    }

    /// Gets a plugin.
    pub fn get_plugin(&mut self, target: String) -> (r: Option<(Message, ResponseAwaiter)>)
        requires
            old(self).wf(),
        ensures
            final(self).wf(),
            issues(*old(self), *final(self), r, "plugin.get"@),
            r matches Some((m, _)) ==> params_of(m) == Some(Json::Str(target)),
    {
        self.request(text("plugin.get"), Some(Json::Str(target)))
    }

    /// Loads a save at an offset in the world.
    pub fn load_bricks(&mut self, name: String, quiet: bool, offset: (i32, i32, i32)) -> (r: Option<(Message, ResponseAwaiter)>)
        requires
            old(self).wf(),
        ensures
            final(self).wf(),
            issues(*old(self), *final(self), r, "loadBricks"@),
            r matches Some((m, _)) ==> object_of(params_of(m), seq![
                ("name"@, Json::Str(name)),
                ("quiet"@, Json::Bool(quiet)),
                ("offX"@, Json::Int(offset.0 as i64)),
                ("offY"@, Json::Int(offset.1 as i64)),
                ("offZ"@, Json::Int(offset.2 as i64)),
            ]),
    {
        let mut ms: Vec<(String, Json)> = Vec::new();
        ms.push(entry("name", Json::Str(name)));
        ms.push(entry("quiet", Json::Bool(quiet)));
        ms.push(entry("offX", Json::Int(offset.0 as i64)));
        ms.push(entry("offY", Json::Int(offset.1 as i64)));
        ms.push(entry("offZ", Json::Int(offset.2 as i64)));
        self.request(text("loadBricks"), Some(Json::Object(ms)))
    }

    /// Loads save data into the world at an offset.
    pub fn load_save_data(&mut self, data: Json, quiet: bool, offset: (i32, i32, i32)) -> (r: Option<(Message, ResponseAwaiter)>)
        requires
            old(self).wf(),
        ensures
            final(self).wf(),
            issues(*old(self), *final(self), r, "loadSaveData"@),
            r matches Some((m, _)) ==> object_of(params_of(m), seq![
                ("data"@, data),
                ("quiet"@, Json::Bool(quiet)),
                ("offX"@, Json::Int(offset.0 as i64)),
                ("offY"@, Json::Int(offset.1 as i64)),
                ("offZ"@, Json::Int(offset.2 as i64)),
            ]),
    {
        let mut ms: Vec<(String, Json)> = Vec::new();
        ms.push(entry("data", data));
        ms.push(entry("quiet", Json::Bool(quiet)));
        ms.push(entry("offX", Json::Int(offset.0 as i64)));
        ms.push(entry("offY", Json::Int(offset.1 as i64)));
        ms.push(entry("offZ", Json::Int(offset.2 as i64)));
        self.request(text("loadSaveData"), Some(Json::Object(ms)))
    }

    /// Loads save data at a player's ghost brick.
    pub fn load_data_at_ghost_brick(
        &mut self,
        target: String,
        data: Json,
        offset: (i32, i32, i32),
        rotate: bool,
        quiet: bool,
    ) -> (r: Option<(Message, ResponseAwaiter)>)
        requires
            old(self).wf(),
        ensures
            final(self).wf(),
            issues(*old(self), *final(self), r, "player.loadDataAtGhostBrick"@),
            r matches Some((m, _)) ==> object_of(params_of(m), seq![
                ("target"@, Json::Str(target)),
                ("data"@, data),
                ("offX"@, Json::Int(offset.0 as i64)),
                ("offY"@, Json::Int(offset.1 as i64)),
                ("offZ"@, Json::Int(offset.2 as i64)),
                ("rotate"@, Json::Bool(rotate)),
                ("quiet"@, Json::Bool(quiet)),
            ]),
    {
        let mut ms: Vec<(String, Json)> = Vec::new();
        ms.push(entry("target", Json::Str(target)));
        ms.push(entry("data", data));
        ms.push(entry("offX", Json::Int(offset.0 as i64)));
        ms.push(entry("offY", Json::Int(offset.1 as i64)));
        ms.push(entry("offZ", Json::Int(offset.2 as i64)));
        ms.push(entry("rotate", Json::Bool(rotate)));
        ms.push(entry("quiet", Json::Bool(quiet)));
        self.request(text("player.loadDataAtGhostBrick"), Some(Json::Object(ms)))
    }

    /// Emits a custom event to another plugin: the parameters are the
    /// target, the event, then `args`.
    pub fn emit_plugin(&mut self, target: String, event: String, args: Vec<Json>) -> (r: Option<(Message, ResponseAwaiter)>)
        requires
            old(self).wf(),
        ensures
            final(self).wf(),
            issues(*old(self), *final(self), r, "plugin.emit"@),
            r matches Some((m, _)) ==> params_of(m) matches Some(Json::Array(v)) && v@ == seq![
                Json::Str(target),
                Json::Str(event),
            ] + args@,
    {
        let mut query: Vec<Json> = Vec::new();
        query.push(Json::Str(target));
        query.push(Json::Str(event));
        let mut args = args;
        query.append(&mut args);
        self.request(text("plugin.emit"), Some(Json::Array(query)))
    }
}

} // verus!
