//! The game manager's answers to the agent's MCPL requests: which handler a
//! request goes to, the game channels it opens, closes and publishes to, and the
//! answers it gives where a request cannot be served.
use vstd::prelude::*;

use crate::json_text::{compact_text, json_compact_text};
use crate::json::{entries_view, lemma_object_view, obj_get, text_of, bool_of, Json, JsonV};
use crate::lobby::{reply, reply_json, Step};
use crate::lobby_tools::{flag_or_false, headless_choice, running_text, LocalGame};
use crate::text::{join_strings, opt_str, owned, push_signed, signed_decimal};

verus! {

/// The agent's built-in lobby tools.
#[derive(Clone, Copy, Debug, PartialEq)]
pub enum LobbyTool {
    Connect,
    Login,
    Register,
    Disconnect,
    Say,
    JoinChannel,
    LeaveChannel,
    ListBattles,
    ListUsers,
    JoinBattle,
    LeaveBattle,
    MatchmakerJoin,
    MatchmakerLeave,
    MatchmakerAccept,
    MatchmakerStatus,
    StartGame,
    OpenBattle,
    AddBot,
    RemoveBot,
    StartBattle,
}

/// The name under which the agent calls a lobby tool.
pub open spec fn tool_name(t: LobbyTool) -> Seq<char> {
    match t {
        LobbyTool::Connect => "lobby_connect"@,
        LobbyTool::Login => "lobby_login"@,
        LobbyTool::Register => "lobby_register"@,
        LobbyTool::Disconnect => "lobby_disconnect"@,
        LobbyTool::Say => "lobby_say"@,
        LobbyTool::JoinChannel => "lobby_join_channel"@,
        LobbyTool::LeaveChannel => "lobby_leave_channel"@,
        LobbyTool::ListBattles => "lobby_list_battles"@,
        LobbyTool::ListUsers => "lobby_list_users"@,
        LobbyTool::JoinBattle => "lobby_join_battle"@,
        LobbyTool::LeaveBattle => "lobby_leave_battle"@,
        LobbyTool::MatchmakerJoin => "lobby_matchmaker_join"@,
        LobbyTool::MatchmakerLeave => "lobby_matchmaker_leave"@,
        LobbyTool::MatchmakerAccept => "lobby_matchmaker_accept"@,
        LobbyTool::MatchmakerStatus => "lobby_matchmaker_status"@,
        LobbyTool::StartGame => "lobby_start_game"@,
        LobbyTool::OpenBattle => "lobby_open_battle"@,
        LobbyTool::AddBot => "lobby_add_bot"@,
        LobbyTool::RemoveBot => "lobby_remove_bot"@,
        LobbyTool::StartBattle => "lobby_start_battle"@,
    }
}

fn same(a: &str, b: &str) -> (r: bool)
    ensures
        r == (a@ == b@),
{
    owned(a) == owned(b)
}

/// The lobby tool called `name`, if there is one.
pub fn lobby_tool_named(name: &str) -> (r: Option<LobbyTool>)
    ensures
        r matches Some(t) ==> tool_name(t) == name@,
        r is None ==> forall|t: LobbyTool| tool_name(t) != name@,
{
    if same(name, "lobby_connect") {
        Some(LobbyTool::Connect)
    } else if same(name, "lobby_login") {
        Some(LobbyTool::Login)
    } else if same(name, "lobby_register") {
        Some(LobbyTool::Register)
    } else if same(name, "lobby_disconnect") {
        Some(LobbyTool::Disconnect)
    } else if same(name, "lobby_say") {
        Some(LobbyTool::Say)
    } else if same(name, "lobby_join_channel") {
        Some(LobbyTool::JoinChannel)
    } else if same(name, "lobby_leave_channel") {
        Some(LobbyTool::LeaveChannel)
    } else if same(name, "lobby_list_battles") {
        Some(LobbyTool::ListBattles)
    } else if same(name, "lobby_list_users") {
        Some(LobbyTool::ListUsers)
    } else if same(name, "lobby_join_battle") {
        Some(LobbyTool::JoinBattle)
    } else if same(name, "lobby_leave_battle") {
        Some(LobbyTool::LeaveBattle)
    } else if same(name, "lobby_matchmaker_join") {
        Some(LobbyTool::MatchmakerJoin)
    } else if same(name, "lobby_matchmaker_leave") {
        Some(LobbyTool::MatchmakerLeave)
    } else if same(name, "lobby_matchmaker_accept") {
        Some(LobbyTool::MatchmakerAccept)
    } else if same(name, "lobby_matchmaker_status") {
        Some(LobbyTool::MatchmakerStatus)
    } else if same(name, "lobby_start_game") {
        Some(LobbyTool::StartGame)
    } else if same(name, "lobby_open_battle") {
        Some(LobbyTool::OpenBattle)
    } else if same(name, "lobby_add_bot") {
        Some(LobbyTool::AddBot)
    } else if same(name, "lobby_remove_bot") {
        Some(LobbyTool::RemoveBot)
    } else if same(name, "lobby_start_battle") {
        Some(LobbyTool::StartBattle)
    } else {
        None
    }
}

/// The answer to a call of a tool that nobody offers.
pub fn unknown_tool_reply(name: &str) -> (r: Json)
    ensures
        r@ == reply_json("Unknown tool: "@ + name@, true),
{
    let mut t = owned("Unknown tool: ");
    t.append(name);
    reply(t.as_str(), true)
}

/// The answer to a widget tool call that could not reach its game.
pub fn route_failure_reply(error: &str) -> (r: Json)
    ensures
        r@ == reply_json("Failed to route tool call: "@ + error@, true),
{
    let mut t = owned("Failed to route tool call: ");
    t.append(error);
    reply(t.as_str(), true)
}

/// A JSON-RPC error: `{"error": {"code": code, "message": message}}`.
pub open spec fn rpc_error_json(code: int, message: Seq<char>) -> JsonV {
    JsonV::Object(
        seq![
            (
                "error"@,
                JsonV::Object(
                    seq![
                        ("code"@, JsonV::Number(signed_decimal(code))),
                        ("message"@, JsonV::Text(message)),
                    ],
                ),
            ),
        ],
    )
}

pub fn rpc_error(code: i64, message: &str) -> (r: Json)
    ensures
        r@ == rpc_error_json(code as int, message@),
{
    let mut n = String::new();
    push_signed(&mut n, code);
    let inner = vec![(owned("code"), Json::Number(n)), (owned("message"), Json::Text(owned(message)))];
    proof {
        lemma_object_view(inner);
        assert(entries_view(inner@) =~= seq![
            ("code"@, JsonV::Number(signed_decimal(code as int))),
            ("message"@, JsonV::Text(message@)),
        ]);
    }
    let inner_v = Json::Object(inner);
    let outer = vec![(owned("error"), inner_v)];
    proof {
        lemma_object_view(outer);
        assert(entries_view(outer@) =~= seq![
            (
                "error"@,
                JsonV::Object(
                    seq![
                        ("code"@, JsonV::Number(signed_decimal(code as int))),
                        ("message"@, JsonV::Text(message@)),
                    ],
                ),
            ),
        ]);
    }
    Json::Object(outer)
}

/// The answer to a request whose method the game manager does not serve.
pub fn method_not_found(method: &str) -> (r: Json)
    ensures
        r@ == rpc_error_json(-32601, "Method not found: "@ + method@),
{
    let mut t = owned("Method not found: ");
    t.append(method);
    rpc_error(-32601, t.as_str())
}

/// The MCPL requests that the game manager serves.
#[derive(Debug, PartialEq)]
pub enum McplMethod {
    ToolsList,
    ToolsCall,
    ChannelsOpen,
    ChannelsClose,
    ChannelsList,
    ChannelsPublish,
    StateRollback,
}

pub open spec fn method_name(m: McplMethod) -> Seq<char> {
    match m {
        McplMethod::ToolsList => "tools/list"@,
        McplMethod::ToolsCall => "tools/call"@,
        McplMethod::ChannelsOpen => "channels/open"@,
        McplMethod::ChannelsClose => "channels/close"@,
        McplMethod::ChannelsList => "channels/list"@,
        McplMethod::ChannelsPublish => "channels/publish"@,
        McplMethod::StateRollback => "state/rollback"@,
    }
}

/// The request that the method name `method` asks for, if it is one served here.
pub fn method_named(method: &str) -> (r: Option<McplMethod>)
    ensures
        r matches Some(m) ==> method_name(m) == method@,
        r is None ==> forall|m: McplMethod| method_name(m) != method@,
{
    if same(method, "tools/list") {
        Some(McplMethod::ToolsList)
    } else if same(method, "tools/call") {
        Some(McplMethod::ToolsCall)
    } else if same(method, "channels/open") {
        Some(McplMethod::ChannelsOpen)
    } else if same(method, "channels/close") {
        Some(McplMethod::ChannelsClose)
    } else if same(method, "channels/list") {
        Some(McplMethod::ChannelsList)
    } else if same(method, "channels/publish") {
        Some(McplMethod::ChannelsPublish)
    } else if same(method, "state/rollback") {
        Some(McplMethod::StateRollback)
    } else {
        None
    }
}

/// The tool that a `tools/call` request names (empty when it names none) and
/// its arguments (an empty object when it gives none).
pub fn tool_call_target(params: &Json) -> (r: (String, Json))
    ensures
        r.0@ == (match obj_get(params@, "name"@) {
            Some(v) => match text_of(v) {
                Some(t) => t,
                None => Seq::empty(),
            },
            None => Seq::empty(),
        }),
        r.1@ == (match obj_get(params@, "arguments"@) {
            Some(v) => v,
            None => JsonV::Object(Seq::empty()),
        }),
{
    let name = match params.get("name") {
        Some(v) => match v.as_str() {
            Some(t) => owned(t),
            None => String::new(),
        },
        None => String::new(),
    };
    let args = match params.get("arguments") {
        Some(v) => v.deep_clone(),
        None => {
            let es: Vec<(String, Json)> = Vec::new();
            proof {
                lemma_object_view(es);
                assert(entries_view(es@) =~= Seq::<(Seq<char>, JsonV)>::empty());
            }
            Json::Object(es)
        },
    };
    (name, args)
}

// ── channels/open ──
/// A value inside the `address` object of a `channels/open` request.
pub open spec fn address_value(params: JsonV, key: Seq<char>) -> Option<JsonV> {
    match obj_get(params, "address"@) {
        Some(a) => obj_get(a, key),
        None => None,
    }
}

pub open spec fn address_text(params: JsonV, key: Seq<char>) -> Option<Seq<char>> {
    match address_value(params, key) {
        Some(v) => text_of(v),
        None => None,
    }
}

pub open spec fn address_flag(params: JsonV, key: Seq<char>) -> Option<bool> {
    match address_value(params, key) {
        Some(v) => bool_of(v),
        None => None,
    }
}

fn address_get<'a>(params: &'a Json, key: &str) -> (r: Option<&'a Json>)
    ensures
        r is None <==> address_value(params@, key@) is None,
        r matches Some(v) ==> address_value(params@, key@) == Some(v@),
{
    match params.get("address") {
        Some(a) => a.get(key),
        None => None,
    }
}

/// `channels/open`: start a local game on the map and game of the request's
/// `address` (`Chicken Defence 1.56` and `Zero-K v1.12.1.0` by default), unless
/// a game runs already (its channels are `running`).
pub fn plan_channels_open(running: &Vec<String>, params: &Json) -> (r: Step<LocalGame>)
    ensures
        running@.len() > 0 ==> (r matches Step::Reply(j) && j@ == rpc_error_json(
            -32000,
            "Game already running (channels: "@ + running_text(running@)
                + "). Close existing game first."@,
        )),
        running@.len() == 0 ==> (r matches Step::Go(g) && g.map@ == (match address_text(
            params@,
            "map"@,
        ) {
            Some(m) => m,
            None => "Chicken Defence 1.56"@,
        }) && g.game@ == (match address_text(params@, "game"@) {
            Some(x) => x,
            None => "Zero-K v1.12.1.0"@,
        }) && opt_str(g.opponent) == address_text(params@, "opponent"@) && g.player_mode
            == flag_or_false(address_flag(params@, "player_mode"@)) && g.headless == headless_choice(
            g.player_mode,
            address_flag(params@, "headless"@),
        )),
{
    if running.len() > 0 {
        let mut t = owned("Game already running (channels: ");
        let names = join_strings(running, ", ");
        t.append(names.as_str());
        t.append("). Close existing game first.");
        return Step::Reply(rpc_error(-32000, t.as_str()));
    }
    let map = match address_get(params, "map") {
        Some(v) => match v.as_str() {
            Some(m) => owned(m),
            None => owned("Chicken Defence 1.56"),
        },
        None => owned("Chicken Defence 1.56"),
    };
    let game = match address_get(params, "game") {
        Some(v) => match v.as_str() {
            Some(g) => owned(g),
            None => owned("Zero-K v1.12.1.0"),
        },
        None => owned("Zero-K v1.12.1.0"),
    };
    let opponent = match address_get(params, "opponent") {
        Some(v) => match v.as_str() {
            Some(o) => Some(owned(o)),
            None => None,
        },
        None => None,
    };
    let player_mode = match address_get(params, "player_mode") {
        Some(v) => match v.as_bool() {
            Some(b) => b,
            None => false,
        },
        None => false,
    };
    let headless = if player_mode {
        false
    } else {
        match address_get(params, "headless") {
            Some(v) => match v.as_bool() {
                Some(b) => b,
                None => true,
            },
            None => true,
        }
    };
    Step::Go(LocalGame { map, game, opponent, headless, player_mode })
}

/// The game channel that `channels/open` reports.
pub open spec fn opened_channel_json(id: Seq<char>, map: Seq<char>, game: Seq<char>) -> JsonV {
    JsonV::Object(
        seq![
            (
                "channel"@,
                JsonV::Object(
                    seq![
                        ("direction"@, JsonV::Text("bidirectional"@)),
                        ("id"@, JsonV::Text(id)),
                        ("label"@, JsonV::Text("Game on "@ + map)),
                        (
                            "metadata"@,
                            JsonV::Object(
                                seq![
                                    ("game"@, JsonV::Text(game)),
                                    ("map"@, JsonV::Text(map)),
                                    ("status"@, JsonV::Text("starting"@)),
                                ],
                            ),
                        ),
                        ("type"@, JsonV::Text("game"@)),
                    ],
                ),
            ),
        ],
    )
}

/// The end of `channels/open`, given the new game's channel or why it did not start.
pub fn finish_channels_open(map: &str, game: &str, result: Result<String, String>) -> (r: Json)
    ensures
        result matches Ok(id) ==> r@ == opened_channel_json(id@, map@, game@),
        result matches Err(e) ==> r@ == rpc_error_json(-32000, e@),
{
    match result {
        Ok(id) => {
            let mut label = owned("Game on ");
            label.append(map);
            let meta = vec![
                (owned("game"), Json::Text(owned(game))),
                (owned("map"), Json::Text(owned(map))),
                (owned("status"), Json::Text(owned("starting"))),
            ];
            let ghost meta_v = seq![
                ("game"@, JsonV::Text(game@)),
                ("map"@, JsonV::Text(map@)),
                ("status"@, JsonV::Text("starting"@)),
            ];
            proof {
                lemma_object_view(meta);
                assert(entries_view(meta@) =~= meta_v);
            }
            let chan = vec![
                (owned("direction"), Json::Text(owned("bidirectional"))),
                (owned("id"), Json::Text(id)),
                (owned("label"), Json::Text(label)),
                (owned("metadata"), Json::Object(meta)),
                (owned("type"), Json::Text(owned("game"))),
            ];
            let ghost chan_v = seq![
                ("direction"@, JsonV::Text("bidirectional"@)),
                ("id"@, JsonV::Text(id@)),
                ("label"@, JsonV::Text("Game on "@ + map@)),
                ("metadata"@, JsonV::Object(meta_v)),
                ("type"@, JsonV::Text("game"@)),
            ];
            proof {
                lemma_object_view(chan);
                assert(entries_view(chan@) =~= chan_v);
            }
            let outer = vec![(owned("channel"), Json::Object(chan))];
            proof {
                lemma_object_view(outer);
                assert(entries_view(outer@) =~= seq![("channel"@, JsonV::Object(chan_v))]);
            }
            Json::Object(outer)
        },
        Err(e) => rpc_error(-32000, e.as_str()),
    }
}

// ── channels/close ──
/// `{"closed": false, "error": error}`.
pub open spec fn not_closed_json(error: Seq<char>) -> JsonV {
    JsonV::Object(seq![("closed"@, JsonV::Bool(false)), ("error"@, JsonV::Text(error))])
}

fn flag_and_error(flag_key: &str, error: &str) -> (r: Json)
    ensures
        r@ == JsonV::Object(seq![(flag_key@, JsonV::Bool(false)), ("error"@, JsonV::Text(error@))]),
{
    let es = vec![(owned(flag_key), Json::Bool(false)), (owned("error"), Json::Text(owned(error)))];
    proof {
        lemma_object_view(es);
        assert(entries_view(es@) =~= seq![(flag_key@, JsonV::Bool(false)), ("error"@, JsonV::Text(error@))]);
    }
    Json::Object(es)
}

/// The channel that a request names in `channelId`.
pub open spec fn channel_id_arg(params: JsonV) -> Option<Seq<char>> {
    match obj_get(params, "channelId"@) {
        Some(v) => text_of(v),
        None => None,
    }
}

fn channel_id_of(params: &Json) -> (r: Option<String>)
    ensures
        opt_str(r) == channel_id_arg(params@),
{
    match params.get("channelId") {
        Some(v) => match v.as_str() {
            Some(c) => Some(owned(c)),
            None => None,
        },
        None => None,
    }
}

/// `channels/close`: the channel to close, or the answer where none is named.
pub fn plan_channels_close(params: &Json) -> (r: Step<String>)
    ensures
        channel_id_arg(params@) is None ==> (r matches Step::Reply(j) && j@ == not_closed_json(
            "Missing channelId"@,
        )),
        channel_id_arg(params@) matches Some(c) ==> (r matches Step::Go(id) && id@ == c),
{
    match channel_id_of(params) {
        Some(c) => Step::Go(c),
        None => Step::Reply(flag_and_error("closed", "Missing channelId")),
    }
}

/// The end of `channels/close`, given whether the game could be stopped.
pub fn finish_channels_close(result: Result<(), String>) -> (r: Json)
    ensures
        result is Ok ==> r@ == JsonV::Object(seq![("closed"@, JsonV::Bool(true))]),
        result matches Err(e) ==> r@ == not_closed_json(e@),
{
    match result {
        Ok(()) => {
            let es = vec![(owned("closed"), Json::Bool(true))];
            proof {
                lemma_object_view(es);
                assert(entries_view(es@) =~= seq![("closed"@, JsonV::Bool(true))]);
            }
            Json::Object(es)
        },
        Err(e) => flag_and_error("closed", e.as_str()),
    }
}

// ── channels/publish ──
/// What the agent published: the text of the first content block, or that
/// block's value where it is no string (the agent sent a JSON object, which is
/// then sent as its JSON text).
#[derive(Debug, PartialEq)]
pub enum Published {
    Text(String),
    Value(Json),
}

/// The text that goes out for what was published: the text itself, or the JSON
/// text of the value, as serde_json writes it compactly.
pub fn published_text(p: Published) -> (r: String)
    ensures
        r@ == match p {
            Published::Text(t) => t@,
            Published::Value(v) => json_compact_text(v@),
        },
{
    match p {
        Published::Text(t) => t,
        Published::Value(v) => compact_text(&v),
    }
}

/// The `text` of the first content block of a `channels/publish` request.
pub open spec fn published_value(params: JsonV) -> Option<JsonV> {
    match obj_get(params, "content"@) {
        Some(JsonV::Array(items)) => if items.len() > 0 {
            obj_get(items[0], "text"@)
        } else {
            None
        },
        _ => None,
    }
}

/// `{"delivered": false, "error": error}`.
pub open spec fn not_delivered_json(error: Seq<char>) -> JsonV {
    JsonV::Object(seq![("delivered"@, JsonV::Bool(false)), ("error"@, JsonV::Text(error))])
}

/// `channels/publish`: the channel and what to send on it, or the answer where
/// no channel is named. Where no content is given, the text is empty.
pub fn plan_channels_publish(params: &Json) -> (r: Step<(String, Published)>)
    ensures
        channel_id_arg(params@) is None ==> (r matches Step::Reply(j) && j@ == not_delivered_json(
            "Missing channelId"@,
        )),
        channel_id_arg(params@) matches Some(c) ==> (r matches Step::Go((id, p)) && id@ == c && (
        match published_value(params@) {
            Some(JsonV::Text(t)) => p matches Published::Text(x) && x@ == t,
            Some(v) => p matches Published::Value(x) && x@ == v,
            None => p matches Published::Text(x) && x@ == Seq::<char>::empty(),
        })),
{
    let id = match channel_id_of(params) {
        Some(c) => c,
        None => return Step::Reply(flag_and_error("delivered", "Missing channelId")),
    };
    let block = match params.get("content") {
        Some(c) => match c.as_array() {
            Some(items) => {
                if items.len() > 0 {
                    items[0].get("text")
                } else {
                    None
                }
            },
            None => None,
        },
        None => None,
    };
    let published = match block {
        Some(v) => match v.as_str() {
            Some(t) => Published::Text(owned(t)),
            None => Published::Value(v.deep_clone()),
        },
        None => Published::Text(String::new()),
    };
    Step::Go((id, published))
}

/// The end of `channels/publish`: the id of the delivered message, or why the
/// command was not delivered (it could not be read, or not sent).
pub fn publish_outcome(result: Result<String, String>) -> (r: Json)
    ensures
        result matches Ok(id) ==> r@ == JsonV::Object(
            seq![("delivered"@, JsonV::Bool(true)), ("messageId"@, JsonV::Text(id@))],
        ),
        result matches Err(e) ==> r@ == not_delivered_json(e@),
{
    match result {
        Ok(id) => {
            let ghost idv = id@;
            let es = vec![(owned("delivered"), Json::Bool(true)), (owned("messageId"), Json::Text(id))];
            proof {
                lemma_object_view(es);
                assert(entries_view(es@) =~= seq![
                    ("delivered"@, JsonV::Bool(true)),
                    ("messageId"@, JsonV::Text(idv)),
                ]);
            }
            Json::Object(es)
        },
        Err(e) => flag_and_error("delivered", e.as_str()),
    }
}

// ── state/rollback ──
pub open spec fn rollback_json(params: JsonV) -> JsonV {
    JsonV::Object(
        seq![
            (
                "checkpoint"@,
                JsonV::Text(
                    match obj_get(params, "checkpoint"@) {
                        Some(v) => match text_of(v) {
                            Some(c) => c,
                            None => Seq::empty(),
                        },
                        None => Seq::empty(),
                    },
                ),
            ),
            (
                "reason"@,
                JsonV::Text("Rollback not yet implemented — requires engine savestate support"@),
            ),
            ("success"@, JsonV::Bool(false)),
        ],
    )
}

/// `state/rollback`: the game engine keeps no save states, so no checkpoint can
/// be restored; the answer names the checkpoint asked for.
pub fn state_rollback(params: &Json) -> (r: Json)
    ensures
        r@ == rollback_json(params@),
{
    let checkpoint = match params.get("checkpoint") {
        Some(v) => match v.as_str() {
            Some(c) => owned(c),
            None => String::new(),
        },
        None => String::new(),
    };
    let es = vec![
        (owned("checkpoint"), Json::Text(checkpoint)),
        (
            owned("reason"),
            Json::Text(owned("Rollback not yet implemented — requires engine savestate support")),
        ),
        (owned("success"), Json::Bool(false)),
    ];
    proof {
        lemma_object_view(es);
        assert(entries_view(es@) =~= rollback_json(params@)->Object_0);
    }
    Json::Object(es)
}

} // verus!
