//! The lobby tools that the game manager announces to the agent (`tools/list`):
//! each tool's name, description and input schema.
use vstd::prelude::*;

use crate::json::{
    entries_get, entries_view, json_seq, lemma_array_view, lemma_object_view, obj_get, Json, JsonV,
};
use crate::mcpl::{tool_name, LobbyTool};
use crate::text::owned;
use crate::tool_registry::{tool_listing, ToolRegistry};

verus! {

/// The entry that announces a lobby tool: `{"description": .., "inputSchema": .., "name": ..}`.
pub open spec fn lobby_tool_entry(t: LobbyTool) -> JsonV {
    match t {
        LobbyTool::Connect => JsonV::Object(seq![("description"@, JsonV::Text("Connect to the Zero-K lobby server"@)), ("inputSchema"@, JsonV::Object(seq![("properties"@, JsonV::Object(seq![("host"@, JsonV::Object(seq![("default"@, JsonV::Text("zero-k.info"@)), ("type"@, JsonV::Text("string"@))])), ("port"@, JsonV::Object(seq![("default"@, JsonV::Number("8200"@)), ("type"@, JsonV::Text("integer"@))]))])), ("type"@, JsonV::Text("object"@))])), ("name"@, JsonV::Text("lobby_connect"@))]),
        LobbyTool::Login => JsonV::Object(seq![("description"@, JsonV::Text("Authenticate with the Zero-K lobby"@)), ("inputSchema"@, JsonV::Object(seq![("properties"@, JsonV::Object(seq![("password"@, JsonV::Object(seq![("type"@, JsonV::Text("string"@))])), ("username"@, JsonV::Object(seq![("type"@, JsonV::Text("string"@))]))])), ("required"@, JsonV::Array(seq![JsonV::Text("username"@), JsonV::Text("password"@)])), ("type"@, JsonV::Text("object"@))])), ("name"@, JsonV::Text("lobby_login"@))]),
        LobbyTool::Register => JsonV::Object(seq![("description"@, JsonV::Text("Register a new account on the Zero-K lobby server"@)), ("inputSchema"@, JsonV::Object(seq![("properties"@, JsonV::Object(seq![("email"@, JsonV::Object(seq![("type"@, JsonV::Text("string"@))])), ("password"@, JsonV::Object(seq![("type"@, JsonV::Text("string"@))])), ("username"@, JsonV::Object(seq![("type"@, JsonV::Text("string"@))]))])), ("required"@, JsonV::Array(seq![JsonV::Text("username"@), JsonV::Text("password"@), JsonV::Text("email"@)])), ("type"@, JsonV::Text("object"@))])), ("name"@, JsonV::Text("lobby_register"@))]),
        LobbyTool::Disconnect => JsonV::Object(seq![("description"@, JsonV::Text("Disconnect from the Zero-K lobby server"@)), ("inputSchema"@, JsonV::Object(seq![("type"@, JsonV::Text("object"@))])), ("name"@, JsonV::Text("lobby_disconnect"@))]),
        LobbyTool::Say => JsonV::Object(seq![("description"@, JsonV::Text("Send a chat message to a channel or user"@)), ("inputSchema"@, JsonV::Object(seq![("properties"@, JsonV::Object(seq![("place"@, JsonV::Object(seq![("default"@, JsonV::Number("0"@)), ("description"@, JsonV::Text("0=Channel, 4=User"@)), ("type"@, JsonV::Text("integer"@))])), ("target"@, JsonV::Object(seq![("description"@, JsonV::Text("Channel name or username"@)), ("type"@, JsonV::Text("string"@))])), ("text"@, JsonV::Object(seq![("type"@, JsonV::Text("string"@))]))])), ("required"@, JsonV::Array(seq![JsonV::Text("target"@), JsonV::Text("text"@)])), ("type"@, JsonV::Text("object"@))])), ("name"@, JsonV::Text("lobby_say"@))]),
        LobbyTool::JoinChannel => JsonV::Object(seq![("description"@, JsonV::Text("Join a chat channel"@)), ("inputSchema"@, JsonV::Object(seq![("properties"@, JsonV::Object(seq![("channel"@, JsonV::Object(seq![("type"@, JsonV::Text("string"@))]))])), ("required"@, JsonV::Array(seq![JsonV::Text("channel"@)])), ("type"@, JsonV::Text("object"@))])), ("name"@, JsonV::Text("lobby_join_channel"@))]),
        LobbyTool::LeaveChannel => JsonV::Object(seq![("description"@, JsonV::Text("Leave a chat channel"@)), ("inputSchema"@, JsonV::Object(seq![("properties"@, JsonV::Object(seq![("channel"@, JsonV::Object(seq![("type"@, JsonV::Text("string"@))]))])), ("required"@, JsonV::Array(seq![JsonV::Text("channel"@)])), ("type"@, JsonV::Text("object"@))])), ("name"@, JsonV::Text("lobby_leave_channel"@))]),
        LobbyTool::ListBattles => JsonV::Object(seq![("description"@, JsonV::Text("List open battles in the lobby"@)), ("inputSchema"@, JsonV::Object(seq![("type"@, JsonV::Text("object"@))])), ("name"@, JsonV::Text("lobby_list_battles"@))]),
        LobbyTool::ListUsers => JsonV::Object(seq![("description"@, JsonV::Text("List online users"@)), ("inputSchema"@, JsonV::Object(seq![("properties"@, JsonV::Object(seq![("limit"@, JsonV::Object(seq![("default"@, JsonV::Number("50"@)), ("type"@, JsonV::Text("integer"@))]))])), ("type"@, JsonV::Text("object"@))])), ("name"@, JsonV::Text("lobby_list_users"@))]),
        LobbyTool::JoinBattle => JsonV::Object(seq![("description"@, JsonV::Text("Join a battle room"@)), ("inputSchema"@, JsonV::Object(seq![("properties"@, JsonV::Object(seq![("battle_id"@, JsonV::Object(seq![("type"@, JsonV::Text("integer"@))])), ("password"@, JsonV::Object(seq![("default"@, JsonV::Text(""@)), ("type"@, JsonV::Text("string"@))]))])), ("required"@, JsonV::Array(seq![JsonV::Text("battle_id"@)])), ("type"@, JsonV::Text("object"@))])), ("name"@, JsonV::Text("lobby_join_battle"@))]),
        LobbyTool::LeaveBattle => JsonV::Object(seq![("description"@, JsonV::Text("Leave the current battle"@)), ("inputSchema"@, JsonV::Object(seq![("type"@, JsonV::Text("object"@))])), ("name"@, JsonV::Text("lobby_leave_battle"@))]),
        LobbyTool::MatchmakerJoin => JsonV::Object(seq![("description"@, JsonV::Text("Join matchmaker queues. Available queues are sent on login (e.g. '1v1', 'Sortie', 'Battle', 'Coop'). Can join multiple simultaneously."@)), ("inputSchema"@, JsonV::Object(seq![("properties"@, JsonV::Object(seq![("queues"@, JsonV::Object(seq![("description"@, JsonV::Text("Queue names to join (e.g. ['1v1', 'Sortie'])"@)), ("items"@, JsonV::Object(seq![("type"@, JsonV::Text("string"@))])), ("type"@, JsonV::Text("array"@))]))])), ("required"@, JsonV::Array(seq![JsonV::Text("queues"@)])), ("type"@, JsonV::Text("object"@))])), ("name"@, JsonV::Text("lobby_matchmaker_join"@))]),
        LobbyTool::MatchmakerLeave => JsonV::Object(seq![("description"@, JsonV::Text("Leave all matchmaker queues"@)), ("inputSchema"@, JsonV::Object(seq![("type"@, JsonV::Text("object"@))])), ("name"@, JsonV::Text("lobby_matchmaker_leave"@))]),
        LobbyTool::MatchmakerAccept => JsonV::Object(seq![("description"@, JsonV::Text("Accept or decline a matchmaker ready-check when a match is found"@)), ("inputSchema"@, JsonV::Object(seq![("properties"@, JsonV::Object(seq![("ready"@, JsonV::Object(seq![("description"@, JsonV::Text("true to accept, false to decline"@)), ("type"@, JsonV::Text("boolean"@))]))])), ("required"@, JsonV::Array(seq![JsonV::Text("ready"@)])), ("type"@, JsonV::Text("object"@))])), ("name"@, JsonV::Text("lobby_matchmaker_accept"@))]),
        LobbyTool::MatchmakerStatus => JsonV::Object(seq![("description"@, JsonV::Text("Get current matchmaker status: available queues, joined queues, queue counts"@)), ("inputSchema"@, JsonV::Object(seq![("type"@, JsonV::Text("object"@))])), ("name"@, JsonV::Text("lobby_matchmaker_status"@))]),
        LobbyTool::StartGame => JsonV::Object(seq![("description"@, JsonV::Text("Start a local scrimmage game (AgentBridge vs opponent AI)"@)), ("inputSchema"@, JsonV::Object(seq![("properties"@, JsonV::Object(seq![("game"@, JsonV::Object(seq![("default"@, JsonV::Text("Zero-K $VERSION"@)), ("description"@, JsonV::Text("Game type / archive name"@)), ("type"@, JsonV::Text("string"@))])), ("headless"@, JsonV::Object(seq![("default"@, JsonV::Bool(true)), ("description"@, JsonV::Text("Run without UI (true) or with UI (false)"@)), ("type"@, JsonV::Text("boolean"@))])), ("map"@, JsonV::Object(seq![("description"@, JsonV::Text("Map name (e.g., 'Comet Catcher Redux')"@)), ("type"@, JsonV::Text("string"@))])), ("opponent"@, JsonV::Object(seq![("default"@, JsonV::Text("1052188CircuitAINovice64"@)), ("description"@, JsonV::Text("Opponent AI shortname"@)), ("type"@, JsonV::Text("string"@))])), ("player_mode"@, JsonV::Object(seq![("default"@, JsonV::Bool(false)), ("description"@, JsonV::Text("Agent as PLAYER slot (widget hands control via /aicontrol)"@)), ("type"@, JsonV::Text("boolean"@))]))])), ("required"@, JsonV::Array(seq![JsonV::Text("map"@)])), ("type"@, JsonV::Text("object"@))])), ("name"@, JsonV::Text("lobby_start_game"@))]),
        LobbyTool::OpenBattle => JsonV::Object(seq![("description"@, JsonV::Text("Host a new custom battle room on the lobby server. You must be connected and logged in. After opening, add bots with lobby_add_bot, then start with lobby_start_battle."@)), ("inputSchema"@, JsonV::Object(seq![("properties"@, JsonV::Object(seq![("map"@, JsonV::Object(seq![("description"@, JsonV::Text("Map name"@)), ("type"@, JsonV::Text("string"@))])), ("max_players"@, JsonV::Object(seq![("default"@, JsonV::Number("2"@)), ("description"@, JsonV::Text("Maximum players"@)), ("type"@, JsonV::Text("integer"@))])), ("password"@, JsonV::Object(seq![("default"@, JsonV::Text(""@)), ("description"@, JsonV::Text("Battle password (empty for public)"@)), ("type"@, JsonV::Text("string"@))])), ("title"@, JsonV::Object(seq![("description"@, JsonV::Text("Battle room title"@)), ("type"@, JsonV::Text("string"@))]))])), ("required"@, JsonV::Array(seq![JsonV::Text("title"@), JsonV::Text("map"@)])), ("type"@, JsonV::Text("object"@))])), ("name"@, JsonV::Text("lobby_open_battle"@))]),
        LobbyTool::AddBot => JsonV::Object(seq![("description"@, JsonV::Text("Add an AI bot to the current battle room"@)), ("inputSchema"@, JsonV::Object(seq![("properties"@, JsonV::Object(seq![("ai_lib"@, JsonV::Object(seq![("description"@, JsonV::Text("AI shortname (e.g. 'NullAI', '1052188CircuitAINovice64')"@)), ("type"@, JsonV::Text("string"@))])), ("ally_number"@, JsonV::Object(seq![("default"@, JsonV::Number("1"@)), ("description"@, JsonV::Text("Team/ally number (0-based)"@)), ("type"@, JsonV::Text("integer"@))])), ("name"@, JsonV::Object(seq![("default"@, JsonV::Text("Bot1"@)), ("description"@, JsonV::Text("Bot display name"@)), ("type"@, JsonV::Text("string"@))]))])), ("required"@, JsonV::Array(seq![JsonV::Text("ai_lib"@)])), ("type"@, JsonV::Text("object"@))])), ("name"@, JsonV::Text("lobby_add_bot"@))]),
        LobbyTool::RemoveBot => JsonV::Object(seq![("description"@, JsonV::Text("Remove a bot from the current battle room"@)), ("inputSchema"@, JsonV::Object(seq![("properties"@, JsonV::Object(seq![("name"@, JsonV::Object(seq![("description"@, JsonV::Text("Bot name to remove"@)), ("type"@, JsonV::Text("string"@))]))])), ("required"@, JsonV::Array(seq![JsonV::Text("name"@)])), ("type"@, JsonV::Text("object"@))])), ("name"@, JsonV::Text("lobby_remove_bot"@))]),
        LobbyTool::StartBattle => JsonV::Object(seq![("description"@, JsonV::Text("Start the game in the current battle room. All participants will receive connection details."@)), ("inputSchema"@, JsonV::Object(seq![("type"@, JsonV::Text("object"@))])), ("name"@, JsonV::Text("lobby_start_battle"@))]),
    }
}

/// The lobby tools in the order they are announced.
pub open spec fn lobby_tool_order() -> Seq<LobbyTool> {
    seq![LobbyTool::Connect, LobbyTool::Login, LobbyTool::Register, LobbyTool::Disconnect, LobbyTool::Say, LobbyTool::JoinChannel, LobbyTool::LeaveChannel, LobbyTool::ListBattles, LobbyTool::ListUsers, LobbyTool::JoinBattle, LobbyTool::LeaveBattle, LobbyTool::MatchmakerJoin, LobbyTool::MatchmakerLeave, LobbyTool::MatchmakerAccept, LobbyTool::MatchmakerStatus, LobbyTool::StartGame, LobbyTool::OpenBattle, LobbyTool::AddBot, LobbyTool::RemoveBot, LobbyTool::StartBattle]
}

/// The announcement of all lobby tools: `{"tools": [..]}`.
pub open spec fn lobby_tools_json() -> JsonV {
    JsonV::Object(
        seq![("tools"@, JsonV::Array(lobby_tool_order().map_values(|t: LobbyTool| lobby_tool_entry(t))))],
    )
}

fn listing_connect() -> (r: Json)
    ensures
        r@ == lobby_tool_entry(LobbyTool::Connect),
{
    let j2 = Json::Text(owned("Connect to the Zero-K lobby server"));
    let j6 = Json::Text(owned("zero-k.info"));
    let j7 = Json::Text(owned("string"));
    let j5_entries: Vec<(String, Json)> = vec![(owned("default"), j6), (owned("type"), j7)];
    proof { lemma_object_view(j5_entries); assert(entries_view(j5_entries@) =~= seq![("default"@, JsonV::Text("zero-k.info"@)), ("type"@, JsonV::Text("string"@))]); }
    let j5 = Json::Object(j5_entries);
    let j9 = Json::Number(owned("8200"));
    let j10 = Json::Text(owned("integer"));
    let j8_entries: Vec<(String, Json)> = vec![(owned("default"), j9), (owned("type"), j10)];
    proof { lemma_object_view(j8_entries); assert(entries_view(j8_entries@) =~= seq![("default"@, JsonV::Number("8200"@)), ("type"@, JsonV::Text("integer"@))]); }
    let j8 = Json::Object(j8_entries);
    let j4_entries: Vec<(String, Json)> = vec![(owned("host"), j5), (owned("port"), j8)];
    proof { lemma_object_view(j4_entries); assert(entries_view(j4_entries@) =~= seq![("host"@, JsonV::Object(seq![("default"@, JsonV::Text("zero-k.info"@)), ("type"@, JsonV::Text("string"@))])), ("port"@, JsonV::Object(seq![("default"@, JsonV::Number("8200"@)), ("type"@, JsonV::Text("integer"@))]))]); }
    let j4 = Json::Object(j4_entries);
    let j11 = Json::Text(owned("object"));
    let j3_entries: Vec<(String, Json)> = vec![(owned("properties"), j4), (owned("type"), j11)];
    proof { lemma_object_view(j3_entries); assert(entries_view(j3_entries@) =~= seq![("properties"@, JsonV::Object(seq![("host"@, JsonV::Object(seq![("default"@, JsonV::Text("zero-k.info"@)), ("type"@, JsonV::Text("string"@))])), ("port"@, JsonV::Object(seq![("default"@, JsonV::Number("8200"@)), ("type"@, JsonV::Text("integer"@))]))])), ("type"@, JsonV::Text("object"@))]); }
    let j3 = Json::Object(j3_entries);
    let j12 = Json::Text(owned("lobby_connect"));
    let j1_entries: Vec<(String, Json)> = vec![(owned("description"), j2), (owned("inputSchema"), j3), (owned("name"), j12)];
    proof { lemma_object_view(j1_entries); assert(entries_view(j1_entries@) =~= seq![("description"@, JsonV::Text("Connect to the Zero-K lobby server"@)), ("inputSchema"@, JsonV::Object(seq![("properties"@, JsonV::Object(seq![("host"@, JsonV::Object(seq![("default"@, JsonV::Text("zero-k.info"@)), ("type"@, JsonV::Text("string"@))])), ("port"@, JsonV::Object(seq![("default"@, JsonV::Number("8200"@)), ("type"@, JsonV::Text("integer"@))]))])), ("type"@, JsonV::Text("object"@))])), ("name"@, JsonV::Text("lobby_connect"@))]); }
    let j1 = Json::Object(j1_entries);
    j1
}

fn listing_login() -> (r: Json)
    ensures
        r@ == lobby_tool_entry(LobbyTool::Login),
{
    let j2 = Json::Text(owned("Authenticate with the Zero-K lobby"));
    let j6 = Json::Text(owned("string"));
    let j5_entries: Vec<(String, Json)> = vec![(owned("type"), j6)];
    proof { lemma_object_view(j5_entries); assert(entries_view(j5_entries@) =~= seq![("type"@, JsonV::Text("string"@))]); }
    let j5 = Json::Object(j5_entries);
    let j8 = Json::Text(owned("string"));
    let j7_entries: Vec<(String, Json)> = vec![(owned("type"), j8)];
    proof { lemma_object_view(j7_entries); assert(entries_view(j7_entries@) =~= seq![("type"@, JsonV::Text("string"@))]); }
    let j7 = Json::Object(j7_entries);
    let j4_entries: Vec<(String, Json)> = vec![(owned("password"), j5), (owned("username"), j7)];
    proof { lemma_object_view(j4_entries); assert(entries_view(j4_entries@) =~= seq![("password"@, JsonV::Object(seq![("type"@, JsonV::Text("string"@))])), ("username"@, JsonV::Object(seq![("type"@, JsonV::Text("string"@))]))]); }
    let j4 = Json::Object(j4_entries);
    let j10 = Json::Text(owned("username"));
    let j11 = Json::Text(owned("password"));
    let j9_items: Vec<Json> = vec![j10, j11];
    proof { lemma_array_view(j9_items); assert(json_seq(j9_items@) =~= seq![JsonV::Text("username"@), JsonV::Text("password"@)]); }
    let j9 = Json::Array(j9_items);
    let j12 = Json::Text(owned("object"));
    let j3_entries: Vec<(String, Json)> = vec![(owned("properties"), j4), (owned("required"), j9), (owned("type"), j12)];
    proof { lemma_object_view(j3_entries); assert(entries_view(j3_entries@) =~= seq![("properties"@, JsonV::Object(seq![("password"@, JsonV::Object(seq![("type"@, JsonV::Text("string"@))])), ("username"@, JsonV::Object(seq![("type"@, JsonV::Text("string"@))]))])), ("required"@, JsonV::Array(seq![JsonV::Text("username"@), JsonV::Text("password"@)])), ("type"@, JsonV::Text("object"@))]); }
    let j3 = Json::Object(j3_entries);
    let j13 = Json::Text(owned("lobby_login"));
    let j1_entries: Vec<(String, Json)> = vec![(owned("description"), j2), (owned("inputSchema"), j3), (owned("name"), j13)];
    proof { lemma_object_view(j1_entries); assert(entries_view(j1_entries@) =~= seq![("description"@, JsonV::Text("Authenticate with the Zero-K lobby"@)), ("inputSchema"@, JsonV::Object(seq![("properties"@, JsonV::Object(seq![("password"@, JsonV::Object(seq![("type"@, JsonV::Text("string"@))])), ("username"@, JsonV::Object(seq![("type"@, JsonV::Text("string"@))]))])), ("required"@, JsonV::Array(seq![JsonV::Text("username"@), JsonV::Text("password"@)])), ("type"@, JsonV::Text("object"@))])), ("name"@, JsonV::Text("lobby_login"@))]); }
    let j1 = Json::Object(j1_entries);
    j1
}

fn listing_register() -> (r: Json)
    ensures
        r@ == lobby_tool_entry(LobbyTool::Register),
{
    let j2 = Json::Text(owned("Register a new account on the Zero-K lobby server"));
    let j6 = Json::Text(owned("string"));
    let j5_entries: Vec<(String, Json)> = vec![(owned("type"), j6)];
    proof { lemma_object_view(j5_entries); assert(entries_view(j5_entries@) =~= seq![("type"@, JsonV::Text("string"@))]); }
    let j5 = Json::Object(j5_entries);
    let j8 = Json::Text(owned("string"));
    let j7_entries: Vec<(String, Json)> = vec![(owned("type"), j8)];
    proof { lemma_object_view(j7_entries); assert(entries_view(j7_entries@) =~= seq![("type"@, JsonV::Text("string"@))]); }
    let j7 = Json::Object(j7_entries);
    let j10 = Json::Text(owned("string"));
    let j9_entries: Vec<(String, Json)> = vec![(owned("type"), j10)];
    proof { lemma_object_view(j9_entries); assert(entries_view(j9_entries@) =~= seq![("type"@, JsonV::Text("string"@))]); }
    let j9 = Json::Object(j9_entries);
    let j4_entries: Vec<(String, Json)> = vec![(owned("email"), j5), (owned("password"), j7), (owned("username"), j9)];
    proof { lemma_object_view(j4_entries); assert(entries_view(j4_entries@) =~= seq![("email"@, JsonV::Object(seq![("type"@, JsonV::Text("string"@))])), ("password"@, JsonV::Object(seq![("type"@, JsonV::Text("string"@))])), ("username"@, JsonV::Object(seq![("type"@, JsonV::Text("string"@))]))]); }
    let j4 = Json::Object(j4_entries);
    let j12 = Json::Text(owned("username"));
    let j13 = Json::Text(owned("password"));
    let j14 = Json::Text(owned("email"));
    let j11_items: Vec<Json> = vec![j12, j13, j14];
    proof { lemma_array_view(j11_items); assert(json_seq(j11_items@) =~= seq![JsonV::Text("username"@), JsonV::Text("password"@), JsonV::Text("email"@)]); }
    let j11 = Json::Array(j11_items);
    let j15 = Json::Text(owned("object"));
    let j3_entries: Vec<(String, Json)> = vec![(owned("properties"), j4), (owned("required"), j11), (owned("type"), j15)];
    proof { lemma_object_view(j3_entries); assert(entries_view(j3_entries@) =~= seq![("properties"@, JsonV::Object(seq![("email"@, JsonV::Object(seq![("type"@, JsonV::Text("string"@))])), ("password"@, JsonV::Object(seq![("type"@, JsonV::Text("string"@))])), ("username"@, JsonV::Object(seq![("type"@, JsonV::Text("string"@))]))])), ("required"@, JsonV::Array(seq![JsonV::Text("username"@), JsonV::Text("password"@), JsonV::Text("email"@)])), ("type"@, JsonV::Text("object"@))]); }
    let j3 = Json::Object(j3_entries);
    let j16 = Json::Text(owned("lobby_register"));
    let j1_entries: Vec<(String, Json)> = vec![(owned("description"), j2), (owned("inputSchema"), j3), (owned("name"), j16)];
    proof { lemma_object_view(j1_entries); assert(entries_view(j1_entries@) =~= seq![("description"@, JsonV::Text("Register a new account on the Zero-K lobby server"@)), ("inputSchema"@, JsonV::Object(seq![("properties"@, JsonV::Object(seq![("email"@, JsonV::Object(seq![("type"@, JsonV::Text("string"@))])), ("password"@, JsonV::Object(seq![("type"@, JsonV::Text("string"@))])), ("username"@, JsonV::Object(seq![("type"@, JsonV::Text("string"@))]))])), ("required"@, JsonV::Array(seq![JsonV::Text("username"@), JsonV::Text("password"@), JsonV::Text("email"@)])), ("type"@, JsonV::Text("object"@))])), ("name"@, JsonV::Text("lobby_register"@))]); }
    let j1 = Json::Object(j1_entries);
    j1
}

fn listing_disconnect() -> (r: Json)
    ensures
        r@ == lobby_tool_entry(LobbyTool::Disconnect),
{
    let j2 = Json::Text(owned("Disconnect from the Zero-K lobby server"));
    let j4 = Json::Text(owned("object"));
    let j3_entries: Vec<(String, Json)> = vec![(owned("type"), j4)];
    proof { lemma_object_view(j3_entries); assert(entries_view(j3_entries@) =~= seq![("type"@, JsonV::Text("object"@))]); }
    let j3 = Json::Object(j3_entries);
    let j5 = Json::Text(owned("lobby_disconnect"));
    let j1_entries: Vec<(String, Json)> = vec![(owned("description"), j2), (owned("inputSchema"), j3), (owned("name"), j5)];
    proof { lemma_object_view(j1_entries); assert(entries_view(j1_entries@) =~= seq![("description"@, JsonV::Text("Disconnect from the Zero-K lobby server"@)), ("inputSchema"@, JsonV::Object(seq![("type"@, JsonV::Text("object"@))])), ("name"@, JsonV::Text("lobby_disconnect"@))]); }
    let j1 = Json::Object(j1_entries);
    j1
}

fn listing_say() -> (r: Json)
    ensures
        r@ == lobby_tool_entry(LobbyTool::Say),
{
    let j2 = Json::Text(owned("Send a chat message to a channel or user"));
    let j6 = Json::Number(owned("0"));
    let j7 = Json::Text(owned("0=Channel, 4=User"));
    let j8 = Json::Text(owned("integer"));
    let j5_entries: Vec<(String, Json)> = vec![(owned("default"), j6), (owned("description"), j7), (owned("type"), j8)];
    proof { lemma_object_view(j5_entries); assert(entries_view(j5_entries@) =~= seq![("default"@, JsonV::Number("0"@)), ("description"@, JsonV::Text("0=Channel, 4=User"@)), ("type"@, JsonV::Text("integer"@))]); }
    let j5 = Json::Object(j5_entries);
    let j10 = Json::Text(owned("Channel name or username"));
    let j11 = Json::Text(owned("string"));
    let j9_entries: Vec<(String, Json)> = vec![(owned("description"), j10), (owned("type"), j11)];
    proof { lemma_object_view(j9_entries); assert(entries_view(j9_entries@) =~= seq![("description"@, JsonV::Text("Channel name or username"@)), ("type"@, JsonV::Text("string"@))]); }
    let j9 = Json::Object(j9_entries);
    let j13 = Json::Text(owned("string"));
    let j12_entries: Vec<(String, Json)> = vec![(owned("type"), j13)];
    proof { lemma_object_view(j12_entries); assert(entries_view(j12_entries@) =~= seq![("type"@, JsonV::Text("string"@))]); }
    let j12 = Json::Object(j12_entries);
    let j4_entries: Vec<(String, Json)> = vec![(owned("place"), j5), (owned("target"), j9), (owned("text"), j12)];
    proof { lemma_object_view(j4_entries); assert(entries_view(j4_entries@) =~= seq![("place"@, JsonV::Object(seq![("default"@, JsonV::Number("0"@)), ("description"@, JsonV::Text("0=Channel, 4=User"@)), ("type"@, JsonV::Text("integer"@))])), ("target"@, JsonV::Object(seq![("description"@, JsonV::Text("Channel name or username"@)), ("type"@, JsonV::Text("string"@))])), ("text"@, JsonV::Object(seq![("type"@, JsonV::Text("string"@))]))]); }
    let j4 = Json::Object(j4_entries);
    let j15 = Json::Text(owned("target"));
    let j16 = Json::Text(owned("text"));
    let j14_items: Vec<Json> = vec![j15, j16];
    proof { lemma_array_view(j14_items); assert(json_seq(j14_items@) =~= seq![JsonV::Text("target"@), JsonV::Text("text"@)]); }
    let j14 = Json::Array(j14_items);
    let j17 = Json::Text(owned("object"));
    let j3_entries: Vec<(String, Json)> = vec![(owned("properties"), j4), (owned("required"), j14), (owned("type"), j17)];
    proof { lemma_object_view(j3_entries); assert(entries_view(j3_entries@) =~= seq![("properties"@, JsonV::Object(seq![("place"@, JsonV::Object(seq![("default"@, JsonV::Number("0"@)), ("description"@, JsonV::Text("0=Channel, 4=User"@)), ("type"@, JsonV::Text("integer"@))])), ("target"@, JsonV::Object(seq![("description"@, JsonV::Text("Channel name or username"@)), ("type"@, JsonV::Text("string"@))])), ("text"@, JsonV::Object(seq![("type"@, JsonV::Text("string"@))]))])), ("required"@, JsonV::Array(seq![JsonV::Text("target"@), JsonV::Text("text"@)])), ("type"@, JsonV::Text("object"@))]); }
    let j3 = Json::Object(j3_entries);
    let j18 = Json::Text(owned("lobby_say"));
    let j1_entries: Vec<(String, Json)> = vec![(owned("description"), j2), (owned("inputSchema"), j3), (owned("name"), j18)];
    proof { lemma_object_view(j1_entries); assert(entries_view(j1_entries@) =~= seq![("description"@, JsonV::Text("Send a chat message to a channel or user"@)), ("inputSchema"@, JsonV::Object(seq![("properties"@, JsonV::Object(seq![("place"@, JsonV::Object(seq![("default"@, JsonV::Number("0"@)), ("description"@, JsonV::Text("0=Channel, 4=User"@)), ("type"@, JsonV::Text("integer"@))])), ("target"@, JsonV::Object(seq![("description"@, JsonV::Text("Channel name or username"@)), ("type"@, JsonV::Text("string"@))])), ("text"@, JsonV::Object(seq![("type"@, JsonV::Text("string"@))]))])), ("required"@, JsonV::Array(seq![JsonV::Text("target"@), JsonV::Text("text"@)])), ("type"@, JsonV::Text("object"@))])), ("name"@, JsonV::Text("lobby_say"@))]); }
    let j1 = Json::Object(j1_entries);
    j1
}

fn listing_join_channel() -> (r: Json)
    ensures
        r@ == lobby_tool_entry(LobbyTool::JoinChannel),
{
    let j2 = Json::Text(owned("Join a chat channel"));
    let j6 = Json::Text(owned("string"));
    let j5_entries: Vec<(String, Json)> = vec![(owned("type"), j6)];
    proof { lemma_object_view(j5_entries); assert(entries_view(j5_entries@) =~= seq![("type"@, JsonV::Text("string"@))]); }
    let j5 = Json::Object(j5_entries);
    let j4_entries: Vec<(String, Json)> = vec![(owned("channel"), j5)];
    proof { lemma_object_view(j4_entries); assert(entries_view(j4_entries@) =~= seq![("channel"@, JsonV::Object(seq![("type"@, JsonV::Text("string"@))]))]); }
    let j4 = Json::Object(j4_entries);
    let j8 = Json::Text(owned("channel"));
    let j7_items: Vec<Json> = vec![j8];
    proof { lemma_array_view(j7_items); assert(json_seq(j7_items@) =~= seq![JsonV::Text("channel"@)]); }
    let j7 = Json::Array(j7_items);
    let j9 = Json::Text(owned("object"));
    let j3_entries: Vec<(String, Json)> = vec![(owned("properties"), j4), (owned("required"), j7), (owned("type"), j9)];
    proof { lemma_object_view(j3_entries); assert(entries_view(j3_entries@) =~= seq![("properties"@, JsonV::Object(seq![("channel"@, JsonV::Object(seq![("type"@, JsonV::Text("string"@))]))])), ("required"@, JsonV::Array(seq![JsonV::Text("channel"@)])), ("type"@, JsonV::Text("object"@))]); }
    let j3 = Json::Object(j3_entries);
    let j10 = Json::Text(owned("lobby_join_channel"));
    let j1_entries: Vec<(String, Json)> = vec![(owned("description"), j2), (owned("inputSchema"), j3), (owned("name"), j10)];
    proof { lemma_object_view(j1_entries); assert(entries_view(j1_entries@) =~= seq![("description"@, JsonV::Text("Join a chat channel"@)), ("inputSchema"@, JsonV::Object(seq![("properties"@, JsonV::Object(seq![("channel"@, JsonV::Object(seq![("type"@, JsonV::Text("string"@))]))])), ("required"@, JsonV::Array(seq![JsonV::Text("channel"@)])), ("type"@, JsonV::Text("object"@))])), ("name"@, JsonV::Text("lobby_join_channel"@))]); }
    let j1 = Json::Object(j1_entries);
    j1
}

fn listing_leave_channel() -> (r: Json)
    ensures
        r@ == lobby_tool_entry(LobbyTool::LeaveChannel),
{
    let j2 = Json::Text(owned("Leave a chat channel"));
    let j6 = Json::Text(owned("string"));
    let j5_entries: Vec<(String, Json)> = vec![(owned("type"), j6)];
    proof { lemma_object_view(j5_entries); assert(entries_view(j5_entries@) =~= seq![("type"@, JsonV::Text("string"@))]); }
    let j5 = Json::Object(j5_entries);
    let j4_entries: Vec<(String, Json)> = vec![(owned("channel"), j5)];
    proof { lemma_object_view(j4_entries); assert(entries_view(j4_entries@) =~= seq![("channel"@, JsonV::Object(seq![("type"@, JsonV::Text("string"@))]))]); }
    let j4 = Json::Object(j4_entries);
    let j8 = Json::Text(owned("channel"));
    let j7_items: Vec<Json> = vec![j8];
    proof { lemma_array_view(j7_items); assert(json_seq(j7_items@) =~= seq![JsonV::Text("channel"@)]); }
    let j7 = Json::Array(j7_items);
    let j9 = Json::Text(owned("object"));
    let j3_entries: Vec<(String, Json)> = vec![(owned("properties"), j4), (owned("required"), j7), (owned("type"), j9)];
    proof { lemma_object_view(j3_entries); assert(entries_view(j3_entries@) =~= seq![("properties"@, JsonV::Object(seq![("channel"@, JsonV::Object(seq![("type"@, JsonV::Text("string"@))]))])), ("required"@, JsonV::Array(seq![JsonV::Text("channel"@)])), ("type"@, JsonV::Text("object"@))]); }
    let j3 = Json::Object(j3_entries);
    let j10 = Json::Text(owned("lobby_leave_channel"));
    let j1_entries: Vec<(String, Json)> = vec![(owned("description"), j2), (owned("inputSchema"), j3), (owned("name"), j10)];
    proof { lemma_object_view(j1_entries); assert(entries_view(j1_entries@) =~= seq![("description"@, JsonV::Text("Leave a chat channel"@)), ("inputSchema"@, JsonV::Object(seq![("properties"@, JsonV::Object(seq![("channel"@, JsonV::Object(seq![("type"@, JsonV::Text("string"@))]))])), ("required"@, JsonV::Array(seq![JsonV::Text("channel"@)])), ("type"@, JsonV::Text("object"@))])), ("name"@, JsonV::Text("lobby_leave_channel"@))]); }
    let j1 = Json::Object(j1_entries);
    j1
}

fn listing_list_battles() -> (r: Json)
    ensures
        r@ == lobby_tool_entry(LobbyTool::ListBattles),
{
    let j2 = Json::Text(owned("List open battles in the lobby"));
    let j4 = Json::Text(owned("object"));
    let j3_entries: Vec<(String, Json)> = vec![(owned("type"), j4)];
    proof { lemma_object_view(j3_entries); assert(entries_view(j3_entries@) =~= seq![("type"@, JsonV::Text("object"@))]); }
    let j3 = Json::Object(j3_entries);
    let j5 = Json::Text(owned("lobby_list_battles"));
    let j1_entries: Vec<(String, Json)> = vec![(owned("description"), j2), (owned("inputSchema"), j3), (owned("name"), j5)];
    proof { lemma_object_view(j1_entries); assert(entries_view(j1_entries@) =~= seq![("description"@, JsonV::Text("List open battles in the lobby"@)), ("inputSchema"@, JsonV::Object(seq![("type"@, JsonV::Text("object"@))])), ("name"@, JsonV::Text("lobby_list_battles"@))]); }
    let j1 = Json::Object(j1_entries);
    j1
}

fn listing_list_users() -> (r: Json)
    ensures
        r@ == lobby_tool_entry(LobbyTool::ListUsers),
{
    let j2 = Json::Text(owned("List online users"));
    let j6 = Json::Number(owned("50"));
    let j7 = Json::Text(owned("integer"));
    let j5_entries: Vec<(String, Json)> = vec![(owned("default"), j6), (owned("type"), j7)];
    proof { lemma_object_view(j5_entries); assert(entries_view(j5_entries@) =~= seq![("default"@, JsonV::Number("50"@)), ("type"@, JsonV::Text("integer"@))]); }
    let j5 = Json::Object(j5_entries);
    let j4_entries: Vec<(String, Json)> = vec![(owned("limit"), j5)];
    proof { lemma_object_view(j4_entries); assert(entries_view(j4_entries@) =~= seq![("limit"@, JsonV::Object(seq![("default"@, JsonV::Number("50"@)), ("type"@, JsonV::Text("integer"@))]))]); }
    let j4 = Json::Object(j4_entries);
    let j8 = Json::Text(owned("object"));
    let j3_entries: Vec<(String, Json)> = vec![(owned("properties"), j4), (owned("type"), j8)];
    proof { lemma_object_view(j3_entries); assert(entries_view(j3_entries@) =~= seq![("properties"@, JsonV::Object(seq![("limit"@, JsonV::Object(seq![("default"@, JsonV::Number("50"@)), ("type"@, JsonV::Text("integer"@))]))])), ("type"@, JsonV::Text("object"@))]); }
    let j3 = Json::Object(j3_entries);
    let j9 = Json::Text(owned("lobby_list_users"));
    let j1_entries: Vec<(String, Json)> = vec![(owned("description"), j2), (owned("inputSchema"), j3), (owned("name"), j9)];
    proof { lemma_object_view(j1_entries); assert(entries_view(j1_entries@) =~= seq![("description"@, JsonV::Text("List online users"@)), ("inputSchema"@, JsonV::Object(seq![("properties"@, JsonV::Object(seq![("limit"@, JsonV::Object(seq![("default"@, JsonV::Number("50"@)), ("type"@, JsonV::Text("integer"@))]))])), ("type"@, JsonV::Text("object"@))])), ("name"@, JsonV::Text("lobby_list_users"@))]); }
    let j1 = Json::Object(j1_entries);
    j1
}

fn listing_join_battle() -> (r: Json)
    ensures
        r@ == lobby_tool_entry(LobbyTool::JoinBattle),
{
    let j2 = Json::Text(owned("Join a battle room"));
    let j6 = Json::Text(owned("integer"));
    let j5_entries: Vec<(String, Json)> = vec![(owned("type"), j6)];
    proof { lemma_object_view(j5_entries); assert(entries_view(j5_entries@) =~= seq![("type"@, JsonV::Text("integer"@))]); }
    let j5 = Json::Object(j5_entries);
    let j8 = Json::Text(owned(""));
    let j9 = Json::Text(owned("string"));
    let j7_entries: Vec<(String, Json)> = vec![(owned("default"), j8), (owned("type"), j9)];
    proof { lemma_object_view(j7_entries); assert(entries_view(j7_entries@) =~= seq![("default"@, JsonV::Text(""@)), ("type"@, JsonV::Text("string"@))]); }
    let j7 = Json::Object(j7_entries);
    let j4_entries: Vec<(String, Json)> = vec![(owned("battle_id"), j5), (owned("password"), j7)];
    proof { lemma_object_view(j4_entries); assert(entries_view(j4_entries@) =~= seq![("battle_id"@, JsonV::Object(seq![("type"@, JsonV::Text("integer"@))])), ("password"@, JsonV::Object(seq![("default"@, JsonV::Text(""@)), ("type"@, JsonV::Text("string"@))]))]); }
    let j4 = Json::Object(j4_entries);
    let j11 = Json::Text(owned("battle_id"));
    let j10_items: Vec<Json> = vec![j11];
    proof { lemma_array_view(j10_items); assert(json_seq(j10_items@) =~= seq![JsonV::Text("battle_id"@)]); }
    let j10 = Json::Array(j10_items);
    let j12 = Json::Text(owned("object"));
    let j3_entries: Vec<(String, Json)> = vec![(owned("properties"), j4), (owned("required"), j10), (owned("type"), j12)];
    proof { lemma_object_view(j3_entries); assert(entries_view(j3_entries@) =~= seq![("properties"@, JsonV::Object(seq![("battle_id"@, JsonV::Object(seq![("type"@, JsonV::Text("integer"@))])), ("password"@, JsonV::Object(seq![("default"@, JsonV::Text(""@)), ("type"@, JsonV::Text("string"@))]))])), ("required"@, JsonV::Array(seq![JsonV::Text("battle_id"@)])), ("type"@, JsonV::Text("object"@))]); }
    let j3 = Json::Object(j3_entries);
    let j13 = Json::Text(owned("lobby_join_battle"));
    let j1_entries: Vec<(String, Json)> = vec![(owned("description"), j2), (owned("inputSchema"), j3), (owned("name"), j13)];
    proof { lemma_object_view(j1_entries); assert(entries_view(j1_entries@) =~= seq![("description"@, JsonV::Text("Join a battle room"@)), ("inputSchema"@, JsonV::Object(seq![("properties"@, JsonV::Object(seq![("battle_id"@, JsonV::Object(seq![("type"@, JsonV::Text("integer"@))])), ("password"@, JsonV::Object(seq![("default"@, JsonV::Text(""@)), ("type"@, JsonV::Text("string"@))]))])), ("required"@, JsonV::Array(seq![JsonV::Text("battle_id"@)])), ("type"@, JsonV::Text("object"@))])), ("name"@, JsonV::Text("lobby_join_battle"@))]); }
    let j1 = Json::Object(j1_entries);
    j1
}

fn listing_leave_battle() -> (r: Json)
    ensures
        r@ == lobby_tool_entry(LobbyTool::LeaveBattle),
{
    let j2 = Json::Text(owned("Leave the current battle"));
    let j4 = Json::Text(owned("object"));
    let j3_entries: Vec<(String, Json)> = vec![(owned("type"), j4)];
    proof { lemma_object_view(j3_entries); assert(entries_view(j3_entries@) =~= seq![("type"@, JsonV::Text("object"@))]); }
    let j3 = Json::Object(j3_entries);
    let j5 = Json::Text(owned("lobby_leave_battle"));
    let j1_entries: Vec<(String, Json)> = vec![(owned("description"), j2), (owned("inputSchema"), j3), (owned("name"), j5)];
    proof { lemma_object_view(j1_entries); assert(entries_view(j1_entries@) =~= seq![("description"@, JsonV::Text("Leave the current battle"@)), ("inputSchema"@, JsonV::Object(seq![("type"@, JsonV::Text("object"@))])), ("name"@, JsonV::Text("lobby_leave_battle"@))]); }
    let j1 = Json::Object(j1_entries);
    j1
}

fn listing_matchmaker_join() -> (r: Json)
    ensures
        r@ == lobby_tool_entry(LobbyTool::MatchmakerJoin),
{
    let j2 = Json::Text(owned("Join matchmaker queues. Available queues are sent on login (e.g. '1v1', 'Sortie', 'Battle', 'Coop'). Can join multiple simultaneously."));
    let j6 = Json::Text(owned("Queue names to join (e.g. ['1v1', 'Sortie'])"));
    let j8 = Json::Text(owned("string"));
    let j7_entries: Vec<(String, Json)> = vec![(owned("type"), j8)];
    proof { lemma_object_view(j7_entries); assert(entries_view(j7_entries@) =~= seq![("type"@, JsonV::Text("string"@))]); }
    let j7 = Json::Object(j7_entries);
    let j9 = Json::Text(owned("array"));
    let j5_entries: Vec<(String, Json)> = vec![(owned("description"), j6), (owned("items"), j7), (owned("type"), j9)];
    proof { lemma_object_view(j5_entries); assert(entries_view(j5_entries@) =~= seq![("description"@, JsonV::Text("Queue names to join (e.g. ['1v1', 'Sortie'])"@)), ("items"@, JsonV::Object(seq![("type"@, JsonV::Text("string"@))])), ("type"@, JsonV::Text("array"@))]); }
    let j5 = Json::Object(j5_entries);
    let j4_entries: Vec<(String, Json)> = vec![(owned("queues"), j5)];
    proof { lemma_object_view(j4_entries); assert(entries_view(j4_entries@) =~= seq![("queues"@, JsonV::Object(seq![("description"@, JsonV::Text("Queue names to join (e.g. ['1v1', 'Sortie'])"@)), ("items"@, JsonV::Object(seq![("type"@, JsonV::Text("string"@))])), ("type"@, JsonV::Text("array"@))]))]); }
    let j4 = Json::Object(j4_entries);
    let j11 = Json::Text(owned("queues"));
    let j10_items: Vec<Json> = vec![j11];
    proof { lemma_array_view(j10_items); assert(json_seq(j10_items@) =~= seq![JsonV::Text("queues"@)]); }
    let j10 = Json::Array(j10_items);
    let j12 = Json::Text(owned("object"));
    let j3_entries: Vec<(String, Json)> = vec![(owned("properties"), j4), (owned("required"), j10), (owned("type"), j12)];
    proof { lemma_object_view(j3_entries); assert(entries_view(j3_entries@) =~= seq![("properties"@, JsonV::Object(seq![("queues"@, JsonV::Object(seq![("description"@, JsonV::Text("Queue names to join (e.g. ['1v1', 'Sortie'])"@)), ("items"@, JsonV::Object(seq![("type"@, JsonV::Text("string"@))])), ("type"@, JsonV::Text("array"@))]))])), ("required"@, JsonV::Array(seq![JsonV::Text("queues"@)])), ("type"@, JsonV::Text("object"@))]); }
    let j3 = Json::Object(j3_entries);
    let j13 = Json::Text(owned("lobby_matchmaker_join"));
    let j1_entries: Vec<(String, Json)> = vec![(owned("description"), j2), (owned("inputSchema"), j3), (owned("name"), j13)];
    proof { lemma_object_view(j1_entries); assert(entries_view(j1_entries@) =~= seq![("description"@, JsonV::Text("Join matchmaker queues. Available queues are sent on login (e.g. '1v1', 'Sortie', 'Battle', 'Coop'). Can join multiple simultaneously."@)), ("inputSchema"@, JsonV::Object(seq![("properties"@, JsonV::Object(seq![("queues"@, JsonV::Object(seq![("description"@, JsonV::Text("Queue names to join (e.g. ['1v1', 'Sortie'])"@)), ("items"@, JsonV::Object(seq![("type"@, JsonV::Text("string"@))])), ("type"@, JsonV::Text("array"@))]))])), ("required"@, JsonV::Array(seq![JsonV::Text("queues"@)])), ("type"@, JsonV::Text("object"@))])), ("name"@, JsonV::Text("lobby_matchmaker_join"@))]); }
    let j1 = Json::Object(j1_entries);
    j1
}

fn listing_matchmaker_leave() -> (r: Json)
    ensures
        r@ == lobby_tool_entry(LobbyTool::MatchmakerLeave),
{
    let j2 = Json::Text(owned("Leave all matchmaker queues"));
    let j4 = Json::Text(owned("object"));
    let j3_entries: Vec<(String, Json)> = vec![(owned("type"), j4)];
    proof { lemma_object_view(j3_entries); assert(entries_view(j3_entries@) =~= seq![("type"@, JsonV::Text("object"@))]); }
    let j3 = Json::Object(j3_entries);
    let j5 = Json::Text(owned("lobby_matchmaker_leave"));
    let j1_entries: Vec<(String, Json)> = vec![(owned("description"), j2), (owned("inputSchema"), j3), (owned("name"), j5)];
    proof { lemma_object_view(j1_entries); assert(entries_view(j1_entries@) =~= seq![("description"@, JsonV::Text("Leave all matchmaker queues"@)), ("inputSchema"@, JsonV::Object(seq![("type"@, JsonV::Text("object"@))])), ("name"@, JsonV::Text("lobby_matchmaker_leave"@))]); }
    let j1 = Json::Object(j1_entries);
    j1
}

fn listing_matchmaker_accept() -> (r: Json)
    ensures
        r@ == lobby_tool_entry(LobbyTool::MatchmakerAccept),
{
    let j2 = Json::Text(owned("Accept or decline a matchmaker ready-check when a match is found"));
    let j6 = Json::Text(owned("true to accept, false to decline"));
    let j7 = Json::Text(owned("boolean"));
    let j5_entries: Vec<(String, Json)> = vec![(owned("description"), j6), (owned("type"), j7)];
    proof { lemma_object_view(j5_entries); assert(entries_view(j5_entries@) =~= seq![("description"@, JsonV::Text("true to accept, false to decline"@)), ("type"@, JsonV::Text("boolean"@))]); }
    let j5 = Json::Object(j5_entries);
    let j4_entries: Vec<(String, Json)> = vec![(owned("ready"), j5)];
    proof { lemma_object_view(j4_entries); assert(entries_view(j4_entries@) =~= seq![("ready"@, JsonV::Object(seq![("description"@, JsonV::Text("true to accept, false to decline"@)), ("type"@, JsonV::Text("boolean"@))]))]); }
    let j4 = Json::Object(j4_entries);
    let j9 = Json::Text(owned("ready"));
    let j8_items: Vec<Json> = vec![j9];
    proof { lemma_array_view(j8_items); assert(json_seq(j8_items@) =~= seq![JsonV::Text("ready"@)]); }
    let j8 = Json::Array(j8_items);
    let j10 = Json::Text(owned("object"));
    let j3_entries: Vec<(String, Json)> = vec![(owned("properties"), j4), (owned("required"), j8), (owned("type"), j10)];
    proof { lemma_object_view(j3_entries); assert(entries_view(j3_entries@) =~= seq![("properties"@, JsonV::Object(seq![("ready"@, JsonV::Object(seq![("description"@, JsonV::Text("true to accept, false to decline"@)), ("type"@, JsonV::Text("boolean"@))]))])), ("required"@, JsonV::Array(seq![JsonV::Text("ready"@)])), ("type"@, JsonV::Text("object"@))]); }
    let j3 = Json::Object(j3_entries);
    let j11 = Json::Text(owned("lobby_matchmaker_accept"));
    let j1_entries: Vec<(String, Json)> = vec![(owned("description"), j2), (owned("inputSchema"), j3), (owned("name"), j11)];
    proof { lemma_object_view(j1_entries); assert(entries_view(j1_entries@) =~= seq![("description"@, JsonV::Text("Accept or decline a matchmaker ready-check when a match is found"@)), ("inputSchema"@, JsonV::Object(seq![("properties"@, JsonV::Object(seq![("ready"@, JsonV::Object(seq![("description"@, JsonV::Text("true to accept, false to decline"@)), ("type"@, JsonV::Text("boolean"@))]))])), ("required"@, JsonV::Array(seq![JsonV::Text("ready"@)])), ("type"@, JsonV::Text("object"@))])), ("name"@, JsonV::Text("lobby_matchmaker_accept"@))]); }
    let j1 = Json::Object(j1_entries);
    j1
}

fn listing_matchmaker_status() -> (r: Json)
    ensures
        r@ == lobby_tool_entry(LobbyTool::MatchmakerStatus),
{
    let j2 = Json::Text(owned("Get current matchmaker status: available queues, joined queues, queue counts"));
    let j4 = Json::Text(owned("object"));
    let j3_entries: Vec<(String, Json)> = vec![(owned("type"), j4)];
    proof { lemma_object_view(j3_entries); assert(entries_view(j3_entries@) =~= seq![("type"@, JsonV::Text("object"@))]); }
    let j3 = Json::Object(j3_entries);
    let j5 = Json::Text(owned("lobby_matchmaker_status"));
    let j1_entries: Vec<(String, Json)> = vec![(owned("description"), j2), (owned("inputSchema"), j3), (owned("name"), j5)];
    proof { lemma_object_view(j1_entries); assert(entries_view(j1_entries@) =~= seq![("description"@, JsonV::Text("Get current matchmaker status: available queues, joined queues, queue counts"@)), ("inputSchema"@, JsonV::Object(seq![("type"@, JsonV::Text("object"@))])), ("name"@, JsonV::Text("lobby_matchmaker_status"@))]); }
    let j1 = Json::Object(j1_entries);
    j1
}

fn listing_start_game() -> (r: Json)
    ensures
        r@ == lobby_tool_entry(LobbyTool::StartGame),
{
    let j2 = Json::Text(owned("Start a local scrimmage game (AgentBridge vs opponent AI)"));
    let j6 = Json::Text(owned("Zero-K $VERSION"));
    let j7 = Json::Text(owned("Game type / archive name"));
    let j8 = Json::Text(owned("string"));
    let j5_entries: Vec<(String, Json)> = vec![(owned("default"), j6), (owned("description"), j7), (owned("type"), j8)];
    proof { lemma_object_view(j5_entries); assert(entries_view(j5_entries@) =~= seq![("default"@, JsonV::Text("Zero-K $VERSION"@)), ("description"@, JsonV::Text("Game type / archive name"@)), ("type"@, JsonV::Text("string"@))]); }
    let j5 = Json::Object(j5_entries);
    let j10 = Json::Bool(true);
    let j11 = Json::Text(owned("Run without UI (true) or with UI (false)"));
    let j12 = Json::Text(owned("boolean"));
    let j9_entries: Vec<(String, Json)> = vec![(owned("default"), j10), (owned("description"), j11), (owned("type"), j12)];
    proof { lemma_object_view(j9_entries); assert(entries_view(j9_entries@) =~= seq![("default"@, JsonV::Bool(true)), ("description"@, JsonV::Text("Run without UI (true) or with UI (false)"@)), ("type"@, JsonV::Text("boolean"@))]); }
    let j9 = Json::Object(j9_entries);
    let j14 = Json::Text(owned("Map name (e.g., 'Comet Catcher Redux')"));
    let j15 = Json::Text(owned("string"));
    let j13_entries: Vec<(String, Json)> = vec![(owned("description"), j14), (owned("type"), j15)];
    proof { lemma_object_view(j13_entries); assert(entries_view(j13_entries@) =~= seq![("description"@, JsonV::Text("Map name (e.g., 'Comet Catcher Redux')"@)), ("type"@, JsonV::Text("string"@))]); }
    let j13 = Json::Object(j13_entries);
    let j17 = Json::Text(owned("1052188CircuitAINovice64"));
    let j18 = Json::Text(owned("Opponent AI shortname"));
    let j19 = Json::Text(owned("string"));
    let j16_entries: Vec<(String, Json)> = vec![(owned("default"), j17), (owned("description"), j18), (owned("type"), j19)];
    proof { lemma_object_view(j16_entries); assert(entries_view(j16_entries@) =~= seq![("default"@, JsonV::Text("1052188CircuitAINovice64"@)), ("description"@, JsonV::Text("Opponent AI shortname"@)), ("type"@, JsonV::Text("string"@))]); }
    let j16 = Json::Object(j16_entries);
    let j21 = Json::Bool(false);
    let j22 = Json::Text(owned("Agent as PLAYER slot (widget hands control via /aicontrol)"));
    let j23 = Json::Text(owned("boolean"));
    let j20_entries: Vec<(String, Json)> = vec![(owned("default"), j21), (owned("description"), j22), (owned("type"), j23)];
    proof { lemma_object_view(j20_entries); assert(entries_view(j20_entries@) =~= seq![("default"@, JsonV::Bool(false)), ("description"@, JsonV::Text("Agent as PLAYER slot (widget hands control via /aicontrol)"@)), ("type"@, JsonV::Text("boolean"@))]); }
    let j20 = Json::Object(j20_entries);
    let j4_entries: Vec<(String, Json)> = vec![(owned("game"), j5), (owned("headless"), j9), (owned("map"), j13), (owned("opponent"), j16), (owned("player_mode"), j20)];
    proof { lemma_object_view(j4_entries); assert(entries_view(j4_entries@) =~= seq![("game"@, JsonV::Object(seq![("default"@, JsonV::Text("Zero-K $VERSION"@)), ("description"@, JsonV::Text("Game type / archive name"@)), ("type"@, JsonV::Text("string"@))])), ("headless"@, JsonV::Object(seq![("default"@, JsonV::Bool(true)), ("description"@, JsonV::Text("Run without UI (true) or with UI (false)"@)), ("type"@, JsonV::Text("boolean"@))])), ("map"@, JsonV::Object(seq![("description"@, JsonV::Text("Map name (e.g., 'Comet Catcher Redux')"@)), ("type"@, JsonV::Text("string"@))])), ("opponent"@, JsonV::Object(seq![("default"@, JsonV::Text("1052188CircuitAINovice64"@)), ("description"@, JsonV::Text("Opponent AI shortname"@)), ("type"@, JsonV::Text("string"@))])), ("player_mode"@, JsonV::Object(seq![("default"@, JsonV::Bool(false)), ("description"@, JsonV::Text("Agent as PLAYER slot (widget hands control via /aicontrol)"@)), ("type"@, JsonV::Text("boolean"@))]))]); }
    let j4 = Json::Object(j4_entries);
    let j25 = Json::Text(owned("map"));
    let j24_items: Vec<Json> = vec![j25];
    proof { lemma_array_view(j24_items); assert(json_seq(j24_items@) =~= seq![JsonV::Text("map"@)]); }
    let j24 = Json::Array(j24_items);
    let j26 = Json::Text(owned("object"));
    let j3_entries: Vec<(String, Json)> = vec![(owned("properties"), j4), (owned("required"), j24), (owned("type"), j26)];
    proof { lemma_object_view(j3_entries); assert(entries_view(j3_entries@) =~= seq![("properties"@, JsonV::Object(seq![("game"@, JsonV::Object(seq![("default"@, JsonV::Text("Zero-K $VERSION"@)), ("description"@, JsonV::Text("Game type / archive name"@)), ("type"@, JsonV::Text("string"@))])), ("headless"@, JsonV::Object(seq![("default"@, JsonV::Bool(true)), ("description"@, JsonV::Text("Run without UI (true) or with UI (false)"@)), ("type"@, JsonV::Text("boolean"@))])), ("map"@, JsonV::Object(seq![("description"@, JsonV::Text("Map name (e.g., 'Comet Catcher Redux')"@)), ("type"@, JsonV::Text("string"@))])), ("opponent"@, JsonV::Object(seq![("default"@, JsonV::Text("1052188CircuitAINovice64"@)), ("description"@, JsonV::Text("Opponent AI shortname"@)), ("type"@, JsonV::Text("string"@))])), ("player_mode"@, JsonV::Object(seq![("default"@, JsonV::Bool(false)), ("description"@, JsonV::Text("Agent as PLAYER slot (widget hands control via /aicontrol)"@)), ("type"@, JsonV::Text("boolean"@))]))])), ("required"@, JsonV::Array(seq![JsonV::Text("map"@)])), ("type"@, JsonV::Text("object"@))]); }
    let j3 = Json::Object(j3_entries);
    let j27 = Json::Text(owned("lobby_start_game"));
    let j1_entries: Vec<(String, Json)> = vec![(owned("description"), j2), (owned("inputSchema"), j3), (owned("name"), j27)];
    proof { lemma_object_view(j1_entries); assert(entries_view(j1_entries@) =~= seq![("description"@, JsonV::Text("Start a local scrimmage game (AgentBridge vs opponent AI)"@)), ("inputSchema"@, JsonV::Object(seq![("properties"@, JsonV::Object(seq![("game"@, JsonV::Object(seq![("default"@, JsonV::Text("Zero-K $VERSION"@)), ("description"@, JsonV::Text("Game type / archive name"@)), ("type"@, JsonV::Text("string"@))])), ("headless"@, JsonV::Object(seq![("default"@, JsonV::Bool(true)), ("description"@, JsonV::Text("Run without UI (true) or with UI (false)"@)), ("type"@, JsonV::Text("boolean"@))])), ("map"@, JsonV::Object(seq![("description"@, JsonV::Text("Map name (e.g., 'Comet Catcher Redux')"@)), ("type"@, JsonV::Text("string"@))])), ("opponent"@, JsonV::Object(seq![("default"@, JsonV::Text("1052188CircuitAINovice64"@)), ("description"@, JsonV::Text("Opponent AI shortname"@)), ("type"@, JsonV::Text("string"@))])), ("player_mode"@, JsonV::Object(seq![("default"@, JsonV::Bool(false)), ("description"@, JsonV::Text("Agent as PLAYER slot (widget hands control via /aicontrol)"@)), ("type"@, JsonV::Text("boolean"@))]))])), ("required"@, JsonV::Array(seq![JsonV::Text("map"@)])), ("type"@, JsonV::Text("object"@))])), ("name"@, JsonV::Text("lobby_start_game"@))]); }
    let j1 = Json::Object(j1_entries);
    j1
}

fn listing_open_battle() -> (r: Json)
    ensures
        r@ == lobby_tool_entry(LobbyTool::OpenBattle),
{
    let j2 = Json::Text(owned("Host a new custom battle room on the lobby server. You must be connected and logged in. After opening, add bots with lobby_add_bot, then start with lobby_start_battle."));
    let j6 = Json::Text(owned("Map name"));
    let j7 = Json::Text(owned("string"));
    let j5_entries: Vec<(String, Json)> = vec![(owned("description"), j6), (owned("type"), j7)];
    proof { lemma_object_view(j5_entries); assert(entries_view(j5_entries@) =~= seq![("description"@, JsonV::Text("Map name"@)), ("type"@, JsonV::Text("string"@))]); }
    let j5 = Json::Object(j5_entries);
    let j9 = Json::Number(owned("2"));
    let j10 = Json::Text(owned("Maximum players"));
    let j11 = Json::Text(owned("integer"));
    let j8_entries: Vec<(String, Json)> = vec![(owned("default"), j9), (owned("description"), j10), (owned("type"), j11)];
    proof { lemma_object_view(j8_entries); assert(entries_view(j8_entries@) =~= seq![("default"@, JsonV::Number("2"@)), ("description"@, JsonV::Text("Maximum players"@)), ("type"@, JsonV::Text("integer"@))]); }
    let j8 = Json::Object(j8_entries);
    let j13 = Json::Text(owned(""));
    let j14 = Json::Text(owned("Battle password (empty for public)"));
    let j15 = Json::Text(owned("string"));
    let j12_entries: Vec<(String, Json)> = vec![(owned("default"), j13), (owned("description"), j14), (owned("type"), j15)];
    proof { lemma_object_view(j12_entries); assert(entries_view(j12_entries@) =~= seq![("default"@, JsonV::Text(""@)), ("description"@, JsonV::Text("Battle password (empty for public)"@)), ("type"@, JsonV::Text("string"@))]); }
    let j12 = Json::Object(j12_entries);
    let j17 = Json::Text(owned("Battle room title"));
    let j18 = Json::Text(owned("string"));
    let j16_entries: Vec<(String, Json)> = vec![(owned("description"), j17), (owned("type"), j18)];
    proof { lemma_object_view(j16_entries); assert(entries_view(j16_entries@) =~= seq![("description"@, JsonV::Text("Battle room title"@)), ("type"@, JsonV::Text("string"@))]); }
    let j16 = Json::Object(j16_entries);
    let j4_entries: Vec<(String, Json)> = vec![(owned("map"), j5), (owned("max_players"), j8), (owned("password"), j12), (owned("title"), j16)];
    proof { lemma_object_view(j4_entries); assert(entries_view(j4_entries@) =~= seq![("map"@, JsonV::Object(seq![("description"@, JsonV::Text("Map name"@)), ("type"@, JsonV::Text("string"@))])), ("max_players"@, JsonV::Object(seq![("default"@, JsonV::Number("2"@)), ("description"@, JsonV::Text("Maximum players"@)), ("type"@, JsonV::Text("integer"@))])), ("password"@, JsonV::Object(seq![("default"@, JsonV::Text(""@)), ("description"@, JsonV::Text("Battle password (empty for public)"@)), ("type"@, JsonV::Text("string"@))])), ("title"@, JsonV::Object(seq![("description"@, JsonV::Text("Battle room title"@)), ("type"@, JsonV::Text("string"@))]))]); }
    let j4 = Json::Object(j4_entries);
    let j20 = Json::Text(owned("title"));
    let j21 = Json::Text(owned("map"));
    let j19_items: Vec<Json> = vec![j20, j21];
    proof { lemma_array_view(j19_items); assert(json_seq(j19_items@) =~= seq![JsonV::Text("title"@), JsonV::Text("map"@)]); }
    let j19 = Json::Array(j19_items);
    let j22 = Json::Text(owned("object"));
    let j3_entries: Vec<(String, Json)> = vec![(owned("properties"), j4), (owned("required"), j19), (owned("type"), j22)];
    proof { lemma_object_view(j3_entries); assert(entries_view(j3_entries@) =~= seq![("properties"@, JsonV::Object(seq![("map"@, JsonV::Object(seq![("description"@, JsonV::Text("Map name"@)), ("type"@, JsonV::Text("string"@))])), ("max_players"@, JsonV::Object(seq![("default"@, JsonV::Number("2"@)), ("description"@, JsonV::Text("Maximum players"@)), ("type"@, JsonV::Text("integer"@))])), ("password"@, JsonV::Object(seq![("default"@, JsonV::Text(""@)), ("description"@, JsonV::Text("Battle password (empty for public)"@)), ("type"@, JsonV::Text("string"@))])), ("title"@, JsonV::Object(seq![("description"@, JsonV::Text("Battle room title"@)), ("type"@, JsonV::Text("string"@))]))])), ("required"@, JsonV::Array(seq![JsonV::Text("title"@), JsonV::Text("map"@)])), ("type"@, JsonV::Text("object"@))]); }
    let j3 = Json::Object(j3_entries);
    let j23 = Json::Text(owned("lobby_open_battle"));
    let j1_entries: Vec<(String, Json)> = vec![(owned("description"), j2), (owned("inputSchema"), j3), (owned("name"), j23)];
    proof { lemma_object_view(j1_entries); assert(entries_view(j1_entries@) =~= seq![("description"@, JsonV::Text("Host a new custom battle room on the lobby server. You must be connected and logged in. After opening, add bots with lobby_add_bot, then start with lobby_start_battle."@)), ("inputSchema"@, JsonV::Object(seq![("properties"@, JsonV::Object(seq![("map"@, JsonV::Object(seq![("description"@, JsonV::Text("Map name"@)), ("type"@, JsonV::Text("string"@))])), ("max_players"@, JsonV::Object(seq![("default"@, JsonV::Number("2"@)), ("description"@, JsonV::Text("Maximum players"@)), ("type"@, JsonV::Text("integer"@))])), ("password"@, JsonV::Object(seq![("default"@, JsonV::Text(""@)), ("description"@, JsonV::Text("Battle password (empty for public)"@)), ("type"@, JsonV::Text("string"@))])), ("title"@, JsonV::Object(seq![("description"@, JsonV::Text("Battle room title"@)), ("type"@, JsonV::Text("string"@))]))])), ("required"@, JsonV::Array(seq![JsonV::Text("title"@), JsonV::Text("map"@)])), ("type"@, JsonV::Text("object"@))])), ("name"@, JsonV::Text("lobby_open_battle"@))]); }
    let j1 = Json::Object(j1_entries);
    j1
}

fn listing_add_bot() -> (r: Json)
    ensures
        r@ == lobby_tool_entry(LobbyTool::AddBot),
{
    let j2 = Json::Text(owned("Add an AI bot to the current battle room"));
    let j6 = Json::Text(owned("AI shortname (e.g. 'NullAI', '1052188CircuitAINovice64')"));
    let j7 = Json::Text(owned("string"));
    let j5_entries: Vec<(String, Json)> = vec![(owned("description"), j6), (owned("type"), j7)];
    proof { lemma_object_view(j5_entries); assert(entries_view(j5_entries@) =~= seq![("description"@, JsonV::Text("AI shortname (e.g. 'NullAI', '1052188CircuitAINovice64')"@)), ("type"@, JsonV::Text("string"@))]); }
    let j5 = Json::Object(j5_entries);
    let j9 = Json::Number(owned("1"));
    let j10 = Json::Text(owned("Team/ally number (0-based)"));
    let j11 = Json::Text(owned("integer"));
    let j8_entries: Vec<(String, Json)> = vec![(owned("default"), j9), (owned("description"), j10), (owned("type"), j11)];
    proof { lemma_object_view(j8_entries); assert(entries_view(j8_entries@) =~= seq![("default"@, JsonV::Number("1"@)), ("description"@, JsonV::Text("Team/ally number (0-based)"@)), ("type"@, JsonV::Text("integer"@))]); }
    let j8 = Json::Object(j8_entries);
    let j13 = Json::Text(owned("Bot1"));
    let j14 = Json::Text(owned("Bot display name"));
    let j15 = Json::Text(owned("string"));
    let j12_entries: Vec<(String, Json)> = vec![(owned("default"), j13), (owned("description"), j14), (owned("type"), j15)];
    proof { lemma_object_view(j12_entries); assert(entries_view(j12_entries@) =~= seq![("default"@, JsonV::Text("Bot1"@)), ("description"@, JsonV::Text("Bot display name"@)), ("type"@, JsonV::Text("string"@))]); }
    let j12 = Json::Object(j12_entries);
    let j4_entries: Vec<(String, Json)> = vec![(owned("ai_lib"), j5), (owned("ally_number"), j8), (owned("name"), j12)];
    proof { lemma_object_view(j4_entries); assert(entries_view(j4_entries@) =~= seq![("ai_lib"@, JsonV::Object(seq![("description"@, JsonV::Text("AI shortname (e.g. 'NullAI', '1052188CircuitAINovice64')"@)), ("type"@, JsonV::Text("string"@))])), ("ally_number"@, JsonV::Object(seq![("default"@, JsonV::Number("1"@)), ("description"@, JsonV::Text("Team/ally number (0-based)"@)), ("type"@, JsonV::Text("integer"@))])), ("name"@, JsonV::Object(seq![("default"@, JsonV::Text("Bot1"@)), ("description"@, JsonV::Text("Bot display name"@)), ("type"@, JsonV::Text("string"@))]))]); }
    let j4 = Json::Object(j4_entries);
    let j17 = Json::Text(owned("ai_lib"));
    let j16_items: Vec<Json> = vec![j17];
    proof { lemma_array_view(j16_items); assert(json_seq(j16_items@) =~= seq![JsonV::Text("ai_lib"@)]); }
    let j16 = Json::Array(j16_items);
    let j18 = Json::Text(owned("object"));
    let j3_entries: Vec<(String, Json)> = vec![(owned("properties"), j4), (owned("required"), j16), (owned("type"), j18)];
    proof { lemma_object_view(j3_entries); assert(entries_view(j3_entries@) =~= seq![("properties"@, JsonV::Object(seq![("ai_lib"@, JsonV::Object(seq![("description"@, JsonV::Text("AI shortname (e.g. 'NullAI', '1052188CircuitAINovice64')"@)), ("type"@, JsonV::Text("string"@))])), ("ally_number"@, JsonV::Object(seq![("default"@, JsonV::Number("1"@)), ("description"@, JsonV::Text("Team/ally number (0-based)"@)), ("type"@, JsonV::Text("integer"@))])), ("name"@, JsonV::Object(seq![("default"@, JsonV::Text("Bot1"@)), ("description"@, JsonV::Text("Bot display name"@)), ("type"@, JsonV::Text("string"@))]))])), ("required"@, JsonV::Array(seq![JsonV::Text("ai_lib"@)])), ("type"@, JsonV::Text("object"@))]); }
    let j3 = Json::Object(j3_entries);
    let j19 = Json::Text(owned("lobby_add_bot"));
    let j1_entries: Vec<(String, Json)> = vec![(owned("description"), j2), (owned("inputSchema"), j3), (owned("name"), j19)];
    proof { lemma_object_view(j1_entries); assert(entries_view(j1_entries@) =~= seq![("description"@, JsonV::Text("Add an AI bot to the current battle room"@)), ("inputSchema"@, JsonV::Object(seq![("properties"@, JsonV::Object(seq![("ai_lib"@, JsonV::Object(seq![("description"@, JsonV::Text("AI shortname (e.g. 'NullAI', '1052188CircuitAINovice64')"@)), ("type"@, JsonV::Text("string"@))])), ("ally_number"@, JsonV::Object(seq![("default"@, JsonV::Number("1"@)), ("description"@, JsonV::Text("Team/ally number (0-based)"@)), ("type"@, JsonV::Text("integer"@))])), ("name"@, JsonV::Object(seq![("default"@, JsonV::Text("Bot1"@)), ("description"@, JsonV::Text("Bot display name"@)), ("type"@, JsonV::Text("string"@))]))])), ("required"@, JsonV::Array(seq![JsonV::Text("ai_lib"@)])), ("type"@, JsonV::Text("object"@))])), ("name"@, JsonV::Text("lobby_add_bot"@))]); }
    let j1 = Json::Object(j1_entries);
    j1
}

fn listing_remove_bot() -> (r: Json)
    ensures
        r@ == lobby_tool_entry(LobbyTool::RemoveBot),
{
    let j2 = Json::Text(owned("Remove a bot from the current battle room"));
    let j6 = Json::Text(owned("Bot name to remove"));
    let j7 = Json::Text(owned("string"));
    let j5_entries: Vec<(String, Json)> = vec![(owned("description"), j6), (owned("type"), j7)];
    proof { lemma_object_view(j5_entries); assert(entries_view(j5_entries@) =~= seq![("description"@, JsonV::Text("Bot name to remove"@)), ("type"@, JsonV::Text("string"@))]); }
    let j5 = Json::Object(j5_entries);
    let j4_entries: Vec<(String, Json)> = vec![(owned("name"), j5)];
    proof { lemma_object_view(j4_entries); assert(entries_view(j4_entries@) =~= seq![("name"@, JsonV::Object(seq![("description"@, JsonV::Text("Bot name to remove"@)), ("type"@, JsonV::Text("string"@))]))]); }
    let j4 = Json::Object(j4_entries);
    let j9 = Json::Text(owned("name"));
    let j8_items: Vec<Json> = vec![j9];
    proof { lemma_array_view(j8_items); assert(json_seq(j8_items@) =~= seq![JsonV::Text("name"@)]); }
    let j8 = Json::Array(j8_items);
    let j10 = Json::Text(owned("object"));
    let j3_entries: Vec<(String, Json)> = vec![(owned("properties"), j4), (owned("required"), j8), (owned("type"), j10)];
    proof { lemma_object_view(j3_entries); assert(entries_view(j3_entries@) =~= seq![("properties"@, JsonV::Object(seq![("name"@, JsonV::Object(seq![("description"@, JsonV::Text("Bot name to remove"@)), ("type"@, JsonV::Text("string"@))]))])), ("required"@, JsonV::Array(seq![JsonV::Text("name"@)])), ("type"@, JsonV::Text("object"@))]); }
    let j3 = Json::Object(j3_entries);
    let j11 = Json::Text(owned("lobby_remove_bot"));
    let j1_entries: Vec<(String, Json)> = vec![(owned("description"), j2), (owned("inputSchema"), j3), (owned("name"), j11)];
    proof { lemma_object_view(j1_entries); assert(entries_view(j1_entries@) =~= seq![("description"@, JsonV::Text("Remove a bot from the current battle room"@)), ("inputSchema"@, JsonV::Object(seq![("properties"@, JsonV::Object(seq![("name"@, JsonV::Object(seq![("description"@, JsonV::Text("Bot name to remove"@)), ("type"@, JsonV::Text("string"@))]))])), ("required"@, JsonV::Array(seq![JsonV::Text("name"@)])), ("type"@, JsonV::Text("object"@))])), ("name"@, JsonV::Text("lobby_remove_bot"@))]); }
    let j1 = Json::Object(j1_entries);
    j1
}

fn listing_start_battle() -> (r: Json)
    ensures
        r@ == lobby_tool_entry(LobbyTool::StartBattle),
{
    let j2 = Json::Text(owned("Start the game in the current battle room. All participants will receive connection details."));
    let j4 = Json::Text(owned("object"));
    let j3_entries: Vec<(String, Json)> = vec![(owned("type"), j4)];
    proof { lemma_object_view(j3_entries); assert(entries_view(j3_entries@) =~= seq![("type"@, JsonV::Text("object"@))]); }
    let j3 = Json::Object(j3_entries);
    let j5 = Json::Text(owned("lobby_start_battle"));
    let j1_entries: Vec<(String, Json)> = vec![(owned("description"), j2), (owned("inputSchema"), j3), (owned("name"), j5)];
    proof { lemma_object_view(j1_entries); assert(entries_view(j1_entries@) =~= seq![("description"@, JsonV::Text("Start the game in the current battle room. All participants will receive connection details."@)), ("inputSchema"@, JsonV::Object(seq![("type"@, JsonV::Text("object"@))])), ("name"@, JsonV::Text("lobby_start_battle"@))]); }
    let j1 = Json::Object(j1_entries);
    j1
}

/// The entry that announces `t`.
pub fn lobby_tool_listing(t: LobbyTool) -> (r: Json)
    ensures
        r@ == lobby_tool_entry(t),
{
    match t {
        LobbyTool::Connect => listing_connect(),
        LobbyTool::Login => listing_login(),
        LobbyTool::Register => listing_register(),
        LobbyTool::Disconnect => listing_disconnect(),
        LobbyTool::Say => listing_say(),
        LobbyTool::JoinChannel => listing_join_channel(),
        LobbyTool::LeaveChannel => listing_leave_channel(),
        LobbyTool::ListBattles => listing_list_battles(),
        LobbyTool::ListUsers => listing_list_users(),
        LobbyTool::JoinBattle => listing_join_battle(),
        LobbyTool::LeaveBattle => listing_leave_battle(),
        LobbyTool::MatchmakerJoin => listing_matchmaker_join(),
        LobbyTool::MatchmakerLeave => listing_matchmaker_leave(),
        LobbyTool::MatchmakerAccept => listing_matchmaker_accept(),
        LobbyTool::MatchmakerStatus => listing_matchmaker_status(),
        LobbyTool::StartGame => listing_start_game(),
        LobbyTool::OpenBattle => listing_open_battle(),
        LobbyTool::AddBot => listing_add_bot(),
        LobbyTool::RemoveBot => listing_remove_bot(),
        LobbyTool::StartBattle => listing_start_battle(),
    }
}

/// The announcements of the lobby tools, in order.
fn lobby_tool_items() -> (r: Vec<Json>)
    ensures
        json_seq(r@) == lobby_tool_order().map_values(|t: LobbyTool| lobby_tool_entry(t)),
{
    let order = vec![
        LobbyTool::Connect,
        LobbyTool::Login,
        LobbyTool::Register,
        LobbyTool::Disconnect,
        LobbyTool::Say,
        LobbyTool::JoinChannel,
        LobbyTool::LeaveChannel,
        LobbyTool::ListBattles,
        LobbyTool::ListUsers,
        LobbyTool::JoinBattle,
        LobbyTool::LeaveBattle,
        LobbyTool::MatchmakerJoin,
        LobbyTool::MatchmakerLeave,
        LobbyTool::MatchmakerAccept,
        LobbyTool::MatchmakerStatus,
        LobbyTool::StartGame,
        LobbyTool::OpenBattle,
        LobbyTool::AddBot,
        LobbyTool::RemoveBot,
        LobbyTool::StartBattle,
    ];
    let ghost o = lobby_tool_order();
    assert(order@ =~= o);
    let mut items: Vec<Json> = Vec::new();
    for i in 0..order.len()
        invariant
            order@ == o,
            items@.len() == i,
            forall|k: int| 0 <= k < i ==> (#[trigger] items@[k])@ == lobby_tool_entry(o[k]),
    {
        let t = order[i];
        items.push(lobby_tool_listing(t));
    }
    assert(json_seq(items@) =~= o.map_values(|t: LobbyTool| lobby_tool_entry(t)));
    items
}

/// Tool definitions exposed to the MCPL client.
pub fn lobby_tools() -> (r: Json)
    ensures
        r@ == lobby_tools_json(),
{
    let items = lobby_tool_items();
    let ghost listed = json_seq(items@);
    proof {
        lemma_array_view(items);
    }
    let es = vec![(owned("tools"), Json::Array(items))];
    proof {
        lemma_object_view(es);
        assert(entries_view(es@) =~= seq![("tools"@, JsonV::Array(listed))]);
    }
    Json::Object(es)
}

proof fn lemma_entry_named(e: JsonV, name: Seq<char>)
    requires
        e is Object,
        e->Object_0.len() == 3,
        e->Object_0[0].0 != "name"@,
        e->Object_0[1].0 != "name"@,
        e->Object_0[2] matches (k, v) && k == "name"@ && v == JsonV::Text(name),
    ensures
        obj_get(e, "name"@) == Some(JsonV::Text(name)),
{
    let es = e->Object_0;
    let t1 = es.drop_first();
    let t2 = t1.drop_first();
    assert(t1[0] == es[1]);
    assert(t2[0] == es[2]);
    assert(entries_get(t2, "name"@) == Some(JsonV::Text(name)));
    assert(entries_get(t1, "name"@) == Some(JsonV::Text(name)));
    assert(entries_get(es, "name"@) == Some(JsonV::Text(name)));
}

/// The announced tools and the served tools agree: every lobby tool that a
/// tool call can reach is announced once, under the name that calls use.
pub proof fn law_every_lobby_tool_announced(t: LobbyTool)
    ensures
        exists|i: int| 0 <= i < lobby_tool_order().len() && lobby_tool_order()[i] == t,
        lobby_tool_order().no_duplicates(),
        obj_get(lobby_tool_entry(t), "name"@) == Some(JsonV::Text(tool_name(t))),
{
    let o = lobby_tool_order();
    let i: int = match t {
        LobbyTool::Connect => 0,
        LobbyTool::Login => 1,
        LobbyTool::Register => 2,
        LobbyTool::Disconnect => 3,
        LobbyTool::Say => 4,
        LobbyTool::JoinChannel => 5,
        LobbyTool::LeaveChannel => 6,
        LobbyTool::ListBattles => 7,
        LobbyTool::ListUsers => 8,
        LobbyTool::JoinBattle => 9,
        LobbyTool::LeaveBattle => 10,
        LobbyTool::MatchmakerJoin => 11,
        LobbyTool::MatchmakerLeave => 12,
        LobbyTool::MatchmakerAccept => 13,
        LobbyTool::MatchmakerStatus => 14,
        LobbyTool::StartGame => 15,
        LobbyTool::OpenBattle => 16,
        LobbyTool::AddBot => 17,
        LobbyTool::RemoveBot => 18,
        LobbyTool::StartBattle => 19,
    };
    assert(o[i] == t);
    reveal_strlit("description");
    reveal_strlit("inputSchema");
    reveal_strlit("name");
    assert("description"@.len() == 11 && "inputSchema"@.len() == 11 && "name"@.len() == 4);
    assert("description"@ != "name"@ && "inputSchema"@ != "name"@);
    match t {
        LobbyTool::Connect => lemma_entry_named(lobby_tool_entry(t), tool_name(t)),
        LobbyTool::Login => lemma_entry_named(lobby_tool_entry(t), tool_name(t)),
        LobbyTool::Register => lemma_entry_named(lobby_tool_entry(t), tool_name(t)),
        LobbyTool::Disconnect => lemma_entry_named(lobby_tool_entry(t), tool_name(t)),
        LobbyTool::Say => lemma_entry_named(lobby_tool_entry(t), tool_name(t)),
        LobbyTool::JoinChannel => lemma_entry_named(lobby_tool_entry(t), tool_name(t)),
        LobbyTool::LeaveChannel => lemma_entry_named(lobby_tool_entry(t), tool_name(t)),
        LobbyTool::ListBattles => lemma_entry_named(lobby_tool_entry(t), tool_name(t)),
        LobbyTool::ListUsers => lemma_entry_named(lobby_tool_entry(t), tool_name(t)),
        LobbyTool::JoinBattle => lemma_entry_named(lobby_tool_entry(t), tool_name(t)),
        LobbyTool::LeaveBattle => lemma_entry_named(lobby_tool_entry(t), tool_name(t)),
        LobbyTool::MatchmakerJoin => lemma_entry_named(lobby_tool_entry(t), tool_name(t)),
        LobbyTool::MatchmakerLeave => lemma_entry_named(lobby_tool_entry(t), tool_name(t)),
        LobbyTool::MatchmakerAccept => lemma_entry_named(lobby_tool_entry(t), tool_name(t)),
        LobbyTool::MatchmakerStatus => lemma_entry_named(lobby_tool_entry(t), tool_name(t)),
        LobbyTool::StartGame => lemma_entry_named(lobby_tool_entry(t), tool_name(t)),
        LobbyTool::OpenBattle => lemma_entry_named(lobby_tool_entry(t), tool_name(t)),
        LobbyTool::AddBot => lemma_entry_named(lobby_tool_entry(t), tool_name(t)),
        LobbyTool::RemoveBot => lemma_entry_named(lobby_tool_entry(t), tool_name(t)),
        LobbyTool::StartBattle => lemma_entry_named(lobby_tool_entry(t), tool_name(t)),
    }
}

/// The tools a registry announces, in its order.
pub open spec fn registry_listing(registry: &ToolRegistry) -> Seq<JsonV> {
    Seq::new(
        registry.tool_order().len(),
        |i: int| tool_listing(registry@.tools[registry.tool_order()[i]].1),
    )
}

/// The answer to `tools/list`: the lobby tools, then the tools that widgets and
/// plugins registered.
pub fn tools_list_reply(registry: &ToolRegistry) -> (r: Json)
    requires
        registry.wf(),
    ensures
        r@ == JsonV::Object(
            seq![
                (
                    "tools"@,
                    JsonV::Array(
                        lobby_tool_order().map_values(|t: LobbyTool| lobby_tool_entry(t))
                            + registry_listing(registry),
                    ),
                ),
            ],
        ),
{
    let mut items = lobby_tool_items();
    let ghost lobby = json_seq(items@);
    if registry.has_tools() {
        let extra = registry.list_tools();
        let ghost n = items@.len();
        for i in 0..extra.len()
            invariant
                items@.len() == n + i,
                forall|k: int| 0 <= k < n ==> (#[trigger] items@[k])@ == lobby[k],
                forall|k: int| 0 <= k < i ==> (#[trigger] items@[n + k])@ == extra@[k]@,
                n == lobby.len(),
        {
            items.push(extra[i].deep_clone());
        }
        proof {
            assert(json_seq(items@) =~= lobby + registry_listing(registry)) by {
                assert forall|k: int| 0 <= k < json_seq(items@).len() implies json_seq(items@)[k] == (
                lobby + registry_listing(registry))[k] by {
                    if k >= n {
                        assert(items@[n + (k - n)]@ == extra@[k - n]@);
                    }
                }
            }
        }
    } else {
        proof {
            registry.lemma_tool_order();
            if registry.tool_order().len() > 0 {
                assert(registry.tool_order().contains(registry.tool_order()[0]));
            }
            assert(registry_listing(registry) =~= Seq::<JsonV>::empty());
            assert(json_seq(items@) =~= lobby + registry_listing(registry));
        }
    }
    let ghost listed = json_seq(items@);
    proof {
        lemma_array_view(items);
    }
    let es = vec![(owned("tools"), Json::Array(items))];
    proof {
        lemma_object_view(es);
        assert(entries_view(es@) =~= seq![("tools"@, JsonV::Array(listed))]);
    }
    Json::Object(es)
}

} // verus!
