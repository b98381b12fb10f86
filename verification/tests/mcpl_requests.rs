use zk_agent::json::Json;
use zk_agent::lobby::Step;
use zk_agent::mcpl::{
    finish_channels_close, finish_channels_open, lobby_tool_named, method_named, method_not_found,
    plan_channels_close, plan_channels_open, plan_channels_publish, publish_outcome,
    route_failure_reply, rpc_error, state_rollback, tool_call_target, unknown_tool_reply,
    LobbyTool, McplMethod, Published,
};

fn text(s: &str) -> Json {
    Json::Text(s.to_string())
}

fn num(s: &str) -> Json {
    Json::Number(s.to_string())
}

fn obj(entries: Vec<(&str, Json)>) -> Json {
    Json::Object(entries.into_iter().map(|(k, v)| (k.to_string(), v)).collect())
}

fn answer(t: &str, is_error: bool) -> Json {
    let block = obj(vec![("text", text(t)), ("type", text("text"))]);
    if is_error {
        obj(vec![("content", Json::Array(vec![block])), ("isError", Json::Bool(true))])
    } else {
        obj(vec![("content", Json::Array(vec![block]))])
    }
}

fn error_json(code: &str, message: &str) -> Json {
    obj(vec![("error", obj(vec![("code", num(code)), ("message", text(message))]))])
}

#[test]
fn every_lobby_tool_name_is_served() {
    let names = [
        ("lobby_connect", LobbyTool::Connect),
        ("lobby_login", LobbyTool::Login),
        ("lobby_register", LobbyTool::Register),
        ("lobby_disconnect", LobbyTool::Disconnect),
        ("lobby_say", LobbyTool::Say),
        ("lobby_join_channel", LobbyTool::JoinChannel),
        ("lobby_leave_channel", LobbyTool::LeaveChannel),
        ("lobby_list_battles", LobbyTool::ListBattles),
        ("lobby_list_users", LobbyTool::ListUsers),
        ("lobby_join_battle", LobbyTool::JoinBattle),
        ("lobby_leave_battle", LobbyTool::LeaveBattle),
        ("lobby_matchmaker_join", LobbyTool::MatchmakerJoin),
        ("lobby_matchmaker_leave", LobbyTool::MatchmakerLeave),
        ("lobby_matchmaker_accept", LobbyTool::MatchmakerAccept),
        ("lobby_matchmaker_status", LobbyTool::MatchmakerStatus),
        ("lobby_start_game", LobbyTool::StartGame),
        ("lobby_open_battle", LobbyTool::OpenBattle),
        ("lobby_add_bot", LobbyTool::AddBot),
        ("lobby_remove_bot", LobbyTool::RemoveBot),
        ("lobby_start_battle", LobbyTool::StartBattle),
    ];
    for (name, tool) in names {
        assert_eq!(lobby_tool_named(name), Some(tool));
    }
    assert_eq!(lobby_tool_named("lobby_dance"), None);
    assert_eq!(lobby_tool_named(""), None);
}

#[test]
fn unknown_tool_is_an_error_answer() {
    assert_eq!(unknown_tool_reply("fly"), answer("Unknown tool: fly", true));
}

#[test]
fn route_failure_is_an_error_answer() {
    assert_eq!(
        route_failure_reply("no SAI connection for channel x"),
        answer("Failed to route tool call: no SAI connection for channel x", true)
    );
}

#[test]
fn methods_are_recognised() {
    assert_eq!(method_named("tools/list"), Some(McplMethod::ToolsList));
    assert_eq!(method_named("tools/call"), Some(McplMethod::ToolsCall));
    assert_eq!(method_named("channels/open"), Some(McplMethod::ChannelsOpen));
    assert_eq!(method_named("channels/close"), Some(McplMethod::ChannelsClose));
    assert_eq!(method_named("channels/list"), Some(McplMethod::ChannelsList));
    assert_eq!(method_named("channels/publish"), Some(McplMethod::ChannelsPublish));
    assert_eq!(method_named("state/rollback"), Some(McplMethod::StateRollback));
    assert_eq!(method_named("resources/list"), None);
}

#[test]
fn unknown_method_is_a_json_rpc_error() {
    assert_eq!(method_not_found("resources/list"), error_json("-32601", "Method not found: resources/list"));
    assert_eq!(rpc_error(7, "x"), error_json("7", "x"));
}

#[test]
fn tool_call_target_defaults() {
    let (name, args) = tool_call_target(&obj(vec![]));
    assert_eq!(name, "");
    assert_eq!(args, obj(vec![]));
    let params = obj(vec![("name", text("lobby_say")), ("arguments", obj(vec![("text", text("hi"))]))]);
    let (name, args) = tool_call_target(&params);
    assert_eq!(name, "lobby_say");
    assert_eq!(args, obj(vec![("text", text("hi"))]));
    let (name, _) = tool_call_target(&obj(vec![("name", num("3"))]));
    assert_eq!(name, "");
}

#[test]
fn channels_open_uses_address_and_defaults() {
    let none: Vec<String> = vec![];
    match plan_channels_open(&none, &obj(vec![])) {
        Step::Go(g) => {
            assert_eq!(g.map, "Chicken Defence 1.56");
            assert_eq!(g.game, "Zero-K v1.12.1.0");
            assert_eq!(g.opponent, None);
            assert!(g.headless);
            assert!(!g.player_mode);
        }
        Step::Reply(j) => panic!("unexpected answer {:?}", j),
    }
    let params = obj(vec![(
        "address",
        obj(vec![
            ("map", text("TitanDuel 2.2")),
            ("opponent", text("NullAI")),
            ("player_mode", Json::Bool(true)),
        ]),
    )]);
    match plan_channels_open(&none, &params) {
        Step::Go(g) => {
            assert_eq!(g.map, "TitanDuel 2.2");
            assert_eq!(g.opponent, Some("NullAI".to_string()));
            assert!(g.player_mode);
            assert!(!g.headless);
        }
        Step::Reply(j) => panic!("unexpected answer {:?}", j),
    }
}

#[test]
fn channels_open_refuses_a_second_game() {
    let running = vec!["game-1".to_string()];
    match plan_channels_open(&running, &obj(vec![])) {
        Step::Reply(j) => assert_eq!(
            j,
            error_json("-32000", "Game already running (channels: game-1). Close existing game first.")
        ),
        Step::Go(_) => panic!("a second game was started"),
    }
}

#[test]
fn channels_open_reports_the_channel() {
    let expected = obj(vec![(
        "channel",
        obj(vec![
            ("direction", text("bidirectional")),
            ("id", text("game-1")),
            ("label", text("Game on TitanDuel 2.2")),
            (
                "metadata",
                obj(vec![("game", text("zk")), ("map", text("TitanDuel 2.2")), ("status", text("starting"))]),
            ),
            ("type", text("game")),
        ]),
    )]);
    assert_eq!(finish_channels_open("TitanDuel 2.2", "zk", Ok("game-1".into())), expected);
    assert_eq!(
        finish_channels_open("m", "g", Err("engine not found".into())),
        error_json("-32000", "engine not found")
    );
}

#[test]
fn channels_close_needs_a_channel() {
    match plan_channels_close(&obj(vec![])) {
        Step::Reply(j) => {
            assert_eq!(j, obj(vec![("closed", Json::Bool(false)), ("error", text("Missing channelId"))]))
        }
        Step::Go(_) => panic!("closed without a channel"),
    }
    match plan_channels_close(&obj(vec![("channelId", text("game-1"))])) {
        Step::Go(id) => assert_eq!(id, "game-1"),
        Step::Reply(j) => panic!("unexpected answer {:?}", j),
    }
    assert_eq!(finish_channels_close(Ok(())), obj(vec![("closed", Json::Bool(true))]));
    assert_eq!(
        finish_channels_close(Err("no such game".into())),
        obj(vec![("closed", Json::Bool(false)), ("error", text("no such game"))])
    );
}

#[test]
fn channels_publish_takes_the_first_text_block() {
    match plan_channels_publish(&obj(vec![])) {
        Step::Reply(j) => {
            assert_eq!(j, obj(vec![("delivered", Json::Bool(false)), ("error", text("Missing channelId"))]))
        }
        Step::Go(_) => panic!("published without a channel"),
    }
    let params = obj(vec![
        ("channelId", text("game-1")),
        (
            "content",
            Json::Array(vec![
                obj(vec![("type", text("text")), ("text", text("{\"type\":\"pause\"}"))]),
                obj(vec![("text", text("ignored"))]),
            ]),
        ),
    ]);
    match plan_channels_publish(&params) {
        Step::Go((id, Published::Text(t))) => {
            assert_eq!(id, "game-1");
            assert_eq!(t, "{\"type\":\"pause\"}");
        }
        other => panic!("unexpected plan {:?}", other),
    }
    let cmd = obj(vec![("type", text("pause"))]);
    let params = obj(vec![
        ("channelId", text("game-1")),
        ("content", Json::Array(vec![obj(vec![("text", cmd)])])),
    ]);
    match plan_channels_publish(&params) {
        Step::Go((_, Published::Value(v))) => assert_eq!(v, obj(vec![("type", text("pause"))])),
        other => panic!("unexpected plan {:?}", other),
    }
    match plan_channels_publish(&obj(vec![("channelId", text("game-1"))])) {
        Step::Go((_, Published::Text(t))) => assert_eq!(t, ""),
        other => panic!("unexpected plan {:?}", other),
    }
}

#[test]
fn publish_outcomes() {
    assert_eq!(
        publish_outcome(Ok("m-1".into())),
        obj(vec![("delivered", Json::Bool(true)), ("messageId", text("m-1"))])
    );
    assert_eq!(
        publish_outcome(Err("Invalid command JSON: expected value".into())),
        obj(vec![("delivered", Json::Bool(false)), ("error", text("Invalid command JSON: expected value"))])
    );
}

#[test]
fn rollback_is_refused_and_names_the_checkpoint() {
    let reason = text("Rollback not yet implemented — requires engine savestate support");
    assert_eq!(
        state_rollback(&obj(vec![("checkpoint", text("cp-3")), ("featureSet", text("game"))])),
        obj(vec![("checkpoint", text("cp-3")), ("reason", reason.deep_clone()), ("success", Json::Bool(false))])
    );
    assert_eq!(
        state_rollback(&obj(vec![])),
        obj(vec![("checkpoint", text("")), ("reason", reason), ("success", Json::Bool(false))])
    );
}

