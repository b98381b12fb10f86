use zk_agent::json::Json;
use zk_agent::lobby::{await_step, connection_error_text, timed_out_text, AwaitStep};
use zk_agent::lobby::{
    lobby_connection_lost, multiplayer_player_name, push_lobby_event, reply, LobbyEvent,
    LobbySession, Step, PLACE_BATTLE,
};
use zk_agent::lobby_tools::{
    battle_sync_command, disconnect, finish_add_bot, finish_connect, finish_join_battle,
    finish_join_channel, finish_leave_battle, finish_leave_channel, finish_login,
    finish_matchmaker_accept, finish_matchmaker_join, finish_matchmaker_leave, finish_open_battle,
    finish_register, finish_remove_bot, finish_say, finish_start_battle, finish_start_game,
    plan_add_bot, plan_connect, plan_join_battle, plan_join_channel, plan_leave_battle,
    plan_leave_channel, plan_login, plan_matchmaker_accept, plan_matchmaker_join,
    plan_matchmaker_leave, plan_open_battle, plan_register, plan_remove_bot, plan_say,
    plan_start_battle, plan_start_game, send_failure_reply, BattleJoined, ChannelInfo,
    JoinChannelReply, LobbyCommand, LoginReply, MatchMakerStatus, Outgoing, RegisterReply,
};

fn text(s: &str) -> Json {
    Json::Text(s.to_string())
}

fn num(s: &str) -> Json {
    Json::Number(s.to_string())
}

fn obj(entries: Vec<(&str, Json)>) -> Json {
    Json::Object(entries.into_iter().map(|(k, v)| (k.to_string(), v)).collect())
}

fn no_args() -> Json {
    obj(vec![])
}

/// The tool answer `{"content": [{"text": t, "type": "text"}]}`, with `"isError": true` for errors.
fn answer(t: &str, is_error: bool) -> Json {
    let block = obj(vec![("text", text(t)), ("type", text("text"))]);
    if is_error {
        obj(vec![("content", Json::Array(vec![block])), ("isError", Json::Bool(true))])
    } else {
        obj(vec![("content", Json::Array(vec![block]))])
    }
}

fn session() -> LobbySession {
    LobbySession::new()
}

fn connected() -> LobbySession {
    let mut s = LobbySession::new();
    s.connected = true;
    s
}

fn logged_in(name: &str) -> LobbySession {
    let mut s = connected();
    s.logged_in = true;
    s.my_username = Some(name.to_string());
    s
}

fn reply_of<T>(step: Step<T>) -> Json {
    match step {
        Step::Reply(j) => j,
        Step::Go(_) => panic!("expected an answer, got a step forward"),
    }
}

fn sent(step: Step<Outgoing>) -> Outgoing {
    match step {
        Step::Go(o) => o,
        Step::Reply(j) => panic!("expected a command, got {:?}", j),
    }
}

#[test]
fn reply_shapes_ok_and_error_answers() {
    assert_eq!(reply("hello", false), answer("hello", false));
    assert_eq!(reply("bad", true), answer("bad", true));
}

#[test]
fn new_session_knows_nothing() {
    let s = session();
    assert!(!s.connected);
    assert!(!s.logged_in);
    assert_eq!(s.my_username, None);
    assert_eq!(s.my_battle, None);
    assert!(s.channels.is_empty());
    assert!(s.matchmaker_joined.is_empty());
    assert!(!s.matchmaker_ready_pending);
}

#[test]
fn connect_uses_defaults() {
    match plan_connect(&session(), &no_args()) {
        Step::Go((host, port)) => {
            assert_eq!(host, "zero-k.info");
            assert_eq!(port, 8200);
        }
        Step::Reply(j) => panic!("unexpected answer {:?}", j),
    }
}

#[test]
fn connect_takes_host_and_port() {
    let args = obj(vec![("host", text("localhost")), ("port", num("8201"))]);
    match plan_connect(&session(), &args) {
        Step::Go((host, port)) => {
            assert_eq!(host, "localhost");
            assert_eq!(port, 8201);
        }
        Step::Reply(j) => panic!("unexpected answer {:?}", j),
    }
}

#[test]
fn connect_port_is_truncated_to_16_bits() {
    let args = obj(vec![("port", num("65537"))]);
    match plan_connect(&session(), &args) {
        Step::Go((_, port)) => assert_eq!(port, 1),
        Step::Reply(j) => panic!("unexpected answer {:?}", j),
    }
}

#[test]
fn connect_ignores_non_integer_port() {
    let args = obj(vec![("port", num("8201.5"))]);
    match plan_connect(&session(), &args) {
        Step::Go((_, port)) => assert_eq!(port, 8200),
        Step::Reply(j) => panic!("unexpected answer {:?}", j),
    }
}

#[test]
fn connect_when_connected_is_idempotent() {
    assert_eq!(
        reply_of(plan_connect(&connected(), &no_args())),
        answer("Already connected (not yet logged in)", false)
    );
    assert_eq!(
        reply_of(plan_connect(&logged_in("loom"), &no_args())),
        answer("Already connected and logged in as 'loom'", false)
    );
    let mut s = logged_in("x");
    s.my_username = None;
    assert_eq!(
        reply_of(plan_connect(&s, &no_args())),
        answer("Already connected and logged in as '?'", false)
    );
}

#[test]
fn finish_connect_success_and_failure() {
    let mut s = session();
    let r = finish_connect(&mut s, "zero-k.info", 8200, Ok(()));
    assert_eq!(r, answer("Connected to zero-k.info:8200", false));
    assert!(s.connected);

    let mut s = session();
    let r = finish_connect(&mut s, "zero-k.info", 8200, Err("refused".to_string()));
    assert_eq!(r, answer("Connection failed: refused", true));
    assert!(!s.connected);
}

#[test]
fn connect_twice_opens_one_connection() {
    let mut s = session();
    let (host, port) = match plan_connect(&s, &no_args()) {
        Step::Go(hp) => hp,
        Step::Reply(j) => panic!("unexpected answer {:?}", j),
    };
    finish_connect(&mut s, &host, port, Ok(()));
    assert_eq!(
        reply_of(plan_connect(&s, &no_args())),
        answer("Already connected (not yet logged in)", false)
    );
}

#[test]
fn login_checks_arguments_in_order() {
    let s = connected();
    assert_eq!(reply_of(plan_login(&s, &no_args())), answer("Missing username", true));
    assert_eq!(
        reply_of(plan_login(&s, &obj(vec![("username", text("a"))]))),
        answer("Missing password", true)
    );
    let args = obj(vec![("username", text("a")), ("password", text("p"))]);
    assert_eq!(
        reply_of(plan_login(&session(), &args)),
        answer("Not connected to lobby. Call lobby_connect first.", true)
    );
    let out = sent(plan_login(&s, &args));
    assert_eq!(out.command, LobbyCommand::Login { name: "a".into(), password: "p".into() });
    assert_eq!(out.on_failure, "Failed to send login: ");
}

#[test]
fn login_when_logged_in_is_idempotent() {
    let args = obj(vec![("username", text("a")), ("password", text("p"))]);
    assert_eq!(
        reply_of(plan_login(&logged_in("loom"), &args)),
        answer("Already logged in as 'loom'", false)
    );
}

#[test]
fn send_failure_prefixes_the_error() {
    let out = sent(plan_login(
        &connected(),
        &obj(vec![("username", text("a")), ("password", text("p"))]),
    ));
    assert_eq!(send_failure_reply(&out, "broken pipe"), answer("Failed to send login: broken pipe", true));
}

#[test]
fn finish_login_outcomes() {
    let mut s = connected();
    let r = finish_login(
        &mut s,
        Ok(Some(LoginReply { result_code: 0, name: "loom".into(), message: String::new() })),
    );
    assert_eq!(r, answer("Logged in as 'loom'", false));
    assert!(s.logged_in);
    assert_eq!(s.my_username, Some("loom".to_string()));

    let mut s = connected();
    let r = finish_login(
        &mut s,
        Ok(Some(LoginReply { result_code: 2, name: "loom".into(), message: "bad password".into() })),
    );
    assert_eq!(r, answer("Login failed (code 2): bad password", true));
    assert!(!s.logged_in);

    let mut s = connected();
    assert_eq!(finish_login(&mut s, Ok(None)), answer("Login response unparseable", true));
    assert_eq!(
        finish_login(&mut s, Err("Timed out waiting for LoginResponse".into())),
        answer("Timed out waiting for LoginResponse", true)
    );
    assert!(!s.logged_in);
}

#[test]
fn login_then_login_again_sends_nothing() {
    let mut s = connected();
    let args = obj(vec![("username", text("loom")), ("password", text("pw"))]);
    let _ = sent(plan_login(&s, &args));
    finish_login(
        &mut s,
        Ok(Some(LoginReply { result_code: 0, name: "loom".into(), message: String::new() })),
    );
    assert_eq!(reply_of(plan_login(&s, &args)), answer("Already logged in as 'loom'", false));
}

#[test]
fn register_checks_and_sends() {
    let s = connected();
    assert_eq!(reply_of(plan_register(&s, &no_args())), answer("Missing username", true));
    assert_eq!(
        reply_of(plan_register(&s, &obj(vec![("username", text("a"))]))),
        answer("Missing password", true)
    );
    assert_eq!(
        reply_of(plan_register(&s, &obj(vec![("username", text("a")), ("password", text("p"))]))),
        answer("Missing email", true)
    );
    let args = obj(vec![
        ("username", text("a")),
        ("password", text("p")),
        ("email", text("a@example.org")),
    ]);
    assert_eq!(
        reply_of(plan_register(&session(), &args)),
        answer("Not connected to lobby. Call lobby_connect first.", true)
    );
    let out = sent(plan_register(&s, &args));
    assert_eq!(
        out.command,
        LobbyCommand::Register {
            name: "a".into(),
            password: "p".into(),
            email: "a@example.org".into()
        }
    );
    assert_eq!(out.on_failure, "Failed to send register: ");
}

#[test]
fn finish_register_outcomes() {
    assert_eq!(
        finish_register("a", Ok(Some(RegisterReply { result_code: 0, ban_reason: None }))),
        answer("Account 'a' registered successfully", false)
    );
    assert_eq!(
        finish_register("a", Ok(Some(RegisterReply { result_code: 3, ban_reason: Some("taken".into()) }))),
        answer("Registration failed (code 3): taken", true)
    );
    assert_eq!(
        finish_register("a", Ok(Some(RegisterReply { result_code: 3, ban_reason: None }))),
        answer("Registration failed (code 3): ", true)
    );
    assert_eq!(finish_register("a", Ok(None)), answer("Register response unparseable", true));
    assert_eq!(finish_register("a", Err("Not connected".into())), answer("Not connected", true));
}

#[test]
fn disconnect_forgets_everything() {
    let mut s = logged_in("loom");
    s.my_battle = Some(7);
    s.matchmaker_joined = vec!["1v1".into()];
    s.channels = vec!["zk".into()];
    assert_eq!(disconnect(&mut s), answer("Disconnected from lobby", false));
    assert!(!s.connected && !s.logged_in);
    assert_eq!(s.my_username, None);
    assert_eq!(s.my_battle, None);
    assert!(s.matchmaker_joined.is_empty());
    assert!(s.channels.is_empty());
}

#[test]
fn say_plans_and_finishes() {
    let s = connected();
    assert_eq!(reply_of(plan_say(&s, &no_args())), answer("Missing target", true));
    assert_eq!(reply_of(plan_say(&s, &obj(vec![("target", text("zk"))]))), answer("Missing text", true));
    let args = obj(vec![("target", text("zk")), ("text", text("hi"))]);
    assert_eq!(reply_of(plan_say(&session(), &args)), answer("Not connected", true));
    let out = sent(plan_say(&s, &args));
    assert_eq!(out.command, LobbyCommand::Say { place: 0, target: "zk".into(), text: "hi".into() });
    assert_eq!(out.on_failure, "Send failed: ");
    let args = obj(vec![("target", text("bob")), ("text", text("hi")), ("place", num("4"))]);
    let out = sent(plan_say(&s, &args));
    assert_eq!(out.command, LobbyCommand::Say { place: 4, target: "bob".into(), text: "hi".into() });
    assert_eq!(finish_say("zk", "hi"), answer("Sent to zk: hi", false));
}

#[test]
fn join_channel_plans_and_finishes() {
    let s = connected();
    assert_eq!(reply_of(plan_join_channel(&s, &no_args())), answer("Missing channel", true));
    let args = obj(vec![("channel", text("zk"))]);
    assert_eq!(reply_of(plan_join_channel(&session(), &args)), answer("Not connected", true));
    let out = sent(plan_join_channel(&s, &args));
    assert_eq!(out.command, LobbyCommand::JoinChannel { channel: "zk".into() });
    assert_eq!(out.on_failure, "Failed: ");

    let ok = JoinChannelReply {
        success: true,
        channel: Some(ChannelInfo { user_count: 12, topic: Some("Welcome".into()) }),
    };
    assert_eq!(finish_join_channel("zk", Ok(Some(ok))), answer("Joined #zk (12 users). Topic: Welcome", false));
    let no_topic = JoinChannelReply {
        success: true,
        channel: Some(ChannelInfo { user_count: 3, topic: Some(String::new()) }),
    };
    assert_eq!(finish_join_channel("zk", Ok(Some(no_topic))), answer("Joined #zk (3 users). Topic: (none)", false));
    let bare = JoinChannelReply { success: true, channel: None };
    assert_eq!(finish_join_channel("zk", Ok(Some(bare))), answer("Joined #zk (0 users). Topic: (none)", false));
    let refused = JoinChannelReply { success: false, channel: None };
    assert_eq!(
        finish_join_channel("zk", Ok(Some(refused))),
        answer("Failed to join #zk: rejected by server", true)
    );
    assert_eq!(finish_join_channel("zk", Ok(None)), answer("Join response unparseable", true));
}

#[test]
fn leave_channel_forgets_the_channel() {
    let mut s = connected();
    s.channels = vec!["zk".into(), "main".into(), "zk".into()];
    assert_eq!(reply_of(plan_leave_channel(&s, &no_args())), answer("Missing channel", true));
    let out = sent(plan_leave_channel(&s, &obj(vec![("channel", text("zk"))])));
    assert_eq!(out.command, LobbyCommand::LeaveChannel { channel: "zk".into() });
    assert_eq!(finish_leave_channel(&mut s, "zk"), answer("Left #zk", false));
    assert_eq!(s.channels, vec!["main".to_string()]);
}

#[test]
fn join_battle_plans_and_finishes() {
    let s = logged_in("loom");
    assert_eq!(reply_of(plan_join_battle(&s, &no_args())), answer("Missing battle_id", true));
    let args = obj(vec![("battle_id", num("42"))]);
    assert_eq!(reply_of(plan_join_battle(&session(), &args)), answer("Not connected", true));
    let out = sent(plan_join_battle(&s, &args));
    assert_eq!(out.command, LobbyCommand::JoinBattle { battle_id: 42, password: String::new() });
    let args = obj(vec![("battle_id", num("42")), ("password", text("secret"))]);
    let out = sent(plan_join_battle(&s, &args));
    assert_eq!(out.command, LobbyCommand::JoinBattle { battle_id: 42, password: "secret".into() });

    let mut s2 = logged_in("loom");
    let (r, sync) = finish_join_battle(&mut s2, 42, Ok(Some(BattleJoined { battle_id: 42, players: 3, bots: 1 })));
    assert_eq!(r, answer("Joined battle 42 (3 players, 1 bots)", false));
    assert_eq!(s2.my_battle, Some(42));
    assert_eq!(sync, Some(LobbyCommand::UpdateUserBattleStatus { name: "loom".into() }));

    let mut s3 = logged_in("loom");
    let (r, sync) = finish_join_battle(&mut s3, 42, Ok(None));
    assert_eq!(r, answer("Joined battle 42", false));
    assert_eq!(s3.my_battle, Some(42));
    assert!(sync.is_some());

    let mut s4 = logged_in("loom");
    let (r, sync) = finish_join_battle(&mut s4, 42, Err("Timed out waiting for JoinBattleSuccess".into()));
    assert_eq!(r, answer("Failed to join battle 42: Timed out waiting for JoinBattleSuccess", true));
    assert_eq!(s4.my_battle, None);
    assert_eq!(sync, None);
}

#[test]
fn battle_sync_without_name_is_empty() {
    assert_eq!(
        battle_sync_command(&connected()),
        LobbyCommand::UpdateUserBattleStatus { name: String::new() }
    );
}

#[test]
fn leave_battle_plans_and_finishes() {
    assert_eq!(reply_of(plan_leave_battle(&session())), answer("Not connected", true));
    let out = sent(plan_leave_battle(&connected()));
    assert_eq!(out.command, LobbyCommand::LeaveBattle);
    let mut s = connected();
    s.my_battle = Some(5);
    assert_eq!(finish_leave_battle(&mut s), answer("Left battle", false));
    assert_eq!(s.my_battle, None);
}

#[test]
fn matchmaker_join_plans() {
    let s = connected();
    assert_eq!(reply_of(plan_matchmaker_join(&s, &no_args())), answer("Missing queues array", true));
    assert_eq!(
        reply_of(plan_matchmaker_join(&s, &obj(vec![("queues", text("1v1"))]))),
        answer("Missing queues array", true)
    );
    let only_numbers = obj(vec![("queues", Json::Array(vec![num("1")]))]);
    assert_eq!(
        reply_of(plan_matchmaker_join(&s, &only_numbers)),
        answer("Queues array is empty. Use lobby_matchmaker_leave to leave all queues.", true)
    );
    let args = obj(vec![("queues", Json::Array(vec![text("1v1"), num("3"), text("Teams")]))]);
    assert_eq!(reply_of(plan_matchmaker_join(&session(), &args)), answer("Not connected", true));
    let out = sent(plan_matchmaker_join(&s, &args));
    assert_eq!(
        out.command,
        LobbyCommand::MatchMakerQueueRequest { queues: vec!["1v1".into(), "Teams".into()] }
    );
}

#[test]
fn matchmaker_join_finishes() {
    let mut s = connected();
    let status = MatchMakerStatus {
        joined_queues: vec!["1v1".into(), "Teams".into()],
        queue_counts: vec![("1v1".into(), 4), ("Coop".into(), 9), ("Teams".into(), 2)],
        banned_seconds: None,
    };
    let r = finish_matchmaker_join(&mut s, Ok(Some(status)));
    assert_eq!(r, answer("Joined matchmaker queues: [1v1, Teams]. 1v1: 4 queued, Teams: 2 queued", false));
    assert_eq!(s.matchmaker_joined, vec!["1v1".to_string(), "Teams".to_string()]);
    assert_eq!(s.matchmaker_queue_counts.len(), 3);

    let mut s = connected();
    let banned = MatchMakerStatus { joined_queues: vec![], queue_counts: vec![], banned_seconds: Some(60) };
    assert_eq!(
        finish_matchmaker_join(&mut s, Ok(Some(banned))),
        answer("Failed to join queues (may be banned for 60s)", true)
    );
    let none = MatchMakerStatus { joined_queues: vec![], queue_counts: vec![], banned_seconds: None };
    assert_eq!(
        finish_matchmaker_join(&mut s, Ok(Some(none))),
        answer("Failed to join queues (may be banned for 0s)", true)
    );
    assert_eq!(finish_matchmaker_join(&mut s, Ok(None)), answer("MatchMakerStatus unparseable", true));
}

#[test]
fn matchmaker_leave_clears_queues_whatever_the_answer() {
    assert_eq!(reply_of(plan_matchmaker_leave(&session())), answer("Not connected", true));
    let out = sent(plan_matchmaker_leave(&connected()));
    assert_eq!(out.command, LobbyCommand::MatchMakerQueueRequest { queues: vec![] });

    let mut s = connected();
    s.matchmaker_joined = vec!["1v1".into()];
    assert_eq!(finish_matchmaker_leave(&mut s, Err("timeout".into())), answer("Left matchmaker queues", false));
    assert!(s.matchmaker_joined.is_empty());

    s.matchmaker_joined = vec!["1v1".into()];
    assert_eq!(finish_matchmaker_leave(&mut s, Ok(None)), answer("Left matchmaker queues", false));
    assert!(s.matchmaker_joined.is_empty());

    s.matchmaker_joined = vec!["1v1".into()];
    let st = MatchMakerStatus { joined_queues: vec![], queue_counts: vec![("1v1".into(), 1)], banned_seconds: None };
    assert_eq!(finish_matchmaker_leave(&mut s, Ok(Some(st))), answer("Left all matchmaker queues", false));
    assert!(s.matchmaker_joined.is_empty());
    assert_eq!(s.matchmaker_queue_counts, vec![("1v1".to_string(), 1)]);
}

#[test]
fn matchmaker_accept_needs_a_pending_check() {
    assert_eq!(reply_of(plan_matchmaker_accept(&session(), &no_args())), answer("Not connected", true));
    assert_eq!(
        reply_of(plan_matchmaker_accept(&connected(), &no_args())),
        answer("No ready-check pending", true)
    );
    let mut s = connected();
    s.matchmaker_ready_pending = true;
    let out = sent(plan_matchmaker_accept(&s, &no_args()));
    assert_eq!(out.command, LobbyCommand::AreYouReadyResponse { ready: true });
    let out = sent(plan_matchmaker_accept(&s, &obj(vec![("ready", Json::Bool(false))])));
    assert_eq!(out.command, LobbyCommand::AreYouReadyResponse { ready: false });
    assert_eq!(finish_matchmaker_accept(&mut s, true), answer("Accepted matchmaker ready-check", false));
    assert!(!s.matchmaker_ready_pending);
    assert_eq!(finish_matchmaker_accept(&mut s, false), answer("Declined matchmaker ready-check", false));
}

#[test]
fn open_battle_plans() {
    let mut s = logged_in("loom");
    s.server_game = "Zero-K v1.12.1.0".into();
    s.server_engine = "105.1.1".into();
    assert_eq!(reply_of(plan_open_battle(&s, &no_args())), answer("Missing title", true));
    assert_eq!(
        reply_of(plan_open_battle(&s, &obj(vec![("title", text("t"))]))),
        answer("Missing map", true)
    );
    let args = obj(vec![("title", text("Agent room")), ("map", text("TitanDuel 2.2"))]);
    assert_eq!(reply_of(plan_open_battle(&connected(), &args)), answer("Not logged in", true));
    let mut offline = logged_in("loom");
    offline.connected = false;
    assert_eq!(
        reply_of(plan_open_battle(&offline, &args)),
        answer("Failed to open battle: Not connected", true)
    );
    let out = sent(plan_open_battle(&s, &args));
    assert_eq!(
        out.command,
        LobbyCommand::OpenBattle {
            title: "Agent room".into(),
            founder: "loom".into(),
            map: "TitanDuel 2.2".into(),
            game: "Zero-K v1.12.1.0".into(),
            engine: "105.1.1".into(),
            max_players: 2,
            password_protected: false,
        }
    );
    assert_eq!(out.on_failure, "Failed to send OpenBattle: ");
    let args = obj(vec![
        ("title", text("t")),
        ("map", text("m")),
        ("max_players", num("8")),
        ("password", text("pw")),
    ]);
    match sent(plan_open_battle(&s, &args)).command {
        LobbyCommand::OpenBattle { max_players, password_protected, .. } => {
            assert_eq!(max_players, 8);
            assert!(password_protected);
        }
        other => panic!("unexpected command {:?}", other),
    }
}

#[test]
fn open_battle_when_in_battle_is_idempotent() {
    let mut s = logged_in("loom");
    s.my_battle = Some(12);
    let args = obj(vec![("title", text("t")), ("map", text("m"))]);
    assert_eq!(
        reply_of(plan_open_battle(&s, &args)),
        answer(
            "Already in battle 12. Use lobby_leave_battle first to leave, or lobby_start_battle to start it.",
            false
        )
    );
}

#[test]
fn open_battle_finishes() {
    let mut s = logged_in("loom");
    let (r, sync) = finish_open_battle(&mut s, "Agent room", "TitanDuel 2.2", Ok(Some(BattleJoined { battle_id: 77, players: 1, bots: 0 })));
    assert_eq!(
        r,
        answer(
            "Opened battle 'Agent room' on TitanDuel 2.2 (battle_id: 77). Add bots with lobby_add_bot, then start with lobby_start_battle.",
            false
        )
    );
    assert_eq!(s.my_battle, Some(77));
    assert_eq!(sync, Some(LobbyCommand::UpdateUserBattleStatus { name: "loom".into() }));

    let mut s = logged_in("loom");
    let (r, sync) = finish_open_battle(&mut s, "t", "m", Ok(None));
    assert_eq!(r, answer("Opened battle but could not parse response", false));
    assert_eq!(s.my_battle, None);
    assert_eq!(sync, None);

    let (r, _) = finish_open_battle(&mut s, "t", "m", Err("Timed out waiting for JoinBattleSuccess".into()));
    assert_eq!(r, answer("Failed to open battle: Timed out waiting for JoinBattleSuccess", true));
}

#[test]
fn add_and_remove_bots() {
    let mut s = logged_in("loom");
    assert_eq!(reply_of(plan_add_bot(&s, &no_args())), answer("Missing ai_lib", true));
    let args = obj(vec![("ai_lib", text("CircuitAINovice"))]);
    assert_eq!(reply_of(plan_add_bot(&s, &args)), answer("Not in a battle", true));
    s.my_battle = Some(3);
    let out = sent(plan_add_bot(&s, &args));
    assert_eq!(
        out.command,
        LobbyCommand::UpdateBotStatus {
            name: "Bot1".into(),
            ai_lib: "CircuitAINovice".into(),
            ally_number: 1,
            owner: "loom".into()
        }
    );
    let mut offline = logged_in("loom");
    offline.my_battle = Some(3);
    offline.connected = false;
    assert_eq!(reply_of(plan_add_bot(&offline, &args)), answer("Not connected", true));
    assert_eq!(
        finish_add_bot("Bot1", "CircuitAINovice", 1),
        answer("Added bot 'Bot1' (AI: CircuitAINovice, ally: 1)", false)
    );

    assert_eq!(reply_of(plan_remove_bot(&s, &no_args())), answer("Missing bot name", true));
    let out = sent(plan_remove_bot(&s, &obj(vec![("name", text("Bot1"))])));
    assert_eq!(out.command, LobbyCommand::RemoveBot { name: "Bot1".into() });
    assert_eq!(finish_remove_bot("Bot1"), answer("Removed bot 'Bot1'", false));
}

#[test]
fn start_battle_plans() {
    let none: Vec<String> = vec![];
    assert_eq!(reply_of(plan_start_battle(&connected(), &none)), answer("Not in a battle", true));
    let mut s = connected();
    s.my_battle = Some(1);
    let running = vec!["game-1".to_string(), "game-2".to_string()];
    assert_eq!(
        reply_of(plan_start_battle(&s, &running)),
        answer("Game already running (channels: game-1, game-2). The battle has already started.", false)
    );
    let out = sent(plan_start_battle(&s, &none));
    assert_eq!(
        out.command,
        LobbyCommand::Say { place: PLACE_BATTLE, target: String::new(), text: "!start".into() }
    );
    assert_eq!(out.on_failure, "Failed to send !start: ");
    let start_text = "Sent !start — waiting for game server to launch. You'll receive a lobby.connect_spring event when the engine connects.";
    assert_eq!(finish_start_battle(), answer(start_text, false));
    let mut offline = connected();
    offline.my_battle = Some(1);
    offline.connected = false;
    assert_eq!(reply_of(plan_start_battle(&offline, &none)), answer(start_text, false));
}

#[test]
fn start_game_plans_with_defaults() {
    let none: Vec<String> = vec![];
    assert_eq!(reply_of(plan_start_game(&none, &no_args())), answer("Missing map name", true));
    match plan_start_game(&none, &obj(vec![("map", text("TitanDuel 2.2"))])) {
        Step::Go(g) => {
            assert_eq!(g.map, "TitanDuel 2.2");
            assert_eq!(g.game, "Zero-K $VERSION");
            assert_eq!(g.opponent, Some("CircuitAINovice".to_string()));
            assert!(g.headless);
            assert!(!g.player_mode);
        }
        Step::Reply(j) => panic!("unexpected answer {:?}", j),
    }
    let args = obj(vec![
        ("map", text("m")),
        ("opponent", text("NullAI")),
        ("player_mode", Json::Bool(true)),
        ("headless", Json::Bool(true)),
    ]);
    match plan_start_game(&none, &args) {
        Step::Go(g) => {
            assert_eq!(g.opponent, Some("NullAI".to_string()));
            assert!(g.player_mode);
            assert!(!g.headless);
        }
        Step::Reply(j) => panic!("unexpected answer {:?}", j),
    }
    match plan_start_game(&none, &obj(vec![("map", text("m")), ("headless", Json::Bool(false))])) {
        Step::Go(g) => assert!(!g.headless),
        Step::Reply(j) => panic!("unexpected answer {:?}", j),
    }
}

#[test]
fn start_game_with_a_game_running_answers_success() {
    let running = vec!["game-1".to_string()];
    assert_eq!(
        reply_of(plan_start_game(&running, &obj(vec![("map", text("m"))]))),
        answer(
            "A game is already running (channels: game-1). Close it first with channels/close before starting a new one.",
            false
        )
    );
}

#[test]
fn start_game_finishes() {
    assert_eq!(
        finish_start_game("TitanDuel 2.2", "NullAI", true, Ok("game-1".into())),
        answer("Started local game: AgentBridge vs NullAI on TitanDuel 2.2 (channel: game-1, headless: true)", false)
    );
    assert_eq!(
        finish_start_game("m", "o", false, Err("engine not found".into())),
        answer("Failed to start game: engine not found", true)
    );
}

#[test]
fn lobby_events_become_push_events() {
    let ev = LobbyEvent::Connected { engine: "105".into(), game: "zk".into() };
    assert_eq!(
        push_lobby_event(&ev),
        Some(("lobby.connected".to_string(), "Connected to lobby. Engine: 105, Game: zk".to_string()))
    );
    let ev = LobbyEvent::LoginFailed { code: 2, message: "bad".into() };
    assert_eq!(
        push_lobby_event(&ev),
        Some(("lobby.login_failed".to_string(), "Login failed (code 2): bad".to_string()))
    );
    let chat = |place: i32| LobbyEvent::ChatMessage {
        user: "bob".into(),
        text: "gl".into(),
        target: "zk".into(),
        place,
    };
    assert_eq!(
        push_lobby_event(&chat(1)),
        Some(("lobby.chat".to_string(), "[battle] bob: gl".to_string()))
    );
    assert_eq!(push_lobby_event(&chat(4)), Some(("lobby.chat".to_string(), "[dm] bob: gl".to_string())));
    assert_eq!(push_lobby_event(&chat(0)), None);
    let ev = LobbyEvent::ChannelJoined { channel: "zk".into(), users: vec!["a".into(), "b".into()], topic: None };
    assert_eq!(
        push_lobby_event(&ev),
        Some(("lobby.channel_joined".to_string(), "Joined #zk (2 users). Topic: (none)".to_string()))
    );
    let ev = LobbyEvent::MatchMakerReady { seconds_remaining: 20, quick_play: false };
    assert_eq!(
        push_lobby_event(&ev),
        Some((
            "lobby.matchmaker_ready".to_string(),
            "MATCH FOUND! Accept within 20s (quickplay: false). Use lobby_matchmaker_accept to respond.".to_string()
        ))
    );
    let ev = LobbyEvent::MatchMakerResult { is_battle_starting: false, are_you_banned: true };
    assert_eq!(
        push_lobby_event(&ev),
        Some((
            "lobby.matchmaker_result".to_string(),
            "Match cancelled. You have been temporarily banned for not accepting.".to_string()
        ))
    );
    let ev = LobbyEvent::BattleJoined { battle_id: 5, player_count: 2, bot_count: 1 };
    assert_eq!(
        push_lobby_event(&ev),
        Some(("lobby.battle_joined".to_string(), "Joined battle 5 (2 players, 1 bots)".to_string()))
    );
    assert_eq!(
        push_lobby_event(&LobbyEvent::ConnectSpring),
        Some(("lobby.connect_spring".to_string(), "Game starting — engine launch initiated".to_string()))
    );
    assert_eq!(push_lobby_event(&LobbyEvent::UserJoined), None);
    assert_eq!(push_lobby_event(&LobbyEvent::MatchMakerStatus), None);
}

#[test]
fn lost_connection_logs_out() {
    let mut s = logged_in("loom");
    s.my_battle = Some(9);
    let ev = lobby_connection_lost(&mut s, "reset by peer".into());
    assert!(!s.connected && !s.logged_in);
    assert_eq!(s.my_battle, Some(9));
    assert_eq!(ev, LobbyEvent::Disconnected { reason: "reset by peer".into() });
    assert_eq!(
        push_lobby_event(&ev),
        Some(("lobby.disconnected".to_string(), "Disconnected: reset by peer".to_string()))
    );
}

#[test]
fn multiplayer_name_prefers_the_lobby_account() {
    assert_eq!(multiplayer_player_name(&logged_in("loom42"), "loom"), "loom42");
    assert_eq!(multiplayer_player_name(&session(), "loom"), "loom");
}

#[test]
fn awaiting_an_answer_classifies_messages() {
    assert_eq!(await_step("LoginResponse", "LoginResponse"), AwaitStep::Answer);
    assert_eq!(await_step("Ping", "LoginResponse"), AwaitStep::Pong);
    assert_eq!(await_step("Ping", "Ping"), AwaitStep::Answer);
    assert_eq!(await_step("User", "LoginResponse"), AwaitStep::Other);
    assert_eq!(timed_out_text("LoginResponse"), "Timed out waiting for LoginResponse");
    assert_eq!(connection_error_text("reset"), "Connection error: reset");
}
