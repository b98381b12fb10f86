//! The agent's lobby tools. Each tool is planned from the session and the call's
//! arguments (answer at once, or send a command to the lobby server), and, once
//! the server has answered, finished: the session is updated and the answer made.
use vstd::prelude::*;

use crate::lobby::{
    arg_bool, arg_i64, arg_text, arg_u64, bool_text, get_bool, get_i64, get_str, get_u64, name_or_empty,
    name_or_unknown, reply, reply_json, LobbySession, LobbySessionV, Step, LOGIN_OK, PLACE_BATTLE,
    REGISTER_OK,
};
use crate::json::{obj_get, Json, JsonV};
use crate::text::{decimal, join, join_strings, opt_str, owned, push_decimal, push_signed,
    signed_decimal, string_views,
};

verus! {

/// A command for the lobby server.
#[derive(Debug, PartialEq)]
pub enum LobbyCommand {
    Login { name: String, password: String },
    Register { name: String, password: String, email: String },
    Say { place: i32, target: String, text: String },
    JoinChannel { channel: String },
    LeaveChannel { channel: String },
    JoinBattle { battle_id: i64, password: String },
    LeaveBattle,
    MatchMakerQueueRequest { queues: Vec<String> },
    AreYouReadyResponse { ready: bool },
    OpenBattle {
        title: String,
        founder: String,
        map: String,
        game: String,
        engine: String,
        max_players: i32,
        password_protected: bool,
    },
    UpdateBotStatus { name: String, ai_lib: String, ally_number: i32, owner: String },
    RemoveBot { name: String },
    /// Tells the server that the agent has the battle's map, game and engine.
    UpdateUserBattleStatus { name: String },
}

pub enum LobbyCommandV {
    Login { name: Seq<char>, password: Seq<char> },
    Register { name: Seq<char>, password: Seq<char>, email: Seq<char> },
    Say { place: i32, target: Seq<char>, text: Seq<char> },
    JoinChannel { channel: Seq<char> },
    LeaveChannel { channel: Seq<char> },
    JoinBattle { battle_id: i64, password: Seq<char> },
    LeaveBattle,
    MatchMakerQueueRequest { queues: Seq<Seq<char>> },
    AreYouReadyResponse { ready: bool },
    OpenBattle {
        title: Seq<char>,
        founder: Seq<char>,
        map: Seq<char>,
        game: Seq<char>,
        engine: Seq<char>,
        max_players: i32,
        password_protected: bool,
    },
    UpdateBotStatus { name: Seq<char>, ai_lib: Seq<char>, ally_number: i32, owner: Seq<char> },
    RemoveBot { name: Seq<char> },
    UpdateUserBattleStatus { name: Seq<char> },
}

impl View for LobbyCommand {
    type V = LobbyCommandV;

    open spec fn view(&self) -> LobbyCommandV {
        match self {
            LobbyCommand::Login { name, password } => LobbyCommandV::Login {
                name: name@,
                password: password@,
            },
            LobbyCommand::Register { name, password, email } => LobbyCommandV::Register {
                name: name@,
                password: password@,
                email: email@,
            },
            LobbyCommand::Say { place, target, text } => LobbyCommandV::Say {
                place: *place,
                target: target@,
                text: text@,
            },
            LobbyCommand::JoinChannel { channel } => LobbyCommandV::JoinChannel { channel: channel@ },
            LobbyCommand::LeaveChannel { channel } => LobbyCommandV::LeaveChannel {
                channel: channel@,
            },
            LobbyCommand::JoinBattle { battle_id, password } => LobbyCommandV::JoinBattle {
                battle_id: *battle_id,
                password: password@,
            },
            LobbyCommand::LeaveBattle => LobbyCommandV::LeaveBattle,
            LobbyCommand::MatchMakerQueueRequest { queues } => LobbyCommandV::MatchMakerQueueRequest {
                queues: string_views(queues@),
            },
            LobbyCommand::AreYouReadyResponse { ready } => LobbyCommandV::AreYouReadyResponse {
                ready: *ready,
            },
            LobbyCommand::OpenBattle {
                title,
                founder,
                map,
                game,
                engine,
                max_players,
                password_protected,
            } => LobbyCommandV::OpenBattle {
                title: title@,
                founder: founder@,
                map: map@,
                game: game@,
                engine: engine@,
                max_players: *max_players,
                password_protected: *password_protected,
            },
            LobbyCommand::UpdateBotStatus { name, ai_lib, ally_number, owner } =>
                LobbyCommandV::UpdateBotStatus {
                name: name@,
                ai_lib: ai_lib@,
                ally_number: *ally_number,
                owner: owner@,
            },
            LobbyCommand::RemoveBot { name } => LobbyCommandV::RemoveBot { name: name@ },
            LobbyCommand::UpdateUserBattleStatus { name } => LobbyCommandV::UpdateUserBattleStatus {
                name: name@,
            },
        }
    }
}

/// A command to send, and the words that begin the tool's error answer when
/// sending fails.
#[derive(Debug, PartialEq)]
pub struct Outgoing {
    pub command: LobbyCommand,
    pub on_failure: String,
}

/// The step answers at once with `reply_json(text, is_error)`.
pub open spec fn replies<T>(r: Step<T>, text: Seq<char>, is_error: bool) -> bool {
    r matches Step::Reply(j) && j@ == reply_json(text, is_error)
}

/// The step sends `command`; a failure to send is answered with `on_failure`
/// and the error.
pub open spec fn sends(r: Step<Outgoing>, command: LobbyCommandV, on_failure: Seq<char>) -> bool {
    r matches Step::Go(o) && o.command@ == command && o.on_failure@ == on_failure
}

fn go(command: LobbyCommand, on_failure: &str) -> (r: Step<Outgoing>)
    ensures
        sends(r, command@, on_failure@),
{
    Step::Go(Outgoing { command, on_failure: owned(on_failure) })
}

fn answer<T>(text: &str, is_error: bool) -> (r: Step<T>)
    ensures
        replies(r, text@, is_error),
{
    Step::Reply(reply(text, is_error))
}

/// The answer when a command could not be sent.
pub fn send_failure_reply(out: &Outgoing, error: &str) -> (r: Json)
    ensures
        r@ == reply_json(out.on_failure@ + error@, true),
{
    let mut t = out.on_failure.clone();
    t.append(error);
    reply(t.as_str(), true)
}

// ── lobby_connect ──
/// The answer when a connection is already open.
pub open spec fn connect_status_text(s: LobbySessionV) -> Seq<char> {
    if s.logged_in {
        "Already connected and logged in as '"@ + name_or_unknown(s) + "'"@
    } else {
        "Already connected (not yet logged in)"@
    }
}

pub open spec fn connect_host(args: JsonV) -> Seq<char> {
    match arg_text(args, "host"@) {
        Some(h) => h,
        None => "zero-k.info"@,
    }
}

pub open spec fn connect_port(args: JsonV) -> u16 {
    match arg_u64(args, "port"@) {
        Some(p) => p as u16,
        None => 8200u16,
    }
}

/// `lobby_connect`: where a connection is open, say so; else connect to `host`
/// (`zero-k.info` by default) on `port` (8200 by default).
pub fn plan_connect(s: &LobbySession, args: &Json) -> (r: Step<(String, u16)>)
    ensures
        s.connected ==> replies(r, connect_status_text(s@), false),
        !s.connected ==> (r matches Step::Go((host, port)) && host@ == connect_host(args@) && port
            == connect_port(args@)),
{
    if s.connected {
        if s.logged_in {
            let mut t = owned("Already connected and logged in as '");
            match &s.my_username {
                Some(n) => t.append(n.as_str()),
                None => t.append("?"),
            }
            t.append("'");
            return Step::Reply(reply(t.as_str(), false));
        } else {
            return answer("Already connected (not yet logged in)", false);
        }
    }
    let host = match get_str(args, "host") {
        Some(h) => h,
        None => owned("zero-k.info"),
    };
    let port: u16 = match get_u64(args, "port") {
        Some(p) => p as u16,
        None => 8200,
    };
    Step::Go((host, port))
}

pub open spec fn connected_text(host: Seq<char>, port: u16) -> Seq<char> {
    "Connected to "@ + host + ":"@ + decimal(port as nat)
}

/// The end of `lobby_connect`, given whether the connection could be made.
pub fn finish_connect(s: &mut LobbySession, host: &str, port: u16, result: Result<(), String>) -> (r:
    Json)
    ensures
        result is Ok ==> final(s)@ == (LobbySessionV { connected: true, ..old(s)@ }) && r@
            == reply_json(connected_text(host@, port), false),
        result matches Err(e) ==> final(s)@ == old(s)@ && r@ == reply_json(
            "Connection failed: "@ + e@,
            true,
        ),
{
    match result {
        Ok(()) => {
            s.connected = true;
            let mut t = owned("Connected to ");
            t.append(host);
            t.append(":");
            push_decimal(&mut t, port as u64);
            reply(t.as_str(), false)
        },
        Err(e) => {
            let mut t = owned("Connection failed: ");
            t.append(e.as_str());
            reply(t.as_str(), true)
        },
    }
}

// ── lobby_login ──
/// `lobby_login`: log in with the `username` and `password` arguments.
pub fn plan_login(s: &LobbySession, args: &Json) -> (r: Step<Outgoing>)
    ensures
        s.logged_in ==> replies(
            r,
            "Already logged in as '"@ + name_or_unknown(s@) + "'"@,
            false,
        ),
        !s.logged_in && arg_text(args@, "username"@) is None ==> replies(
            r,
            "Missing username"@,
            true,
        ),
        !s.logged_in && arg_text(args@, "username"@) is Some && arg_text(args@, "password"@) is None
            ==> replies(r, "Missing password"@, true),
        !s.logged_in && arg_text(args@, "username"@) is Some && arg_text(args@, "password"@) is Some
            && !s.connected ==> replies(
            r,
            "Not connected to lobby. Call lobby_connect first."@,
            true,
        ),
        !s.logged_in && s.connected ==> (arg_text(args@, "username"@) matches Some(u) ==> (arg_text(
            args@,
            "password"@,
        ) matches Some(p) ==> sends(
            r,
            LobbyCommandV::Login { name: u, password: p },
            "Failed to send login: "@,
        ))),
{
    if s.logged_in {
        let mut t = owned("Already logged in as '");
        match &s.my_username {
            Some(n) => t.append(n.as_str()),
            None => t.append("?"),
        }
        t.append("'");
        return Step::Reply(reply(t.as_str(), false));
    }
    let name = match get_str(args, "username") {
        Some(u) => u,
        None => return answer("Missing username", true),
    };
    let password = match get_str(args, "password") {
        Some(p) => p,
        None => return answer("Missing password", true),
    };
    if !s.connected {
        return answer("Not connected to lobby. Call lobby_connect first.", true);
    }
    go(LobbyCommand::Login { name, password }, "Failed to send login: ")
}

/// The lobby's answer to a login.
pub struct LoginReply {
    pub result_code: i32,
    pub name: String,
    pub message: String,
}

pub open spec fn login_failed_text(code: i32, message: Seq<char>) -> Seq<char> {
    "Login failed (code "@ + signed_decimal(code as int) + "): "@ + message
}

/// The end of `lobby_login`, given the lobby's answer.
pub fn finish_login(s: &mut LobbySession, answer: Result<Option<LoginReply>, String>) -> (r: Json)
    ensures
        answer matches Err(e) ==> final(s)@ == old(s)@ && r@ == reply_json(e@, true),
        answer matches Ok(None) ==> final(s)@ == old(s)@ && r@ == reply_json(
            "Login response unparseable"@,
            true,
        ),
        answer matches Ok(Some(l)) ==> (l.result_code == LOGIN_OK ==> final(s)@ == (LobbySessionV {
            logged_in: true,
            my_username: Some(l.name@),
            ..old(s)@
        }) && r@ == reply_json("Logged in as '"@ + l.name@ + "'"@, false)) && (l.result_code
            != LOGIN_OK ==> final(s)@ == old(s)@ && r@ == reply_json(
            login_failed_text(l.result_code, l.message@),
            true,
        )),
{
    match answer {
        Err(e) => reply(e.as_str(), true),
        Ok(None) => reply("Login response unparseable", true),
        Ok(Some(l)) => {
            if l.result_code == LOGIN_OK {
                let mut t = owned("Logged in as '");
                t.append(l.name.as_str());
                t.append("'");
                s.logged_in = true;
                s.my_username = Some(l.name);
                reply(t.as_str(), false)
            } else {
                let mut t = owned("Login failed (code ");
                push_signed(&mut t, l.result_code as i64);
                t.append("): ");
                t.append(l.message.as_str());
                reply(t.as_str(), true)
            }
        },
    }
}

// ── lobby_register ──
/// `lobby_register`: register an account with `username`, `password` and `email`.
pub fn plan_register(s: &LobbySession, args: &Json) -> (r: Step<Outgoing>)
    ensures
        arg_text(args@, "username"@) is None ==> replies(r, "Missing username"@, true),
        arg_text(args@, "username"@) is Some && arg_text(args@, "password"@) is None ==> replies(
            r,
            "Missing password"@,
            true,
        ),
        arg_text(args@, "username"@) is Some && arg_text(args@, "password"@) is Some && arg_text(
            args@,
            "email"@,
        ) is None ==> replies(r, "Missing email"@, true),
        arg_text(args@, "username"@) is Some && arg_text(args@, "password"@) is Some && arg_text(
            args@,
            "email"@,
        ) is Some && !s.connected ==> replies(
            r,
            "Not connected to lobby. Call lobby_connect first."@,
            true,
        ),
        s.connected ==> (arg_text(args@, "username"@) matches Some(u) ==> (arg_text(
            args@,
            "password"@,
        ) matches Some(p) ==> (arg_text(args@, "email"@) matches Some(e) ==> sends(
            r,
            LobbyCommandV::Register { name: u, password: p, email: e },
            "Failed to send register: "@,
        )))),
{
    let name = match get_str(args, "username") {
        Some(u) => u,
        None => return answer("Missing username", true),
    };
    let password = match get_str(args, "password") {
        Some(p) => p,
        None => return answer("Missing password", true),
    };
    let email = match get_str(args, "email") {
        Some(e) => e,
        None => return answer("Missing email", true),
    };
    if !s.connected {
        return answer("Not connected to lobby. Call lobby_connect first.", true);
    }
    go(LobbyCommand::Register { name, password, email }, "Failed to send register: ")
}

/// The lobby's answer to a registration.
pub struct RegisterReply {
    pub result_code: i32,
    pub ban_reason: Option<String>,
}

pub open spec fn register_failed_text(code: i32, reason: Option<Seq<char>>) -> Seq<char> {
    "Registration failed (code "@ + signed_decimal(code as int) + "): "@ + match reason {
        Some(t) => t,
        None => Seq::empty(),
    }
}

/// The end of `lobby_register` for the account `username`, given the lobby's answer.
pub fn finish_register(username: &str, answer: Result<Option<RegisterReply>, String>) -> (r: Json)
    ensures
        answer matches Err(e) ==> r@ == reply_json(e@, true),
        answer matches Ok(None) ==> r@ == reply_json("Register response unparseable"@, true),
        answer matches Ok(Some(g)) ==> (g.result_code == REGISTER_OK ==> r@ == reply_json(
            "Account '"@ + username@ + "' registered successfully"@,
            false,
        )) && (g.result_code != REGISTER_OK ==> r@ == reply_json(
            register_failed_text(g.result_code, opt_str(g.ban_reason)),
            true,
        )),
{
    match answer {
        Err(e) => reply(e.as_str(), true),
        Ok(None) => reply("Register response unparseable", true),
        Ok(Some(g)) => {
            if g.result_code == REGISTER_OK {
                let mut t = owned("Account '");
                t.append(username);
                t.append("' registered successfully");
                reply(t.as_str(), false)
            } else {
                let mut t = owned("Registration failed (code ");
                push_signed(&mut t, g.result_code as i64);
                t.append("): ");
                match &g.ban_reason {
                    Some(b) => t.append(b.as_str()),
                    None => {},
                }
                reply(t.as_str(), true)
            }
        },
    }
}

// ── lobby_disconnect ──
/// `lobby_disconnect`: drop the connection and forget the session.
pub fn disconnect(s: &mut LobbySession) -> (r: Json)
    ensures
        final(s)@ == crate::lobby::fresh_session(),
        r@ == reply_json("Disconnected from lobby"@, false),
{
    *s = LobbySession::new();
    reply("Disconnected from lobby", false)
}

// ── lobby_say ──
pub open spec fn say_place(args: JsonV) -> i32 {
    match arg_i64(args, "place"@) {
        Some(p) => p as i32,
        None => 0i32,
    }
}

/// `lobby_say`: send `text` to `target` in chat place `place` (0 by default).
pub fn plan_say(s: &LobbySession, args: &Json) -> (r: Step<Outgoing>)
    ensures
        arg_text(args@, "target"@) is None ==> replies(r, "Missing target"@, true),
        arg_text(args@, "target"@) is Some && arg_text(args@, "text"@) is None ==> replies(
            r,
            "Missing text"@,
            true,
        ),
        arg_text(args@, "target"@) is Some && arg_text(args@, "text"@) is Some && !s.connected
            ==> replies(r, "Not connected"@, true),
        s.connected ==> (arg_text(args@, "target"@) matches Some(t) ==> (arg_text(
            args@,
            "text"@,
        ) matches Some(x) ==> sends(
            r,
            LobbyCommandV::Say { place: say_place(args@), target: t, text: x },
            "Send failed: "@,
        ))),
{
    let target = match get_str(args, "target") {
        Some(t) => t,
        None => return answer("Missing target", true),
    };
    let text = match get_str(args, "text") {
        Some(t) => t,
        None => return answer("Missing text", true),
    };
    let place: i32 = match get_i64(args, "place") {
        Some(p) => p as i32,
        None => 0,
    };
    if !s.connected {
        return answer("Not connected", true);
    }
    go(LobbyCommand::Say { place, target, text }, "Send failed: ")
}

/// The end of `lobby_say` once the message went out.
pub fn finish_say(target: &str, text: &str) -> (r: Json)
    ensures
        r@ == reply_json("Sent to "@ + target@ + ": "@ + text@, false),
{
    let mut t = owned("Sent to ");
    t.append(target);
    t.append(": ");
    t.append(text);
    reply(t.as_str(), false)
}

// ── lobby_join_channel ──
/// `lobby_join_channel`: join the chat channel `channel`.
pub fn plan_join_channel(s: &LobbySession, args: &Json) -> (r: Step<Outgoing>)
    ensures
        arg_text(args@, "channel"@) is None ==> replies(r, "Missing channel"@, true),
        arg_text(args@, "channel"@) is Some && !s.connected ==> replies(r, "Not connected"@, true),
        s.connected ==> (arg_text(args@, "channel"@) matches Some(c) ==> sends(
            r,
            LobbyCommandV::JoinChannel { channel: c },
            "Failed: "@,
        )),
{
    let channel = match get_str(args, "channel") {
        Some(c) => c,
        None => return answer("Missing channel", true),
    };
    if !s.connected {
        return answer("Not connected", true);
    }
    go(LobbyCommand::JoinChannel { channel }, "Failed: ")
}

/// A chat channel as the lobby describes it on joining.
pub struct ChannelInfo {
    pub user_count: u64,
    pub topic: Option<String>,
}

/// The lobby's answer to joining a channel.
pub struct JoinChannelReply {
    pub success: bool,
    pub channel: Option<ChannelInfo>,
}

pub open spec fn channel_users(info: Option<ChannelInfo>) -> nat {
    match info {
        Some(c) => c.user_count as nat,
        None => 0,
    }
}

pub open spec fn channel_topic(info: Option<ChannelInfo>) -> Seq<char> {
    match info {
        Some(c) => match c.topic {
            Some(t) => t@,
            None => Seq::empty(),
        },
        None => Seq::empty(),
    }
}

pub open spec fn joined_channel_text(channel: Seq<char>, info: Option<ChannelInfo>) -> Seq<char> {
    "Joined #"@ + channel + " ("@ + decimal(channel_users(info)) + " users). Topic: "@ + if channel_topic(
        info,
    ).len() == 0 {
        "(none)"@
    } else {
        channel_topic(info)
    }
}

/// The end of `lobby_join_channel` for `channel`, given the lobby's answer.
pub fn finish_join_channel(channel: &str, answer: Result<Option<JoinChannelReply>, String>) -> (r:
    Json)
    ensures
        answer matches Err(e) ==> r@ == reply_json(e@, true),
        answer matches Ok(None) ==> r@ == reply_json("Join response unparseable"@, true),
        answer matches Ok(Some(j)) ==> (j.success ==> r@ == reply_json(
            joined_channel_text(channel@, j.channel),
            false,
        )) && (!j.success ==> r@ == reply_json(
            "Failed to join #"@ + channel@ + ": rejected by server"@,
            true,
        )),
{
    match answer {
        Err(e) => reply(e.as_str(), true),
        Ok(None) => reply("Join response unparseable", true),
        Ok(Some(j)) => {
            if j.success {
                let users: u64 = match &j.channel {
                    Some(c) => c.user_count,
                    None => 0,
                };
                let mut t = owned("Joined #");
                t.append(channel);
                t.append(" (");
                push_decimal(&mut t, users);
                t.append(" users). Topic: ");
                let topic: &str = match &j.channel {
                    Some(c) => match &c.topic {
                        Some(x) => x.as_str(),
                        None => "",
                    },
                    None => "",
                };
                proof {
                    reveal_strlit("");
                }
                assert(topic@ == channel_topic(j.channel));
                if topic.is_empty() {
                    t.append("(none)");
                } else {
                    t.append(topic);
                }
                reply(t.as_str(), false)
            } else {
                let mut t = owned("Failed to join #");
                t.append(channel);
                t.append(": rejected by server");
                reply(t.as_str(), true)
            }
        },
    }
}

// ── lobby_leave_channel ──
/// `lobby_leave_channel`: leave the chat channel `channel`.
pub fn plan_leave_channel(s: &LobbySession, args: &Json) -> (r: Step<Outgoing>)
    ensures
        arg_text(args@, "channel"@) is None ==> replies(r, "Missing channel"@, true),
        arg_text(args@, "channel"@) is Some && !s.connected ==> replies(r, "Not connected"@, true),
        s.connected ==> (arg_text(args@, "channel"@) matches Some(c) ==> sends(
            r,
            LobbyCommandV::LeaveChannel { channel: c },
            "Failed: "@,
        )),
{
    let channel = match get_str(args, "channel") {
        Some(c) => c,
        None => return answer("Missing channel", true),
    };
    if !s.connected {
        return answer("Not connected", true);
    }
    go(LobbyCommand::LeaveChannel { channel }, "Failed: ")
}

/// The channels of `cs` other than `c`.
pub open spec fn without(cs: Seq<Seq<char>>, c: Seq<char>) -> Seq<Seq<char>> {
    cs.filter(|x: Seq<char>| x != c)
}

/// The end of `lobby_leave_channel` once the request went out: the channel is forgotten.
pub fn finish_leave_channel(s: &mut LobbySession, channel: &str) -> (r: Json)
    ensures
        final(s)@ == (LobbySessionV { channels: without(old(s)@.channels, channel@), ..old(s)@ }),
        r@ == reply_json("Left #"@ + channel@, false),
{
    let target = owned(channel);
    let mut kept: Vec<String> = Vec::new();
    let ghost cs = old(s)@.channels;
    let ghost pred = |x: Seq<char>| x != channel@;
    for i in 0..s.channels.len()
        invariant
            cs == string_views(s.channels@),
            s@ == old(s)@,
            target@ == channel@,
            pred == (|x: Seq<char>| x != channel@),
            string_views(kept@) == cs.take(i as int).filter(pred),
    {
        let ghost before = kept@;
        if !(s.channels[i] == target) {
            let c = s.channels[i].clone();
            kept.push(c);
        }
        proof {
            reveal(Seq::filter);
            assert(cs.take(i + 1).drop_last() =~= cs.take(i as int));
            assert(cs.take(i + 1).last() == cs[i as int]);
            if cs[i as int] != channel@ {
                assert(string_views(kept@) =~= string_views(before).push(cs[i as int]));
            } else {
                assert(string_views(kept@) =~= string_views(before));
            }
        }
    }
    proof {
        assert(cs.take(cs.len() as int) =~= cs);
    }
    s.channels = kept;
    let mut t = owned("Left #");
    t.append(channel);
    reply(t.as_str(), false)
}

// ── lobby_join_battle ──
/// `lobby_join_battle`: join the battle room `battle_id`, with `password` (empty by default).
pub fn plan_join_battle(s: &LobbySession, args: &Json) -> (r: Step<Outgoing>)
    ensures
        arg_i64(args@, "battle_id"@) is None ==> replies(r, "Missing battle_id"@, true),
        arg_i64(args@, "battle_id"@) is Some && !s.connected ==> replies(r, "Not connected"@, true),
        s.connected ==> (arg_i64(args@, "battle_id"@) matches Some(b) ==> sends(
            r,
            LobbyCommandV::JoinBattle {
                battle_id: b,
                password: match arg_text(args@, "password"@) {
                    Some(p) => p,
                    None => Seq::empty(),
                },
            },
            "Failed: "@,
        )),
{
    let battle_id = match get_i64(args, "battle_id") {
        Some(b) => b,
        None => return answer("Missing battle_id", true),
    };
    let password = match get_str(args, "password") {
        Some(p) => p,
        None => String::new(),
    };
    if !s.connected {
        return answer("Not connected", true);
    }
    go(LobbyCommand::JoinBattle { battle_id, password }, "Failed: ")
}

/// The lobby's word that the agent is in a battle room.
pub struct BattleJoined {
    pub battle_id: i64,
    pub players: u64,
    pub bots: u64,
}

/// The command that tells the server the agent has what the battle needs.
pub open spec fn battle_sync(s: LobbySessionV) -> LobbyCommandV {
    LobbyCommandV::UpdateUserBattleStatus { name: name_or_empty(s) }
}

pub fn battle_sync_command(s: &LobbySession) -> (r: LobbyCommand)
    ensures
        r@ == battle_sync(s@),
{
    let name = match &s.my_username {
        Some(n) => n.clone(),
        None => String::new(),
    };
    LobbyCommand::UpdateUserBattleStatus { name }
}

/// The end of `lobby_join_battle` for `battle_id`, given the lobby's answer: the
/// answer, and the battle status to send where the agent is now in the room.
pub fn finish_join_battle(
    s: &mut LobbySession,
    battle_id: i64,
    answer: Result<Option<BattleJoined>, String>,
) -> (r: (Json, Option<LobbyCommand>))
    ensures
        answer matches Err(e) ==> final(s)@ == old(s)@ && r.1 is None && r.0@ == reply_json(
            "Failed to join battle "@ + signed_decimal(battle_id as int) + ": "@ + e@,
            true,
        ),
        answer matches Ok(Some(j)) ==> final(s)@ == (LobbySessionV {
            my_battle: Some(j.battle_id),
            ..old(s)@
        }) && r.0@ == reply_json(
            "Joined battle "@ + signed_decimal(j.battle_id as int) + " ("@ + decimal(j.players as nat)
                + " players, "@ + decimal(j.bots as nat) + " bots)"@,
            false,
        ) && (r.1 matches Some(c) && c@ == battle_sync(old(s)@)),
        answer matches Ok(None) ==> final(s)@ == (LobbySessionV {
            my_battle: Some(battle_id),
            ..old(s)@
        }) && r.0@ == reply_json("Joined battle "@ + signed_decimal(battle_id as int), false) && (
        r.1 matches Some(c) && c@ == battle_sync(old(s)@)),
{
    match answer {
        Err(e) => {
            let mut t = owned("Failed to join battle ");
            push_signed(&mut t, battle_id);
            t.append(": ");
            t.append(e.as_str());
            (reply(t.as_str(), true), None)
        },
        Ok(Some(j)) => {
            let sync = battle_sync_command(s);
            s.my_battle = Some(j.battle_id);
            let mut t = owned("Joined battle ");
            push_signed(&mut t, j.battle_id);
            t.append(" (");
            push_decimal(&mut t, j.players);
            t.append(" players, ");
            push_decimal(&mut t, j.bots);
            t.append(" bots)");
            (reply(t.as_str(), false), Some(sync))
        },
        Ok(None) => {
            let sync = battle_sync_command(s);
            s.my_battle = Some(battle_id);
            let mut t = owned("Joined battle ");
            push_signed(&mut t, battle_id);
            (reply(t.as_str(), false), Some(sync))
        },
    }
}

// ── lobby_leave_battle ──
/// `lobby_leave_battle`: leave the battle room.
pub fn plan_leave_battle(s: &LobbySession) -> (r: Step<Outgoing>)
    ensures
        !s.connected ==> replies(r, "Not connected"@, true),
        s.connected ==> sends(r, LobbyCommandV::LeaveBattle, "Failed: "@),
{
    if !s.connected {
        return answer("Not connected", true);
    }
    go(LobbyCommand::LeaveBattle, "Failed: ")
}

/// The end of `lobby_leave_battle` once the request went out.
pub fn finish_leave_battle(s: &mut LobbySession) -> (r: Json)
    ensures
        final(s)@ == (LobbySessionV { my_battle: None, ..old(s)@ }),
        r@ == reply_json("Left battle"@, false),
{
    s.my_battle = None;
    reply("Left battle", false)
}

// ── lobby_matchmaker_join ──
/// The strings among `items`, in order.
pub open spec fn texts_among(items: Seq<JsonV>) -> Seq<Seq<char>>
    decreases items.len(),
{
    if items.len() == 0 {
        Seq::empty()
    } else {
        let rest = texts_among(items.drop_last());
        match items.last() {
            JsonV::Text(t) => rest.push(t),
            _ => rest,
        }
    }
}

/// The queue names of a `lobby_matchmaker_join` call: the strings of its
/// `queues` array, or `None` when it has no such array.
pub open spec fn queue_args(args: JsonV) -> Option<Seq<Seq<char>>> {
    match obj_get(args, "queues"@) {
        Some(JsonV::Array(items)) => Some(texts_among(items)),
        _ => None,
    }
}

fn strings_among(items: &Vec<Json>) -> (r: Vec<String>)
    ensures
        string_views(r@) == texts_among(crate::json::json_seq(items@)),
{
    let ghost js = crate::json::json_seq(items@);
    let mut r: Vec<String> = Vec::new();
    for i in 0..items.len()
        invariant
            js == crate::json::json_seq(items@),
            string_views(r@) == texts_among(js.take(i as int)),
    {
        let ghost before = r@;
        match items[i].as_str() {
            Some(t) => r.push(owned(t)),
            None => {},
        }
        proof {
            assert(js.take(i + 1).drop_last() =~= js.take(i as int));
            assert(js.take(i + 1).last() == items@[i as int]@);
            if r@.len() > before.len() {
                assert(string_views(r@) =~= string_views(before).push(r@.last()@));
            } else {
                assert(string_views(r@) =~= string_views(before));
            }
        }
    }
    assert(js.take(js.len() as int) =~= js);
    r
}

/// `lobby_matchmaker_join`: queue for the matchmaker queues named in `queues`.
pub fn plan_matchmaker_join(s: &LobbySession, args: &Json) -> (r: Step<Outgoing>)
    ensures
        queue_args(args@) is None ==> replies(r, "Missing queues array"@, true),
        queue_args(args@) matches Some(q) && q.len() == 0 ==> replies(
            r,
            "Queues array is empty. Use lobby_matchmaker_leave to leave all queues."@,
            true,
        ),
        queue_args(args@) matches Some(q) && q.len() > 0 && !s.connected ==> replies(
            r,
            "Not connected"@,
            true,
        ),
        queue_args(args@) matches Some(q) ==> (q.len() > 0 && s.connected ==> sends(
            r,
            LobbyCommandV::MatchMakerQueueRequest { queues: q },
            "Failed: "@,
        )),
{
    let queues = match args.get("queues") {
        Some(v) => match v.as_array() {
            Some(items) => strings_among(items),
            None => return answer("Missing queues array", true),
        },
        None => return answer("Missing queues array", true),
    };
    if queues.len() == 0 {
        return answer("Queues array is empty. Use lobby_matchmaker_leave to leave all queues.", true);
    }
    if !s.connected {
        return answer("Not connected", true);
    }
    go(LobbyCommand::MatchMakerQueueRequest { queues }, "Failed: ")
}

/// The matchmaker's report of the agent's queues.
pub struct MatchMakerStatus {
    pub joined_queues: Vec<String>,
    /// How many players wait in each queue, in the order the server listed them.
    pub queue_counts: Vec<(String, i64)>,
    pub banned_seconds: Option<i64>,
}

/// `name: count queued` for each counted queue that the agent joined, in order.
pub open spec fn queued_lines(counts: Seq<(Seq<char>, i64)>, joined: Seq<Seq<char>>) -> Seq<
    Seq<char>,
>
    decreases counts.len(),
{
    if counts.len() == 0 {
        Seq::empty()
    } else {
        let rest = queued_lines(counts.drop_last(), joined);
        let (name, count) = counts.last();
        if joined.contains(name) {
            rest.push(name + ": "@ + signed_decimal(count as int) + " queued"@)
        } else {
            rest
        }
    }
}

pub open spec fn joined_queues_text(joined: Seq<Seq<char>>, counts: Seq<(Seq<char>, i64)>) -> Seq<
    char,
> {
    "Joined matchmaker queues: ["@ + join(joined, ", "@) + "]. "@ + join(
        queued_lines(counts, joined),
        ", "@,
    )
}

fn contains_string(v: &Vec<String>, x: &String) -> (r: bool)
    ensures
        r == string_views(v@).contains(x@),
{
    for i in 0..v.len()
        invariant
            forall|k: int| 0 <= k < i ==> v@[k]@ != x@,
    {
        if v[i] == *x {
            assert(string_views(v@)[i as int] == x@);
            return true;
        }
    }
    proof {
        if string_views(v@).contains(x@) {
            let k = choose|k: int| 0 <= k < v@.len() && string_views(v@)[k] == x@;
            assert(v@[k]@ == x@);
        }
    }
    false
}

fn queued_lines_exec(counts: &Vec<(String, i64)>, joined: &Vec<String>) -> (r: Vec<String>)
    ensures
        string_views(r@) == queued_lines(
            crate::lobby::count_views(counts@),
            string_views(joined@),
        ),
{
    let ghost cs = crate::lobby::count_views(counts@);
    let mut r: Vec<String> = Vec::new();
    for i in 0..counts.len()
        invariant
            cs == crate::lobby::count_views(counts@),
            string_views(r@) == queued_lines(cs.take(i as int), string_views(joined@)),
    {
        let ghost before = r@;
        assert(cs.take(i + 1).drop_last() =~= cs.take(i as int));
        assert(cs.take(i + 1).last() == cs[i as int]);
        if contains_string(joined, &counts[i].0) {
            let mut line = counts[i].0.clone();
            line.append(": ");
            push_signed(&mut line, counts[i].1);
            line.append(" queued");
            r.push(line);
            assert(string_views(r@) =~= string_views(before).push(r@.last()@));
        }
    }
    assert(cs.take(cs.len() as int) =~= cs);
    r
}

/// The end of `lobby_matchmaker_join`, given the matchmaker's report.
pub fn finish_matchmaker_join(s: &mut LobbySession, answer: Result<Option<MatchMakerStatus>, String>)
    -> (r: Json)
    ensures
        answer matches Err(e) ==> final(s)@ == old(s)@ && r@ == reply_json(e@, true),
        answer matches Ok(None) ==> final(s)@ == old(s)@ && r@ == reply_json(
            "MatchMakerStatus unparseable"@,
            true,
        ),
        answer matches Ok(Some(m)) ==> final(s)@ == (LobbySessionV {
            matchmaker_joined: string_views(m.joined_queues@),
            matchmaker_queue_counts: crate::lobby::count_views(m.queue_counts@),
            ..old(s)@
        }) && (m.joined_queues@.len() == 0 ==> r@ == reply_json(
            "Failed to join queues (may be banned for "@ + signed_decimal(
                match m.banned_seconds {
                    Some(b) => b as int,
                    None => 0,
                },
            ) + "s)"@,
            true,
        )) && (m.joined_queues@.len() > 0 ==> r@ == reply_json(
            joined_queues_text(
                string_views(m.joined_queues@),
                crate::lobby::count_views(m.queue_counts@),
            ),
            false,
        )),
{
    match answer {
        Err(e) => reply(e.as_str(), true),
        Ok(None) => reply("MatchMakerStatus unparseable", true),
        Ok(Some(m)) => {
            let r = if m.joined_queues.len() == 0 {
                let mut t = owned("Failed to join queues (may be banned for ");
                let b: i64 = match m.banned_seconds {
                    Some(b) => b,
                    None => 0,
                };
                push_signed(&mut t, b);
                t.append("s)");
                reply(t.as_str(), true)
            } else {
                let lines = queued_lines_exec(&m.queue_counts, &m.joined_queues);
                let mut t = owned("Joined matchmaker queues: [");
                let joined = join_strings(&m.joined_queues, ", ");
                t.append(joined.as_str());
                t.append("]. ");
                let counted = join_strings(&lines, ", ");
                t.append(counted.as_str());
                reply(t.as_str(), false)
            };
            s.matchmaker_joined = m.joined_queues;
            s.matchmaker_queue_counts = m.queue_counts;
            r
        },
    }
}

// ── lobby_matchmaker_leave ──
/// `lobby_matchmaker_leave`: leave every matchmaker queue.
pub fn plan_matchmaker_leave(s: &LobbySession) -> (r: Step<Outgoing>)
    ensures
        !s.connected ==> replies(r, "Not connected"@, true),
        s.connected ==> sends(
            r,
            LobbyCommandV::MatchMakerQueueRequest { queues: Seq::empty() },
            "Failed: "@,
        ),
{
    if !s.connected {
        return answer("Not connected", true);
    }
    let r = go(LobbyCommand::MatchMakerQueueRequest { queues: Vec::new() }, "Failed: ");
    assert(string_views(Seq::<String>::empty()) =~= Seq::<Seq<char>>::empty());
    r
}

/// The end of `lobby_matchmaker_leave`. The agent has left its queues whatever
/// the matchmaker answered: the server may send no report when it was in none.
pub fn finish_matchmaker_leave(s: &mut LobbySession, answer: Result<Option<MatchMakerStatus>, String>)
    -> (r: Json)
    ensures
        answer matches Ok(Some(m)) ==> final(s)@ == (LobbySessionV {
            matchmaker_joined: string_views(m.joined_queues@),
            matchmaker_queue_counts: crate::lobby::count_views(m.queue_counts@),
            ..old(s)@
        }) && r@ == reply_json("Left all matchmaker queues"@, false),
        !(answer matches Ok(Some(_))) ==> final(s)@ == (LobbySessionV {
            matchmaker_joined: Seq::empty(),
            ..old(s)@
        }) && r@ == reply_json("Left matchmaker queues"@, false),
{
    match answer {
        Ok(Some(m)) => {
            s.matchmaker_joined = m.joined_queues;
            s.matchmaker_queue_counts = m.queue_counts;
            reply("Left all matchmaker queues", false)
        },
        _ => {
            s.matchmaker_joined = Vec::new();
            assert(string_views(s.matchmaker_joined@) =~= Seq::<Seq<char>>::empty());
            reply("Left matchmaker queues", false)
        },
    }
}

// ── lobby_matchmaker_accept ──
pub open spec fn ready_arg(args: JsonV) -> bool {
    match arg_bool(args, "ready"@) {
        Some(b) => b,
        None => true,
    }
}

/// `lobby_matchmaker_accept`: answer the matchmaker's ready-check (`ready`,
/// true by default).
pub fn plan_matchmaker_accept(s: &LobbySession, args: &Json) -> (r: Step<Outgoing>)
    ensures
        !s.connected ==> replies(r, "Not connected"@, true),
        s.connected && !s.matchmaker_ready_pending ==> replies(r, "No ready-check pending"@, true),
        s.connected && s.matchmaker_ready_pending ==> sends(
            r,
            LobbyCommandV::AreYouReadyResponse { ready: ready_arg(args@) },
            "Failed: "@,
        ),
{
    let ready = match get_bool(args, "ready") {
        Some(b) => b,
        None => true,
    };
    if !s.connected {
        return answer("Not connected", true);
    }
    if !s.matchmaker_ready_pending {
        return answer("No ready-check pending", true);
    }
    go(LobbyCommand::AreYouReadyResponse { ready }, "Failed: ")
}

/// The end of `lobby_matchmaker_accept` once the answer went out.
pub fn finish_matchmaker_accept(s: &mut LobbySession, ready: bool) -> (r: Json)
    ensures
        final(s)@ == (LobbySessionV { matchmaker_ready_pending: false, ..old(s)@ }),
        r@ == reply_json(
            (if ready {
                "Accepted"@
            } else {
                "Declined"@
            }) + " matchmaker ready-check"@,
            false,
        ),
{
    s.matchmaker_ready_pending = false;
    let mut t = if ready {
        owned("Accepted")
    } else {
        owned("Declined")
    };
    t.append(" matchmaker ready-check");
    reply(t.as_str(), false)
}

// ── lobby_open_battle ──
pub open spec fn max_players_arg(args: JsonV) -> i32 {
    match arg_i64(args, "max_players"@) {
        Some(n) => n as i32,
        None => 2i32,
    }
}

pub open spec fn text_or_empty(t: Option<Seq<char>>) -> Seq<char> {
    match t {
        Some(x) => x,
        None => Seq::empty(),
    }
}

pub open spec fn already_in_battle_text(b: i64) -> Seq<char> {
    "Already in battle "@ + signed_decimal(b as int)
        + ". Use lobby_leave_battle first to leave, or lobby_start_battle to start it."@
}

/// `lobby_open_battle`: open a battle room titled `title` on `map`, for
/// `max_players` players (2 by default), protected where a `password` is given.
pub fn plan_open_battle(s: &LobbySession, args: &Json) -> (r: Step<Outgoing>)
    ensures
        s.my_battle matches Some(b) ==> replies(r, already_in_battle_text(b), false),
        s.my_battle is None && arg_text(args@, "title"@) is None ==> replies(
            r,
            "Missing title"@,
            true,
        ),
        s.my_battle is None && arg_text(args@, "title"@) is Some && arg_text(args@, "map"@) is None
            ==> replies(r, "Missing map"@, true),
        s.my_battle is None && arg_text(args@, "title"@) is Some && arg_text(args@, "map"@) is Some
            && !s.logged_in ==> replies(r, "Not logged in"@, true),
        s.my_battle is None && arg_text(args@, "title"@) is Some && arg_text(args@, "map"@) is Some
            && s.logged_in && !s.connected ==> replies(
            r,
            "Failed to open battle: Not connected"@,
            true,
        ),
        s.my_battle is None && s.logged_in && s.connected ==> (arg_text(args@, "title"@) matches Some(
            t,
        ) ==> (arg_text(args@, "map"@) matches Some(m) ==> sends(
            r,
            LobbyCommandV::OpenBattle {
                title: t,
                founder: name_or_empty(s@),
                map: m,
                game: s.server_game@,
                engine: s.server_engine@,
                max_players: max_players_arg(args@),
                password_protected: text_or_empty(arg_text(args@, "password"@)).len() > 0,
            },
            "Failed to send OpenBattle: "@,
        ))),
{
    if let Some(b) = s.my_battle {
        let mut t = owned("Already in battle ");
        push_signed(&mut t, b);
        t.append(". Use lobby_leave_battle first to leave, or lobby_start_battle to start it.");
        return Step::Reply(reply(t.as_str(), false));
    }
    let title = match get_str(args, "title") {
        Some(t) => t,
        None => return answer("Missing title", true),
    };
    let map = match get_str(args, "map") {
        Some(m) => m,
        None => return answer("Missing map", true),
    };
    let max_players: i32 = match get_i64(args, "max_players") {
        Some(n) => n as i32,
        None => 2,
    };
    let password_protected = match get_str(args, "password") {
        Some(p) => !p.as_str().is_empty(),
        None => false,
    };
    if !s.logged_in {
        return answer("Not logged in", true);
    }
    if !s.connected {
        return answer("Failed to open battle: Not connected", true);
    }
    let founder = match &s.my_username {
        Some(n) => n.clone(),
        None => String::new(),
    };
    let command = LobbyCommand::OpenBattle {
        title,
        founder,
        map,
        game: s.server_game.clone(),
        engine: s.server_engine.clone(),
        max_players,
        password_protected,
    };
    go(command, "Failed to send OpenBattle: ")
}

pub open spec fn opened_battle_text(title: Seq<char>, map: Seq<char>, b: i64) -> Seq<char> {
    "Opened battle '"@ + title + "' on "@ + map + " (battle_id: "@ + signed_decimal(b as int)
        + "). Add bots with lobby_add_bot, then start with lobby_start_battle."@
}

/// The end of `lobby_open_battle` for the room `title` on `map`, given the
/// lobby's answer (the founder joins the room at once): the answer, and the
/// battle status to send where the agent is now in the room.
pub fn finish_open_battle(
    s: &mut LobbySession,
    title: &str,
    map: &str,
    answer: Result<Option<BattleJoined>, String>,
) -> (r: (Json, Option<LobbyCommand>))
    ensures
        answer matches Err(e) ==> final(s)@ == old(s)@ && r.1 is None && r.0@ == reply_json(
            "Failed to open battle: "@ + e@,
            true,
        ),
        answer matches Ok(Some(j)) ==> final(s)@ == (LobbySessionV {
            my_battle: Some(j.battle_id),
            ..old(s)@
        }) && r.0@ == reply_json(opened_battle_text(title@, map@, j.battle_id), false) && (
        r.1 matches Some(c) && c@ == battle_sync(old(s)@)),
        answer matches Ok(None) ==> final(s)@ == old(s)@ && r.1 is None && r.0@ == reply_json(
            "Opened battle but could not parse response"@,
            false,
        ),
{
    match answer {
        Err(e) => {
            let mut t = owned("Failed to open battle: ");
            t.append(e.as_str());
            (reply(t.as_str(), true), None)
        },
        Ok(Some(j)) => {
            let sync = battle_sync_command(s);
            s.my_battle = Some(j.battle_id);
            let mut t = owned("Opened battle '");
            t.append(title);
            t.append("' on ");
            t.append(map);
            t.append(" (battle_id: ");
            push_signed(&mut t, j.battle_id);
            t.append("). Add bots with lobby_add_bot, then start with lobby_start_battle.");
            (reply(t.as_str(), false), Some(sync))
        },
        Ok(None) => (reply("Opened battle but could not parse response", false), None),
    }
}

// ── lobby_add_bot / lobby_remove_bot ──
pub open spec fn bot_name_arg(args: JsonV) -> Seq<char> {
    match arg_text(args, "name"@) {
        Some(n) => n,
        None => "Bot1"@,
    }
}

pub open spec fn ally_arg(args: JsonV) -> i32 {
    match arg_i64(args, "ally_number"@) {
        Some(n) => n as i32,
        None => 1i32,
    }
}

/// `lobby_add_bot`: add an AI `ai_lib` named `name` (`Bot1` by default) to the
/// battle room, on team `ally_number` (1 by default).
pub fn plan_add_bot(s: &LobbySession, args: &Json) -> (r: Step<Outgoing>)
    ensures
        arg_text(args@, "ai_lib"@) is None ==> replies(r, "Missing ai_lib"@, true),
        arg_text(args@, "ai_lib"@) is Some && s.my_battle is None ==> replies(
            r,
            "Not in a battle"@,
            true,
        ),
        arg_text(args@, "ai_lib"@) is Some && s.my_battle is Some && !s.connected ==> replies(
            r,
            "Not connected"@,
            true,
        ),
        s.my_battle is Some && s.connected ==> (arg_text(args@, "ai_lib"@) matches Some(a) ==> sends(
            r,
            LobbyCommandV::UpdateBotStatus {
                name: bot_name_arg(args@),
                ai_lib: a,
                ally_number: ally_arg(args@),
                owner: name_or_empty(s@),
            },
            "Failed: "@,
        )),
{
    let ai_lib = match get_str(args, "ai_lib") {
        Some(a) => a,
        None => return answer("Missing ai_lib", true),
    };
    let name = match get_str(args, "name") {
        Some(n) => n,
        None => owned("Bot1"),
    };
    let ally_number: i32 = match get_i64(args, "ally_number") {
        Some(n) => n as i32,
        None => 1,
    };
    if s.my_battle.is_none() {
        return answer("Not in a battle", true);
    }
    if !s.connected {
        return answer("Not connected", true);
    }
    let owner = match &s.my_username {
        Some(n) => n.clone(),
        None => String::new(),
    };
    go(LobbyCommand::UpdateBotStatus { name, ai_lib, ally_number, owner }, "Failed: ")
}

/// The end of `lobby_add_bot` once the request went out.
pub fn finish_add_bot(name: &str, ai_lib: &str, ally_number: i32) -> (r: Json)
    ensures
        r@ == reply_json(
            "Added bot '"@ + name@ + "' (AI: "@ + ai_lib@ + ", ally: "@ + signed_decimal(
                ally_number as int,
            ) + ")"@,
            false,
        ),
{
    let mut t = owned("Added bot '");
    t.append(name);
    t.append("' (AI: ");
    t.append(ai_lib);
    t.append(", ally: ");
    push_signed(&mut t, ally_number as i64);
    t.append(")");
    reply(t.as_str(), false)
}

/// `lobby_remove_bot`: remove the bot `name` from the battle room.
pub fn plan_remove_bot(s: &LobbySession, args: &Json) -> (r: Step<Outgoing>)
    ensures
        arg_text(args@, "name"@) is None ==> replies(r, "Missing bot name"@, true),
        arg_text(args@, "name"@) is Some && !s.connected ==> replies(r, "Not connected"@, true),
        s.connected ==> (arg_text(args@, "name"@) matches Some(n) ==> sends(
            r,
            LobbyCommandV::RemoveBot { name: n },
            "Failed: "@,
        )),
{
    let name = match get_str(args, "name") {
        Some(n) => n,
        None => return answer("Missing bot name", true),
    };
    if !s.connected {
        return answer("Not connected", true);
    }
    go(LobbyCommand::RemoveBot { name }, "Failed: ")
}

/// The end of `lobby_remove_bot` once the request went out.
pub fn finish_remove_bot(name: &str) -> (r: Json)
    ensures
        r@ == reply_json("Removed bot '"@ + name@ + "'"@, false),
{
    let mut t = owned("Removed bot '");
    t.append(name);
    t.append("'");
    reply(t.as_str(), false)
}

// ── lobby_start_battle ──
pub open spec fn start_sent_text() -> Seq<char> {
    "Sent !start — waiting for game server to launch. You'll receive a lobby.connect_spring event when the engine connects."@
}

/// `lobby_start_battle`: ask the battle room's host to start the game, unless a
/// game runs already (its channels are `running`). Where no connection is open
/// nothing is sent, and the answer is the same.
pub fn plan_start_battle(s: &LobbySession, running: &Vec<String>) -> (r: Step<Outgoing>)
    ensures
        s.my_battle is None ==> replies(r, "Not in a battle"@, true),
        s.my_battle is Some && running@.len() > 0 ==> replies(
            r,
            "Game already running (channels: "@ + join(string_views(running@), ", "@)
                + "). The battle has already started."@,
            false,
        ),
        s.my_battle is Some && running@.len() == 0 && !s.connected ==> replies(
            r,
            start_sent_text(),
            false,
        ),
        s.my_battle is Some && running@.len() == 0 && s.connected ==> sends(
            r,
            LobbyCommandV::Say { place: PLACE_BATTLE, target: Seq::empty(), text: "!start"@ },
            "Failed to send !start: "@,
        ),
{
    if s.my_battle.is_none() {
        return answer("Not in a battle", true);
    }
    if running.len() > 0 {
        let mut t = owned("Game already running (channels: ");
        let names = join_strings(running, ", ");
        t.append(names.as_str());
        t.append("). The battle has already started.");
        return Step::Reply(reply(t.as_str(), false));
    }
    if !s.connected {
        return answer(
            "Sent !start — waiting for game server to launch. You'll receive a lobby.connect_spring event when the engine connects.",
            false,
        );
    }
    let r = go(
        LobbyCommand::Say { place: PLACE_BATTLE, target: String::new(), text: owned("!start") },
        "Failed to send !start: ",
    );
    r
}

/// The end of `lobby_start_battle` once the request went out: the game server
/// will call the agent in when it is up.
pub fn finish_start_battle() -> (r: Json)
    ensures
        r@ == reply_json(start_sent_text(), false),
{
    reply(
        "Sent !start — waiting for game server to launch. You'll receive a lobby.connect_spring event when the engine connects.",
        false,
    )
}

// ── lobby_start_game ──
/// A local game to start: AgentBridge against an AI opponent on a map.
#[derive(Debug, PartialEq)]
pub struct LocalGame {
    pub map: String,
    pub game: String,
    pub opponent: Option<String>,
    pub headless: bool,
    pub player_mode: bool,
}

/// A game runs without graphics unless the agent plays it as a player, or
/// `headless` is false.
pub open spec fn headless_choice(player_mode: bool, headless: Option<bool>) -> bool {
    if player_mode {
        false
    } else {
        match headless {
            Some(h) => h,
            None => true,
        }
    }
}

pub open spec fn flag_or_false(b: Option<bool>) -> bool {
    match b {
        Some(x) => x,
        None => false,
    }
}

pub open spec fn running_text(running: Seq<String>) -> Seq<char> {
    join(string_views(running), ", "@)
}

/// `lobby_start_game`: start a local game on `map` against `opponent`
/// (`CircuitAINovice` by default). Like every lobby tool it is idempotent: while
/// a game runs it starts nothing and answers, as a success, which one runs.
pub fn plan_start_game(running: &Vec<String>, args: &Json) -> (r: Step<LocalGame>)
    ensures
        running@.len() > 0 ==> replies(
            r,
            "A game is already running (channels: "@ + running_text(running@)
                + "). Close it first with channels/close before starting a new one."@,
            false,
        ),
        running@.len() == 0 && arg_text(args@, "map"@) is None ==> replies(
            r,
            "Missing map name"@,
            true,
        ),
        running@.len() == 0 ==> (arg_text(args@, "map"@) matches Some(m) ==> (r matches Step::Go(g)
            && g.map@ == m && g.game@ == (match arg_text(args@, "game"@) {
            Some(x) => x,
            None => "Zero-K $VERSION"@,
        }) && opt_str(g.opponent) == Some(
            match arg_text(args@, "opponent"@) {
                Some(x) => x,
                None => "CircuitAINovice"@,
            },
        ) && g.player_mode == flag_or_false(arg_bool(args@, "player_mode"@)) && g.headless
            == headless_choice(g.player_mode, arg_bool(args@, "headless"@)))),
{
    if running.len() > 0 {
        let mut t = owned("A game is already running (channels: ");
        let names = join_strings(running, ", ");
        t.append(names.as_str());
        t.append("). Close it first with channels/close before starting a new one.");
        return Step::Reply(reply(t.as_str(), false));
    }
    let map = match get_str(args, "map") {
        Some(m) => m,
        None => return answer("Missing map name", true),
    };
    let opponent = match get_str(args, "opponent") {
        Some(o) => o,
        None => owned("CircuitAINovice"),
    };
    let game = match get_str(args, "game") {
        Some(g) => g,
        None => owned("Zero-K $VERSION"),
    };
    let player_mode = match get_bool(args, "player_mode") {
        Some(p) => p,
        None => false,
    };
    let headless = if player_mode {
        false
    } else {
        match get_bool(args, "headless") {
            Some(h) => h,
            None => true,
        }
    };
    Step::Go(LocalGame { map, game, opponent: Some(opponent), headless, player_mode })
}

/// The end of `lobby_start_game`, given the new game's channel or why it did not start.
pub fn finish_start_game(map: &str, opponent: &str, headless: bool, result: Result<String, String>)
    -> (r: Json)
    ensures
        result matches Ok(id) ==> r@ == reply_json(
            "Started local game: AgentBridge vs "@ + opponent@ + " on "@ + map@ + " (channel: "@
                + id@ + ", headless: "@ + bool_text(headless) + ")"@,
            false,
        ),
        result matches Err(e) ==> r@ == reply_json("Failed to start game: "@ + e@, true),
{
    match result {
        Ok(id) => {
            let mut t = owned("Started local game: AgentBridge vs ");
            t.append(opponent);
            t.append(" on ");
            t.append(map);
            t.append(" (channel: ");
            t.append(id.as_str());
            t.append(", headless: ");
            if headless {
                t.append("true");
            } else {
                t.append("false");
            }
            t.append(")");
            reply(t.as_str(), false)
        },
        Err(e) => {
            let mut t = owned("Failed to start game: ");
            t.append(e.as_str());
            reply(t.as_str(), true)
        },
    }
}

} // verus!
