//! The game manager's side of the Zero-K lobby: what it remembers of its lobby
//! session, the commands it sends, and the events it passes on to the agent.
use vstd::prelude::*;

use crate::events::{text_block, text_block_exec};
use crate::json::{
    bool_of, entries_view, i64_value, lemma_array_view, lemma_object_view, obj_get, text_of,
    u64_value, Json, JsonV,
};
use crate::text::{decimal, opt_str, owned, push_decimal, push_signed, signed_decimal};
use crate::text::string_views;

verus! {

/// The result code of a successful login.
pub const LOGIN_OK: i32 = 0;

/// The result code of a successful registration.
pub const REGISTER_OK: i32 = 0;

/// The chat place of a battle room.
pub const PLACE_BATTLE: i32 = 1;

/// The chat place of a direct message.
pub const PLACE_USER: i32 = 4;

/// A string argument of a tool call.
pub open spec fn arg_text(args: JsonV, key: Seq<char>) -> Option<Seq<char>> {
    match obj_get(args, key) {
        Some(v) => text_of(v),
        None => None,
    }
}

/// A boolean argument of a tool call.
pub open spec fn arg_bool(args: JsonV, key: Seq<char>) -> Option<bool> {
    match obj_get(args, key) {
        Some(v) => bool_of(v),
        None => None,
    }
}

/// An integer argument of a tool call, read as an `i64`.
pub open spec fn arg_i64(args: JsonV, key: Seq<char>) -> Option<i64> {
    match obj_get(args, key) {
        Some(v) => i64_value(v),
        None => None,
    }
}

/// An integer argument of a tool call, read as a `u64`.
pub open spec fn arg_u64(args: JsonV, key: Seq<char>) -> Option<u64> {
    match obj_get(args, key) {
        Some(v) => u64_value(v),
        None => None,
    }
}

pub fn get_str(args: &Json, key: &str) -> (r: Option<String>)
    ensures
        opt_str(r) == arg_text(args@, key@),
{
    match args.get(key) {
        Some(v) => match v.as_str() {
            Some(s) => Some(owned(s)),
            None => None,
        },
        None => None,
    }
}

pub fn get_bool(args: &Json, key: &str) -> (r: Option<bool>)
    ensures
        r == arg_bool(args@, key@),
{
    match args.get(key) {
        Some(v) => v.as_bool(),
        None => None,
    }
}

pub fn get_i64(args: &Json, key: &str) -> (r: Option<i64>)
    ensures
        r == arg_i64(args@, key@),
{
    match args.get(key) {
        Some(v) => v.as_i64(),
        None => None,
    }
}

pub fn get_u64(args: &Json, key: &str) -> (r: Option<u64>)
    ensures
        r == arg_u64(args@, key@),
{
    match args.get(key) {
        Some(v) => v.as_u64(),
        None => None,
    }
}

/// The answer to a tool call: one text block, flagged as an error where it is one.
pub open spec fn reply_json(text: Seq<char>, is_error: bool) -> JsonV {
    if is_error {
        JsonV::Object(
            seq![
                ("content"@, JsonV::Array(seq![text_block(text)])),
                ("isError"@, JsonV::Bool(true)),
            ],
        )
    } else {
        JsonV::Object(seq![("content"@, JsonV::Array(seq![text_block(text)]))])
    }
}

pub fn reply(text: &str, is_error: bool) -> (r: Json)
    ensures
        r@ == reply_json(text@, is_error),
{
    let content = vec![text_block_exec(text)];
    proof {
        lemma_array_view(content);
        assert(crate::json::json_seq(content@) =~= seq![text_block(text@)]);
    }
    let content = Json::Array(content);
    if is_error {
        let es = vec![(owned("content"), content), (owned("isError"), Json::Bool(true))];
        proof {
            lemma_object_view(es);
            assert(entries_view(es@) =~= seq![
                ("content"@, JsonV::Array(seq![text_block(text@)])),
                ("isError"@, JsonV::Bool(true)),
            ]);
        }
        Json::Object(es)
    } else {
        let es = vec![(owned("content"), content)];
        proof {
            lemma_object_view(es);
            assert(entries_view(es@) =~= seq![("content"@, JsonV::Array(seq![text_block(text@)]))]);
        }
        Json::Object(es)
    }
}

/// What the game manager knows of its lobby session.
#[derive(Debug, PartialEq)]
pub struct LobbySession {
    /// A connection to the lobby server is open.
    pub connected: bool,
    pub logged_in: bool,
    pub my_username: Option<String>,
    /// The battle room the agent is in.
    pub my_battle: Option<i64>,
    /// The chat channels the agent is in.
    pub channels: Vec<String>,
    /// The matchmaker queues the agent is in, as the server last reported them.
    pub matchmaker_joined: Vec<String>,
    /// How many players wait in each matchmaker queue.
    pub matchmaker_queue_counts: Vec<(String, i64)>,
    /// The matchmaker found a match and waits for the agent's answer.
    pub matchmaker_ready_pending: bool,
    /// The game and engine versions that the server announced.
    pub server_game: String,
    pub server_engine: String,
}

pub struct LobbySessionV {
    pub connected: bool,
    pub logged_in: bool,
    pub my_username: Option<Seq<char>>,
    pub my_battle: Option<i64>,
    pub channels: Seq<Seq<char>>,
    pub matchmaker_joined: Seq<Seq<char>>,
    pub matchmaker_queue_counts: Seq<(Seq<char>, i64)>,
    pub matchmaker_ready_pending: bool,
    pub server_game: Seq<char>,
    pub server_engine: Seq<char>,
}

pub open spec fn count_views(v: Seq<(String, i64)>) -> Seq<(Seq<char>, i64)> {
    Seq::new(v.len(), |i: int| (v[i].0@, v[i].1))
}

impl View for LobbySession {
    type V = LobbySessionV;

    open spec fn view(&self) -> LobbySessionV {
        LobbySessionV {
            connected: self.connected,
            logged_in: self.logged_in,
            my_username: opt_str(self.my_username),
            my_battle: self.my_battle,
            channels: string_views(self.channels@),
            matchmaker_joined: string_views(self.matchmaker_joined@),
            matchmaker_queue_counts: count_views(self.matchmaker_queue_counts@),
            matchmaker_ready_pending: self.matchmaker_ready_pending,
            server_game: self.server_game@,
            server_engine: self.server_engine@,
        }
    }
}

/// The session before any connection: nothing known.
pub open spec fn fresh_session() -> LobbySessionV {
    LobbySessionV {
        connected: false,
        logged_in: false,
        my_username: None,
        my_battle: None,
        channels: Seq::empty(),
        matchmaker_joined: Seq::empty(),
        matchmaker_queue_counts: Seq::empty(),
        matchmaker_ready_pending: false,
        server_game: Seq::empty(),
        server_engine: Seq::empty(),
    }
}

impl LobbySession {
    pub fn new() -> (r: LobbySession)
        ensures
            r@ == fresh_session(),
    {
        let r = LobbySession {
            connected: false,
            logged_in: false,
            my_username: None,
            my_battle: None,
            channels: Vec::new(),
            matchmaker_joined: Vec::new(),
            matchmaker_queue_counts: Vec::new(),
            matchmaker_ready_pending: false,
            server_game: String::new(),
            server_engine: String::new(),
        };
        assert(r@.channels =~= Seq::<Seq<char>>::empty());
        assert(r@.matchmaker_joined =~= Seq::<Seq<char>>::empty());
        assert(r@.matchmaker_queue_counts =~= Seq::<(Seq<char>, i64)>::empty());
        r
    }
}

/// The name under which the agent is logged in, or `?` when none is known.
pub open spec fn name_or_unknown(s: LobbySessionV) -> Seq<char> {
    match s.my_username {
        Some(n) => n,
        None => "?"@,
    }
}

/// The name under which the agent is logged in, or the empty string.
pub open spec fn name_or_empty(s: LobbySessionV) -> Seq<char> {
    match s.my_username {
        Some(n) => n,
        None => Seq::empty(),
    }
}

fn username_or(s: &LobbySession, default: &str) -> (r: String)
    ensures
        r@ == (match s@.my_username {
            Some(n) => n,
            None => default@,
        }),
{
    match &s.my_username {
        Some(n) => n.clone(),
        None => owned(default),
    }
}

/// What a tool does next: answer at once, or go on with `T`.
#[derive(Debug, PartialEq)]
pub enum Step<T> {
    Reply(Json),
    Go(T),
}

/// An event of the lobby session.
#[derive(Debug, PartialEq)]
pub enum LobbyEvent {
    Connected { engine: String, game: String },
    Disconnected { reason: String },
    LoggedIn { username: String },
    LoginFailed { code: i32, message: String },
    RegisterSuccess,
    RegisterFailed { code: i32, reason: String },
    ChatMessage { user: String, text: String, target: String, place: i32 },
    BattleJoined { battle_id: i64, player_count: u64, bot_count: u64 },
    ChannelJoined { channel: String, users: Vec<String>, topic: Option<String> },
    MatchMakerReady { seconds_remaining: i64, quick_play: bool },
    MatchMakerResult { is_battle_starting: bool, are_you_banned: bool },
    /// The game server is up: the engine is to connect to it.
    ConnectSpring,
    UserJoined,
    UserLeft,
    BattleUpdated,
    BattleOpened,
    BattleClosed,
    ChannelUserJoined,
    ChannelUserLeft,
    MatchMakerStatus,
    MatchMakerSetup,
    MatchMakerReadyUpdate,
}

/// How a boolean prints: `true` or `false`.
pub open spec fn bool_text(b: bool) -> Seq<char> {
    if b {
        "true"@
    } else {
        "false"@
    }
}

/// The push event that the agent gets for a lobby event: its kind and its text.
/// Frequent events (users, battles and channel members coming and going, queue
/// updates) and chat other than battle chat and direct messages are not passed on.
pub open spec fn lobby_push(e: LobbyEvent) -> Option<(Seq<char>, Seq<char>)> {
    match e {
        LobbyEvent::Connected { engine, game } => Some(
            (
                "lobby.connected"@,
                "Connected to lobby. Engine: "@ + engine@ + ", Game: "@ + game@,
            ),
        ),
        LobbyEvent::Disconnected { reason } => Some(
            ("lobby.disconnected"@, "Disconnected: "@ + reason@),
        ),
        LobbyEvent::LoggedIn { username } => Some(("lobby.logged_in"@, "Logged in as "@ + username@)),
        LobbyEvent::LoginFailed { code, message } => Some(
            (
                "lobby.login_failed"@,
                "Login failed (code "@ + signed_decimal(code as int) + "): "@ + message@,
            ),
        ),
        LobbyEvent::RegisterSuccess => Some(
            ("lobby.register_success"@, "Account registration successful"@),
        ),
        LobbyEvent::RegisterFailed { code, reason } => Some(
            (
                "lobby.register_failed"@,
                "Registration failed (code "@ + signed_decimal(code as int) + "): "@ + reason@,
            ),
        ),
        LobbyEvent::ChatMessage { user, text, place, .. } => if place == PLACE_BATTLE {
            Some(("lobby.chat"@, "[battle] "@ + user@ + ": "@ + text@))
        } else if place == PLACE_USER {
            Some(("lobby.chat"@, "[dm] "@ + user@ + ": "@ + text@))
        } else {
            None
        },
        LobbyEvent::BattleJoined { battle_id, player_count, bot_count } => Some(
            (
                "lobby.battle_joined"@,
                "Joined battle "@ + signed_decimal(battle_id as int) + " ("@ + decimal(
                    player_count as nat,
                ) + " players, "@ + decimal(bot_count as nat) + " bots)"@,
            ),
        ),
        LobbyEvent::ChannelJoined { channel, users, topic } => Some(
            (
                "lobby.channel_joined"@,
                "Joined #"@ + channel@ + " ("@ + decimal(users@.len()) + " users). Topic: "@
                    + match topic {
                    Some(t) => t@,
                    None => "(none)"@,
                },
            ),
        ),
        LobbyEvent::MatchMakerReady { seconds_remaining, quick_play } => Some(
            (
                "lobby.matchmaker_ready"@,
                "MATCH FOUND! Accept within "@ + signed_decimal(seconds_remaining as int)
                    + "s (quickplay: "@ + bool_text(quick_play)
                    + "). Use lobby_matchmaker_accept to respond."@,
            ),
        ),
        LobbyEvent::MatchMakerResult { is_battle_starting, are_you_banned } => Some(
            (
                "lobby.matchmaker_result"@,
                if is_battle_starting {
                    "Match starting! ConnectSpring will follow."@
                } else if are_you_banned {
                    "Match cancelled. You have been temporarily banned for not accepting."@
                } else {
                    "Match cancelled. Not enough players accepted."@
                },
            ),
        ),
        LobbyEvent::ConnectSpring => Some(
            ("lobby.connect_spring"@, "Game starting — engine launch initiated"@),
        ),
        _ => None,
    }
}

fn pair(kind: &str, text: String) -> (r: Option<(String, String)>)
    ensures
        r matches Some((k, t)) && k@ == kind@ && t@ == text@,
{
    Some((owned(kind), text))
}

pub open spec fn pair_views(o: Option<(String, String)>) -> Option<(Seq<char>, Seq<char>)> {
    match o {
        Some((k, t)) => Some((k@, t@)),
        None => None,
    }
}

/// The kind and text of the push event that the agent gets for `event`, if any.
pub fn push_lobby_event(event: &LobbyEvent) -> (r: Option<(String, String)>)
    ensures
        pair_views(r) == lobby_push(*event),
{
    match event {
        LobbyEvent::Connected { engine, game } => {
            let mut t = owned("Connected to lobby. Engine: ");
            t.append(engine.as_str());
            t.append(", Game: ");
            t.append(game.as_str());
            pair("lobby.connected", t)
        },
        LobbyEvent::Disconnected { reason } => {
            let mut t = owned("Disconnected: ");
            t.append(reason.as_str());
            pair("lobby.disconnected", t)
        },
        LobbyEvent::LoggedIn { username } => {
            let mut t = owned("Logged in as ");
            t.append(username.as_str());
            pair("lobby.logged_in", t)
        },
        LobbyEvent::LoginFailed { code, message } => {
            let mut t = owned("Login failed (code ");
            push_signed(&mut t, *code as i64);
            t.append("): ");
            t.append(message.as_str());
            pair("lobby.login_failed", t)
        },
        LobbyEvent::RegisterSuccess => pair(
            "lobby.register_success",
            owned("Account registration successful"),
        ),
        LobbyEvent::RegisterFailed { code, reason } => {
            let mut t = owned("Registration failed (code ");
            push_signed(&mut t, *code as i64);
            t.append("): ");
            t.append(reason.as_str());
            pair("lobby.register_failed", t)
        },
        LobbyEvent::ChatMessage { user, text, place, .. } => {
            if *place == PLACE_BATTLE {
                let mut t = owned("[battle] ");
                t.append(user.as_str());
                t.append(": ");
                t.append(text.as_str());
                pair("lobby.chat", t)
            } else if *place == PLACE_USER {
                let mut t = owned("[dm] ");
                t.append(user.as_str());
                t.append(": ");
                t.append(text.as_str());
                pair("lobby.chat", t)
            } else {
                None
            }
        },
        LobbyEvent::BattleJoined { battle_id, player_count, bot_count } => {
            let mut t = owned("Joined battle ");
            push_signed(&mut t, *battle_id);
            t.append(" (");
            push_decimal(&mut t, *player_count);
            t.append(" players, ");
            push_decimal(&mut t, *bot_count);
            t.append(" bots)");
            pair("lobby.battle_joined", t)
        },
        LobbyEvent::ChannelJoined { channel, users, topic } => {
            let mut t = owned("Joined #");
            t.append(channel.as_str());
            t.append(" (");
            push_decimal(&mut t, users.len() as u64);
            t.append(" users). Topic: ");
            match topic {
                Some(x) => t.append(x.as_str()),
                None => t.append("(none)"),
            }
            pair("lobby.channel_joined", t)
        },
        LobbyEvent::MatchMakerReady { seconds_remaining, quick_play } => {
            let mut t = owned("MATCH FOUND! Accept within ");
            push_signed(&mut t, *seconds_remaining);
            t.append("s (quickplay: ");
            if *quick_play {
                t.append("true");
            } else {
                t.append("false");
            }
            t.append("). Use lobby_matchmaker_accept to respond.");
            pair("lobby.matchmaker_ready", t)
        },
        LobbyEvent::MatchMakerResult { is_battle_starting, are_you_banned } => {
            let t = if *is_battle_starting {
                owned("Match starting! ConnectSpring will follow.")
            } else if *are_you_banned {
                owned("Match cancelled. You have been temporarily banned for not accepting.")
            } else {
                owned("Match cancelled. Not enough players accepted.")
            };
            pair("lobby.matchmaker_result", t)
        },
        LobbyEvent::ConnectSpring => pair(
            "lobby.connect_spring",
            owned("Game starting — engine launch initiated"),
        ),
        _ => None,
    }
}

/// The lobby connection broke: the session is no longer connected nor logged
/// in, and the agent is told why.
pub fn lobby_connection_lost(s: &mut LobbySession, reason: String) -> (r: LobbyEvent)
    ensures
        final(s)@ == (LobbySessionV { connected: false, logged_in: false, ..old(s)@ }),
        r matches LobbyEvent::Disconnected { reason: x } && x@ == reason@,
{
    s.connected = false;
    s.logged_in = false;
    LobbyEvent::Disconnected { reason }
}

/// The player the engine joins a multiplayer game as: the lobby account, or the
/// agent's own name where it is not logged in.
pub fn multiplayer_player_name(s: &LobbySession, agent_name: &str) -> (r: String)
    ensures
        r@ == (match s@.my_username {
            Some(n) => n,
            None => agent_name@,
        }),
{
    username_or(s, agent_name)
}

/// What a message from the lobby server means to a tool that awaits `awaited`.
#[derive(Debug, PartialEq)]
pub enum AwaitStep {
    /// The awaited answer: the wait is over.
    Answer,
    /// A keepalive: answer it with a ping and wait on.
    Pong,
    /// Some other message: it updates the lobby state, and the wait goes on.
    Other,
}

/// Classify a lobby message by its command while `awaited` is awaited.
pub fn await_step(command: &str, awaited: &str) -> (r: AwaitStep)
    ensures
        command@ == awaited@ ==> r == AwaitStep::Answer,
        command@ != awaited@ && command@ == "Ping"@ ==> r == AwaitStep::Pong,
        command@ != awaited@ && command@ != "Ping"@ ==> r == AwaitStep::Other,
{
    if owned(command) == owned(awaited) {
        AwaitStep::Answer
    } else if owned(command) == owned("Ping") {
        AwaitStep::Pong
    } else {
        AwaitStep::Other
    }
}

/// Why a wait for `awaited` ended without an answer: the time ran out.
pub fn timed_out_text(awaited: &str) -> (r: String)
    ensures
        r@ == "Timed out waiting for "@ + awaited@,
{
    let mut t = owned("Timed out waiting for ");
    t.append(awaited);
    t
}

/// Why a wait ended without an answer: the connection failed.
pub fn connection_error_text(error: &str) -> (r: String)
    ensures
        r@ == "Connection error: "@ + error@,
{
    let mut t = owned("Connection error: ");
    t.append(error);
    t
}

} // verus!

verus! {

/// The matchmaker's result is passed on as starting exactly when the battle is
/// starting: the text announces the match as starting if and only if
/// `is_battle_starting`, and as cancelled otherwise, naming the ban exactly when
/// the agent was banned for not accepting.
pub proof fn law_matchmaker_result_says_whether_the_match_starts(
    is_battle_starting: bool,
    are_you_banned: bool,
)
    ensures
        lobby_push(LobbyEvent::MatchMakerResult { is_battle_starting, are_you_banned }) matches Some(
            (kind, text),
        ) && kind == "lobby.matchmaker_result"@ && ("Match starting!"@.is_prefix_of(text)
            <==> is_battle_starting) && ("Match cancelled."@.is_prefix_of(text)
            <==> !is_battle_starting) && ((!is_battle_starting && are_you_banned) <==> text
            == "Match cancelled. You have been temporarily banned for not accepting."@),
{
    reveal_strlit("Match starting!");
    reveal_strlit("Match cancelled.");
    reveal_strlit("Match starting! ConnectSpring will follow.");
    reveal_strlit("Match cancelled. You have been temporarily banned for not accepting.");
    reveal_strlit("Match cancelled. Not enough players accepted.");
    let start = "Match starting! ConnectSpring will follow."@;
    let banned = "Match cancelled. You have been temporarily banned for not accepting."@;
    let short = "Match cancelled. Not enough players accepted."@;
    assert(start.subrange(0, 15) =~= "Match starting!"@);
    assert(banned.subrange(0, 16) =~= "Match cancelled."@);
    assert(short.subrange(0, 16) =~= "Match cancelled."@);
    assert(start[6] != "Match cancelled."@[6]);
    assert(banned[6] != "Match starting!"@[6]);
    assert(short[6] != "Match starting!"@[6]);
    assert(banned.len() != short.len());
    assert(start.len() != banned.len());
}

/// Chat reaches the agent only from its battle room and as direct messages: a
/// chat message is passed on exactly when it was said in the battle or to the
/// agent, tagged `[battle]` exactly when it was said in the battle, and it
/// carries its sender and its text, in that order, after the tag.
pub proof fn law_chat_is_passed_on_with_its_place(
    user: String,
    text: String,
    target: String,
    place: i32,
)
    ensures
        lobby_push(LobbyEvent::ChatMessage { user, text, target, place }) is Some <==> (place
            == PLACE_BATTLE || place == PLACE_USER),
        lobby_push(LobbyEvent::ChatMessage { user, text, target, place }) matches Some((kind, t))
            ==> kind == "lobby.chat"@ && (t == "[battle] "@ + user@ + ": "@ + text@ <==> place
            == PLACE_BATTLE) && t.len() >= user@.len() + text@.len() + 2 && t.subrange(
            t.len() - (user@.len() + text@.len() + 2),
            t.len() as int,
        ) == user@ + ": "@ + text@,
{
    reveal_strlit("[battle] ");
    reveal_strlit("[dm] ");
    reveal_strlit(": ");
    let tail = user@ + ": "@ + text@;
    let b = "[battle] "@ + user@ + ": "@ + text@;
    let d = "[dm] "@ + user@ + ": "@ + text@;
    assert(b =~= "[battle] "@ + tail);
    assert(d =~= "[dm] "@ + tail);
    assert(b.subrange(b.len() - tail.len(), b.len() as int) =~= tail);
    assert(d.subrange(d.len() - tail.len(), d.len() as int) =~= tail);
    assert(b.len() != d.len());
}

} // verus!
