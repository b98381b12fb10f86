//! Decisions of the SAI bridge around the engine's event loop: which update
//! events are forwarded, where the socket to the game manager is, and the
//! events sent when the game starts.
use vstd::prelude::*;

use crate::events::{GameEvent, MetalSpot, ToolDef};
use crate::json::{obj_get, text_of};
use crate::json_text::{json_text_value, parse_json_text};
use crate::text::{chars_of, opt_str, owned, string_of};
use crate::write_dir::{join_path, join_path_exec};

verus! {

/// The socket path that a connection file names: its `socket_path` text, read
/// as JSON by serde_json; none where the file is not JSON or names none.
pub open spec fn config_socket_path(contents: Seq<char>) -> Option<Seq<char>> {
    match json_text_value(contents) {
        Some(v) => match obj_get(v, "socket_path"@) {
            Some(p) => text_of(p),
            None => None,
        },
        None => None,
    }
}

/// The socket path that the connection file `contents` names, if it names one.
pub fn socket_path_of_config(contents: &str) -> (r: Option<String>)
    ensures
        opt_str(r) == config_socket_path(contents@),
{
    match parse_json_text(contents) {
        Some(config) => match config.get("socket_path") {
            Some(v) => match v.as_str() {
                Some(p) => Some(owned(p)),
                None => None,
            },
            None => None,
        },
        None => None,
    }
}

/// How often update events are sent over IPC: every 30th frame (about once a second).
pub const UPDATE_INTERVAL: u32 = 30;

/// The update counter after one more update event (it wraps around at `u32::MAX`).
pub open spec fn next_counter(counter: u32) -> u32 {
    if counter == u32::MAX {
        0
    } else {
        (counter + 1) as u32
    }
}

/// Count one update event; returns the new counter and whether this update is
/// forwarded (every `UPDATE_INTERVAL`-th one is).
pub fn update_tick(counter: u32) -> (r: (u32, bool))
    ensures
        r.0 == next_counter(counter),
        r.1 == (r.0 % UPDATE_INTERVAL == 0),
{
    let next = counter.wrapping_add(1);
    (next, next % UPDATE_INTERVAL == 0)
}

/// Updates are forwarded once per interval: starting from a counter that is a
/// multiple of the interval, the next `UPDATE_INTERVAL - 1` updates are held back
/// and the one after is forwarded.
pub proof fn law_one_update_per_interval(start: u32, k: u32)
    requires
        start % UPDATE_INTERVAL == 0,
        start as int + UPDATE_INTERVAL as int <= u32::MAX as int,
        1 <= k <= UPDATE_INTERVAL,
    ensures
        ((start + k) as u32 % UPDATE_INTERVAL == 0) <==> k == UPDATE_INTERVAL,
{
}

/// `s` without its trailing `/` characters (`trim_end_matches('/')`).
pub open spec fn trim_trailing_slashes(s: Seq<char>) -> Seq<char>
    decreases s.len(),
{
    if s.len() > 0 && s.last() == '/' {
        trim_trailing_slashes(s.drop_last())
    } else {
        s
    }
}

/// Where the game manager writes the connection settings of an AI data directory.
pub open spec fn connection_file(data_dir: Seq<char>) -> Seq<char> {
    trim_trailing_slashes(data_dir) + "/connection.json"@
}

pub fn connection_file_path(data_dir: &str) -> (r: String)
    ensures
        r@ == connection_file(data_dir@),
{
    let cs = chars_of(data_dir);
    let mut n = cs.len();
    assert(cs@.take(n as int) =~= cs@);
    while n > 0 && cs[n - 1] == '/'
        invariant
            n <= cs@.len(),
            trim_trailing_slashes(cs@) == trim_trailing_slashes(cs@.take(n as int)),
        decreases n,
    {
        assert(cs@.take(n as int).drop_last() =~= cs@.take(n - 1));
        n = n - 1;
    }
    let mut kept: Vec<char> = Vec::new();
    for i in 0..n
        invariant
            n <= cs@.len(),
            kept@ == cs@.take(i as int),
    {
        kept.push(cs[i]);
        assert(cs@.take(i + 1) =~= cs@.take(i as int).push(cs@[i as int]));
    }
    let mut r = string_of(&kept);
    r.append("/connection.json");
    proof {
        assert(trim_trailing_slashes(cs@.take(n as int)) == cs@.take(n as int));
    }
    r
}

/// The socket path to the game manager: the connection file written before each
/// launch, then the AI option, then the `SAI_SOCKET_PATH` environment variable,
/// then `/tmp/game-manager.sock`.
pub open spec fn socket_path_of(
    from_connection_file: Option<Seq<char>>,
    from_option: Option<Seq<char>>,
    from_env: Option<Seq<char>>,
) -> Seq<char> {
    match from_connection_file {
        Some(p) => p,
        None => match from_option {
            Some(p) => p,
            None => match from_env {
                Some(p) => p,
                None => "/tmp/game-manager.sock"@,
            },
        },
    }
}

pub fn choose_socket_path(
    from_connection_file: Option<String>,
    from_option: Option<String>,
    from_env: Option<String>,
) -> (r: String)
    ensures
        r@ == socket_path_of(
            opt_str(from_connection_file),
            opt_str(from_option),
            opt_str(from_env),
        ),
{
    match from_connection_file {
        Some(p) => p,
        None => match from_option {
            Some(p) => p,
            None => match from_env {
                Some(p) => p,
                None => owned("/tmp/game-manager.sock"),
            },
        },
    }
}

/// The directory that plugins are loaded from: `<data_dir>/plugins`.
pub fn plugin_dir(data_dir: &str) -> (r: String)
    ensures
        r@ == join_path(data_dir@, "plugins"@),
{
    join_path_exec(data_dir, "plugins")
}

/// The Lua rules message that selects the agent's commander.
pub fn commander_selection() -> (r: &'static str)
    ensures
        r@ == "ai_commander:dyntrainer_strike_base"@,
{
    "ai_commander:dyntrainer_strike_base"
}

/// The event sent when the game starts: the metal spots, when the map has any,
/// and the map size.
pub fn init_event(saved_game: bool, metal_spots: Vec<MetalSpot>, map_width: i32, map_height: i32) -> (r: GameEvent)
    ensures
        r matches GameEvent::Init { frame, saved_game: s, metal_spots: m, map_width: w, map_height: h }
            && frame == 0 && s == saved_game && w == Some(map_width) && h == Some(map_height) && (
        metal_spots@.len() == 0 ==> m is None) && (metal_spots@.len() > 0 ==> m == Some(
            metal_spots,
        )),
{
    let spots = if metal_spots.len() == 0 {
        None
    } else {
        Some(metal_spots)
    };
    GameEvent::Init {
        frame: 0,
        saved_game,
        metal_spots: spots,
        map_width: Some(map_width),
        map_height: Some(map_height),
    }
}

/// The registration of plugin tools sent after the init event, when there are any.
pub fn plugin_tools_event(tools: Vec<ToolDef>) -> (r: Option<GameEvent>)
    ensures
        tools@.len() == 0 ==> r is None,
        tools@.len() > 0 ==> (r matches Some(GameEvent::ToolsRegistered { tools: t, source })
            && t == tools && source@ == "plugin"@),
{
    if tools.len() == 0 {
        None
    } else {
        Some(GameEvent::ToolsRegistered { tools, source: owned("plugin") })
    }
}

/// The event sent when the AI is released.
pub fn release_event() -> (r: GameEvent)
    ensures
        r == (GameEvent::Release { reason: 0 }),
{
    GameEvent::Release { reason: 0 }
}

} // verus!
