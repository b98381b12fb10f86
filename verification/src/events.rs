//! Game events as the SAI bridge forwards them, the widget protocol carried in
//! Lua messages, and the enrichment of events with unit names from the engine.
//!
//! Floating-point values of the engine (positions, damage, metal amounts) are
//! held as the bit patterns of their `f32` values.
use vstd::prelude::*;

use crate::game_state::EngineQueries;
use crate::json_text::{compact_text, json_compact_text, json_text_value, parse_json_text};
use crate::json::{
    bool_of, entries_view, opt_json, items_of, json_seq, lemma_object_view, obj_get, text_of, Json, JsonV,
};
use crate::text::owned;
use crate::text::string_views;
use crate::tool_registry::{tool_views, ToolDefinition, ToolDefinitionV};

verus! {

/// Tool definition as received from widgets/plugins.
pub type ToolDef = ToolDefinition;

/// A metal spot of the map (`f32` bit patterns).
#[derive(Debug, PartialEq)]
pub struct MetalSpot {
    pub x: u32,
    pub y: u32,
    pub z: u32,
    pub metal: u32,
}

/// A game event sent over IPC to the game manager.
#[derive(Debug, PartialEq)]
pub enum GameEvent {
    Init {
        frame: i32,
        saved_game: bool,
        metal_spots: Option<Vec<MetalSpot>>,
        map_width: Option<i32>,
        map_height: Option<i32>,
    },
    Release { reason: i32 },
    Update { frame: i32 },
    Message { player: i32, text: String },
    UnitCreated {
        unit: i32,
        unit_name: Option<String>,
        builder: i32,
        builder_name: Option<String>,
        pos: Option<[u32; 3]>,
    },
    UnitFinished { unit: i32, unit_name: Option<String>, pos: Option<[u32; 3]> },
    UnitIdle { unit: i32, unit_name: Option<String> },
    UnitMoveFailed { unit: i32, unit_name: Option<String> },
    UnitDamaged {
        unit: i32,
        unit_name: Option<String>,
        attacker: i32,
        attacker_name: Option<String>,
        damage: u32,
        weapon_def_id: i32,
        paralyzer: bool,
    },
    UnitDestroyed {
        unit: i32,
        unit_name: Option<String>,
        attacker: i32,
        attacker_name: Option<String>,
        weapon_def_id: i32,
    },
    UnitGiven { unit: i32, unit_name: Option<String>, old_team: i32, new_team: i32 },
    UnitCaptured { unit: i32, unit_name: Option<String>, old_team: i32, new_team: i32 },
    EnemyEnterLos { enemy: i32, enemy_name: Option<String>, pos: Option<[u32; 3]> },
    EnemyLeaveLos { enemy: i32, enemy_name: Option<String> },
    EnemyEnterRadar { enemy: i32, enemy_name: Option<String> },
    EnemyLeaveRadar { enemy: i32, enemy_name: Option<String> },
    EnemyDamaged {
        enemy: i32,
        enemy_name: Option<String>,
        attacker: i32,
        attacker_name: Option<String>,
        damage: u32,
        weapon_def_id: i32,
        paralyzer: bool,
    },
    EnemyDestroyed {
        enemy: i32,
        enemy_name: Option<String>,
        attacker: i32,
        attacker_name: Option<String>,
    },
    EnemyCreated { enemy: i32, enemy_name: Option<String> },
    EnemyFinished { enemy: i32, enemy_name: Option<String> },
    WeaponFired { unit: i32, unit_name: Option<String>, weapon_def_id: i32 },
    CommandFinished { unit: i32, unit_name: Option<String>, command_id: i32, command_topic: i32 },
    LuaMessage { data: String },
    CommandError { error: String, command: String },
    ToolsRegistered { tools: Vec<ToolDef>, source: String },
    ToolsUnregistered { tool_names: Vec<String> },
    ToolResult { call_id: String, content: Vec<Json>, is_error: bool },
}

// ── The widget protocol ──

/// The text under `key` of a JSON object.
pub open spec fn text_at(p: JsonV, key: Seq<char>) -> Option<Seq<char>> {
    match obj_get(p, key) {
        Some(v) => text_of(v),
        None => None,
    }
}

/// The schema given to a widget tool that declares none: `{"type": "object"}`.
pub open spec fn object_schema() -> JsonV {
    JsonV::Object(seq![("type"@, JsonV::Text("object"@))])
}

/// The tool that a widget's tool entry declares, when it has a name and a description.
pub open spec fn tool_def_of(t: JsonV) -> Option<ToolDefinitionV> {
    match (text_at(t, "name"@), text_at(t, "description"@)) {
        (Some(n), Some(d)) => Some(
            ToolDefinitionV {
                name: n,
                description: d,
                input_schema: match obj_get(t, "inputSchema"@) {
                    Some(s) => s,
                    None => object_schema(),
                },
            },
        ),
        _ => None,
    }
}

/// The declared tools of a list of entries, skipping entries that declare none.
pub open spec fn tool_defs_of(items: Seq<JsonV>) -> Seq<ToolDefinitionV>
    decreases items.len(),
{
    if items.len() == 0 {
        Seq::empty()
    } else {
        let rest = tool_defs_of(items.drop_last());
        match tool_def_of(items.last()) {
            Some(d) => rest.push(d),
            None => rest,
        }
    }
}

/// The strings of a list of entries, skipping entries that are not strings.
pub open spec fn texts_of(items: Seq<JsonV>) -> Seq<Seq<char>>
    decreases items.len(),
{
    if items.len() == 0 {
        Seq::empty()
    } else {
        let rest = texts_of(items.drop_last());
        match text_of(items.last()) {
            Some(s) => rest.push(s),
            None => rest,
        }
    }
}

/// The array under `key` of a JSON object, or an empty list.
pub open spec fn array_at(p: JsonV, key: Seq<char>) -> Seq<JsonV> {
    match obj_get(p, key) {
        Some(v) => match items_of(v) {
            Some(items) => items,
            None => Seq::empty(),
        },
        None => Seq::empty(),
    }
}

/// The operation that a widget protocol message names.
pub open spec fn op_of(parsed: Option<JsonV>) -> Option<Seq<char>> {
    match parsed {
        Some(p) => text_at(p, "op"@),
        None => None,
    }
}

fn object_schema_exec() -> (r: Json)
    ensures
        r@ == object_schema(),
{
    let es = vec![(owned("type"), Json::Text(owned("object")))];
    proof {
        lemma_object_view(es);
        assert(entries_view(es@) =~= seq![("type"@, JsonV::Text("object"@))]);
    }
    Json::Object(es)
}

fn text_at_exec<'a>(p: &'a Json, key: &str) -> (r: Option<&'a str>)
    ensures
        r is None <==> text_at(p@, key@) is None,
        r matches Some(s) ==> text_at(p@, key@) == Some(s@),
{
    match p.get(key) {
        Some(v) => v.as_str(),
        None => None,
    }
}

fn array_at_exec<'a>(p: &'a Json, key: &str) -> (r: Option<&'a Vec<Json>>)
    ensures
        r matches Some(v) ==> array_at(p@, key@) == json_seq(v@),
        r is None ==> array_at(p@, key@) == Seq::<JsonV>::empty(),
{
    match p.get(key) {
        Some(v) => v.as_array(),
        None => None,
    }
}

fn tool_defs_exec(items: &Vec<Json>) -> (r: Vec<ToolDef>)
    ensures
        tool_views(r@) == tool_defs_of(json_seq(items@)),
{
    let ghost js = json_seq(items@);
    let mut r: Vec<ToolDef> = Vec::new();
    for i in 0..items.len()
        invariant
            js == json_seq(items@),
            tool_views(r@) == tool_defs_of(js.take(i as int)),
    {
        let t = &items[i];
        let ghost prev = tool_views(r@);
        proof {
            assert(js.take(i + 1).drop_last() =~= js.take(i as int));
            assert(js.take(i + 1).last() == t@);
        }
        match text_at_exec(t, "name") {
            Some(name) => match text_at_exec(t, "description") {
                Some(description) => {
                    let input_schema = match t.get("inputSchema") {
                        Some(s) => s.deep_clone(),
                        None => object_schema_exec(),
                    };
                    let def = ToolDefinition {
                        name: owned(name),
                        description: owned(description),
                        input_schema,
                    };
                    r.push(def);
                    proof {
                        assert(tool_views(r@) =~= prev.push(tool_def_of(t@).unwrap()));
                    }
                },
                None => {},
            },
            None => {},
        }
    }
    proof {
        assert(js.take(items@.len() as int) =~= js);
    }
    r
}

fn texts_exec(items: &Vec<Json>) -> (r: Vec<String>)
    ensures
        string_views(r@) == texts_of(json_seq(items@)),
{
    let ghost js = json_seq(items@);
    let mut r: Vec<String> = Vec::new();
    for i in 0..items.len()
        invariant
            js == json_seq(items@),
            string_views(r@) == texts_of(js.take(i as int)),
    {
        let ghost prev = string_views(r@);
        proof {
            assert(js.take(i + 1).drop_last() =~= js.take(i as int));
            assert(js.take(i + 1).last() == items@[i as int]@);
        }
        match items[i].as_str() {
            Some(s) => {
                r.push(owned(s));
                proof {
                    assert(string_views(r@) =~= prev.push(s@));
                }
            },
            None => {},
        }
    }
    proof {
        assert(js.take(items@.len() as int) =~= js);
    }
    r
}

fn deep_clone_all(items: &Vec<Json>) -> (r: Vec<Json>)
    ensures
        json_seq(r@) == json_seq(items@),
{
    let mut r: Vec<Json> = Vec::new();
    for i in 0..items.len()
        invariant
            r@.len() == i,
            forall|m: int| 0 <= m < i ==> (#[trigger] r@[m])@ == items@[m]@,
    {
        r.push(items[i].deep_clone());
    }
    assert(json_seq(r@) =~= json_seq(items@));
    r
}

/// `r` is the event that the Lua message `data` stands for, where `pv` is the
/// message read as JSON, when it is JSON: a widget protocol message (`op` of
/// `register`, `unregister` or `result`) becomes the matching event; anything else
/// is forwarded as it is.
pub open spec fn lua_event(data: Seq<char>, pv: Option<JsonV>, r: GameEvent) -> bool {
    if op_of(pv) == Some("register"@) {
        r matches GameEvent::ToolsRegistered { tools, source } && tool_views(tools@)
            == tool_defs_of(array_at(pv.unwrap(), "tools"@)) && source@ == match text_at(
            pv.unwrap(),
            "source"@,
        ) {
            Some(s) => s,
            None => "unknown"@,
        }
    } else if op_of(pv) == Some("unregister"@) {
        r matches GameEvent::ToolsUnregistered { tool_names } && string_views(tool_names@)
            == texts_of(array_at(pv.unwrap(), "tools"@))
    } else if op_of(pv) == Some("result"@) {
        r matches GameEvent::ToolResult { call_id, content, is_error } && call_id@ == match text_at(
            pv.unwrap(),
            "call_id"@,
        ) {
            Some(s) => s,
            None => Seq::empty(),
        } && json_seq(content@) == array_at(pv.unwrap(), "content"@) && is_error == match obj_get(
            pv.unwrap(),
            "is_error"@,
        ) {
            Some(v) => match bool_of(v) {
                Some(b) => b,
                None => false,
            },
            None => false,
        }
    } else {
        r matches GameEvent::LuaMessage { data: d } && d@ == data
    }
}

/// The event that a Lua message stands for. `parsed` is the message read as JSON,
/// when it is JSON: a widget protocol message (`op` of `register`, `unregister` or
/// `result`) becomes the matching event; anything else is forwarded as it is.
pub fn lua_message_event(data: String, parsed: Option<Json>) -> (r: GameEvent)
    ensures
        lua_event(data@, opt_json(parsed), r),
{
    let ghost pv = opt_json(parsed);
    proof {
        reveal_strlit("register");
        reveal_strlit("unregister");
        reveal_strlit("result");
        assert("register"@.len() == 8 && "unregister"@.len() == 10 && "result"@.len() == 6);
        assert("register"@ != "unregister"@ && "register"@ != "result"@ && "unregister"@
            != "result"@);
    }
    match parsed {
        None => GameEvent::LuaMessage { data },
        Some(p) => {
            assert(pv == Some(p@));
            let op = match text_at_exec(&p, "op") {
                Some(s) => owned(s),
                None => {
                    return GameEvent::LuaMessage { data };
                },
            };
            if op == owned("register") {
                let source = match text_at_exec(&p, "source") {
                    Some(s) => owned(s),
                    None => owned("unknown"),
                };
                let tools = match array_at_exec(&p, "tools") {
                    Some(items) => tool_defs_exec(items),
                    None => Vec::new(),
                };
                proof {
                    if tools@.len() == 0 {
                        assert(tool_views(tools@) =~= Seq::<ToolDefinitionV>::empty());
                    }
                }
                GameEvent::ToolsRegistered { tools, source }
            } else if op == owned("unregister") {
                let tool_names = match array_at_exec(&p, "tools") {
                    Some(items) => texts_exec(items),
                    None => Vec::new(),
                };
                proof {
                    if tool_names@.len() == 0 {
                        assert(string_views(tool_names@) =~= Seq::<Seq<char>>::empty());
                    }
                }
                GameEvent::ToolsUnregistered { tool_names }
            } else if op == owned("result") {
                let call_id = match text_at_exec(&p, "call_id") {
                    Some(s) => owned(s),
                    None => String::new(),
                };
                let content = match array_at_exec(&p, "content") {
                    Some(items) => deep_clone_all(items),
                    None => Vec::new(),
                };
                proof {
                    if content@.len() == 0 {
                        assert(json_seq(content@) =~= Seq::<JsonV>::empty());
                    }
                }
                let is_error = match p.get("is_error") {
                    Some(v) => match v.as_bool() {
                        Some(b) => b,
                        None => false,
                    },
                    None => false,
                };
                GameEvent::ToolResult { call_id, content, is_error }
            } else {
                GameEvent::LuaMessage { data }
            }
        },
    }
}

/// The event that the Lua message `data` stands for, with the message read as
/// JSON by serde_json.
pub fn lua_message_from_text(data: String) -> (r: GameEvent)
    ensures
        lua_event(data@, json_text_value(data@), r),
{
    let parsed = parse_json_text(data.as_str());
    lua_message_event(data, parsed)
}

/// A text content block: `{"text": s, "type": "text"}`.
pub open spec fn text_block(s: Seq<char>) -> JsonV {
    JsonV::Object(seq![("text"@, JsonV::Text(s)), ("type"@, JsonV::Text("text"@))])
}

pub fn text_block_exec(s: &str) -> (r: Json)
    ensures
        r@ == text_block(s@),
{
    let es = vec![(owned("text"), Json::Text(owned(s))), (owned("type"), Json::Text(owned("text")))];
    proof {
        lemma_object_view(es);
        assert(entries_view(es@) =~= seq![("text"@, JsonV::Text(s@)), ("type"@, JsonV::Text("text"@))]);
    }
    Json::Object(es)
}

/// The widget protocol request that asks the LuaUI widgets to run a tool:
/// `{"args": args, "call_id": call_id, "op": "call", "tool": tool}`.
pub open spec fn widget_call_request(call_id: Seq<char>, tool: Seq<char>, args: JsonV) -> JsonV {
    JsonV::Object(
        seq![
            ("args"@, args),
            ("call_id"@, JsonV::Text(call_id)),
            ("op"@, JsonV::Text("call"@)),
            ("tool"@, JsonV::Text(tool)),
        ],
    )
}

pub fn widget_call_request_exec(call_id: &str, tool: &str, args: &Json) -> (r: Json)
    ensures
        r@ == widget_call_request(call_id@, tool@, args@),
{
    let es = vec![
        (owned("args"), args.deep_clone()),
        (owned("call_id"), Json::Text(owned(call_id))),
        (owned("op"), Json::Text(owned("call"))),
        (owned("tool"), Json::Text(owned(tool))),
    ];
    proof {
        lemma_object_view(es);
        assert(entries_view(es@) =~= seq![
            ("args"@, args@),
            ("call_id"@, JsonV::Text(call_id@)),
            ("op"@, JsonV::Text("call"@)),
            ("tool"@, JsonV::Text(tool@)),
        ]);
    }
    Json::Object(es)
}

/// The text of the call request handed to the LuaUI widgets: the request
/// object as serde_json writes it, compactly.
pub fn widget_call_request_text(call_id: &str, tool: &str, args: &Json) -> (r: String)
    ensures
        r@ == json_compact_text(widget_call_request(call_id@, tool@, args@)),
{
    let request = widget_call_request_exec(call_id, tool, args);
    compact_text(&request)
}

/// The content and error flag of a widget tool call, from the widget's reply.
/// No reply: the tool has no handler. A reply that is a protocol `result` gives
/// its content (or the reply as text when it has none) and its error flag;
/// any other reply is returned as text.
pub open spec fn widget_outcome(tool: Seq<char>, response: Option<Seq<char>>, parsed: Option<JsonV>) -> (
    Seq<JsonV>,
    bool,
) {
    match response {
        None => (seq![text_block("No handler for tool '"@ + tool + "'"@)], true),
        Some(resp) => if op_of(parsed) == Some("result"@) {
            let p = parsed.unwrap();
            (
                match obj_get(p, "content"@) {
                    Some(v) => match items_of(v) {
                        Some(items) => items,
                        None => seq![text_block(resp)],
                    },
                    None => seq![text_block(resp)],
                },
                match obj_get(p, "is_error"@) {
                    Some(v) => match bool_of(v) {
                        Some(b) => b,
                        None => false,
                    },
                    None => false,
                },
            )
        } else {
            (seq![text_block(resp)], false)
        },
    }
}

/// The outcome of a tool call handed to the LuaUI widgets. `parsed` is the
/// reply read as JSON, when it is JSON.
pub fn widget_call_outcome(tool: &str, response: Option<String>, parsed: Option<Json>) -> (r: (
    Vec<Json>,
    bool,
))
    ensures
        (json_seq(r.0@), r.1) == widget_outcome(
            tool@,
            match response {
                Some(s) => Some(s@),
                None => None,
            },
            opt_json(parsed),
        ),
{
    match response {
        None => {
            let mut msg = owned("No handler for tool '");
            msg.append(tool);
            msg.append("'");
            let v = vec![text_block_exec(msg.as_str())];
            assert(json_seq(v@) =~= seq![text_block("No handler for tool '"@ + tool@ + "'"@)]);
            (v, true)
        },
        Some(resp) => {
            let is_result = match &parsed {
                Some(p) => match text_at_exec(p, "op") {
                    Some(op) => owned(op) == owned("result"),
                    None => false,
                },
                None => false,
            };
            if is_result {
                let p = parsed.unwrap();
                let content = match p.get("content") {
                    Some(v) => match v.as_array() {
                        Some(items) => deep_clone_all(items),
                        None => vec![text_block_exec(resp.as_str())],
                    },
                    None => vec![text_block_exec(resp.as_str())],
                };
                proof {
                    if !(obj_get(p@, "content"@) matches Some(v) && items_of(v) is Some) {
                        assert(json_seq(content@) =~= seq![text_block(resp@)]);
                    }
                }
                let is_err = match p.get("is_error") {
                    Some(v) => match v.as_bool() {
                        Some(b) => b,
                        None => false,
                    },
                    None => false,
                };
                (content, is_err)
            } else {
                let v = vec![text_block_exec(resp.as_str())];
                assert(json_seq(v@) =~= seq![text_block(resp@)]);
                (v, false)
            }
        },
    }
}

/// The outcome of a tool call handed to the LuaUI widgets, with the widget's
/// reply read as JSON by serde_json.
pub fn widget_reply_outcome(tool: &str, response: Option<String>) -> (r: (Vec<Json>, bool))
    ensures
        (json_seq(r.0@), r.1) == widget_outcome(
            tool@,
            match response {
                Some(s) => Some(s@),
                None => None,
            },
            match response {
                Some(s) => json_text_value(s@),
                None => None,
            },
        ),
{
    let parsed = match &response {
        Some(s) => parse_json_text(s.as_str()),
        None => None,
    };
    widget_call_outcome(tool, response, parsed)
}

// ── Enrichment with unit names ──

/// `r` is the name of unit `unit_id` as the engine gives it: none for an id of
/// 0 or less; otherwise, with `d` the engine's answer on the unit's definition,
/// none where `d` is negative (no such unit), else the engine's answer on the name
/// of definition `d`.
pub open spec fn resolved_name<E: EngineQueries>(cb: &E, unit_id: i32, r: Option<String>) -> bool {
    if unit_id <= 0 {
        r is None
    } else {
        exists|d: i32|
            #[trigger] call_ensures(E::unit_get_def, (cb, unit_id), d) && if d < 0 {
                r is None
            } else {
                call_ensures(E::unit_def_get_name, (cb, d), r)
            }
    }
}

/// Plugins and events see the same names: where the engine answered `d` (0 or
/// more) on the definition of unit `unit_id` (above 0), and `r` on the name of
/// definition `d`, as `GameState::unit_get_def` and
/// `GameState::unit_def_get_name` report them, `r` is a name that
/// `resolve_unit_name` gives for that unit.
pub proof fn law_plugin_names_agree_with_events<E: EngineQueries>(
    cb: &E,
    unit_id: i32,
    d: i32,
    r: Option<String>,
)
    requires
        unit_id > 0,
        d >= 0,
        call_ensures(E::unit_get_def, (cb, unit_id), d),
        call_ensures(E::unit_def_get_name, (cb, d), r),
    ensures
        resolved_name(cb, unit_id, r),
{
}

/// Resolve a unit instance ID to its definition name via the engine.
/// IDs of 0 or less (no attacker, no builder) have no name; otherwise the
/// name is what the engine reports for the unit's definition, if it knows one.
pub fn resolve_unit_name<E: EngineQueries>(cb: &E, unit_id: i32) -> (r: Option<String>)
    ensures
        resolved_name(cb, unit_id, r),
{
    if unit_id <= 0 {
        return None;
    }
    let def_id = cb.unit_get_def(unit_id);
    if def_id < 0 {
        return None;
    }
    cb.unit_def_get_name(def_id)
}

/// The units of an event that get a name, in the order they are named.
pub open spec fn name_slots(e: GameEvent) -> Seq<i32> {
    match e {
        GameEvent::UnitCreated { unit, builder, .. } => seq![unit, builder],
        GameEvent::UnitFinished { unit, .. } => seq![unit],
        GameEvent::UnitIdle { unit, .. } => seq![unit],
        GameEvent::UnitMoveFailed { unit, .. } => seq![unit],
        GameEvent::UnitDamaged { unit, attacker, .. } => seq![unit, attacker],
        GameEvent::UnitDestroyed { unit, attacker, .. } => seq![unit, attacker],
        GameEvent::UnitGiven { unit, .. } => seq![unit],
        GameEvent::UnitCaptured { unit, .. } => seq![unit],
        GameEvent::EnemyEnterLos { enemy, .. } => seq![enemy],
        GameEvent::EnemyLeaveLos { enemy, .. } => seq![enemy],
        GameEvent::EnemyEnterRadar { enemy, .. } => seq![enemy],
        GameEvent::EnemyLeaveRadar { enemy, .. } => seq![enemy],
        GameEvent::EnemyDamaged { enemy, attacker, .. } => seq![enemy, attacker],
        GameEvent::EnemyDestroyed { enemy, attacker, .. } => seq![enemy, attacker],
        GameEvent::EnemyCreated { enemy, .. } => seq![enemy],
        GameEvent::EnemyFinished { enemy, .. } => seq![enemy],
        GameEvent::WeaponFired { unit, .. } => seq![unit],
        GameEvent::CommandFinished { unit, .. } => seq![unit],
        _ => Seq::empty(),
    }
}

/// The unit whose position an event carries.
pub open spec fn pos_slot(e: GameEvent) -> Option<i32> {
    match e {
        GameEvent::UnitCreated { unit, .. } => Some(unit),
        GameEvent::UnitFinished { unit, .. } => Some(unit),
        GameEvent::EnemyEnterLos { enemy, .. } => Some(enemy),
        _ => None,
    }
}

/// The event with its name fields set from `names` (in the order of `name_slots`)
/// and its position, if it carries one, set to `pos`; every other field as it was.
pub open spec fn with_names(e: GameEvent, names: Seq<Option<String>>, pos: [u32; 3]) -> GameEvent {
    match e {
        GameEvent::UnitCreated { unit, builder, .. } => GameEvent::UnitCreated {
            unit,
            unit_name: names[0],
            builder,
            builder_name: names[1],
            pos: Some(pos),
        },
        GameEvent::UnitFinished { unit, .. } => GameEvent::UnitFinished {
            unit,
            unit_name: names[0],
            pos: Some(pos),
        },
        GameEvent::UnitIdle { unit, .. } => GameEvent::UnitIdle { unit, unit_name: names[0] },
        GameEvent::UnitMoveFailed { unit, .. } => GameEvent::UnitMoveFailed {
            unit,
            unit_name: names[0],
        },
        GameEvent::UnitDamaged { unit, attacker, damage, weapon_def_id, paralyzer, .. } =>
            GameEvent::UnitDamaged {
            unit,
            unit_name: names[0],
            attacker,
            attacker_name: names[1],
            damage,
            weapon_def_id,
            paralyzer,
        },
        GameEvent::UnitDestroyed { unit, attacker, weapon_def_id, .. } =>
            GameEvent::UnitDestroyed {
            unit,
            unit_name: names[0],
            attacker,
            attacker_name: names[1],
            weapon_def_id,
        },
        GameEvent::UnitGiven { unit, old_team, new_team, .. } => GameEvent::UnitGiven {
            unit,
            unit_name: names[0],
            old_team,
            new_team,
        },
        GameEvent::UnitCaptured { unit, old_team, new_team, .. } => GameEvent::UnitCaptured {
            unit,
            unit_name: names[0],
            old_team,
            new_team,
        },
        GameEvent::EnemyEnterLos { enemy, .. } => GameEvent::EnemyEnterLos {
            enemy,
            enemy_name: names[0],
            pos: Some(pos),
        },
        GameEvent::EnemyLeaveLos { enemy, .. } => GameEvent::EnemyLeaveLos {
            enemy,
            enemy_name: names[0],
        },
        GameEvent::EnemyEnterRadar { enemy, .. } => GameEvent::EnemyEnterRadar {
            enemy,
            enemy_name: names[0],
        },
        GameEvent::EnemyLeaveRadar { enemy, .. } => GameEvent::EnemyLeaveRadar {
            enemy,
            enemy_name: names[0],
        },
        GameEvent::EnemyDamaged { enemy, attacker, damage, weapon_def_id, paralyzer, .. } =>
            GameEvent::EnemyDamaged {
            enemy,
            enemy_name: names[0],
            attacker,
            attacker_name: names[1],
            damage,
            weapon_def_id,
            paralyzer,
        },
        GameEvent::EnemyDestroyed { enemy, attacker, .. } => GameEvent::EnemyDestroyed {
            enemy,
            enemy_name: names[0],
            attacker,
            attacker_name: names[1],
        },
        GameEvent::EnemyCreated { enemy, .. } => GameEvent::EnemyCreated {
            enemy,
            enemy_name: names[0],
        },
        GameEvent::EnemyFinished { enemy, .. } => GameEvent::EnemyFinished {
            enemy,
            enemy_name: names[0],
        },
        GameEvent::WeaponFired { unit, weapon_def_id, .. } => GameEvent::WeaponFired {
            unit,
            unit_name: names[0],
            weapon_def_id,
        },
        GameEvent::CommandFinished { unit, command_id, command_topic, .. } =>
            GameEvent::CommandFinished { unit, unit_name: names[0], command_id, command_topic },
        other => other,
    }
}

fn name_slots_exec(e: &GameEvent) -> (r: Vec<i32>)
    ensures
        r@ == name_slots(*e),
{
    let r = match e {
        GameEvent::UnitCreated { unit, builder, .. } => vec![*unit, *builder],
        GameEvent::UnitFinished { unit, .. } => vec![*unit],
        GameEvent::UnitIdle { unit, .. } => vec![*unit],
        GameEvent::UnitMoveFailed { unit, .. } => vec![*unit],
        GameEvent::UnitDamaged { unit, attacker, .. } => vec![*unit, *attacker],
        GameEvent::UnitDestroyed { unit, attacker, .. } => vec![*unit, *attacker],
        GameEvent::UnitGiven { unit, .. } => vec![*unit],
        GameEvent::UnitCaptured { unit, .. } => vec![*unit],
        GameEvent::EnemyEnterLos { enemy, .. } => vec![*enemy],
        GameEvent::EnemyLeaveLos { enemy, .. } => vec![*enemy],
        GameEvent::EnemyEnterRadar { enemy, .. } => vec![*enemy],
        GameEvent::EnemyLeaveRadar { enemy, .. } => vec![*enemy],
        GameEvent::EnemyDamaged { enemy, attacker, .. } => vec![*enemy, *attacker],
        GameEvent::EnemyDestroyed { enemy, attacker, .. } => vec![*enemy, *attacker],
        GameEvent::EnemyCreated { enemy, .. } => vec![*enemy],
        GameEvent::EnemyFinished { enemy, .. } => vec![*enemy],
        GameEvent::WeaponFired { unit, .. } => vec![*unit],
        GameEvent::CommandFinished { unit, .. } => vec![*unit],
        _ => Vec::new(),
    };
    assert(r@ =~= name_slots(*e));
    r
}

fn pos_slot_exec(e: &GameEvent) -> (r: Option<i32>)
    ensures
        r == pos_slot(*e),
{
    match e {
        GameEvent::UnitCreated { unit, .. } => Some(*unit),
        GameEvent::UnitFinished { unit, .. } => Some(*unit),
        GameEvent::EnemyEnterLos { enemy, .. } => Some(*enemy),
        _ => None,
    }
}

/// Sets the name fields of `e` from `names` and its position to `pos`.
pub fn apply_names(e: GameEvent, names: Vec<Option<String>>, pos: [u32; 3]) -> (r: GameEvent)
    requires
        names@.len() == name_slots(e).len(),
    ensures
        r == with_names(e, names@, pos),
{
    let mut names = names;
    let ghost ns = names@;
    let second = if names.len() > 1 {
        names.pop().unwrap()
    } else {
        None
    };
    let first = if names.len() > 0 {
        names.pop().unwrap()
    } else {
        None
    };
    proof {
        if ns.len() > 1 {
            assert(second == ns[1]);
            assert(first == ns[0]);
        } else if ns.len() > 0 {
            assert(first == ns[0]);
        }
    }
    match e {
        GameEvent::UnitCreated { unit, builder, .. } => GameEvent::UnitCreated {
            unit,
            unit_name: first,
            builder,
            builder_name: second,
            pos: Some(pos),
        },
        GameEvent::UnitFinished { unit, .. } => GameEvent::UnitFinished {
            unit,
            unit_name: first,
            pos: Some(pos),
        },
        GameEvent::UnitIdle { unit, .. } => GameEvent::UnitIdle { unit, unit_name: first },
        GameEvent::UnitMoveFailed { unit, .. } => GameEvent::UnitMoveFailed {
            unit,
            unit_name: first,
        },
        GameEvent::UnitDamaged { unit, attacker, damage, weapon_def_id, paralyzer, .. } =>
            GameEvent::UnitDamaged {
            unit,
            unit_name: first,
            attacker,
            attacker_name: second,
            damage,
            weapon_def_id,
            paralyzer,
        },
        GameEvent::UnitDestroyed { unit, attacker, weapon_def_id, .. } =>
            GameEvent::UnitDestroyed {
            unit,
            unit_name: first,
            attacker,
            attacker_name: second,
            weapon_def_id,
        },
        GameEvent::UnitGiven { unit, old_team, new_team, .. } => GameEvent::UnitGiven {
            unit,
            unit_name: first,
            old_team,
            new_team,
        },
        GameEvent::UnitCaptured { unit, old_team, new_team, .. } => GameEvent::UnitCaptured {
            unit,
            unit_name: first,
            old_team,
            new_team,
        },
        GameEvent::EnemyEnterLos { enemy, .. } => GameEvent::EnemyEnterLos {
            enemy,
            enemy_name: first,
            pos: Some(pos),
        },
        GameEvent::EnemyLeaveLos { enemy, .. } => GameEvent::EnemyLeaveLos {
            enemy,
            enemy_name: first,
        },
        GameEvent::EnemyEnterRadar { enemy, .. } => GameEvent::EnemyEnterRadar {
            enemy,
            enemy_name: first,
        },
        GameEvent::EnemyLeaveRadar { enemy, .. } => GameEvent::EnemyLeaveRadar {
            enemy,
            enemy_name: first,
        },
        GameEvent::EnemyDamaged { enemy, attacker, damage, weapon_def_id, paralyzer, .. } =>
            GameEvent::EnemyDamaged {
            enemy,
            enemy_name: first,
            attacker,
            attacker_name: second,
            damage,
            weapon_def_id,
            paralyzer,
        },
        GameEvent::EnemyDestroyed { enemy, attacker, .. } => GameEvent::EnemyDestroyed {
            enemy,
            enemy_name: first,
            attacker,
            attacker_name: second,
        },
        GameEvent::EnemyCreated { enemy, .. } => GameEvent::EnemyCreated {
            enemy,
            enemy_name: first,
        },
        GameEvent::EnemyFinished { enemy, .. } => GameEvent::EnemyFinished {
            enemy,
            enemy_name: first,
        },
        GameEvent::WeaponFired { unit, weapon_def_id, .. } => GameEvent::WeaponFired {
            unit,
            unit_name: first,
            weapon_def_id,
        },
        GameEvent::CommandFinished { unit, command_id, command_topic, .. } =>
            GameEvent::CommandFinished { unit, unit_name: first, command_id, command_topic },
        other => other,
    }
}

/// Whether every name field of `e` holds the engine's name of the unit in its
/// own id field (`unit_name` of `unit`, `builder_name` of `builder`,
/// `attacker_name` of `attacker`, `enemy_name` of `enemy`), and every position
/// field holds a position the engine answers for the event's own unit.
pub open spec fn named_by_engine<E: EngineQueries>(cb: &E, e: GameEvent) -> bool {
    match e {
        GameEvent::UnitCreated { unit, unit_name, builder, builder_name, pos } => resolved_name(
            cb,
            unit,
            unit_name,
        ) && resolved_name(cb, builder, builder_name) && (pos matches Some(p)
            && call_ensures(E::unit_get_pos_bits, (cb, unit), p)),
        GameEvent::UnitFinished { unit, unit_name, pos } => resolved_name(cb, unit, unit_name) && (
        pos matches Some(p) && call_ensures(E::unit_get_pos_bits, (cb, unit), p)),
        GameEvent::UnitIdle { unit, unit_name } => resolved_name(cb, unit, unit_name),
        GameEvent::UnitMoveFailed { unit, unit_name } => resolved_name(cb, unit, unit_name),
        GameEvent::UnitDamaged { unit, unit_name, attacker, attacker_name, .. } => resolved_name(
            cb,
            unit,
            unit_name,
        ) && resolved_name(cb, attacker, attacker_name),
        GameEvent::UnitDestroyed { unit, unit_name, attacker, attacker_name, .. } => resolved_name(
            cb,
            unit,
            unit_name,
        ) && resolved_name(cb, attacker, attacker_name),
        GameEvent::UnitGiven { unit, unit_name, .. } => resolved_name(cb, unit, unit_name),
        GameEvent::UnitCaptured { unit, unit_name, .. } => resolved_name(cb, unit, unit_name),
        GameEvent::EnemyEnterLos { enemy, enemy_name, pos } => resolved_name(cb, enemy, enemy_name)
            && (pos matches Some(p) && call_ensures(E::unit_get_pos_bits, (cb, enemy), p)),
        GameEvent::EnemyLeaveLos { enemy, enemy_name } => resolved_name(cb, enemy, enemy_name),
        GameEvent::EnemyEnterRadar { enemy, enemy_name } => resolved_name(cb, enemy, enemy_name),
        GameEvent::EnemyLeaveRadar { enemy, enemy_name } => resolved_name(cb, enemy, enemy_name),
        GameEvent::EnemyDamaged { enemy, enemy_name, attacker, attacker_name, .. } => resolved_name(
            cb,
            enemy,
            enemy_name,
        ) && resolved_name(cb, attacker, attacker_name),
        GameEvent::EnemyDestroyed { enemy, enemy_name, attacker, attacker_name } => resolved_name(
            cb,
            enemy,
            enemy_name,
        ) && resolved_name(cb, attacker, attacker_name),
        GameEvent::EnemyCreated { enemy, enemy_name } => resolved_name(cb, enemy, enemy_name),
        GameEvent::EnemyFinished { enemy, enemy_name } => resolved_name(cb, enemy, enemy_name),
        GameEvent::WeaponFired { unit, unit_name, .. } => resolved_name(cb, unit, unit_name),
        GameEvent::CommandFinished { unit, unit_name, .. } => resolved_name(cb, unit, unit_name),
        _ => true,
    }
}

/// `e` with its name and position fields emptied: what enrichment leaves alone.
pub open spec fn unnamed(e: GameEvent) -> GameEvent {
    match e {
        GameEvent::UnitCreated { unit, builder, .. } => GameEvent::UnitCreated {
            unit,
            unit_name: None,
            builder,
            builder_name: None,
            pos: None,
        },
        GameEvent::UnitFinished { unit, .. } => GameEvent::UnitFinished {
            unit,
            unit_name: None,
            pos: None,
        },
        GameEvent::UnitIdle { unit, .. } => GameEvent::UnitIdle { unit, unit_name: None },
        GameEvent::UnitMoveFailed { unit, .. } => GameEvent::UnitMoveFailed {
            unit,
            unit_name: None,
        },
        GameEvent::UnitDamaged { unit, attacker, damage, weapon_def_id, paralyzer, .. } =>
            GameEvent::UnitDamaged {
            unit,
            unit_name: None,
            attacker,
            attacker_name: None,
            damage,
            weapon_def_id,
            paralyzer,
        },
        GameEvent::UnitDestroyed { unit, attacker, weapon_def_id, .. } =>
            GameEvent::UnitDestroyed {
            unit,
            unit_name: None,
            attacker,
            attacker_name: None,
            weapon_def_id,
        },
        GameEvent::UnitGiven { unit, old_team, new_team, .. } => GameEvent::UnitGiven {
            unit,
            unit_name: None,
            old_team,
            new_team,
        },
        GameEvent::UnitCaptured { unit, old_team, new_team, .. } => GameEvent::UnitCaptured {
            unit,
            unit_name: None,
            old_team,
            new_team,
        },
        GameEvent::EnemyEnterLos { enemy, .. } => GameEvent::EnemyEnterLos {
            enemy,
            enemy_name: None,
            pos: None,
        },
        GameEvent::EnemyLeaveLos { enemy, .. } => GameEvent::EnemyLeaveLos {
            enemy,
            enemy_name: None,
        },
        GameEvent::EnemyEnterRadar { enemy, .. } => GameEvent::EnemyEnterRadar {
            enemy,
            enemy_name: None,
        },
        GameEvent::EnemyLeaveRadar { enemy, .. } => GameEvent::EnemyLeaveRadar {
            enemy,
            enemy_name: None,
        },
        GameEvent::EnemyDamaged { enemy, attacker, damage, weapon_def_id, paralyzer, .. } =>
            GameEvent::EnemyDamaged {
            enemy,
            enemy_name: None,
            attacker,
            attacker_name: None,
            damage,
            weapon_def_id,
            paralyzer,
        },
        GameEvent::EnemyDestroyed { enemy, attacker, .. } => GameEvent::EnemyDestroyed {
            enemy,
            enemy_name: None,
            attacker,
            attacker_name: None,
        },
        GameEvent::EnemyCreated { enemy, .. } => GameEvent::EnemyCreated {
            enemy,
            enemy_name: None,
        },
        GameEvent::EnemyFinished { enemy, .. } => GameEvent::EnemyFinished {
            enemy,
            enemy_name: None,
        },
        GameEvent::WeaponFired { unit, weapon_def_id, .. } => GameEvent::WeaponFired {
            unit,
            unit_name: None,
            weapon_def_id,
        },
        GameEvent::CommandFinished { unit, command_id, command_topic, .. } =>
            GameEvent::CommandFinished { unit, unit_name: None, command_id, command_topic },
        other => other,
    }
}

/// Enrichment names each unit by its own id: filling an event's name slots with
/// the engine's names of the units in those slots, and its position with the
/// engine's position of its unit, gives an event whose every name field is the
/// engine's name of the unit in its own id field and whose position is that of
/// its own unit, and which differs from the original only in names and position.
pub proof fn law_enrichment_names_each_unit_by_its_own_id<E: EngineQueries>(
    cb: &E,
    before: GameEvent,
    names: Seq<Option<String>>,
    pos: [u32; 3],
)
    requires
        names.len() == name_slots(before).len(),
        forall|i: int|
            0 <= i < names.len() ==> resolved_name(cb, name_slots(before)[i], #[trigger] names[i]),
        pos_slot(before) matches Some(u) ==> call_ensures(E::unit_get_pos_bits, (cb, u), pos),
    ensures
        named_by_engine(cb, with_names(before, names, pos)),
        unnamed(with_names(before, names, pos)) == unnamed(before),
{
    if names.len() > 0 {
        assert(resolved_name(cb, name_slots(before)[0], names[0]));
    }
    if names.len() > 1 {
        assert(resolved_name(cb, name_slots(before)[1], names[1]));
    }
}

/// Enrich an event with human-readable unit names (and positions) from the engine.
/// Every field but the names and the position stays as it was; a unit id of 0 or
/// less gets no name.
pub fn enrich_event<E: EngineQueries>(event: &mut GameEvent, cb: &E)
    ensures
        exists|names: Seq<Option<String>>, pos: [u32; 3]|
            {
                &&& names.len() == name_slots(*old(event)).len()
                &&& forall|i: int|
                    0 <= i < names.len() ==> resolved_name(
                        cb,
                        name_slots(*old(event))[i],
                        #[trigger] names[i],
                    )
                &&& (pos_slot(*old(event)) matches Some(u) ==> call_ensures(
                    E::unit_get_pos_bits,
                    (cb, u),
                    pos,
                ))
                &&& *final(event) == with_names(*old(event), names, pos)
            },
        named_by_engine(cb, *final(event)),
        unnamed(*final(event)) == unnamed(*old(event)),
{
    let ghost before = *event;
    let slots = name_slots_exec(event);
    let mut names: Vec<Option<String>> = Vec::new();
    for i in 0..slots.len()
        invariant
            names@.len() == i,
            slots@ == name_slots(*event),
            forall|m: int| 0 <= m < i ==> resolved_name(cb, slots@[m], #[trigger] names@[m]),
    {
        names.push(resolve_unit_name(cb, slots[i]));
    }
    let pos = match pos_slot_exec(event) {
        Some(u) => cb.unit_get_pos_bits(u),
        None => [0u32, 0u32, 0u32],
    };
    let ghost ns = names@;
    let mut old_event = GameEvent::Update { frame: 0 };
    core::mem::swap(&mut old_event, event);
    *event = apply_names(old_event, names, pos);
    proof {
        law_enrichment_names_each_unit_by_its_own_id(cb, before, ns, pos);
    }
}

} // verus!
