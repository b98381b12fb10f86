use std::collections::HashMap;
use zk_agent::events::{
    enrich_event, lua_message_event, resolve_unit_name, text_block_exec, widget_call_outcome,
    widget_call_request_exec, GameEvent,
};
use zk_agent::game_state::{EngineQueries, GameState};
use zk_agent::json::Json;
use zk_agent::tool_registry::ToolDefinition;

fn text(s: &str) -> Json {
    Json::Text(s.to_string())
}

fn obj(entries: Vec<(&str, Json)>) -> Json {
    Json::Object(entries.into_iter().map(|(k, v)| (k.to_string(), v)).collect())
}

fn block(t: &str) -> Json {
    obj(vec![("text", text(t)), ("type", text("text"))])
}

/// An engine that knows a few units.
struct FakeEngine {
    unit_defs: HashMap<i32, i32>,
    def_names: HashMap<i32, String>,
}

impl FakeEngine {
    fn new() -> Self {
        let mut unit_defs = HashMap::new();
        unit_defs.insert(10, 100);
        unit_defs.insert(11, 101);
        unit_defs.insert(12, 999);
        let mut def_names = HashMap::new();
        def_names.insert(100, "cloakraid".to_string());
        def_names.insert(101, "staticmex".to_string());
        FakeEngine { unit_defs, def_names }
    }
}

impl EngineQueries for FakeEngine {
    fn get_current_frame(&self) -> i32 {
        900
    }
    fn get_my_team(&self) -> i32 {
        1
    }
    fn get_my_ally_team(&self) -> i32 {
        0
    }
    fn unit_get_def(&self, unit_id: i32) -> i32 {
        *self.unit_defs.get(&unit_id).unwrap_or(&-1)
    }
    fn unit_get_pos_bits(&self, unit_id: i32) -> [u32; 3] {
        [(unit_id as f32).to_bits(), 0f32.to_bits(), 2.5f32.to_bits()]
    }
    fn unit_def_get_name(&self, unit_def_id: i32) -> Option<String> {
        self.def_names.get(&unit_def_id).cloned()
    }
    fn unit_def_get_human_name(&self, unit_def_id: i32) -> Option<String> {
        self.def_names.get(&unit_def_id).map(|n| n.to_uppercase())
    }
    fn map_width(&self) -> i32 {
        1024
    }
    fn map_height(&self) -> i32 {
        512
    }
}

#[test]
fn plain_lua_messages_are_forwarded() {
    assert_eq!(
        lua_message_event("hello".into(), None),
        GameEvent::LuaMessage { data: "hello".into() }
    );
    let other = obj(vec![("op", text("ping"))]);
    assert_eq!(
        lua_message_event("{\"op\":\"ping\"}".into(), Some(other)),
        GameEvent::LuaMessage { data: "{\"op\":\"ping\"}".into() }
    );
}

#[test]
fn widget_registration_becomes_tools_registered() {
    let msg = obj(vec![
        ("op", text("register")),
        ("source", text("agent_economy")),
        (
            "tools",
            Json::Array(vec![
                obj(vec![
                    ("name", text("economy")),
                    ("description", text("income")),
                    ("inputSchema", obj(vec![("type", text("object")), ("required", Json::Array(vec![]))])),
                ]),
                obj(vec![("name", text("roster")), ("description", text("units"))]),
                obj(vec![("name", text("no_description"))]),
            ]),
        ),
    ]);
    match lua_message_event("raw".into(), Some(msg)) {
        GameEvent::ToolsRegistered { tools, source } => {
            assert_eq!(source, "agent_economy");
            assert_eq!(tools.len(), 2);
            assert_eq!(tools[0].name, "economy");
            assert_eq!(tools[0].description, "income");
            assert_eq!(
                tools[0].input_schema,
                obj(vec![("type", text("object")), ("required", Json::Array(vec![]))])
            );
            assert_eq!(tools[1].name, "roster");
            assert_eq!(tools[1].description, "units");
            assert_eq!(tools[1].input_schema, obj(vec![("type", text("object"))]));
        }
        other => panic!("unexpected event {:?}", other),
    }
}

#[test]
fn widget_registration_without_source_is_unknown() {
    let msg = obj(vec![("op", text("register")), ("tools", Json::Array(vec![]))]);
    assert_eq!(
        lua_message_event("raw".into(), Some(msg)),
        GameEvent::ToolsRegistered { tools: Vec::<ToolDefinition>::new(), source: "unknown".into() }
    );
}

#[test]
fn widget_unregistration_and_result() {
    let msg = obj(vec![("op", text("unregister")), ("tools", Json::Array(vec![text("economy"), Json::Null]))]);
    assert_eq!(
        lua_message_event("raw".into(), Some(msg)),
        GameEvent::ToolsUnregistered { tool_names: vec!["economy".into()] }
    );
    let msg = obj(vec![
        ("op", text("result")),
        ("call_id", text("c-1")),
        ("content", Json::Array(vec![block("ok")])),
        ("is_error", Json::Bool(true)),
    ]);
    assert_eq!(
        lua_message_event("raw".into(), Some(msg)),
        GameEvent::ToolResult { call_id: "c-1".into(), content: vec![block("ok")], is_error: true }
    );
}

#[test]
fn widget_call_request_shape() {
    let args = obj(vec![("n", Json::Number("3".into()))]);
    assert_eq!(
        widget_call_request_exec("c-1", "economy", &args),
        obj(vec![
            ("args", obj(vec![("n", Json::Number("3".into()))])),
            ("call_id", text("c-1")),
            ("op", text("call")),
            ("tool", text("economy")),
        ])
    );
    assert_eq!(text_block_exec("hi"), block("hi"));
}

#[test]
fn widget_call_outcomes() {
    assert_eq!(
        widget_call_outcome("economy", None, None),
        (vec![block("No handler for tool 'economy'")], true)
    );
    assert_eq!(widget_call_outcome("economy", Some("plain".into()), None), (vec![block("plain")], false));
    let reply = obj(vec![("op", text("result")), ("content", Json::Array(vec![block("m: 5")]))]);
    assert_eq!(
        widget_call_outcome("economy", Some("{...}".into()), Some(reply)),
        (vec![block("m: 5")], false)
    );
    let reply = obj(vec![("op", text("result")), ("is_error", Json::Bool(true))]);
    assert_eq!(
        widget_call_outcome("economy", Some("raw reply".into()), Some(reply)),
        (vec![block("raw reply")], true)
    );
}

#[test]
fn unit_names_come_from_the_engine() {
    let e = FakeEngine::new();
    assert_eq!(resolve_unit_name(&e, 10), Some("cloakraid".to_string()));
    assert_eq!(resolve_unit_name(&e, 12), None);
    assert_eq!(resolve_unit_name(&e, 77), None);
    assert_eq!(resolve_unit_name(&e, 0), None);
    assert_eq!(resolve_unit_name(&e, -3), None);
}

#[test]
fn enrichment_fills_names_and_position() {
    let e = FakeEngine::new();
    let mut ev = GameEvent::UnitCreated { unit: 10, unit_name: None, builder: 11, builder_name: None, pos: None };
    enrich_event(&mut ev, &e);
    assert_eq!(
        ev,
        GameEvent::UnitCreated {
            unit: 10,
            unit_name: Some("cloakraid".into()),
            builder: 11,
            builder_name: Some("staticmex".into()),
            pos: Some([10f32.to_bits(), 0f32.to_bits(), 2.5f32.to_bits()]),
        }
    );
    let mut ev = GameEvent::UnitDestroyed { unit: 10, unit_name: None, attacker: 0, attacker_name: Some("stale".into()), weapon_def_id: 4 };
    enrich_event(&mut ev, &e);
    assert_eq!(
        ev,
        GameEvent::UnitDestroyed { unit: 10, unit_name: Some("cloakraid".into()), attacker: 0, attacker_name: None, weapon_def_id: 4 }
    );
    let mut ev = GameEvent::Update { frame: 5 };
    enrich_event(&mut ev, &e);
    assert_eq!(ev, GameEvent::Update { frame: 5 });
}

#[test]
fn game_state_reads_the_engine() {
    let e = FakeEngine::new();
    let gs = GameState::new(&e);
    assert_eq!(gs.current_frame(), 900);
    assert_eq!(gs.my_team(), 1);
    assert_eq!(gs.my_ally_team(), 0);
    assert_eq!(gs.unit_get_def(10), 100);
    assert_eq!(gs.unit_def_get_name(101), Some("staticmex".into()));
    assert_eq!(gs.unit_def_get_human_name(101), Some("STATICMEX".into()));
    assert_eq!(gs.map_width(), 1024);
    assert_eq!(gs.map_height(), 512);
}
