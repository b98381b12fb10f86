use zk_agent::events::GameEvent;
use zk_agent::json::Json;
use zk_agent::manager::{close_channel_tools, handle_sai_event, timeout_response, tool_result_response, SaiEventAction};
use zk_agent::tool_registry::{RequestId, ToolDefinition, ToolRegistry};

fn text(s: &str) -> Json {
    Json::Text(s.to_string())
}

fn obj(entries: Vec<(&str, Json)>) -> Json {
    Json::Object(entries.into_iter().map(|(k, v)| (k.to_string(), v)).collect())
}

fn block(t: &str) -> Json {
    obj(vec![("text", text(t)), ("type", text("text"))])
}

fn tool(name: &str) -> ToolDefinition {
    ToolDefinition { name: name.into(), description: String::new(), input_schema: obj(vec![]) }
}

#[test]
fn update_ticks_are_dropped() {
    let mut r = ToolRegistry::new();
    assert_eq!(handle_sai_event(&mut r, "g", GameEvent::Update { frame: 30 }), SaiEventAction::Ignore);
}

#[test]
fn registrations_update_the_registry() {
    let mut r = ToolRegistry::new();
    let ev = GameEvent::ToolsRegistered { tools: vec![tool("scout")], source: "widget".into() };
    assert_eq!(handle_sai_event(&mut r, "game-1", ev), SaiEventAction::ToolsChanged);
    assert_eq!(r.resolve_tool("scout"), Some("game-1"));

    let ev = GameEvent::ToolsUnregistered { tool_names: vec!["nothing".into()] };
    assert_eq!(handle_sai_event(&mut r, "game-1", ev), SaiEventAction::Ignore);
    let ev = GameEvent::ToolsUnregistered { tool_names: vec!["scout".into()] };
    assert_eq!(handle_sai_event(&mut r, "game-1", ev), SaiEventAction::ToolsChanged);
    assert!(!r.has_tools());
}

#[test]
fn tool_results_answer_their_call_once() {
    let mut r = ToolRegistry::new();
    r.track_call_at("call-1".into(), RequestId::Number(5), 0);
    let ev = GameEvent::ToolResult { call_id: "call-1".into(), content: vec![block("done")], is_error: false };
    assert_eq!(
        handle_sai_event(&mut r, "game-1", ev),
        SaiEventAction::Respond {
            request_id: RequestId::Number(5),
            result: obj(vec![("content", Json::Array(vec![block("done")])), ("isError", Json::Bool(false))]),
        }
    );
    let again = GameEvent::ToolResult { call_id: "call-1".into(), content: vec![], is_error: false };
    assert_eq!(handle_sai_event(&mut r, "game-1", again), SaiEventAction::Ignore);
}

#[test]
fn other_events_are_forwarded() {
    let mut r = ToolRegistry::new();
    let ev = GameEvent::Message { player: 1, text: "gg".into() };
    assert_eq!(
        handle_sai_event(&mut r, "game-1", ev),
        SaiEventAction::Forward(GameEvent::Message { player: 1, text: "gg".into() })
    );
}

#[test]
fn closing_a_channel_reports_removed_tools() {
    let mut r = ToolRegistry::new();
    r.register("game-1", vec![tool("scout")]);
    r.register("game-2", vec![tool("expand")]);
    assert!(close_channel_tools(&mut r, "game-1"));
    assert!(!close_channel_tools(&mut r, "game-1"));
    assert_eq!(r.resolve_tool("expand"), Some("game-2"));
}

#[test]
fn result_and_timeout_shapes() {
    assert_eq!(
        tool_result_response(vec![block("x")], true),
        obj(vec![("content", Json::Array(vec![block("x")])), ("isError", Json::Bool(true))])
    );
    assert_eq!(
        timeout_response(),
        obj(vec![("content", Json::Array(vec![block("Tool call timed out (5s)")])), ("isError", Json::Bool(true))])
    );
}
