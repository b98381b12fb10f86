use zk_agent::json::Json;
use zk_agent::tool_registry::{RequestId, ToolDefinition, ToolRegistry};

fn text(s: &str) -> Json {
    Json::Text(s.to_string())
}

fn obj(entries: Vec<(&str, Json)>) -> Json {
    Json::Object(entries.into_iter().map(|(k, v)| (k.to_string(), v)).collect())
}

fn tool(name: &str) -> ToolDefinition {
    ToolDefinition {
        name: name.to_string(),
        description: format!("the {} tool", name),
        input_schema: obj(vec![("type", text("object"))]),
    }
}

#[test]
fn new_registry_is_empty() {
    let r = ToolRegistry::new();
    assert!(!r.has_tools());
    assert!(r.list_tools().is_empty());
    assert_eq!(r.resolve_tool("x"), None);
}

#[test]
fn registered_tools_route_to_their_channel() {
    let mut r = ToolRegistry::new();
    let names = r.register("game-1", vec![tool("scout"), tool("expand")]);
    assert_eq!(names, vec!["scout".to_string(), "expand".to_string()]);
    assert!(r.has_tools());
    assert_eq!(r.resolve_tool("scout"), Some("game-1"));
    assert_eq!(r.resolve_tool("expand"), Some("game-1"));
    assert_eq!(r.resolve_tool("attack"), None);
}

#[test]
fn registering_again_moves_a_tool_to_the_new_channel() {
    let mut r = ToolRegistry::new();
    r.register("game-1", vec![tool("scout")]);
    r.register("game-2", vec![tool("scout")]);
    assert_eq!(r.resolve_tool("scout"), Some("game-2"));
    assert_eq!(r.list_tools().len(), 1);
}

#[test]
fn listing_gives_mcp_tool_objects() {
    let mut r = ToolRegistry::new();
    r.register("game-1", vec![tool("scout")]);
    assert_eq!(
        r.list_tools(),
        vec![obj(vec![
            ("description", text("the scout tool")),
            ("inputSchema", obj(vec![("type", text("object"))])),
            ("name", text("scout")),
        ])]
    );
}

#[test]
fn unregister_removes_only_known_tools() {
    let mut r = ToolRegistry::new();
    r.register("game-1", vec![tool("scout"), tool("expand")]);
    let removed = r.unregister(&["scout".to_string(), "missing".to_string()]);
    assert_eq!(removed, vec!["scout".to_string()]);
    assert_eq!(r.resolve_tool("scout"), None);
    assert_eq!(r.resolve_tool("expand"), Some("game-1"));
}

#[test]
fn removing_a_channel_keeps_other_channels() {
    let mut r = ToolRegistry::new();
    r.register("game-1", vec![tool("a"), tool("b")]);
    r.register("game-2", vec![tool("c")]);
    let mut removed = r.remove_channel("game-1");
    removed.sort();
    assert_eq!(removed, vec!["a".to_string(), "b".to_string()]);
    assert_eq!(r.resolve_tool("a"), None);
    assert_eq!(r.resolve_tool("c"), Some("game-2"));
    assert!(r.remove_channel("game-9").is_empty());
}

#[test]
fn tracked_calls_complete_once() {
    let mut r = ToolRegistry::new();
    r.track_call_at("call-1".into(), RequestId::Number(7), 1_000);
    assert_eq!(r.complete_call("call-1"), Some(RequestId::Number(7)));
    assert_eq!(r.complete_call("call-1"), None);
    assert_eq!(r.complete_call("never"), None);
}

#[test]
fn tracking_a_call_id_again_replaces_it() {
    let mut r = ToolRegistry::new();
    r.track_call_at("c".into(), RequestId::Number(1), 0);
    r.track_call_at("c".into(), RequestId::Text("req-2".into()), 5);
    assert_eq!(r.complete_call("c"), Some(RequestId::Text("req-2".into())));
    assert_eq!(r.complete_call("c"), None);
}

#[test]
fn timed_out_calls_are_collected_and_forgotten() {
    let mut r = ToolRegistry::new();
    let second: u128 = 1_000_000_000;
    r.track_call_at("old".into(), RequestId::Number(1), 0);
    r.track_call_at("edge".into(), RequestId::Number(2), second);
    r.track_call_at("new".into(), RequestId::Number(3), 4 * second);
    let timed_out = r.collect_timed_out_at(6 * second, 5 * second);
    assert_eq!(timed_out, vec![("old".to_string(), RequestId::Number(1))]);
    assert_eq!(r.complete_call("old"), None);
    assert_eq!(r.complete_call("edge"), Some(RequestId::Number(2)));
    assert_eq!(r.complete_call("new"), Some(RequestId::Number(3)));
}

#[test]
fn calls_from_the_future_do_not_time_out() {
    let mut r = ToolRegistry::new();
    r.track_call_at("c".into(), RequestId::Number(1), 100);
    assert!(r.collect_timed_out_at(10, 0).is_empty());
    assert_eq!(r.collect_timed_out_at(101, 0), vec![("c".to_string(), RequestId::Number(1))]);
}

#[test]
fn clock_based_timeouts_keep_fresh_calls() {
    let mut r = ToolRegistry::new();
    r.track_call("c".into(), RequestId::Number(1));
    assert!(r.collect_timed_out(std::time::Duration::from_secs(3600).as_nanos()).is_empty());
    assert_eq!(r.complete_call("c"), Some(RequestId::Number(1)));
}
