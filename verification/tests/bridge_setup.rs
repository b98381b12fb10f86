use zk_agent::bridge::{
    choose_socket_path, commander_selection, connection_file_path, init_event, plugin_dir,
    plugin_tools_event, release_event, update_tick, UPDATE_INTERVAL,
};
use zk_agent::events::{GameEvent, MetalSpot};
use zk_agent::json::Json;
use zk_agent::plugin::{offers_tool, plugin_panicked, PluginToolResult};
use zk_agent::tool_registry::ToolDefinition;

fn block(t: &str) -> Json {
    Json::Object(vec![
        ("text".to_string(), Json::Text(t.to_string())),
        ("type".to_string(), Json::Text("text".to_string())),
    ])
}

#[test]
fn one_update_in_thirty_is_forwarded() {
    assert_eq!(UPDATE_INTERVAL, 30);
    let mut counter = 0u32;
    let mut forwarded = Vec::new();
    for frame in 1..=90 {
        let (next, send) = update_tick(counter);
        counter = next;
        if send {
            forwarded.push(frame);
        }
    }
    assert_eq!(forwarded, vec![30, 60, 90]);
}

#[test]
fn update_counter_wraps() {
    assert_eq!(update_tick(u32::MAX), (0, true));
    assert_eq!(update_tick(28), (29, false));
    assert_eq!(update_tick(29), (30, true));
}

#[test]
fn connection_file_location() {
    assert_eq!(connection_file_path("/ai/data"), "/ai/data/connection.json");
    assert_eq!(connection_file_path("/ai/data///"), "/ai/data/connection.json");
    assert_eq!(connection_file_path(""), "/connection.json");
}

#[test]
fn socket_path_priorities() {
    assert_eq!(
        choose_socket_path(Some("/a.sock".into()), Some("/b.sock".into()), Some("/c.sock".into())),
        "/a.sock"
    );
    assert_eq!(choose_socket_path(None, Some("/b.sock".into()), Some("/c.sock".into())), "/b.sock");
    assert_eq!(choose_socket_path(None, None, Some("/c.sock".into())), "/c.sock");
    assert_eq!(choose_socket_path(None, None, None), "/tmp/game-manager.sock");
}

#[test]
fn plugin_directory_and_commander() {
    assert_eq!(plugin_dir("/ai/data"), "/ai/data/plugins");
    assert_eq!(commander_selection(), "ai_commander:dyntrainer_strike_base");
}

#[test]
fn init_event_carries_spots_and_map_size() {
    let spot = MetalSpot { x: 1, y: 2, z: 3, metal: 4 };
    assert_eq!(
        init_event(false, vec![spot], 16, 8),
        GameEvent::Init {
            frame: 0,
            saved_game: false,
            metal_spots: Some(vec![MetalSpot { x: 1, y: 2, z: 3, metal: 4 }]),
            map_width: Some(16),
            map_height: Some(8),
        }
    );
    assert_eq!(
        init_event(true, vec![], 16, 8),
        GameEvent::Init { frame: 0, saved_game: true, metal_spots: None, map_width: Some(16), map_height: Some(8) }
    );
}

#[test]
fn plugin_tools_are_announced_when_there_are_some() {
    assert_eq!(plugin_tools_event(vec![]), None);
    let t = ToolDefinition { name: "scout".into(), description: "d".into(), input_schema: Json::Null };
    match plugin_tools_event(vec![t]) {
        Some(GameEvent::ToolsRegistered { tools, source }) => {
            assert_eq!(source, "plugin");
            assert_eq!(tools.len(), 1);
            assert_eq!(tools[0].name, "scout");
        }
        other => panic!("unexpected event {:?}", other),
    }
    assert_eq!(release_event(), GameEvent::Release { reason: 0 });
}

#[test]
fn plugin_results() {
    assert_eq!(
        PluginToolResult::text("ok".into()),
        PluginToolResult { content: vec![block("ok")], is_error: false }
    );
    assert_eq!(
        PluginToolResult::error("bad".into()),
        PluginToolResult { content: vec![block("bad")], is_error: true }
    );
    assert_eq!(
        plugin_panicked("econ", "income"),
        PluginToolResult { content: vec![block("Plugin 'econ' panicked while handling 'income'")], is_error: true }
    );
}

#[test]
fn plugins_offer_their_tools() {
    let names = vec!["income".to_string(), "spend".to_string()];
    assert!(offers_tool(&names, "spend"));
    assert!(!offers_tool(&names, "build"));
    assert!(!offers_tool(&vec![], "build"));
}
