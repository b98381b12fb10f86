use zk_agent::bridge::socket_path_of_config;
use zk_agent::events::{lua_message_from_text, widget_call_request_text, widget_reply_outcome, GameEvent};
use zk_agent::json::Json;
use zk_agent::mcpl::{published_text, Published};
use zk_agent::write_dir::{bootstrap_config, bootstrap_files, whitelist_config_text};

fn text(s: &str) -> Json {
    Json::Text(s.to_string())
}

fn num(s: &str) -> Json {
    Json::Number(s.to_string())
}

fn obj(entries: Vec<(&str, Json)>) -> Json {
    Json::Object(entries.into_iter().map(|(k, v)| (k.to_string(), v)).collect())
}

fn block(t: &str) -> Json {
    obj(vec![("text", text(t)), ("type", text("text"))])
}

fn bridge() -> Json {
    obj(vec![("ai", text("AgentBridge")), ("version", text("0.1"))])
}

#[test]
fn lua_message_text_is_read_as_json() {
    assert_eq!(
        lua_message_from_text("{\"op\":\"unregister\",\"tools\":[\"scout\",\"raid\"]}".into()),
        GameEvent::ToolsUnregistered { tool_names: vec!["scout".into(), "raid".into()] }
    );
    assert_eq!(
        lua_message_from_text(
            "{\"op\":\"result\",\"call_id\":\"c1\",\"content\":[{\"type\":\"text\",\"text\":\"ok\"}],\"is_error\":true}"
                .into()
        ),
        GameEvent::ToolResult { call_id: "c1".into(), content: vec![block("ok")], is_error: true }
    );
    assert_eq!(
        lua_message_from_text("hello {".into()),
        GameEvent::LuaMessage { data: "hello {".into() }
    );
    assert_eq!(
        lua_message_from_text("{\"op\":\"other\"}".into()),
        GameEvent::LuaMessage { data: "{\"op\":\"other\"}".into() }
    );
}

#[test]
fn widget_replies_are_read_as_json() {
    assert_eq!(
        widget_reply_outcome(
            "scan",
            Some("{\"op\":\"result\",\"content\":[{\"text\":\"3 units\",\"type\":\"text\"}],\"is_error\":true}".into())
        ),
        (vec![block("3 units")], true)
    );
    assert_eq!(widget_reply_outcome("scan", Some("plain".into())), (vec![block("plain")], false));
    assert_eq!(widget_reply_outcome("scan", None), (vec![block("No handler for tool 'scan'")], true));
}

#[test]
fn socket_path_comes_from_the_connection_file() {
    assert_eq!(
        socket_path_of_config("{\"socket_path\": \"/tmp/zk/gm.sock\", \"other\": 1}"),
        Some("/tmp/zk/gm.sock".to_string())
    );
    assert_eq!(socket_path_of_config("{\"socket_path\": 3}"), None);
    assert_eq!(socket_path_of_config("{}"), None);
    assert_eq!(socket_path_of_config("not json"), None);
}

#[test]
fn whitelisting_reads_the_bootstrap_file() {
    let (config, changed) = whitelist_config_text(None, "loom").unwrap();
    assert!(changed);
    assert_eq!(config, obj(vec![("players", obj(vec![("loom", bridge())]))]));

    let file = "{\"players\": {\"loom\": {\"ai\": \"AgentBridge\", \"version\": \"0.1\"}}}";
    let (config, changed) = whitelist_config_text(Some(file.into()), "loom").unwrap();
    assert!(!changed);
    assert_eq!(config, obj(vec![("players", obj(vec![("loom", bridge())]))]));

    let (config, changed) = whitelist_config_text(Some(file.into()), "ada").unwrap();
    assert!(changed);
    assert_eq!(config, obj(vec![("players", obj(vec![("ada", bridge()), ("loom", bridge())]))]));

    assert_eq!(whitelist_config_text(Some("{players".into()), "ada"), None);
}

#[test]
fn a_whitelisted_file_stays_as_it_is_when_read_again() {
    let (config, changed) = whitelist_config_text(None, "loom").unwrap();
    assert!(changed);
    let (json_text, _) = bootstrap_files(&config);
    let (again, changed) = whitelist_config_text(Some(json_text), "loom").unwrap();
    assert!(!changed);
    assert_eq!(again, config);
}

#[test]
fn json_text_is_written_by_serde_json() {
    assert_eq!(
        widget_call_request_text("c7", "scan", &obj(vec![("radius", num("300"))])),
        "{\"args\":{\"radius\":300},\"call_id\":\"c7\",\"op\":\"call\",\"tool\":\"scan\"}"
    );
    assert_eq!(
        published_text(Published::Value(obj(vec![("type", text("pause"))]))),
        "{\"type\":\"pause\"}"
    );
    assert_eq!(published_text(Published::Text("{\"type\":\"stop\"}".into())), "{\"type\":\"stop\"}");
    let (json_text, lua_text) = bootstrap_files(&bootstrap_config("loom"));
    assert_eq!(
        json_text,
        "{\n  \"players\": {\n    \"loom\": {\n      \"ai\": \"AgentBridge\",\n      \"version\": \"0.1\"\n    }\n  }\n}"
    );
    assert_eq!(
        lua_text,
        "return {\n  [\"players\"] = {\n    [\"loom\"] = {\n      [\"ai\"] = \"AgentBridge\",\n      [\"version\"] = \"0.1\",\n    },\n  },\n}\n"
    );
}
