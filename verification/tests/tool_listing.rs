use zk_agent::cli::{cli_arg, has_flag};
use zk_agent::json::Json;
use zk_agent::mcpl::lobby_tool_named;
use zk_agent::tool_registry::{ToolDefinition, ToolRegistry};
use zk_agent::tools_list::{lobby_tools, tools_list_reply};

fn text(s: &str) -> Json {
    Json::Text(s.to_string())
}

fn obj(entries: Vec<(&str, Json)>) -> Json {
    Json::Object(entries.into_iter().map(|(k, v)| (k.to_string(), v)).collect())
}

fn listed_names(reply: &Json) -> Vec<String> {
    reply
        .get("tools")
        .and_then(|t| t.as_array())
        .expect("a tools array")
        .iter()
        .map(|t| t.get("name").and_then(|n| n.as_str()).expect("a name").to_string())
        .collect()
}

#[test]
fn lobby_tools_are_announced_in_order() {
    let names = listed_names(&lobby_tools());
    assert_eq!(names.len(), 20);
    assert_eq!(names[0], "lobby_connect");
    assert_eq!(names[15], "lobby_start_game");
    assert_eq!(names[19], "lobby_start_battle");
}

#[test]
fn every_announced_tool_is_served() {
    for name in listed_names(&lobby_tools()) {
        assert!(lobby_tool_named(&name).is_some(), "{} is not served", name);
    }
}

#[test]
fn connect_tool_schema() {
    let reply = lobby_tools();
    let first = &reply.get("tools").unwrap().as_array().unwrap()[0];
    assert_eq!(
        *first,
        obj(vec![
            ("description", text("Connect to the Zero-K lobby server")),
            (
                "inputSchema",
                obj(vec![
                    (
                        "properties",
                        obj(vec![
                            ("host", obj(vec![("default", text("zero-k.info")), ("type", text("string"))])),
                            ("port", obj(vec![("default", Json::Number("8200".into())), ("type", text("integer"))])),
                        ]),
                    ),
                    ("type", text("object")),
                ]),
            ),
            ("name", text("lobby_connect")),
        ])
    );
}

#[test]
fn login_tool_requires_credentials() {
    let reply = lobby_tools();
    let login = &reply.get("tools").unwrap().as_array().unwrap()[1];
    let schema = login.get("inputSchema").unwrap();
    assert_eq!(
        schema.get("required"),
        Some(&Json::Array(vec![text("username"), text("password")]))
    );
}

#[test]
fn registered_tools_follow_the_lobby_tools() {
    let mut registry = ToolRegistry::new();
    assert_eq!(listed_names(&tools_list_reply(&registry)).len(), 20);
    registry.register(
        "game-1",
        vec![ToolDefinition { name: "economy".into(), description: "income".into(), input_schema: obj(vec![]) }],
    );
    let names = listed_names(&tools_list_reply(&registry));
    assert_eq!(names.len(), 21);
    assert_eq!(names[20], "economy");
}

#[test]
fn command_line_flags() {
    let args: Vec<String> = ["gm", "--stdio", "--write-dir", "/wd", "--write-dir", "/other", "--agent-name"]
        .iter()
        .map(|s| s.to_string())
        .collect();
    assert_eq!(cli_arg(&args, "--write-dir"), Some("/wd".to_string()));
    assert_eq!(cli_arg(&args, "--agent-name"), None);
    assert_eq!(cli_arg(&args, "--spring-home"), None);
    assert!(has_flag(&args, "--stdio"));
    assert!(!has_flag(&args, "--cache-warm"));
}
