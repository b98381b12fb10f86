use zk_agent::json::Json;
use zk_agent::lua::{bootstrap_lua_source, json_to_lua};
use zk_agent::write_dir::bootstrap_config;

fn obj(entries: Vec<(&str, Json)>) -> Json {
    Json::Object(entries.into_iter().map(|(k, v)| (k.to_string(), v)).collect())
}

#[test]
fn scalars_render_as_lua() {
    assert_eq!(json_to_lua(&Json::Null, 0), "nil");
    assert_eq!(json_to_lua(&Json::Bool(true), 0), "true");
    assert_eq!(json_to_lua(&Json::Bool(false), 3), "false");
    assert_eq!(json_to_lua(&Json::Number("12.5".into()), 0), "12.5");
    assert_eq!(json_to_lua(&Json::Text("hi".into()), 0), "\"hi\"");
}

#[test]
fn strings_escape_quotes_and_backslashes() {
    assert_eq!(json_to_lua(&Json::Text("a\"b\\c".into()), 0), "\"a\\\"b\\\\c\"");
}

#[test]
fn arrays_and_empty_containers() {
    let a = Json::Array(vec![Json::Number("1".into()), Json::Text("x".into())]);
    assert_eq!(json_to_lua(&a, 0), "{ 1, \"x\" }");
    assert_eq!(json_to_lua(&Json::Array(vec![]), 0), "{  }");
    assert_eq!(json_to_lua(&obj(vec![]), 2), "{}");
}

#[test]
fn objects_are_indented_per_level() {
    let v = obj(vec![("a", obj(vec![("b", Json::Bool(true))]))]);
    assert_eq!(json_to_lua(&v, 0), "{\n  [\"a\"] = {\n    [\"b\"] = true,\n  },\n}");
    assert_eq!(json_to_lua(&obj(vec![("k", Json::Null)]), 1), "{\n    [\"k\"] = nil,\n  }");
}

#[test]
fn bootstrap_lua_for_an_agent() {
    let config = bootstrap_config("loom");
    assert_eq!(
        bootstrap_lua_source(&config),
        "return {\n  [\"players\"] = {\n    [\"loom\"] = {\n      [\"ai\"] = \"AgentBridge\",\n      [\"version\"] = \"0.1\",\n    },\n  },\n}\n"
    );
}
