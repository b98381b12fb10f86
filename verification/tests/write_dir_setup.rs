use zk_agent::json::Json;
use zk_agent::write_dir::{
    agent_subdirs, agent_widget_names, engine_binaries, with_execute_bits, bootstrap_config, default_widget_order,
    disable_other_widgets, empty_bootstrap_config, is_agent_widget, is_installable_widget,
    join_path_exec, shared_dirs, update_needed, whitelist_player, with_auto_mod_widgets_off,
    ConfigSources, WriteDirConfig,
};

fn text(s: &str) -> Json {
    Json::Text(s.to_string())
}

fn obj(entries: Vec<(&str, Json)>) -> Json {
    Json::Object(entries.into_iter().map(|(k, v)| (k.to_string(), v)).collect())
}

fn bridge() -> Json {
    obj(vec![("ai", text("AgentBridge")), ("version", text("0.1"))])
}

#[test]
fn agent_widgets_are_recognised_inside_lines() {
    assert_eq!(agent_widget_names().len(), 7);
    assert!(is_agent_widget("Agent Bootstrap"));
    assert!(is_agent_widget("\t[\"Agent Squads\"] = 12,"));
    assert!(!is_agent_widget("Chili Chat"));
    assert!(!is_agent_widget("agent bootstrap"));
}

#[test]
fn other_widgets_are_disabled() {
    let content = "-- Widget Order List\nreturn {\n\t[\"Chili Chat\"] = 5,\n\t[\"Agent Bootstrap\"] = 1,\n\tversion = 8,\n}\n";
    assert_eq!(
        disable_other_widgets(content),
        "-- Widget Order List\nreturn {\n\t[\"Chili Chat\"] = 0,\n\t[\"Agent Bootstrap\"] = 1,\n\tversion = 8,\n}"
    );
}

#[test]
fn disabling_keeps_comments_and_lines_without_assignment() {
    assert_eq!(disable_other_widgets("-- [\"x\"] = 3,"), "-- [\"x\"] = 3,");
    assert_eq!(disable_other_widgets("[\"x\"] =3,"), "[\"x\"] =3,");
    assert_eq!(disable_other_widgets("a = 1 [\"x\"] = 2, = 7"), "a = 1 [\"x\"] = 2, = 0,");
    assert_eq!(disable_other_widgets("a\r\nb"), "a\nb");
    assert_eq!(disable_other_widgets(""), "");
}

#[test]
fn minimal_order_enables_the_agent_widgets() {
    let expected = "-- Widget Order List  (0 disables a widget)\nreturn {\n\t[\"Agent Bootstrap\"] = 1,\n\t[\"Agent Manager\"] = 2,\n\t[\"Agent Threatmap\"] = 3,\n\t[\"Agent Economy\"] = 4,\n\t[\"Agent Roster\"] = 5,\n\t[\"Agent Intel\"] = 6,\n\t[\"Agent Squads\"] = 7,\n\tversion = 8,\n}\n";
    assert_eq!(default_widget_order(), expected);
}

#[test]
fn auto_mod_widgets_switched_off_once() {
    assert_eq!(
        with_auto_mod_widgets_off("XResolution=1280\n"),
        Some("XResolution=1280\nLuaAutoModWidgets=0\n".to_string())
    );
    assert_eq!(with_auto_mod_widgets_off("LuaAutoModWidgets=1\n"), None);
}

#[test]
fn installable_widgets() {
    assert!(is_installable_widget("agent_economy.lua"));
    assert!(!is_installable_widget("agent_bootstrap.lua"));
    assert!(!is_installable_widget("agent_notes.txt"));
    assert!(!is_installable_widget("chili.lua"));
    assert!(is_installable_widget("agent_.lua"));
}

#[test]
fn update_needed_cases() {
    assert!(update_needed(false, 10, 10, false));
    assert!(update_needed(true, 10, 11, false));
    assert!(update_needed(true, 10, 10, true));
    assert!(!update_needed(true, 10, 10, false));
}

#[test]
fn bootstrap_configs() {
    assert_eq!(bootstrap_config("loom"), obj(vec![("players", obj(vec![("loom", bridge())]))]));
    assert_eq!(empty_bootstrap_config(), obj(vec![("players", obj(vec![]))]));
}

#[test]
fn whitelisting_adds_a_player_in_key_order() {
    let config = obj(vec![("players", obj(vec![("alice", bridge()), ("loom", bridge())]))]);
    let (updated, changed) = whitelist_player(config, "bob");
    assert!(changed);
    assert_eq!(
        updated,
        obj(vec![("players", obj(vec![("alice", bridge()), ("bob", bridge()), ("loom", bridge())]))])
    );
}

#[test]
fn whitelisting_twice_changes_nothing() {
    let (once, changed) = whitelist_player(empty_bootstrap_config(), "loom");
    assert!(changed);
    let (twice, changed_again) = whitelist_player(once.deep_clone(), "loom");
    assert!(!changed_again);
    assert_eq!(twice, once);
}

#[test]
fn whitelisting_needs_a_players_object() {
    let (same, changed) = whitelist_player(obj(vec![("other", text("x"))]), "loom");
    assert!(!changed);
    assert_eq!(same, obj(vec![("other", text("x"))]));
    let (same, changed) = whitelist_player(obj(vec![("players", text("x"))]), "loom");
    assert!(!changed);
    assert_eq!(same, obj(vec![("players", text("x"))]));
}

#[test]
fn directory_lists() {
    assert_eq!(shared_dirs(), vec!["pool", "packages", "maps", "games", "engine", "rapid"]);
    assert_eq!(
        agent_subdirs(),
        vec!["AI/Skirmish/AgentBridge/0.1", "AI/Interfaces", "LuaUI/Widgets", "LuaUI/Config", "demos", "temp"]
    );
}

#[test]
fn paths_join_like_path_join() {
    assert_eq!(join_path_exec("/home/a", "maps"), "/home/a/maps");
    assert_eq!(join_path_exec("/home/a/", "maps"), "/home/a/maps");
    assert_eq!(join_path_exec("", "maps"), "maps");
}

fn no_sources() -> ConfigSources {
    ConfigSources {
        write_dir_arg: None,
        spring_home_arg: None,
        agent_name_arg: None,
        home: None,
        agent_write_dir: None,
        spring_home: None,
        agent_name: None,
        sai_bridge_lib: None,
        sai_bridge_data: None,
        widget_source: None,
        widget_dir: None,
        manifest_dir: "/src/game-manager".into(),
        manifest_parent: Some("/src".into()),
    }
}

#[test]
fn config_defaults() {
    let c = WriteDirConfig::from_sources(no_sources());
    assert_eq!(c.write_dir, "/tmp/.spring-loom");
    assert_eq!(c.spring_home, "/tmp/.spring");
    assert_eq!(c.agent_name, "loom");
    assert_eq!(c.sai_bridge_lib, "/src/sai-bridge/target/release/libSkirmishAI.so");
    assert_eq!(c.sai_bridge_data, "/src/sai-bridge/data");
    assert_eq!(c.widget_source, "/src/game-manager/data/widgets/agent_bootstrap.lua");
    assert_eq!(c.widget_dir, "/src/game-manager/data/widgets");
}

#[test]
fn config_arguments_beat_environment() {
    let mut s = no_sources();
    s.home = Some("/home/me".into());
    s.write_dir_arg = Some("/wd".into());
    s.agent_write_dir = Some("/env-wd".into());
    s.spring_home = Some("/env-spring".into());
    s.agent_name = Some("envname".into());
    s.agent_name_arg = Some("argname".into());
    s.widget_dir = Some("/widgets".into());
    s.manifest_parent = None;
    let c = WriteDirConfig::from_sources(s);
    assert_eq!(c.write_dir, "/wd");
    assert_eq!(c.spring_home, "/env-spring");
    assert_eq!(c.agent_name, "argname");
    assert_eq!(c.widget_dir, "/widgets");
    assert_eq!(c.sai_bridge_lib, "./sai-bridge/target/release/libSkirmishAI.so");
}

#[test]
fn config_home_defaults() {
    let mut s = no_sources();
    s.home = Some("/home/me".into());
    let c = WriteDirConfig::from_sources(s);
    assert_eq!(c.write_dir, "/home/me/.spring-loom");
    assert_eq!(c.spring_home, "/home/me/.spring");
}

#[test]
fn engine_binaries_become_executable() {
    assert_eq!(engine_binaries(), vec!["spring", "spring-headless"]);
    assert_eq!(with_execute_bits(0o644), 0o755);
    assert_eq!(with_execute_bits(0o700), 0o711);
    assert_eq!(with_execute_bits(0o755), 0o755);
}
