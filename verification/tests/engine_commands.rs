use zk_agent::commands::{
    check_unit, describe_error, dispatch_after_build_site, dispatch_after_def_lookup,
    dispatch_after_unit_check, dispatch_start, engine_result, DispatchStep, EngineOrder, GameCommand,
};
use zk_agent::json::Json;

fn bits(x: f32) -> u32 {
    x.to_bits()
}

fn build(name: Option<&str>, def_id: i32, x: f32, y: f32, z: f32) -> GameCommand {
    GameCommand::Build {
        unit_id: 42,
        build_def_id: def_id,
        build_def_name: name.map(String::from),
        x: bits(x),
        y: bits(y),
        z: bits(z),
        facing: 0,
        queue: true,
    }
}

#[test]
fn unit_commands_start_by_checking_the_unit() {
    let cmd = GameCommand::Move { unit_id: 42, x: bits(1024.0), y: 0, z: bits(2048.0), queue: false };
    assert_eq!(dispatch_start(&cmd), DispatchStep::ValidateUnit { unit_id: 42 });
    assert_eq!(
        dispatch_start(&GameCommand::SetFireState { unit_id: 7, state: 2 }),
        DispatchStep::ValidateUnit { unit_id: 7 }
    );
}

#[test]
fn chat_is_sent_as_say() {
    assert_eq!(
        dispatch_start(&GameCommand::SendChat { text: "glhf".into() }),
        DispatchStep::Issue(EngineOrder::SendText { text: "/say glhf".into() })
    );
}

#[test]
fn pause_and_tool_calls_do_nothing_and_speed_is_refused() {
    assert_eq!(dispatch_start(&GameCommand::Pause), DispatchStep::Done(Ok(())));
    assert_eq!(dispatch_start(&GameCommand::Unpause), DispatchStep::Done(Ok(())));
    let call = GameCommand::ToolCall { call_id: "c".into(), tool: "t".into(), args: Json::Null };
    assert_eq!(dispatch_start(&call), DispatchStep::Done(Ok(())));
    assert_eq!(
        dispatch_start(&GameCommand::SetSpeed { speed: bits(2.0) }),
        DispatchStep::Done(Err("set_speed is not supported by the engine AI interface".into()))
    );
}

#[test]
fn a_missing_unit_stops_the_dispatch() {
    let cmd = GameCommand::Stop { unit_id: 42 };
    assert_eq!(
        dispatch_after_unit_check(&cmd, -1, 2, 2),
        DispatchStep::Done(Err("unit 42 does not exist (unit_get_def returned -1)".into()))
    );
}

#[test]
fn valid_units_get_their_order() {
    let cmd = GameCommand::Move { unit_id: 42, x: bits(1.0), y: bits(2.0), z: bits(3.0), queue: true };
    assert_eq!(
        dispatch_after_unit_check(&cmd, 5, 2, 2),
        DispatchStep::Issue(EngineOrder::Move { unit_id: 42, queue: true, to_pos: [bits(1.0), bits(2.0), bits(3.0)] })
    );
    let cmd = GameCommand::Guard { unit_id: 42, guard_id: 43, queue: false };
    assert_eq!(
        dispatch_after_unit_check(&cmd, 5, 2, 2),
        DispatchStep::Issue(EngineOrder::Guard { unit_id: 42, queue: false, guard_id: 43 })
    );
    let cmd = GameCommand::SetMoveState { unit_id: 42, state: 1 };
    assert_eq!(
        dispatch_after_unit_check(&cmd, 5, 2, 2),
        DispatchStep::Issue(EngineOrder::SetMoveState { unit_id: 42, move_state: 1 })
    );
}

#[test]
fn named_builds_look_the_definition_up() {
    let cmd = build(Some("staticmex"), 0, 512.0, 0.0, 512.0);
    assert_eq!(dispatch_after_unit_check(&cmd, 3, 2, 2), DispatchStep::ResolveDefName { name: "staticmex".into() });
    assert_eq!(
        dispatch_after_def_lookup(&cmd, None),
        DispatchStep::Done(Err("Unknown unit def name: staticmex".into()))
    );
    assert_eq!(
        dispatch_after_def_lookup(&cmd, Some(77)),
        DispatchStep::FindBuildSite {
            unit_def_id: 77,
            pos: [bits(512.0), bits(0.0), bits(512.0)],
            search_radius: bits(200.0),
            min_dist: 0,
            facing: 0,
        }
    );
}

#[test]
fn factory_builds_need_no_site() {
    let cmd = build(None, 55, 0.0, -0.0, 0.0);
    assert_eq!(
        dispatch_after_unit_check(&cmd, 3, 2, 2),
        DispatchStep::Issue(EngineOrder::Build { unit_id: 42, queue: true, unit_def_id: 55, pos: [0, 0, 0], facing: 0 })
    );
}

#[test]
fn build_sites_decide_the_construction() {
    let cmd = build(Some("staticmex"), 0, 512.0, 0.0, 512.0);
    assert_eq!(
        dispatch_after_build_site(&cmd, 77, Some([bits(520.0), bits(10.0), bits(500.0)]), "512", "0", "512"),
        DispatchStep::Issue(EngineOrder::Build {
            unit_id: 42,
            queue: true,
            unit_def_id: 77,
            pos: [bits(520.0), bits(10.0), bits(500.0)],
            facing: 0,
        })
    );
    assert_eq!(
        dispatch_after_build_site(&cmd, 77, None, "512", "0", "512"),
        DispatchStep::Done(Err("No valid build position found near (512, 0, 512) for def staticmex".into()))
    );
    let unnamed = build(None, 77, 1.0, 0.0, 1.0);
    assert_eq!(
        dispatch_after_build_site(&unnamed, 77, None, "1", "0", "1"),
        DispatchStep::Done(Err("No valid build position found near (1, 0, 1) for def ?".into()))
    );
}

#[test]
fn engine_codes() {
    assert_eq!(describe_error(-1), "invalid unit ID or null command");
    assert_eq!(describe_error(-2), "orders not allowed (AI may lack authority)");
    assert_eq!(describe_error(-3), "unit does not exist");
    assert_eq!(describe_error(-4), "unknown error (-4)");
    assert_eq!(describe_error(-5), "unit does not belong to this AI's team");
    assert_eq!(describe_error(-9), "unknown error");
    assert_eq!(engine_result(0), Ok(()));
    assert_eq!(engine_result(1), Ok(()));
    assert_eq!(
        engine_result(-2),
        Err("Engine rejected command (code -2): orders not allowed (AI may lack authority)".into())
    );
    assert_eq!(check_unit(3, 0, 1, 1), Ok(()));
    assert_eq!(check_unit(3, -5, 1, 1), Err("unit 3 does not exist (unit_get_def returned -5)".into()));
    assert_eq!(
        check_unit(3, 0, 2, 1),
        Err("unit 3 does not belong to this AI's team (unit team 2, AI team 1)".into())
    );
}

#[test]
fn a_unit_of_another_team_stops_the_dispatch() {
    let cmd = GameCommand::Stop { unit_id: 42 };
    assert_eq!(
        dispatch_after_unit_check(&cmd, 5, 1, 0),
        DispatchStep::Done(Err("unit 42 does not belong to this AI's team (unit team 1, AI team 0)".into()))
    );
    assert_eq!(
        dispatch_after_unit_check(&cmd, -1, 1, 0),
        DispatchStep::Done(Err("unit 42 does not exist (unit_get_def returned -1)".into()))
    );
}

#[test]
fn chat_text_with_a_nul_is_refused() {
    let cmd = GameCommand::SendChat { text: "hi\0there".into() };
    assert_eq!(
        dispatch_start(&cmd),
        DispatchStep::Done(Err("nul byte found in provided data at position: 7".into()))
    );
    let cmd = GameCommand::SendChat { text: "é\0".into() };
    assert_eq!(
        dispatch_start(&cmd),
        DispatchStep::Done(Err("nul byte found in provided data at position: 7".into()))
    );
}
