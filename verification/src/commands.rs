//! Commands received from the game manager, and the decisions of their dispatch
//! to the engine.
//!
//! Dispatch alternates questions to the engine and decisions. Each decision is a
//! function from what is known so far to the next step: a question for the engine,
//! an order to issue, or the outcome. The caller asks the engine and hands the
//! answer to the next function. Coordinates are the bit patterns of `f32` values.
use vstd::prelude::*;

use crate::json::Json;
use crate::text::{has_nul, nul_error, nul_message, owned, push_signed, signed_decimal};

verus! {

/// Commands received from the game manager over IPC.
#[derive(Debug, PartialEq)]
pub enum GameCommand {
    Move { unit_id: i32, x: u32, y: u32, z: u32, queue: bool },
    Stop { unit_id: i32 },
    Attack { unit_id: i32, target_id: i32, queue: bool },
    Build {
        unit_id: i32,
        build_def_id: i32,
        build_def_name: Option<String>,
        x: u32,
        y: u32,
        z: u32,
        facing: i32,
        queue: bool,
    },
    Patrol { unit_id: i32, x: u32, y: u32, z: u32, queue: bool },
    Fight { unit_id: i32, x: u32, y: u32, z: u32, queue: bool },
    Guard { unit_id: i32, guard_id: i32, queue: bool },
    Repair { unit_id: i32, repair_id: i32, queue: bool },
    SetFireState { unit_id: i32, state: i32 },
    SetMoveState { unit_id: i32, state: i32 },
    SendChat { text: String },
    Pause,
    Unpause,
    SetSpeed { speed: u32 },
    ToolCall { call_id: String, tool: String, args: Json },
}

/// An order for the engine's command interface. `queue` is the shift-queue option.
#[derive(Debug, PartialEq)]
pub enum EngineOrder {
    Move { unit_id: i32, queue: bool, to_pos: [u32; 3] },
    Stop { unit_id: i32 },
    Attack { unit_id: i32, queue: bool, target_id: i32 },
    Build { unit_id: i32, queue: bool, unit_def_id: i32, pos: [u32; 3], facing: i32 },
    Patrol { unit_id: i32, queue: bool, to_pos: [u32; 3] },
    Fight { unit_id: i32, queue: bool, to_pos: [u32; 3] },
    Guard { unit_id: i32, queue: bool, guard_id: i32 },
    Repair { unit_id: i32, queue: bool, repair_id: i32 },
    SetFireState { unit_id: i32, fire_state: i32 },
    SetMoveState { unit_id: i32, move_state: i32 },
    /// A text message; the engine only acts on `/` commands.
    SendText { text: String },
}

/// The next step of a dispatch.
#[derive(Debug, PartialEq)]
pub enum DispatchStep {
    /// Ask the engine for the definition of the unit (`unit_get_def`).
    ValidateUnit { unit_id: i32 },
    /// Ask the engine for the definition with this name.
    ResolveDefName { name: String },
    /// Ask the engine for the closest valid build site.
    FindBuildSite { unit_def_id: i32, pos: [u32; 3], search_radius: u32, min_dist: i32, facing: i32 },
    /// Issue this order; its result code decides the outcome.
    Issue(EngineOrder),
    /// The outcome of the dispatch.
    Done(Result<(), String>),
}

/// The radius searched for a build site: `200.0f32`.
pub open spec fn build_search_radius() -> u32 {
    0x4348_0000u32
}

/// Whether an `f32` with these bits equals `0.0` (both zeros do).
pub open spec fn is_zero_f32(bits: u32) -> bool {
    bits & 0x7fff_ffffu32 == 0
}

/// The unit a command is given to, for the commands that go to a unit.
pub open spec fn unit_of(cmd: GameCommand) -> Option<i32> {
    match cmd {
        GameCommand::Move { unit_id, .. } => Some(unit_id),
        GameCommand::Stop { unit_id } => Some(unit_id),
        GameCommand::Attack { unit_id, .. } => Some(unit_id),
        GameCommand::Build { unit_id, .. } => Some(unit_id),
        GameCommand::Patrol { unit_id, .. } => Some(unit_id),
        GameCommand::Fight { unit_id, .. } => Some(unit_id),
        GameCommand::Guard { unit_id, .. } => Some(unit_id),
        GameCommand::Repair { unit_id, .. } => Some(unit_id),
        GameCommand::SetFireState { unit_id, .. } => Some(unit_id),
        GameCommand::SetMoveState { unit_id, .. } => Some(unit_id),
        _ => None,
    }
}

pub open spec fn set_speed_message() -> Seq<char> {
    "set_speed is not supported by the engine AI interface"@
}

/// Translate engine return codes to human-readable errors.
pub open spec fn error_description(code: int) -> Seq<char> {
    if code == -1 {
        "invalid unit ID or null command"@
    } else if code == -2 {
        "orders not allowed (AI may lack authority)"@
    } else if code == -3 {
        "unit does not exist"@
    } else if code == -4 {
        "unknown error (-4)"@
    } else if code == -5 {
        "unit does not belong to this AI's team"@
    } else {
        "unknown error"@
    }
}

pub fn describe_error(code: i32) -> (r: &'static str)
    ensures
        r@ == error_description(code as int),
{
    match code {
        -1 => "invalid unit ID or null command",
        -2 => "orders not allowed (AI may lack authority)",
        -3 => "unit does not exist",
        -4 => "unknown error (-4)",
        -5 => "unit does not belong to this AI's team",
        _ => "unknown error",
    }
}

/// The outcome of an order from the engine's result code: 0 for unit commands and
/// 1 for engine-level commands are success; a negative code is a rejection.
pub open spec fn order_outcome(code: int) -> Result<(), Seq<char>> {
    if code >= 0 {
        Ok(())
    } else {
        Err(
            "Engine rejected command (code "@ + signed_decimal(code) + "): "@ + error_description(
                code,
            ),
        )
    }
}

pub open spec fn result_view(r: Result<(), String>) -> Result<(), Seq<char>> {
    match r {
        Ok(()) => Ok(()),
        Err(e) => Err(e@),
    }
}

pub fn engine_result(code: i32) -> (r: Result<(), String>)
    ensures
        result_view(r) == order_outcome(code as int),
{
    if code >= 0 {
        Ok(())
    } else {
        let mut msg = owned("Engine rejected command (code ");
        push_signed(&mut msg, code as i64);
        msg.append("): ");
        msg.append(describe_error(code));
        Err(msg)
    }
}

/// The error for a unit that the engine does not know.
pub open spec fn missing_unit_message(unit_id: int, def_id: int) -> Seq<char> {
    "unit "@ + signed_decimal(unit_id) + " does not exist (unit_get_def returned "@
        + signed_decimal(def_id) + ")"@
}

/// The error for a unit that another team owns.
pub open spec fn foreign_unit_message(unit_id: int, unit_team: int, my_team: int) -> Seq<char> {
    "unit "@ + signed_decimal(unit_id) + " does not belong to this AI's team (unit team "@
        + signed_decimal(unit_team) + ", AI team "@ + signed_decimal(my_team) + ")"@
}

/// What the engine's answers on a unit make of it: it must exist (a definition
/// id of 0 or more) and belong to the AI's team.
pub open spec fn unit_check(unit_id: i32, def_id: i32, unit_team: i32, my_team: i32) -> Result<
    (),
    Seq<char>,
> {
    if def_id < 0 {
        Err(missing_unit_message(unit_id as int, def_id as int))
    } else if unit_team != my_team {
        Err(foreign_unit_message(unit_id as int, unit_team as int, my_team as int))
    } else {
        Ok(())
    }
}

/// Check the engine's answers on a unit: its definition id (negative when it does
/// not exist) and its team, against the AI's own team.
pub fn check_unit(unit_id: i32, def_id: i32, unit_team: i32, my_team: i32) -> (r: Result<(), String>)
    ensures
        result_view(r) == unit_check(unit_id, def_id, unit_team, my_team),
{
    if def_id < 0 {
        let mut msg = owned("unit ");
        push_signed(&mut msg, unit_id as i64);
        msg.append(" does not exist (unit_get_def returned ");
        push_signed(&mut msg, def_id as i64);
        msg.append(")");
        Err(msg)
    } else if unit_team != my_team {
        let mut msg = owned("unit ");
        push_signed(&mut msg, unit_id as i64);
        msg.append(" does not belong to this AI's team (unit team ");
        push_signed(&mut msg, unit_team as i64);
        msg.append(", AI team ");
        push_signed(&mut msg, my_team as i64);
        msg.append(")");
        Err(msg)
    } else {
        Ok(())
    }
}

pub enum EngineOrderV {
    Move { unit_id: i32, queue: bool, to_pos: [u32; 3] },
    Stop { unit_id: i32 },
    Attack { unit_id: i32, queue: bool, target_id: i32 },
    Build { unit_id: i32, queue: bool, unit_def_id: i32, pos: [u32; 3], facing: i32 },
    Patrol { unit_id: i32, queue: bool, to_pos: [u32; 3] },
    Fight { unit_id: i32, queue: bool, to_pos: [u32; 3] },
    Guard { unit_id: i32, queue: bool, guard_id: i32 },
    Repair { unit_id: i32, queue: bool, repair_id: i32 },
    SetFireState { unit_id: i32, fire_state: i32 },
    SetMoveState { unit_id: i32, move_state: i32 },
    SendText { text: Seq<char> },
}

pub enum DispatchStepV {
    ValidateUnit { unit_id: i32 },
    ResolveDefName { name: Seq<char> },
    FindBuildSite { unit_def_id: i32, pos: [u32; 3], search_radius: u32, min_dist: i32, facing: i32 },
    Issue(EngineOrderV),
    Done(Result<(), Seq<char>>),
}

impl View for EngineOrder {
    type V = EngineOrderV;

    open spec fn view(&self) -> EngineOrderV {
        match *self {
            EngineOrder::Move { unit_id, queue, to_pos } => EngineOrderV::Move { unit_id, queue, to_pos },
            EngineOrder::Stop { unit_id } => EngineOrderV::Stop { unit_id },
            EngineOrder::Attack { unit_id, queue, target_id } => EngineOrderV::Attack {
                unit_id,
                queue,
                target_id,
            },
            EngineOrder::Build { unit_id, queue, unit_def_id, pos, facing } => EngineOrderV::Build {
                unit_id,
                queue,
                unit_def_id,
                pos,
                facing,
            },
            EngineOrder::Patrol { unit_id, queue, to_pos } => EngineOrderV::Patrol {
                unit_id,
                queue,
                to_pos,
            },
            EngineOrder::Fight { unit_id, queue, to_pos } => EngineOrderV::Fight {
                unit_id,
                queue,
                to_pos,
            },
            EngineOrder::Guard { unit_id, queue, guard_id } => EngineOrderV::Guard {
                unit_id,
                queue,
                guard_id,
            },
            EngineOrder::Repair { unit_id, queue, repair_id } => EngineOrderV::Repair {
                unit_id,
                queue,
                repair_id,
            },
            EngineOrder::SetFireState { unit_id, fire_state } => EngineOrderV::SetFireState {
                unit_id,
                fire_state,
            },
            EngineOrder::SetMoveState { unit_id, move_state } => EngineOrderV::SetMoveState {
                unit_id,
                move_state,
            },
            EngineOrder::SendText { text } => EngineOrderV::SendText { text: text@ },
        }
    }
}

impl View for DispatchStep {
    type V = DispatchStepV;

    open spec fn view(&self) -> DispatchStepV {
        match *self {
            DispatchStep::ValidateUnit { unit_id } => DispatchStepV::ValidateUnit { unit_id },
            DispatchStep::ResolveDefName { name } => DispatchStepV::ResolveDefName { name: name@ },
            DispatchStep::FindBuildSite { unit_def_id, pos, search_radius, min_dist, facing } =>
                DispatchStepV::FindBuildSite { unit_def_id, pos, search_radius, min_dist, facing },
            DispatchStep::Issue(order) => DispatchStepV::Issue(order@),
            DispatchStep::Done(r) => DispatchStepV::Done(result_view(r)),
        }
    }
}

/// The order for a unit command that needs nothing more than a valid unit.
pub open spec fn direct_order(cmd: GameCommand) -> EngineOrderV {
    match cmd {
        GameCommand::Move { unit_id, x, y, z, queue } => EngineOrderV::Move {
            unit_id,
            queue,
            to_pos: [x, y, z],
        },
        GameCommand::Stop { unit_id } => EngineOrderV::Stop { unit_id },
        GameCommand::Attack { unit_id, target_id, queue } => EngineOrderV::Attack {
            unit_id,
            queue,
            target_id,
        },
        GameCommand::Patrol { unit_id, x, y, z, queue } => EngineOrderV::Patrol {
            unit_id,
            queue,
            to_pos: [x, y, z],
        },
        GameCommand::Fight { unit_id, x, y, z, queue } => EngineOrderV::Fight {
            unit_id,
            queue,
            to_pos: [x, y, z],
        },
        GameCommand::Guard { unit_id, guard_id, queue } => EngineOrderV::Guard {
            unit_id,
            queue,
            guard_id,
        },
        GameCommand::Repair { unit_id, repair_id, queue } => EngineOrderV::Repair {
            unit_id,
            queue,
            repair_id,
        },
        GameCommand::SetFireState { unit_id, state } => EngineOrderV::SetFireState {
            unit_id,
            fire_state: state,
        },
        GameCommand::SetMoveState { unit_id, state } => EngineOrderV::SetMoveState {
            unit_id,
            move_state: state,
        },
        _ => EngineOrderV::Stop { unit_id: 0 },
    }
}

/// The first step of dispatching `cmd`.
pub open spec fn start_step(cmd: GameCommand) -> DispatchStepV {
    match unit_of(cmd) {
        Some(u) => DispatchStepV::ValidateUnit { unit_id: u },
        None => match cmd {
            GameCommand::SendChat { text } => if has_nul("/say "@ + text@) {
                DispatchStepV::Done(Err(nul_message("/say "@ + text@)))
            } else {
                DispatchStepV::Issue(EngineOrderV::SendText { text: "/say "@ + text@ })
            },
            GameCommand::SetSpeed { .. } => DispatchStepV::Done(Err(set_speed_message())),
            _ => DispatchStepV::Done(Ok(())),
        },
    }
}

/// The step of a build once its definition id is known: factory production
/// (no coordinates) builds in place, construction asks for a build site.
pub open spec fn build_step(cmd: GameCommand, def_id: i32) -> DispatchStepV {
    match cmd {
        GameCommand::Build { unit_id, x, y, z, facing, queue, .. } => if is_zero_f32(x)
            && is_zero_f32(y) && is_zero_f32(z) {
            DispatchStepV::Issue(
                EngineOrderV::Build {
                    unit_id,
                    queue,
                    unit_def_id: def_id,
                    pos: [0u32, 0u32, 0u32],
                    facing,
                },
            )
        } else {
            DispatchStepV::FindBuildSite {
                unit_def_id: def_id,
                pos: [x, y, z],
                search_radius: build_search_radius(),
                min_dist: 0,
                facing,
            }
        },
        _ => DispatchStepV::Done(Ok(())),
    }
}

/// The step after the engine answered `def_id` and `unit_team` for the
/// command's unit, and `my_team` for the AI.
pub open spec fn after_unit_step(cmd: GameCommand, def_id: i32, unit_team: i32, my_team: i32) -> DispatchStepV {
    if unit_check(unit_of(cmd).unwrap(), def_id, unit_team, my_team) is Err {
        DispatchStepV::Done(unit_check(unit_of(cmd).unwrap(), def_id, unit_team, my_team))
    } else {
        match cmd {
            GameCommand::Build { build_def_name, build_def_id, .. } => match build_def_name {
                Some(n) => DispatchStepV::ResolveDefName { name: n@ },
                None => build_step(cmd, build_def_id),
            },
            _ => DispatchStepV::Issue(direct_order(cmd)),
        }
    }
}

/// The step after the engine looked up the build definition by name.
pub open spec fn after_name_step(cmd: GameCommand, found: Option<i32>) -> DispatchStepV {
    match found {
        Some(d) => build_step(cmd, d),
        None => DispatchStepV::Done(
            Err("Unknown unit def name: "@ + cmd->build_def_name.unwrap()@),
        ),
    }
}

/// The error for a construction without a valid site nearby; `x`, `y`, `z` are
/// the coordinates as `f32` values print.
pub open spec fn no_site_message(x: Seq<char>, y: Seq<char>, z: Seq<char>, name: Option<String>) -> Seq<char> {
    "No valid build position found near ("@ + x + ", "@ + y + ", "@ + z + ") for def "@ + match name {
        Some(n) => n@,
        None => "?"@,
    }
}

/// The step after the engine searched for a build site.
pub open spec fn after_site_step(
    cmd: GameCommand,
    def_id: i32,
    site: Option<[u32; 3]>,
    x: Seq<char>,
    y: Seq<char>,
    z: Seq<char>,
) -> DispatchStepV {
    match site {
        Some(p) => DispatchStepV::Issue(
            EngineOrderV::Build {
                unit_id: cmd->Build_unit_id,
                queue: cmd->Build_queue,
                unit_def_id: def_id,
                pos: p,
                facing: cmd->Build_facing,
            },
        ),
        None => DispatchStepV::Done(Err(no_site_message(x, y, z, cmd->build_def_name))),
    }
}

fn is_zero_f32_exec(bits: u32) -> (r: bool)
    ensures
        r == is_zero_f32(bits),
{
    bits & 0x7fff_ffffu32 == 0
}

/// Begin dispatching `cmd`.
pub fn dispatch_start(cmd: &GameCommand) -> (r: DispatchStep)
    ensures
        r@ == start_step(*cmd),
{
    match cmd {
        GameCommand::Move { unit_id, .. } => DispatchStep::ValidateUnit { unit_id: *unit_id },
        GameCommand::Stop { unit_id } => DispatchStep::ValidateUnit { unit_id: *unit_id },
        GameCommand::Attack { unit_id, .. } => DispatchStep::ValidateUnit { unit_id: *unit_id },
        GameCommand::Build { unit_id, .. } => DispatchStep::ValidateUnit { unit_id: *unit_id },
        GameCommand::Patrol { unit_id, .. } => DispatchStep::ValidateUnit { unit_id: *unit_id },
        GameCommand::Fight { unit_id, .. } => DispatchStep::ValidateUnit { unit_id: *unit_id },
        GameCommand::Guard { unit_id, .. } => DispatchStep::ValidateUnit { unit_id: *unit_id },
        GameCommand::Repair { unit_id, .. } => DispatchStep::ValidateUnit { unit_id: *unit_id },
        GameCommand::SetFireState { unit_id, .. } => DispatchStep::ValidateUnit {
            unit_id: *unit_id,
        },
        GameCommand::SetMoveState { unit_id, .. } => DispatchStep::ValidateUnit {
            unit_id: *unit_id,
        },
        GameCommand::SendChat { text } => {
            // The engine only acts on `/` commands: `/say` sends network chat.
            // The engine takes the text as a C string, which cannot hold a NUL.
            let mut t = owned("/say ");
            t.append(text.as_str());
            match nul_error(t.as_str()) {
                Some(e) => DispatchStep::Done(Err(e)),
                None => DispatchStep::Issue(EngineOrder::SendText { text: t }),
            }
        },
        GameCommand::Pause | GameCommand::Unpause => {
            // Pausing would stop the update events that carry the unpause command.
            DispatchStep::Done(Ok(()))
        },
        GameCommand::SetSpeed { .. } => DispatchStep::Done(
            Err(owned("set_speed is not supported by the engine AI interface")),
        ),
        GameCommand::ToolCall { .. } => DispatchStep::Done(Ok(())),
    }
}

fn build_step_exec(cmd: &GameCommand, def_id: i32) -> (r: DispatchStep)
    requires
        cmd is Build,
    ensures
        r@ == build_step(*cmd, def_id),
{
    match cmd {
        GameCommand::Build { unit_id, x, y, z, facing, queue, .. } => {
            if is_zero_f32_exec(*x) && is_zero_f32_exec(*y) && is_zero_f32_exec(*z) {
                DispatchStep::Issue(
                    EngineOrder::Build {
                        unit_id: *unit_id,
                        queue: *queue,
                        unit_def_id: def_id,
                        pos: [0u32, 0u32, 0u32],
                        facing: *facing,
                    },
                )
            } else {
                DispatchStep::FindBuildSite {
                    unit_def_id: def_id,
                    pos: [*x, *y, *z],
                    search_radius: 0x4348_0000u32,
                    min_dist: 0,
                    facing: *facing,
                }
            }
        },
        _ => DispatchStep::Done(Ok(())),
    }
}

/// Continue after the engine answered `def_id` and `unit_team` for the
/// command's unit, and `my_team` for the AI.
pub fn dispatch_after_unit_check(cmd: &GameCommand, def_id: i32, unit_team: i32, my_team: i32) -> (r: DispatchStep)
    requires
        unit_of(*cmd) is Some,
    ensures
        r@ == after_unit_step(*cmd, def_id, unit_team, my_team),
{
    let unit_id = match cmd {
        GameCommand::Move { unit_id, .. } => *unit_id,
        GameCommand::Stop { unit_id } => *unit_id,
        GameCommand::Attack { unit_id, .. } => *unit_id,
        GameCommand::Build { unit_id, .. } => *unit_id,
        GameCommand::Patrol { unit_id, .. } => *unit_id,
        GameCommand::Fight { unit_id, .. } => *unit_id,
        GameCommand::Guard { unit_id, .. } => *unit_id,
        GameCommand::Repair { unit_id, .. } => *unit_id,
        GameCommand::SetFireState { unit_id, .. } => *unit_id,
        GameCommand::SetMoveState { unit_id, .. } => *unit_id,
        _ => 0,
    };
    match check_unit(unit_id, def_id, unit_team, my_team) {
        Err(e) => {
            return DispatchStep::Done(Err(e));
        },
        Ok(()) => {},
    }
    match cmd {
        GameCommand::Move { unit_id, x, y, z, queue } => DispatchStep::Issue(
            EngineOrder::Move { unit_id: *unit_id, queue: *queue, to_pos: [*x, *y, *z] },
        ),
        GameCommand::Stop { unit_id } => DispatchStep::Issue(EngineOrder::Stop { unit_id: *unit_id }),
        GameCommand::Attack { unit_id, target_id, queue } => DispatchStep::Issue(
            EngineOrder::Attack { unit_id: *unit_id, queue: *queue, target_id: *target_id },
        ),
        GameCommand::Build { build_def_id, build_def_name, .. } => match build_def_name {
            Some(n) => DispatchStep::ResolveDefName { name: n.clone() },
            None => build_step_exec(cmd, *build_def_id),
        },
        GameCommand::Patrol { unit_id, x, y, z, queue } => DispatchStep::Issue(
            EngineOrder::Patrol { unit_id: *unit_id, queue: *queue, to_pos: [*x, *y, *z] },
        ),
        GameCommand::Fight { unit_id, x, y, z, queue } => DispatchStep::Issue(
            EngineOrder::Fight { unit_id: *unit_id, queue: *queue, to_pos: [*x, *y, *z] },
        ),
        GameCommand::Guard { unit_id, guard_id, queue } => DispatchStep::Issue(
            EngineOrder::Guard { unit_id: *unit_id, queue: *queue, guard_id: *guard_id },
        ),
        GameCommand::Repair { unit_id, repair_id, queue } => DispatchStep::Issue(
            EngineOrder::Repair { unit_id: *unit_id, queue: *queue, repair_id: *repair_id },
        ),
        GameCommand::SetFireState { unit_id, state } => DispatchStep::Issue(
            EngineOrder::SetFireState { unit_id: *unit_id, fire_state: *state },
        ),
        GameCommand::SetMoveState { unit_id, state } => DispatchStep::Issue(
            EngineOrder::SetMoveState { unit_id: *unit_id, move_state: *state },
        ),
        _ => DispatchStep::Done(Ok(())),
    }
}

/// Continue a build after the engine looked its definition up by name.
pub fn dispatch_after_def_lookup(cmd: &GameCommand, found: Option<i32>) -> (r: DispatchStep)
    requires
        cmd matches GameCommand::Build { build_def_name, .. } && build_def_name is Some,
    ensures
        r@ == after_name_step(*cmd, found),
{
    match found {
        Some(d) => build_step_exec(cmd, d),
        None => {
            let mut msg = owned("Unknown unit def name: ");
            match cmd {
                GameCommand::Build { build_def_name: Some(n), .. } => {
                    msg.append(n.as_str());
                },
                _ => {},
            }
            DispatchStep::Done(Err(msg))
        },
    }
}

/// Continue a construction after the engine searched for a build site.
/// `x_text`, `y_text`, `z_text` are the requested coordinates as `f32` values print.
pub fn dispatch_after_build_site(
    cmd: &GameCommand,
    def_id: i32,
    site: Option<[u32; 3]>,
    x_text: &str,
    y_text: &str,
    z_text: &str,
) -> (r: DispatchStep)
    requires
        cmd is Build,
    ensures
        r@ == after_site_step(*cmd, def_id, site, x_text@, y_text@, z_text@),
{
    match cmd {
        GameCommand::Build { unit_id, build_def_name, facing, queue, .. } => match site {
            Some(p) => DispatchStep::Issue(
                EngineOrder::Build {
                    unit_id: *unit_id,
                    queue: *queue,
                    unit_def_id: def_id,
                    pos: p,
                    facing: *facing,
                },
            ),
            None => {
                let mut msg = owned("No valid build position found near (");
                msg.append(x_text);
                msg.append(", ");
                msg.append(y_text);
                msg.append(", ");
                msg.append(z_text);
                msg.append(") for def ");
                match build_def_name {
                    Some(n) => msg.append(n.as_str()),
                    None => msg.append("?"),
                }
                DispatchStep::Done(Err(msg))
            },
        },
        _ => DispatchStep::Done(Ok(())),
    }
}

} // verus!

verus! {

/// A unit command goes to the engine as the order of its own kind. Once the
/// engine reports the command's unit as existing and on the AI's team, a move,
/// stop, attack, patrol, fight, guard, repair or state command issues the order
/// of the same name, on the command's unit, with the command's queue flag and
/// target; a build names its definition to look up, builds in place (factory
/// production, no coordinates), or asks for a build site near its coordinates.
pub proof fn law_unit_commands_issue_their_own_order(cmd: GameCommand, def_id: i32, team: i32)
    requires
        def_id >= 0,
    ensures
        ({
            let step = after_unit_step(cmd, def_id, team, team);
            match cmd {
                GameCommand::Move { unit_id, x, y, z, queue } => step == DispatchStepV::Issue(
                    EngineOrderV::Move { unit_id, queue, to_pos: [x, y, z] },
                ),
                GameCommand::Stop { unit_id } => step == DispatchStepV::Issue(
                    EngineOrderV::Stop { unit_id },
                ),
                GameCommand::Attack { unit_id, target_id, queue } => step == DispatchStepV::Issue(
                    EngineOrderV::Attack { unit_id, queue, target_id },
                ),
                GameCommand::Patrol { unit_id, x, y, z, queue } => step == DispatchStepV::Issue(
                    EngineOrderV::Patrol { unit_id, queue, to_pos: [x, y, z] },
                ),
                GameCommand::Fight { unit_id, x, y, z, queue } => step == DispatchStepV::Issue(
                    EngineOrderV::Fight { unit_id, queue, to_pos: [x, y, z] },
                ),
                GameCommand::Guard { unit_id, guard_id, queue } => step == DispatchStepV::Issue(
                    EngineOrderV::Guard { unit_id, queue, guard_id },
                ),
                GameCommand::Repair { unit_id, repair_id, queue } => step == DispatchStepV::Issue(
                    EngineOrderV::Repair { unit_id, queue, repair_id },
                ),
                GameCommand::SetFireState { unit_id, state } => step == DispatchStepV::Issue(
                    EngineOrderV::SetFireState { unit_id, fire_state: state },
                ),
                GameCommand::SetMoveState { unit_id, state } => step == DispatchStepV::Issue(
                    EngineOrderV::SetMoveState { unit_id, move_state: state },
                ),
                GameCommand::Build {
                    unit_id,
                    build_def_id,
                    build_def_name,
                    x,
                    y,
                    z,
                    facing,
                    queue,
                } => match build_def_name {
                    Some(n) => step == DispatchStepV::ResolveDefName { name: n@ },
                    None => if x & 0x7fff_ffffu32 == 0 && y & 0x7fff_ffffu32 == 0 && z
                        & 0x7fff_ffffu32 == 0 {
                        step == DispatchStepV::Issue(
                            EngineOrderV::Build {
                                unit_id,
                                queue,
                                unit_def_id: build_def_id,
                                pos: [0u32, 0u32, 0u32],
                                facing,
                            },
                        )
                    } else {
                        step == DispatchStepV::FindBuildSite {
                            unit_def_id: build_def_id,
                            pos: [x, y, z],
                            search_radius: 0x4348_0000u32,
                            min_dist: 0,
                            facing,
                        }
                    },
                },
                _ => true,
            }
        }),
{
}

/// A unit the engine does not know, or one of another team, gets no order: the
/// dispatch ends in an error, and an order is issued only for a unit that exists
/// and belongs to the AI's team.
pub proof fn law_only_own_units_get_orders(
    cmd: GameCommand,
    def_id: i32,
    unit_team: i32,
    my_team: i32,
)
    requires
        unit_of(cmd) is Some,
    ensures
        def_id < 0 ==> (after_unit_step(cmd, def_id, unit_team, my_team) matches DispatchStepV::Done(
            Err(_),
        )),
        unit_team != my_team ==> (after_unit_step(cmd, def_id, unit_team, my_team) matches DispatchStepV::Done(
            Err(_),
        )),
        after_unit_step(cmd, def_id, unit_team, my_team) is Issue ==> def_id >= 0 && unit_team
            == my_team,
{
}

/// A build on a site the engine found is issued there, as the build of the
/// command's unit with its queue flag and facing and the looked-up definition;
/// where no site is found nothing is built.
pub proof fn law_builds_go_to_the_found_site(
    cmd: GameCommand,
    def_id: i32,
    site: Option<[u32; 3]>,
    x: Seq<char>,
    y: Seq<char>,
    z: Seq<char>,
)
    requires
        cmd is Build,
    ensures
        site matches Some(p) ==> (cmd matches GameCommand::Build { unit_id, queue, facing, .. }
            && after_site_step(cmd, def_id, site, x, y, z) == DispatchStepV::Issue(
            EngineOrderV::Build { unit_id, queue, unit_def_id: def_id, pos: p, facing },
        )),
        site is None ==> (after_site_step(cmd, def_id, site, x, y, z) matches DispatchStepV::Done(
            Err(_),
        )),
{
}

/// Chat goes to the engine as `/say` and the text, unless the text cannot be
/// carried as a C string; pause, unpause and tool calls need no engine order.
pub proof fn law_chat_is_said(cmd: GameCommand)
    ensures
        cmd matches GameCommand::SendChat { text } ==> ((!has_nul("/say "@ + text@)
            ==> start_step(cmd) == (DispatchStepV::Issue(
            EngineOrderV::SendText { text: "/say "@ + text@ },
        ))) && (has_nul("/say "@ + text@) ==> (start_step(cmd) matches DispatchStepV::Done(Err(_))))),
        (cmd is Pause || cmd is Unpause || cmd is ToolCall) ==> start_step(cmd) == DispatchStepV::Done(
            Ok(()),
        ),
        unit_of(cmd) matches Some(u) ==> start_step(cmd) == (DispatchStepV::ValidateUnit {
            unit_id: u,
        }),
{
}

/// A build named by its definition goes on with the definition the engine found
/// under that name: built in place when the command has no coordinates, else a
/// site is searched near them for that definition; an unknown name ends the
/// dispatch in an error.
pub proof fn law_named_builds_use_the_found_definition(cmd: GameCommand, found: Option<i32>)
    requires
        cmd is Build,
    ensures
        found is None ==> (after_name_step(cmd, found) matches DispatchStepV::Done(Err(_))),
        found matches Some(d) ==> (cmd matches GameCommand::Build {
            unit_id,
            x,
            y,
            z,
            facing,
            queue,
            ..
        } && (if x & 0x7fff_ffffu32 == 0 && y & 0x7fff_ffffu32 == 0 && z & 0x7fff_ffffu32 == 0 {
            after_name_step(cmd, found) == (DispatchStepV::Issue(
                EngineOrderV::Build { unit_id, queue, unit_def_id: d, pos: [0u32, 0u32, 0u32], facing },
            ))
        } else {
            after_name_step(cmd, found) == (DispatchStepV::FindBuildSite {
                unit_def_id: d,
                pos: [x, y, z],
                search_radius: 0x4348_0000u32,
                min_dist: 0,
                facing,
            })
        })),
{
}

/// The engine's answer decides the outcome: a code of 0 or more is success and
/// a negative code an error that names the code.
pub proof fn law_negative_codes_are_errors(code: int)
    ensures
        order_outcome(code) is Ok <==> code >= 0,
        order_outcome(code) matches Err(e) ==> "Engine rejected command (code "@.is_prefix_of(e),
{
    if code < 0 {
        let e = "Engine rejected command (code "@ + signed_decimal(code) + "): "@ + error_description(code);
        assert(e.subrange(0, "Engine rejected command (code "@.len() as int) =~= "Engine rejected command (code "@);
    }
}

} // verus!
