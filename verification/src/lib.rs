use vstd::prelude::*;

pub mod assoc;
pub mod bridge;
pub mod cli;
pub mod commands;
pub mod events;
pub mod game_state;
pub mod json;
pub mod json_text;
pub mod lobby;
pub mod lobby_tools;
pub mod lua;
pub mod manager;
pub mod mcpl;
pub mod plugin;
pub mod text;
pub mod tool_registry;
pub mod tools_list;
pub mod write_dir;

verus! {

} // verus!
