//! The engine as the SAI bridge sees it, and the read-only view of the game
//! that plugins get during tool calls.
use vstd::prelude::*;

verus! {

/// Queries that the engine's callback table answers for this AI.
///
/// The engine is an outside service: nothing here states what it answers.
/// Positions come as the bit patterns of the engine's `f32` coordinates.
pub trait EngineQueries {
    fn get_current_frame(&self) -> i32;

    fn get_my_team(&self) -> i32;

    fn get_my_ally_team(&self) -> i32;

    fn unit_get_def(&self, unit_id: i32) -> i32;

    fn unit_get_pos_bits(&self, unit_id: i32) -> [u32; 3];

    fn unit_def_get_name(&self, unit_def_id: i32) -> Option<String>;

    fn unit_def_get_human_name(&self, unit_def_id: i32) -> Option<String>;

    fn map_width(&self) -> i32;

    fn map_height(&self) -> i32;
}

/// Read-only view of game state, passed to plugins during tool calls.
/// Wraps the engine callbacks with a safe interface: plugins cannot issue commands.
pub struct GameState<'a, E: EngineQueries> {
    cb: &'a E,
}

impl<'a, E: EngineQueries> GameState<'a, E> {
    pub fn new(cb: &'a E) -> (r: Self)
        ensures
            r.engine_spec() == cb,
    {
        Self { cb }
    }

    /// The engine this view reads.
    pub fn engine(&self) -> (r: &'a E)
        ensures
            r == self.engine_spec(),
    {
        self.cb
    }

    pub closed spec fn engine_spec(&self) -> &'a E {
        self.cb
    }

    /// The engine's current frame.
    pub fn current_frame(&self) -> (r: i32)
        ensures
            call_ensures(E::get_current_frame, (self.engine_spec(),), r),
    {
        self.cb.get_current_frame()
    }

    /// The AI's team, as the engine reports it.
    pub fn my_team(&self) -> (r: i32)
        ensures
            call_ensures(E::get_my_team, (self.engine_spec(),), r),
    {
        self.cb.get_my_team()
    }

    /// The AI's ally team, as the engine reports it.
    pub fn my_ally_team(&self) -> (r: i32)
        ensures
            call_ensures(E::get_my_ally_team, (self.engine_spec(),), r),
    {
        self.cb.get_my_ally_team()
    }

    /// The engine's definition id of unit `unit_id` (negative where there is no such unit).
    pub fn unit_get_def(&self, unit_id: i32) -> (r: i32)
        ensures
            call_ensures(E::unit_get_def, (self.engine_spec(), unit_id), r),
    {
        self.cb.unit_get_def(unit_id)
    }

    /// The engine's internal name of definition `unit_def_id`.
    pub fn unit_def_get_name(&self, unit_def_id: i32) -> (r: Option<String>)
        ensures
            call_ensures(E::unit_def_get_name, (self.engine_spec(), unit_def_id), r),
    {
        self.cb.unit_def_get_name(unit_def_id)
    }

    /// The engine's display name of definition `unit_def_id`.
    pub fn unit_def_get_human_name(&self, unit_def_id: i32) -> (r: Option<String>)
        ensures
            call_ensures(E::unit_def_get_human_name, (self.engine_spec(), unit_def_id), r),
    {
        self.cb.unit_def_get_human_name(unit_def_id)
    }

    /// The map's width as the engine reports it, in heightmap squares.
    pub fn map_width(&self) -> (r: i32)
        ensures
            call_ensures(E::map_width, (self.engine_spec(),), r),
    {
        self.cb.map_width()
    }

    /// The map's height as the engine reports it, in heightmap squares.
    pub fn map_height(&self) -> (r: i32)
        ensures
            call_ensures(E::map_height, (self.engine_spec(),), r),
    {
        self.cb.map_height()
    }
}

} // verus!
