use super::world::{lookup, Graph, World};
use vstd::prelude::*;

verus! {

/// Kind of a unit in the game world.
#[derive(Copy, Clone, Debug, PartialEq, Eq, Structural)]
pub enum UnitType {
    Player,
    Monster,
    Object,
    Missile,
    Item,
    Tile,
    Exit,
    Xy,
}

/// Where a player unit stands and where it is heading.
#[derive(Debug, Copy, Clone, PartialEq, Eq)]
pub struct PlayerPath {
    pub offset_x: u16,
    pub x: u16,
    pub offset_y: u16,
    pub y: u16,
    pub target_x: u32,
    pub target_y: u32,
    /// The room the unit stands in, a link into [`World::rooms`](super::world::World).
    pub room: Option<usize>,
}

/// A unit of the game world, as far as the map reveal reads it.
#[derive(Debug, Copy, Clone, PartialEq, Eq)]
pub struct Unit {
    pub unit_type: UnitType,
    pub class_id: u32,
    /// Identity of the unit; `u32::MAX` marks a placeholder.
    pub unit_id: u32,
    /// The act the unit is in, a link into [`World::acts`](super::world::World).
    pub act: Option<usize>,
    /// The unit's path, a link into [`World::paths`](super::world::World).
    pub path: Option<usize>,
}

impl Graph {
    /// The unit of the local player, if the world has one.
    pub open spec fn local_player_unit(self) -> Option<Unit> {
        self.unit(self.local_player)
    }

    /// The local player while a game is running: the unit of the local
    /// player where it stands for a live player, and nothing where the world
    /// has no such unit or holds a placeholder in its place.
    pub open spec fn valid_local_player(self) -> Option<Unit> {
        match self.local_player_unit() {
            Some(player) => if player.is_valid() {
                Some(player)
            } else {
                None
            },
            None => None,
        }
    }

    /// The level a unit stands in: the level of the room record of the room
    /// of the unit's path. It is absent as soon as one link of that chain
    /// leads to nothing.
    pub open spec fn unit_level(self, unit: Unit) -> Option<usize> {
        match self.path(unit.path) {
            None => None,
            Some(path) => match self.room(path.room) {
                None => None,
                Some(room) => match self.room_ex(room.room_ex) {
                    None => None,
                    Some(room_ex) => if self.level(room_ex.level) is Some {
                        room_ex.level
                    } else {
                        None
                    },
                },
            },
        }
    }
}

impl Unit {
    /// The unit of the local player, if the world has one.
    pub fn get_local_player(world: &World) -> (player: Option<Unit>)
        ensures
            player == world@.graph.local_player_unit(),
    {
        match lookup(&world.units, world.local_player) {
            Some(unit) => Some(*unit),
            None => None,
        }
    }

    /// The level this unit stands in, as a link into the world's levels.
    pub fn get_level(&self, world: &World) -> (level: Option<usize>)
        ensures
            level == world@.graph.unit_level(*self),
            level matches Some(l) ==> l < world@.graph.levels.len(),
    {
        let path = lookup(&world.paths, self.path)?;
        let room = lookup(&world.rooms, path.room)?;
        let room_ex = lookup(&world.room_exs, room.room_ex)?;
        lookup(&world.levels, room_ex.level)?;
        room_ex.level
    }

    /// A unit stands for a live player when it is of the player kind and
    /// carries a real identity.
    pub open spec fn spec_is_valid(&self) -> bool {
        self.unit_id != u32::MAX && self.unit_type == UnitType::Player
    }

    /// Whether this unit stands for a live player.
    #[verifier::when_used_as_spec(spec_is_valid)]
    pub fn is_valid(&self) -> (valid: bool)
        ensures
            valid == self.spec_is_valid(),
    {
        if self.unit_id == u32::MAX || self.unit_type != UnitType::Player {
            return false;
        }
        true
    }
}

} // verus!
