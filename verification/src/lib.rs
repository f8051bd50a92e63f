//! Reveals the map of a running game: walks the host's graph of acts,
//! levels and rooms and has the host make visible every room of the level
//! the player stands in, together with the rooms next to it in neighbouring
//! levels, once per level and game.

pub mod d2;
pub mod utils;

use d2::level_id::LevelId;
use d2::unit::Unit;
use d2::world::{Level, World, WorldView};
use vstd::prelude::*;

verus! {

/// The level that a tick reveals, if it reveals one: the level the local
/// player stands in, where the player is a live one, the level can be found
/// and it was not revealed before.
pub open spec fn level_to_reveal(world: WorldView, revealed_areas: Seq<LevelId>) -> Option<usize> {
    match world.graph.valid_local_player() {
        None => None,
        Some(player) => match world.graph.unit_level(player) {
            None => None,
            Some(level) => if revealed_areas.contains(world.graph.levels[level as int].level_no) {
                None
            } else {
                Some(level)
            },
        },
    }
}

/// What one tick does to the world and to the levels revealed so far.
///
/// Without a live local player no game is running: the levels revealed so
/// far are forgotten and the world is left as it is. That is so where the
/// world has no local player and where it holds a placeholder in its place.
/// With a live player, the level the player stands in is revealed and
/// remembered, unless it cannot be found or was revealed before; then
/// everything stays as it is.
pub open spec fn spec_on_loop(world: WorldView, revealed_areas: Seq<LevelId>) -> (
    WorldView,
    Seq<LevelId>,
) {
    match world.graph.valid_local_player() {
        None => (world, Seq::empty()),
        Some(_) => match level_to_reveal(world, revealed_areas) {
            None => (world, revealed_areas),
            Some(level) => (
                world.reveal_level(level),
                revealed_areas.push(world.graph.levels[level as int].level_no),
            ),
        },
    }
}

/// Whether the level with the id `id` was revealed before.
fn is_revealed(revealed_areas: &Vec<LevelId>, id: LevelId) -> (found: bool)
    ensures
        found == revealed_areas@.contains(id),
{
    let mut i: usize = 0;
    while i < revealed_areas.len()
        invariant
            i <= revealed_areas.len(),
            forall|j: int| 0 <= j < i ==> revealed_areas@[j] != id,
        decreases revealed_areas.len() - i,
    {
        if revealed_areas[i] == id {
            return true;
        }
        i += 1;
    }
    false
}

/// Forgets every level revealed so far.
pub fn reset_revealed_areas(revealed_areas: &mut Vec<LevelId>)
    ensures
        final(revealed_areas)@ == Seq::<LevelId>::empty(),
{
    revealed_areas.clear();
}

/// One tick of the session tracker: reveals the level the local player
/// stands in unless it was revealed before in this game, and forgets the
/// levels revealed so far when there is no live local player. Only a tick
/// that reveals a level walks a list, and only that list has to be finite.
pub fn on_loop(world: &mut World, revealed_areas: &mut Vec<LevelId>)
    requires
        level_to_reveal(old(world)@, old(revealed_areas)@) matches Some(level) ==> old(
            world,
        )@.graph.rooms_end(level),
    ensures
        (final(world)@, final(revealed_areas)@) == spec_on_loop(
            old(world)@,
            old(revealed_areas)@,
        ),
        old(revealed_areas)@.no_duplicates() ==> final(revealed_areas)@.no_duplicates(),
{
    let player = match Unit::get_local_player(world) {
        Some(player) => if player.is_valid() {
            Some(player)
        } else {
            None
        },
        None => None,
    };
    if let Some(player) = player {
        let level = player.get_level(world);
        if let Some(level) = level {
            let id = world.levels[level].level_no;
            if !is_revealed(revealed_areas, id) {
                Level::reveal_level(world, level);
                revealed_areas.push(id);
            }
        }
    } else if !revealed_areas.is_empty() {
        reset_revealed_areas(revealed_areas);
    }
}

/// Without a live local player a tick forgets every level and asks nothing
/// of the host, whether the player is missing or a placeholder.
pub proof fn lemma_on_loop_without_player(world: WorldView, revealed_areas: Seq<LevelId>)
    requires
        world.graph.local_player_unit() matches Some(player) ==> !player.is_valid(),
    ensures
        spec_on_loop(world, revealed_areas) == (world, Seq::<LevelId>::empty()),
{
}

/// While the player stays in a level that was revealed before, a tick asks
/// nothing of the host and changes nothing.
pub proof fn lemma_on_loop_skips_revealed(world: WorldView, revealed_areas: Seq<LevelId>)
    requires
        ({
            &&& world.graph.valid_local_player() matches Some(player)
            &&& world.graph.unit_level(player) matches Some(level)
            &&& revealed_areas.contains(world.graph.levels[level as int].level_no)
        }),
    ensures
        spec_on_loop(world, revealed_areas) == (world, revealed_areas),
{
}

/// A tick that follows a tick on the same world changes nothing: whatever
/// the first tick revealed, the second finds revealed.
pub proof fn lemma_on_loop_twice(world: WorldView, revealed_areas: Seq<LevelId>)
    ensures
        spec_on_loop(spec_on_loop(world, revealed_areas).0, spec_on_loop(world, revealed_areas).1)
            == spec_on_loop(world, revealed_areas),
{
    let (next, next_areas) = spec_on_loop(world, revealed_areas);
    if let Some(player) = world.graph.valid_local_player() {
        if let Some(level) = level_to_reveal(world, revealed_areas) {
            let id = world.graph.levels[level as int].level_no;
            assert(next.graph.unit_level(player) == Some(level));
            assert(next.graph.levels[level as int].level_no == id);
            assert(next_areas[next_areas.len() - 1] == id);
        }
    }
}

} // verus!
