use super::level_id::LevelId;
use super::unit::{PlayerPath, Unit};
use vstd::prelude::*;

verus! {

/// The bare, renderable room. It exists for the host only while its room
/// record is registered, and carries nothing but the way back to that record.
#[derive(Copy, Clone, Debug, PartialEq, Eq)]
pub struct Room {
    /// The room record this room belongs to, a link into [`World::room_exs`].
    pub room_ex: Option<usize>,
}

/// The record of one room of a level.
#[derive(Clone, Debug, PartialEq, Eq)]
pub struct RoomEx {
    /// The neighbouring room records, in the order the host stores them.
    /// They may belong to other levels and other acts.
    pub room_ex_near: Vec<Option<usize>>,
    /// The next room record of the same level.
    pub room_ex_next: Option<usize>,
    /// The room of this record. It is present exactly while the record is
    /// registered with the host.
    pub room: Option<usize>,
    /// The room the host links in when it is asked to register this record;
    /// absent where the host would fail to do so.
    pub room_pending: Option<usize>,
    pub pos_x: u32,
    pub pos_y: u32,
    pub size_x: u32,
    pub size_y: u32,
    /// The level this record belongs to, a link into [`World::levels`].
    pub level: Option<usize>,
}

/// One named location: a town, a field or one floor of a dungeon.
#[derive(Copy, Clone, Debug, PartialEq, Eq)]
pub struct Level {
    /// Head of the level's list of room records. It is absent until the
    /// host has built the level's rooms.
    pub room_ex_first: Option<usize>,
    /// The head the host links in when it is asked to build the level's
    /// rooms; absent where the host would fail to do so.
    pub room_ex_pending: Option<usize>,
    pub pos_x: u32,
    pub pos_y: u32,
    pub size_x: u32,
    pub size_y: u32,
    /// The next level of the same act.
    pub level_next: Option<usize>,
    /// The side table of the act this level belongs to, a link into
    /// [`World::act_miscs`].
    pub act_misc: Option<usize>,
    pub level_no: LevelId,
}

/// One chapter of the game: the container of many levels.
#[derive(Copy, Clone, Debug, PartialEq, Eq)]
pub struct Act {
    pub room: Option<usize>,
    pub act_no: u32,
    /// The act's side table, a link into [`World::act_miscs`].
    pub act_misc: Option<usize>,
}

/// Side table of an act.
#[derive(Copy, Clone, Debug, PartialEq, Eq)]
pub struct ActMisc {
    /// The act this table belongs to, a link into [`World::acts`].
    pub act: Option<usize>,
    /// Head of the act's list of levels.
    pub level_first: Option<usize>,
    pub act_no: u32,
}

/// One request made to the host, with the arguments it was made with.
/// `room_link` is the room link of the room record at the time of the
/// request.
#[derive(Copy, Clone, Debug, PartialEq, Eq)]
pub enum HostCall {
    /// Build the rooms of a level.
    InitLevel { level: usize },
    /// Register the room record at a position of a level of an act.
    AddRoomData { act: usize, level_id: LevelId, pos_x: u32, pos_y: u32, room_link: Option<usize> },
    /// Undo the registration of the room record at a position.
    RemoveRoomData {
        act: usize,
        level_id: LevelId,
        pos_x: u32,
        pos_y: u32,
        room_link: Option<usize>,
    },
    /// Make a room visible on the map.
    RevealRoom { room: usize },
}

/// The host's world: every node in a table of its kind, every reference a
/// link, that is an optional index into the table of the node it refers to.
/// A link that is absent or points past the end of its table refers to
/// nothing. `calls` records each request made to the host, in order.
#[derive(Clone, Debug, PartialEq, Eq, Default)]
pub struct World {
    pub acts: Vec<Act>,
    pub act_miscs: Vec<ActMisc>,
    pub levels: Vec<Level>,
    pub room_exs: Vec<RoomEx>,
    pub rooms: Vec<Room>,
    pub paths: Vec<PlayerPath>,
    pub units: Vec<Unit>,
    /// The unit of the local player, a link into `units`; absent while no
    /// game is running.
    pub local_player: Option<usize>,
    pub calls: Vec<HostCall>,
}

/// The nodes of a [`World`] and the links between them.
#[verifier::ext_equal]
pub struct Graph {
    pub acts: Seq<Act>,
    pub act_miscs: Seq<ActMisc>,
    pub levels: Seq<Level>,
    pub room_exs: Seq<RoomEx>,
    pub rooms: Seq<Room>,
    pub paths: Seq<PlayerPath>,
    pub units: Seq<Unit>,
    pub local_player: Option<usize>,
}

/// A [`World`] as the contracts see it: its graph, and the requests made to
/// the host so far.
#[verifier::ext_equal]
pub struct WorldView {
    pub graph: Graph,
    pub calls: Seq<HostCall>,
}

impl View for World {
    type V = WorldView;

    open spec fn view(&self) -> WorldView {
        WorldView {
            graph: Graph {
                acts: self.acts@,
                act_miscs: self.act_miscs@,
                levels: self.levels@,
                room_exs: self.room_exs@,
                rooms: self.rooms@,
                paths: self.paths@,
                units: self.units@,
                local_player: self.local_player,
            },
            calls: self.calls@,
        }
    }
}

/// The node that `link` refers to in `table`, if it refers to one.
pub open spec fn follow<T>(table: Seq<T>, link: Option<usize>) -> Option<T> {
    match link {
        Some(i) => if i < table.len() {
            Some(table[i as int])
        } else {
            None
        },
        None => None,
    }
}

/// The node that `link` refers to in `table`, if it refers to one.
pub fn lookup<T>(table: &Vec<T>, link: Option<usize>) -> (node: Option<&T>)
    ensures
        follow(table@, link) == match node {
            Some(n) => Some(*n),
            None => None,
        },
{
    match link {
        Some(i) => if i < table.len() {
            Some(&table[i])
        } else {
            None
        },
        None => None,
    }
}

impl RoomEx {
    /// A room record is registered exactly while it has a room.
    pub open spec fn spec_is_initialized(&self) -> bool {
        self.room is Some
    }

    /// Whether the record is registered with the host.
    #[verifier::when_used_as_spec(spec_is_initialized)]
    pub fn is_initialized(&self) -> (registered: bool)
        ensures
            registered == self.spec_is_initialized(),
    {
        self.room.is_some()
    }
}

impl Level {
    /// A level is initialized exactly while its list of room records has a
    /// head.
    pub open spec fn spec_is_initialized(&self) -> bool {
        self.room_ex_first is Some
    }

    /// Whether the host has built the level's rooms.
    #[verifier::when_used_as_spec(spec_is_initialized)]
    pub fn is_initialized(&self) -> (built: bool)
        ensures
            built == self.spec_is_initialized(),
    {
        self.room_ex_first.is_some()
    }
}

impl Graph {
    pub open spec fn act(self, link: Option<usize>) -> Option<Act> {
        follow(self.acts, link)
    }

    pub open spec fn act_misc(self, link: Option<usize>) -> Option<ActMisc> {
        follow(self.act_miscs, link)
    }

    pub open spec fn level(self, link: Option<usize>) -> Option<Level> {
        follow(self.levels, link)
    }

    pub open spec fn room_ex(self, link: Option<usize>) -> Option<RoomEx> {
        follow(self.room_exs, link)
    }

    pub open spec fn room(self, link: Option<usize>) -> Option<Room> {
        follow(self.rooms, link)
    }

    pub open spec fn path(self, link: Option<usize>) -> Option<PlayerPath> {
        follow(self.paths, link)
    }

    pub open spec fn unit(self, link: Option<usize>) -> Option<Unit> {
        follow(self.units, link)
    }

    /// The act a level belongs to, reached through the act's side table:
    /// the link to it, where both steps lead to a node.
    pub open spec fn level_act(self, level: Level) -> Option<usize> {
        match self.act_misc(level.act_misc) {
            Some(act_misc) => if self.act(act_misc.act) is Some {
                act_misc.act
            } else {
                None
            },
            None => None,
        }
    }

    /// Every list of room records is finite: followed from any record, the
    /// forward links come to an end and never lead back.
    pub open spec fn room_lists_end(self) -> bool {
        forall|i: usize| #[trigger] room_list_ends(self.room_exs, Some(i), self.room_exs.len())
    }

    /// Every list of levels is finite.
    pub open spec fn level_lists_end(self) -> bool {
        forall|i: usize| #[trigger] level_list_ends(self.levels, Some(i), self.levels.len())
    }

    /// Whether the list of room records that revealing `level` walks is
    /// finite: the level's own list, or for a level that is not initialized
    /// the list that is pending for it.
    pub open spec fn rooms_end(self, level: usize) -> bool {
        match self.level(Some(level)) {
            Some(l) => room_list_ends(
                self.room_exs,
                if l.is_initialized() {
                    l.room_ex_first
                } else {
                    l.room_ex_pending
                },
                self.room_exs.len(),
            ),
            None => true,
        }
    }

    /// Where every list of room records is finite, so is the one that
    /// revealing a level walks.
    pub proof fn lemma_room_lists_end_each(self, level: usize)
        requires
            self.room_lists_end(),
        ensures
            self.rooms_end(level),
    {
        if let Some(l) = self.level(Some(level)) {
            let head = if l.is_initialized() {
                l.room_ex_first
            } else {
                l.room_ex_pending
            };
            if let Some(first) = head {
                assert(room_list_ends(self.room_exs, Some(first), self.room_exs.len()));
            }
        }
    }

    /// The room records of a level, in list order.
    pub open spec fn rooms_of(self, level: usize) -> Seq<usize> {
        match self.level(Some(level)) {
            Some(l) => room_list(self.room_exs, l.room_ex_first, self.room_exs.len()),
            None => Seq::empty(),
        }
    }

    /// The levels of an act, in list order.
    pub open spec fn levels_of(self, act: usize) -> Seq<usize> {
        match self.act(Some(act)) {
            Some(a) => match self.act_misc(a.act_misc) {
                Some(act_misc) => level_list(self.levels, act_misc.level_first, self.levels.len()),
                None => Seq::empty(),
            },
            None => Seq::empty(),
        }
    }
}

/// Whether the list of room records that starts at `start` comes to its end
/// within `fuel` records.
pub open spec fn room_list_ends(room_exs: Seq<RoomEx>, start: Option<usize>, fuel: nat) -> bool
    decreases fuel,
{
    match follow(room_exs, start) {
        None => true,
        Some(room_ex) => fuel > 0 && room_list_ends(
            room_exs,
            room_ex.room_ex_next,
            (fuel - 1) as nat,
        ),
    }
}

/// The room records of the list that starts at `start`, in list order, as
/// far as `fuel` records.
pub open spec fn room_list(room_exs: Seq<RoomEx>, start: Option<usize>, fuel: nat) -> Seq<usize>
    decreases fuel,
{
    match follow(room_exs, start) {
        None => Seq::empty(),
        Some(room_ex) => if fuel == 0 {
            Seq::empty()
        } else {
            seq![start.unwrap()] + room_list(room_exs, room_ex.room_ex_next, (fuel - 1) as nat)
        },
    }
}

/// Whether the list of levels that starts at `start` comes to its end within
/// `fuel` levels.
pub open spec fn level_list_ends(levels: Seq<Level>, start: Option<usize>, fuel: nat) -> bool
    decreases fuel,
{
    match follow(levels, start) {
        None => true,
        Some(level) => fuel > 0 && level_list_ends(levels, level.level_next, (fuel - 1) as nat),
    }
}

/// The levels of the list that starts at `start`, in list order, as far as
/// `fuel` levels.
pub open spec fn level_list(levels: Seq<Level>, start: Option<usize>, fuel: nat) -> Seq<usize>
    decreases fuel,
{
    match follow(levels, start) {
        None => Seq::empty(),
        Some(level) => if fuel == 0 {
            Seq::empty()
        } else {
            seq![start.unwrap()] + level_list(levels, level.level_next, (fuel - 1) as nat)
        },
    }
}

impl World {
    /// A world without nodes, in which nothing has been asked of the host.
    pub fn new() -> (world: World)
        ensures
            world@.graph.acts.len() == 0,
            world@.graph.act_miscs.len() == 0,
            world@.graph.levels.len() == 0,
            world@.graph.room_exs.len() == 0,
            world@.graph.rooms.len() == 0,
            world@.graph.paths.len() == 0,
            world@.graph.units.len() == 0,
            world@.graph.local_player is None,
            world@.calls.len() == 0,
    {
        World {
            acts: Vec::new(),
            act_miscs: Vec::new(),
            levels: Vec::new(),
            room_exs: Vec::new(),
            rooms: Vec::new(),
            paths: Vec::new(),
            units: Vec::new(),
            local_player: None,
            calls: Vec::new(),
        }
    }
    /// Whether the list of room records that revealing `level` walks is
    /// finite.
    pub fn rooms_end(&self, level: usize) -> (ends: bool)
        ensures
            ends == self@.graph.rooms_end(level),
    {
        let head = match lookup(&self.levels, Some(level)) {
            Some(l) => if l.is_initialized() {
                l.room_ex_first
            } else {
                l.room_ex_pending
            },
            None => { return true; },
        };
        let mut cursor = head;
        let mut fuel: usize = self.room_exs.len();
        while fuel > 0 && lookup(&self.room_exs, cursor).is_some()
            invariant
                room_list_ends(self.room_exs@, head, self.room_exs.len() as nat) == room_list_ends(
                    self.room_exs@,
                    cursor,
                    fuel as nat,
                ),
            decreases fuel,
        {
            cursor = self.room_exs[cursor.unwrap()].room_ex_next;
            fuel -= 1;
        }
        lookup(&self.room_exs, cursor).is_none()
    }

    /// Whether every list of room records is finite.
    pub fn room_lists_end(&self) -> (ends: bool)
        ensures
            ends == self@.graph.room_lists_end(),
    {
        let count = self.room_exs.len();
        let mut first: usize = 0;
        while first < count
            invariant
                first <= count == self.room_exs.len(),
                forall|i: usize|
                    i < first ==> #[trigger] room_list_ends(self.room_exs@, Some(i), count as nat),
            decreases count - first,
        {
            let mut cursor = Some(first);
            let mut fuel: usize = count;
            while fuel > 0 && lookup(&self.room_exs, cursor).is_some()
                invariant
                    room_list_ends(self.room_exs@, Some(first), count as nat) == room_list_ends(
                        self.room_exs@,
                        cursor,
                        fuel as nat,
                    ),
                decreases fuel,
            {
                cursor = self.room_exs[cursor.unwrap()].room_ex_next;
                fuel -= 1;
            }
            if lookup(&self.room_exs, cursor).is_some() {
                assert(!room_list_ends(self@.graph.room_exs, Some(first), self@.graph.room_exs.len()));
                return false;
            }
            first += 1;
        }
        true
    }

    /// Whether every list of levels is finite.
    pub fn level_lists_end(&self) -> (ends: bool)
        ensures
            ends == self@.graph.level_lists_end(),
    {
        let count = self.levels.len();
        let mut first: usize = 0;
        while first < count
            invariant
                first <= count == self.levels.len(),
                forall|i: usize|
                    i < first ==> #[trigger] level_list_ends(self.levels@, Some(i), count as nat),
            decreases count - first,
        {
            let mut cursor = Some(first);
            let mut fuel: usize = count;
            while fuel > 0 && lookup(&self.levels, cursor).is_some()
                invariant
                    level_list_ends(self.levels@, Some(first), count as nat) == level_list_ends(
                        self.levels@,
                        cursor,
                        fuel as nat,
                    ),
                decreases fuel,
            {
                cursor = self.levels[cursor.unwrap()].level_next;
                fuel -= 1;
            }
            if lookup(&self.levels, cursor).is_some() {
                assert(!level_list_ends(self@.graph.levels, Some(first), self@.graph.levels.len()));
                return false;
            }
            first += 1;
        }
        true
    }
}

} // verus!
