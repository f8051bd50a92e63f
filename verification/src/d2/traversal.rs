use super::level_id::LevelId;
use super::world::{
    level_list_ends, lookup, room_list_ends, Act, Graph, HostCall, Level, Room, RoomEx, World,
    WorldView,
};
use vstd::prelude::*;

verus! {

impl Graph {
    /// The graph with the room link of one room record replaced.
    pub open spec fn with_room(self, room_ex: usize, room: Option<usize>) -> Graph {
        if room_ex < self.room_exs.len() {
            Graph {
                room_exs: self.room_exs.update(
                    room_ex as int,
                    RoomEx { room, ..self.room_exs[room_ex as int] },
                ),
                ..self
            }
        } else {
            self
        }
    }

    /// The graph with the head of one level's list of room records replaced.
    pub open spec fn with_room_ex_first(self, level: usize, head: Option<usize>) -> Graph {
        if level < self.levels.len() {
            Graph {
                levels: self.levels.update(
                    level as int,
                    Level { room_ex_first: head, ..self.levels[level as int] },
                ),
                ..self
            }
        } else {
            self
        }
    }

    /// Whether `room_ex` is a room record that is not registered.
    pub open spec fn unregistered(self, room_ex: usize) -> bool {
        match self.room_ex(Some(room_ex)) {
            Some(r) => !r.is_initialized(),
            None => false,
        }
    }

    /// Whether `room_ex` is a room record that is registered.
    pub open spec fn registered(self, room_ex: usize) -> bool {
        match self.room_ex(Some(room_ex)) {
            Some(r) => r.is_initialized(),
            None => false,
        }
    }

    /// The requests that revealing one room record in the context of `act`
    /// makes: the room is made visible if the record is registered; if it is
    /// not, the record is registered first and the registration undone
    /// afterwards. Nothing is asked for a record without a level, and a
    /// record that the host fails to register is left alone.
    pub open spec fn room_cycle(self, room_ex: usize, act: usize) -> Seq<HostCall> {
        match self.room_ex(Some(room_ex)) {
            None => Seq::empty(),
            Some(r) => match self.level(r.level) {
                None => Seq::empty(),
                Some(level) => {
                    let level_id = level.level_no;
                    match r.room {
                        Some(room) => seq![HostCall::RevealRoom { room }],
                        None => match r.room_pending {
                            Some(room) => seq![
                                HostCall::AddRoomData {
                                    act,
                                    level_id,
                                    pos_x: r.pos_x,
                                    pos_y: r.pos_y,
                                    room_link: None,
                                },
                                HostCall::RevealRoom { room },
                                HostCall::RemoveRoomData {
                                    act,
                                    level_id,
                                    pos_x: r.pos_x,
                                    pos_y: r.pos_y,
                                    room_link: Some(room),
                                },
                            ],
                            None => seq![
                                HostCall::AddRoomData {
                                    act,
                                    level_id,
                                    pos_x: r.pos_x,
                                    pos_y: r.pos_y,
                                    room_link: None,
                                },
                            ],
                        },
                    }
                },
            },
        }
    }
}

/// One stop of a traversal: a room record, and the act in whose context it
/// is revealed.
pub struct Visit {
    pub room_ex: usize,
    pub act: usize,
}

impl Graph {
    /// The stop that one entry of a neighbour list leads to, seen from a
    /// level with the id `level_no`. The entry is passed over when it refers
    /// to no room record, when that record has no level, when its level has
    /// the id `level_no` itself, when its level is not initialized, or when
    /// no act can be reached from its level. Otherwise the neighbour is
    /// revealed in the context of its own level's act.
    pub open spec fn near_visit(self, level_no: LevelId, near: Option<usize>) -> Option<Visit> {
        match self.room_ex(near) {
            None => None,
            Some(room_ex_near) => match self.level(room_ex_near.level) {
                None => None,
                Some(level_near) => if level_no == level_near.level_no
                    || !level_near.is_initialized() {
                    None
                } else {
                    match self.level_act(level_near) {
                        Some(act) => Some(Visit { room_ex: near.unwrap(), act }),
                        None => None,
                    }
                },
            },
        }
    }

    /// The stops that the entries of a neighbour list lead to, in the order
    /// of the list.
    pub open spec fn near_visits(self, level_no: LevelId, near: Seq<Option<usize>>) -> Seq<Visit>
        decreases near.len(),
    {
        if near.len() == 0 {
            Seq::empty()
        } else {
            let before = self.near_visits(level_no, near.drop_last());
            match self.near_visit(level_no, near.last()) {
                Some(visit) => before.push(visit),
                None => before,
            }
        }
    }

    /// The stops made for one room record of `level`: the record itself, in
    /// the context of `act`, then its neighbours. Neighbours of neighbours
    /// are no stops.
    pub open spec fn room_visits(self, level: usize, room_ex: usize, act: usize) -> Seq<Visit> {
        match self.level(Some(level)) {
            None => Seq::empty(),
            Some(l) => seq![Visit { room_ex, act }] + match self.room_ex(Some(room_ex)) {
                Some(r) => self.near_visits(l.level_no, r.room_ex_near@),
                None => Seq::empty(),
            },
        }
    }

    /// The stops made for the room records of `level` from `start` on, as
    /// far as `fuel` records.
    pub open spec fn list_visits(
        self,
        level: usize,
        start: Option<usize>,
        act: usize,
        fuel: nat,
    ) -> Seq<Visit>
        decreases fuel,
    {
        match self.room_ex(start) {
            None => Seq::empty(),
            Some(r) => if fuel == 0 {
                Seq::empty()
            } else {
                self.room_visits(level, start.unwrap(), act) + self.list_visits(
                    level,
                    r.room_ex_next,
                    act,
                    (fuel - 1) as nat,
                )
            },
        }
    }

    /// The stops made to reveal `level`: none unless the level is
    /// initialized and its act can be reached; else those of each of its
    /// room records, in list order, in the context of that act.
    pub open spec fn level_visits(self, level: usize) -> Seq<Visit> {
        match self.level(Some(level)) {
            None => Seq::empty(),
            Some(l) => if !l.is_initialized() {
                Seq::empty()
            } else {
                match self.level_act(l) {
                    Some(act) => self.list_visits(level, l.room_ex_first, act, self.room_exs.len()),
                    None => Seq::empty(),
                }
            },
        }
    }

    /// The requests made at a sequence of stops, one after the other.
    pub open spec fn cycles(self, visits: Seq<Visit>) -> Seq<HostCall>
        decreases visits.len(),
    {
        if visits.len() == 0 {
            Seq::empty()
        } else {
            self.cycles(visits.drop_last()) + self.room_cycle(
                visits.last().room_ex,
                visits.last().act,
            )
        }
    }

    /// The requests made at two sequences of stops in a row are those of the
    /// first followed by those of the second.
    pub proof fn lemma_cycles_add(self, first: Seq<Visit>, second: Seq<Visit>)
        ensures
            self.cycles(first + second) == self.cycles(first) + self.cycles(second),
        decreases second.len(),
    {
        if second.len() == 0 {
            assert(first + second =~= first);
        } else {
            self.lemma_cycles_add(first, second.drop_last());
            assert((first + second).drop_last() =~= first + second.drop_last());
            assert((first + second).last() == second.last());
        }
    }

    /// The requests made at a single stop.
    pub proof fn lemma_cycles_one(self, visit: Visit)
        ensures
            self.cycles(seq![visit]) == self.room_cycle(visit.room_ex, visit.act),
    {
        assert(seq![visit].drop_last() =~= Seq::<Visit>::empty());
        assert(self.cycles(Seq::<Visit>::empty()) =~= Seq::<HostCall>::empty());
    }
}

impl WorldView {
    /// The world after one more request to the host.
    pub open spec fn call(self, call: HostCall) -> WorldView {
        WorldView { calls: self.calls.push(call), ..self }
    }

    /// The world after the host was asked to make `room` visible. The graph
    /// holds no trace of it.
    pub open spec fn reveal_room(self, room: usize) -> WorldView {
        self.call(HostCall::RevealRoom { room })
    }

    /// The world after the host was asked to register `room_ex`: the record
    /// has the room that was pending for it.
    pub open spec fn add_room_data(self, room_ex: usize, act: usize, level_id: LevelId) -> WorldView {
        match self.graph.room_ex(Some(room_ex)) {
            Some(r) => WorldView {
                graph: self.graph.with_room(room_ex, r.room_pending),
                calls: self.calls.push(
                    HostCall::AddRoomData {
                        act,
                        level_id,
                        pos_x: r.pos_x,
                        pos_y: r.pos_y,
                        room_link: r.room,
                    },
                ),
            },
            None => self,
        }
    }

    /// The world after the host was asked to undo the registration of
    /// `room_ex`: the record has no room.
    pub open spec fn remove_room_data(self, room_ex: usize, act: usize, level_id: LevelId) -> WorldView {
        match self.graph.room_ex(Some(room_ex)) {
            Some(r) => WorldView {
                graph: self.graph.with_room(room_ex, None),
                calls: self.calls.push(
                    HostCall::RemoveRoomData {
                        act,
                        level_id,
                        pos_x: r.pos_x,
                        pos_y: r.pos_y,
                        room_link: r.room,
                    },
                ),
            },
            None => self,
        }
    }

    /// The world after `room_ex` was revealed in the context of `act`.
    pub open spec fn reveal_room_ex(self, room_ex: usize, act: usize) -> WorldView {
        WorldView { calls: self.calls + self.graph.room_cycle(room_ex, act), ..self }
    }

    /// The world after the stops `visits` were made: the graph is as before,
    /// and the requests of each stop have been made.
    pub open spec fn visit(self, visits: Seq<Visit>) -> WorldView {
        WorldView { calls: self.calls + self.graph.cycles(visits), ..self }
    }

    /// The world after `level` was initialized: nothing changes for a level
    /// that is initialized already; for another the host is asked to build
    /// its rooms, and the level has the list that was pending for it.
    pub open spec fn init_level(self, level: usize) -> WorldView {
        match self.graph.level(Some(level)) {
            Some(l) => if l.is_initialized() {
                self
            } else {
                WorldView {
                    graph: self.graph.with_room_ex_first(level, l.room_ex_pending),
                    calls: self.calls.push(HostCall::InitLevel { level }),
                }
            },
            None => self,
        }
    }

    /// The world after one room record of `level` and its neighbours were
    /// revealed.
    pub open spec fn process(self, level: usize, room_ex: usize, act: usize) -> WorldView {
        self.visit(self.graph.room_visits(level, room_ex, act))
    }

    /// The world after `level` was revealed: the level is initialized first,
    /// then the stops of the initialized level are made.
    pub open spec fn reveal_level(self, level: usize) -> WorldView {
        let built = self.init_level(level);
        built.visit(built.graph.level_visits(level))
    }

    /// The world after the levels of a list were revealed one after the
    /// other, from `start` on, as far as `fuel` levels.
    pub open spec fn reveal_levels(self, start: Option<usize>, fuel: nat) -> WorldView
        decreases fuel,
    {
        match self.graph.level(start) {
            None => self,
            Some(l) => if fuel == 0 {
                self
            } else {
                self.reveal_level(start.unwrap()).reveal_levels(l.level_next, (fuel - 1) as nat)
            },
        }
    }

    /// The world after every level of `act` was revealed, in list order.
    pub open spec fn reveal_act(self, act: usize) -> WorldView {
        match self.graph.act(Some(act)) {
            Some(a) => match self.graph.act_misc(a.act_misc) {
                Some(act_misc) => self.reveal_levels(act_misc.level_first, self.graph.levels.len()),
                None => self,
            },
            None => self,
        }
    }
}

impl Room {
    /// Asks the host to make `room` visible.
    fn reveal_room(world: &mut World, room: usize)
        ensures
            final(world)@ == old(world)@.reveal_room(room),
    {
        world.calls.push(HostCall::RevealRoom { room });
    }
}

impl RoomEx {
    /// Asks the host to register the room record `room_ex`.
    fn add_room_data(world: &mut World, room_ex: usize, act: usize, level_id: LevelId)
        requires
            room_ex < old(world).room_exs.len(),
        ensures
            final(world)@ == old(world)@.add_room_data(room_ex, act, level_id),
    {
        let r = &world.room_exs[room_ex];
        let call = HostCall::AddRoomData {
            act,
            level_id,
            pos_x: r.pos_x,
            pos_y: r.pos_y,
            room_link: r.room,
        };
        let pending = r.room_pending;
        world.calls.push(call);
        world.room_exs[room_ex].room = pending;
    }

    /// Asks the host to undo the registration of the room record `room_ex`.
    fn remove_room_data(world: &mut World, room_ex: usize, act: usize, level_id: LevelId)
        requires
            room_ex < old(world).room_exs.len(),
        ensures
            final(world)@ == old(world)@.remove_room_data(room_ex, act, level_id),
    {
        let r = &world.room_exs[room_ex];
        let call = HostCall::RemoveRoomData {
            act,
            level_id,
            pos_x: r.pos_x,
            pos_y: r.pos_y,
            room_link: r.room,
        };
        world.calls.push(call);
        world.room_exs[room_ex].room = None;
    }

    /// Registers the room record `room_ex` unless it is registered already.
    /// The result tells whether this call made the registration, and so
    /// whether the caller has to undo it.
    pub fn init(world: &mut World, room_ex: usize, act: usize, level_id: LevelId) -> (fresh: bool)
        ensures
            fresh == old(world)@.graph.unregistered(room_ex),
            final(world)@ == if fresh {
                old(world)@.add_room_data(room_ex, act, level_id)
            } else {
                old(world)@
            },
    {
        let registered = match lookup(&world.room_exs, Some(room_ex)) {
            Some(r) => r.is_initialized(),
            None => true,
        };
        if !registered {
            RoomEx::add_room_data(world, room_ex, act, level_id);
            return true;
        }
        false
    }

    /// Undoes the registration of the room record `room_ex` if it is
    /// registered; does nothing otherwise.
    pub fn cleanup(world: &mut World, room_ex: usize, act: usize, level_id: LevelId)
        ensures
            final(world)@ == if old(world)@.graph.registered(room_ex) {
                old(world)@.remove_room_data(room_ex, act, level_id)
            } else {
                old(world)@
            },
    {
        let registered = match lookup(&world.room_exs, Some(room_ex)) {
            Some(r) => r.is_initialized(),
            None => false,
        };
        if registered {
            RoomEx::remove_room_data(world, room_ex, act, level_id);
        }
    }

    /// Makes the room of the record `room_ex` visible, in the context of
    /// `act`. A record that is not registered is registered for the time of
    /// the call only: the graph is afterwards as it was before, whatever the
    /// host did in between.
    pub fn reveal_room_ex(world: &mut World, room_ex: usize, act: usize)
        ensures
            final(world)@ == old(world)@.reveal_room_ex(room_ex, act),
            final(world)@.graph == old(world)@.graph,
            final(world)@.graph.registered(room_ex) == old(world)@.graph.registered(room_ex),
    {
        let level_id = match lookup(&world.room_exs, Some(room_ex)) {
            Some(r) => match lookup(&world.levels, r.level) {
                Some(level) => level.level_no,
                None => { return ; },
            },
            None => { return ; },
        };
        let should_cleanup = RoomEx::init(world, room_ex, act, level_id);
        if let Some(room) = world.room_exs[room_ex].room {
            if world.room_exs[room_ex].is_initialized() {
                Room::reveal_room(world, room);
                if should_cleanup {
                    RoomEx::cleanup(world, room_ex, act, level_id);
                }
            }
        }
        assert(world@.graph =~= old(world)@.graph);
    }
}

impl World {
    /// The act a level belongs to, reached through the act's side table.
    pub fn level_act(&self, level: &Level) -> (act: Option<usize>)
        ensures
            act == self@.graph.level_act(*level),
    {
        match lookup(&self.act_miscs, level.act_misc) {
            Some(act_misc) => match lookup(&self.acts, act_misc.act) {
                Some(_) => act_misc.act,
                None => None,
            },
            None => None,
        }
    }

    /// The stop that one entry of a neighbour list leads to, seen from a
    /// level with the id `level_no`: the neighbour's room record and the act
    /// of its level.
    pub fn near_visit(&self, level_no: LevelId, near: Option<usize>) -> (stop: Option<(usize, usize)>)
        ensures
            match stop {
                Some((room_ex, act)) => self@.graph.near_visit(level_no, near) == Some(
                    Visit { room_ex, act },
                ),
                None => self@.graph.near_visit(level_no, near) is None,
            },
    {
        let room_ex_near = match lookup(&self.room_exs, near) {
            Some(room_ex_near) => room_ex_near,
            None => { return None; },
        };
        let level_near = match lookup(&self.levels, room_ex_near.level) {
            Some(level_near) => level_near,
            None => { return None; },
        };
        if level_no == level_near.level_no || !level_near.is_initialized() {
            return None;
        }
        match (self.level_act(level_near), near) {
            (Some(act), Some(room_ex)) => Some((room_ex, act)),
            _ => None,
        }
    }
}

impl Level {
    /// Has the host build the rooms of `level` unless the level is
    /// initialized already.
    pub fn init(world: &mut World, level: usize)
        ensures
            final(world)@ == old(world)@.init_level(level),
    {
        let pending = match lookup(&world.levels, Some(level)) {
            Some(l) => if l.is_initialized() {
                return ;
            } else {
                l.room_ex_pending
            },
            None => { return ; },
        };
        world.calls.push(HostCall::InitLevel { level });
        world.levels[level].room_ex_first = pending;
    }

    /// Reveals one room record of `level`, in the context of `act`, and then
    /// each of its neighbours that lies in another, initialized level, in
    /// the context of that level's act. The graph is afterwards as it was
    /// before.
    pub fn process(world: &mut World, level: usize, room_ex: usize, act: usize)
        ensures
            final(world)@ == old(world)@.process(level, room_ex, act),
    {
        let level_no = match lookup(&world.levels, Some(level)) {
            Some(l) => l.level_no,
            None => {
                proof {
                    assert(world@.graph.cycles(Seq::<Visit>::empty()) =~= Seq::<HostCall>::empty());
                    assert(world@ =~= world@.process(level, room_ex, act));
                }
                return ;
            },
        };
        let ghost graph = world@.graph;
        let ghost near = match graph.room_ex(Some(room_ex)) {
            Some(r) => r.room_ex_near@,
            None => Seq::empty(),
        };
        let ghost mut visits = seq![Visit { room_ex, act }];
        RoomEx::reveal_room_ex(world, room_ex, act);
        proof {
            graph.lemma_cycles_one(Visit { room_ex, act });
            assert(near.take(0) =~= Seq::<Option<usize>>::empty());
            assert(visits =~= visits + graph.near_visits(level_no, near.take(0)));
        }
        let rooms_near = match lookup(&world.room_exs, Some(room_ex)) {
            Some(r) => r.room_ex_near.len(),
            None => 0,
        };
        let mut k: usize = 0;
        while k < rooms_near
            invariant
                k <= rooms_near == near.len(),
                world@.graph == graph,
                graph == old(world)@.graph,
                near == match graph.room_ex(Some(room_ex)) {
                    Some(r) => r.room_ex_near@,
                    None => Seq::empty(),
                },
                visits == seq![Visit { room_ex, act }] + graph.near_visits(
                    level_no,
                    near.take(k as int),
                ),
                world@.calls == old(world)@.calls + graph.cycles(visits),
            decreases rooms_near - k,
        {
            let room_ex_near = world.room_exs[room_ex].room_ex_near[k];
            proof {
                assert(near.take(k + 1).drop_last() =~= near.take(k as int));
                assert(near.take(k + 1).last() == room_ex_near);
            }
            if let Some((stop, act_near)) = world.near_visit(level_no, room_ex_near) {
                RoomEx::reveal_room_ex(world, stop, act_near);
                proof {
                    let visit = Visit { room_ex: stop, act: act_near };
                    assert(visits.push(visit).drop_last() =~= visits);
                    assert(world@.calls =~= old(world)@.calls + graph.cycles(visits.push(visit)));
                    assert(visits.push(visit) =~= seq![Visit { room_ex, act }] + graph.near_visits(
                        level_no,
                        near.take(k + 1),
                    ));
                    visits = visits.push(visit);
                }
            }
            k += 1;
        }
        proof {
            assert(near.take(k as int) =~= near);
            assert(visits == graph.room_visits(level, room_ex, act));
        }
    }
    /// Reveals `level`: has the host build its rooms if it has none yet,
    /// then reveals each room record of its list together with the
    /// neighbours of that record in other levels. Afterwards the graph
    /// differs from the one before in the list head of `level` at most.
    pub fn reveal_level(world: &mut World, level: usize)
        requires
            old(world)@.graph.rooms_end(level),
        ensures
            final(world)@ == old(world)@.reveal_level(level),
    {
        Level::init(world, level);
        let ghost built = world@;
        proof {
            assert(built.graph.cycles(Seq::<Visit>::empty()) =~= Seq::<HostCall>::empty());
        }
        let l = match lookup(&world.levels, Some(level)) {
            Some(l) => *l,
            None => { return ; },
        };
        if l.is_initialized() {
            let act = match world.level_act(&l) {
                Some(act) => act,
                None => { return ; },
            };
            let mut cursor = l.room_ex_first;
            let ghost mut fuel: nat = world.room_exs.len() as nat;
            let ghost mut visits: Seq<Visit> = Seq::empty();
            proof {
                assert(built.graph.room_exs == old(world)@.graph.room_exs);
                assert(room_list_ends(built.graph.room_exs, cursor, fuel));
                assert(visits + built.graph.level_visits(level) =~= built.graph.level_visits(level));
            }
            while lookup(&world.room_exs, cursor).is_some()
                invariant
                    world@.graph == built.graph,
                    room_list_ends(built.graph.room_exs, cursor, fuel),
                    visits + built.graph.list_visits(level, cursor, act, fuel)
                        == built.graph.level_visits(level),
                    world@.calls == built.calls + built.graph.cycles(visits),
                decreases fuel,
            {
                let room_ex = cursor.unwrap();
                let ghost stops = built.graph.room_visits(level, room_ex, act);
                Level::process(world, level, room_ex, act);
                cursor = world.room_exs[room_ex].room_ex_next;
                proof {
                    built.graph.lemma_cycles_add(visits, stops);
                    assert(world@.calls =~= built.calls + built.graph.cycles(visits + stops));
                    assert((visits + stops) + built.graph.list_visits(
                        level,
                        cursor,
                        act,
                        (fuel - 1) as nat,
                    ) =~= visits + (stops + built.graph.list_visits(
                        level,
                        cursor,
                        act,
                        (fuel - 1) as nat,
                    )));
                    visits = visits + stops;
                    fuel = (fuel - 1) as nat;
                }
            }
            proof {
                assert(visits + Seq::<Visit>::empty() =~= visits);
            }
        }
    }
}

/// Whether a list of levels ends depends on the forward links only.
pub proof fn lemma_level_list_ends_by_links(
    before: Seq<Level>,
    after: Seq<Level>,
    start: Option<usize>,
    fuel: nat,
)
    requires
        before.len() == after.len(),
        forall|i: int| 0 <= i < before.len() ==> before[i].level_next == after[i].level_next,
        level_list_ends(before, start, fuel),
    ensures
        level_list_ends(after, start, fuel),
    decreases fuel,
{
    if let Some(i) = start {
        if i < before.len() {
            lemma_level_list_ends_by_links(
                before,
                after,
                before[i as int].level_next,
                (fuel - 1) as nat,
            );
        }
    }
}

impl WorldView {
    /// Revealing a level changes neither a forward link nor the number of
    /// nodes, so every list stays finite.
    pub proof fn lemma_reveal_level_keeps_lists(self, level: usize)
        ensures
            self.reveal_level(level).graph.room_exs == self.graph.room_exs,
            self.reveal_level(level).graph.levels.len() == self.graph.levels.len(),
            forall|i: int|
                0 <= i < self.graph.levels.len() ==> (
                #[trigger] self.reveal_level(level).graph.levels[i]).level_next
                    == self.graph.levels[i].level_next,
            self.graph.room_lists_end() ==> self.reveal_level(level).graph.room_lists_end(),
            self.graph.level_lists_end() ==> self.reveal_level(level).graph.level_lists_end(),
    {
        let after = self.reveal_level(level).graph;
        if self.graph.level_lists_end() {
            assert forall|i: usize| #[trigger]
                level_list_ends(after.levels, Some(i), after.levels.len()) by {
                assert(level_list_ends(self.graph.levels, Some(i), self.graph.levels.len()));
                lemma_level_list_ends_by_links(
                    self.graph.levels,
                    after.levels,
                    Some(i),
                    after.levels.len(),
                );
            }
        }
    }
}

impl Act {
    /// Reveals every level of `act`, in the order of the act's list of
    /// levels.
    pub fn reveal_act(world: &mut World, act: usize)
        requires
            old(world)@.graph.room_lists_end(),
            old(world)@.graph.level_lists_end(),
        ensures
            final(world)@ == old(world)@.reveal_act(act),
    {
        let level_first = match lookup(&world.acts, Some(act)) {
            Some(a) => match lookup(&world.act_miscs, a.act_misc) {
                Some(act_misc) => act_misc.level_first,
                None => { return ; },
            },
            None => { return ; },
        };
        let mut cursor = level_first;
        let ghost mut fuel: nat = world.levels.len() as nat;
        proof {
            assert(level_list_ends(world@.graph.levels, cursor, fuel));
        }
        while lookup(&world.levels, cursor).is_some()
            invariant
                world@.graph.room_lists_end(),
                level_list_ends(world@.graph.levels, cursor, fuel),
                world@.reveal_levels(cursor, fuel) == old(world)@.reveal_act(act),
            decreases fuel,
        {
            let level = cursor.unwrap();
            let ghost before = world@;
            proof {
                before.graph.lemma_room_lists_end_each(level);
            }
            Level::reveal_level(world, level);
            cursor = world.levels[level].level_next;
            proof {
                before.lemma_reveal_level_keeps_lists(level);
                lemma_level_list_ends_by_links(
                    before.graph.levels,
                    world@.graph.levels,
                    cursor,
                    (fuel - 1) as nat,
                );
                fuel = (fuel - 1) as nat;
            }
        }
    }
}

} // verus!
