use super::level_id::LevelId;
use super::traversal::Visit;
use super::world::{
    follow, level_list, room_list, room_list_ends, Graph, HostCall, Level, RoomEx, WorldView,
};
use vstd::prelude::*;

verus! {

impl WorldView {
    /// Registration is transient: a record that is not registered and is
    /// registered, shown and unregistered again leaves the graph as it was.
    pub proof fn lemma_registration_is_transient(
        self,
        room_ex: usize,
        act: usize,
        level_id: LevelId,
        room: usize,
    )
        requires
            self.graph.unregistered(room_ex),
        ensures
            self.add_room_data(room_ex, act, level_id).reveal_room(room).remove_room_data(
                room_ex,
                act,
                level_id,
            ).graph == self.graph,
    {
        let after = self.add_room_data(room_ex, act, level_id).reveal_room(room).remove_room_data(
            room_ex,
            act,
            level_id,
        );
        assert(after.graph.room_exs =~= self.graph.room_exs);
        assert(after.graph =~= self.graph);
    }

    /// Initializing a level twice in a row is initializing it once, as far
    /// as the graph goes: the second call leaves the head of the room list
    /// as the first left it. Where the first call left the level
    /// initialized, the second asks nothing of the host either.
    pub proof fn lemma_init_level_twice(self, level: usize)
        ensures
            self.init_level(level).init_level(level).graph == self.init_level(level).graph,
            self.init_level(level).graph.level(Some(level)) matches Some(l) && l.is_initialized()
                ==> self.init_level(level).init_level(level) == self.init_level(level),
    {
        let once = self.init_level(level);
        let twice = once.init_level(level);
        assert(twice.graph.levels =~= once.graph.levels);
        assert(twice.graph =~= once.graph);
    }

    /// Revealing a level asks the host to build no other level, and to build
    /// `level` itself only where it is not initialized: the requests made
    /// are the one to build it, if any, and then those of the stops.
    pub proof fn lemma_reveal_level_builds_only_itself(self, level: usize, other: usize)
        ensures
            self.reveal_level(level).calls == self.init_level(level).calls
                + self.init_level(level).graph.cycles(
                self.init_level(level).graph.level_visits(level),
            ),
            self.init_level(level).calls == if self.graph.level(Some(level)) matches Some(l)
                && !l.is_initialized() {
                self.calls.push(HostCall::InitLevel { level })
            } else {
                self.calls
            },
            !self.init_level(level).graph.cycles(
                self.init_level(level).graph.level_visits(level),
            ).contains(HostCall::InitLevel { level: other }),
    {
        let built = self.init_level(level);
        built.graph.lemma_cycles_build_no_level(built.graph.level_visits(level), other);
    }

    /// Revealing a level initializes no other level and registers nothing
    /// for good: the graph afterwards is the graph before, but for the head
    /// of the room list of `level` where that level was not initialized.
    pub proof fn lemma_reveal_level_frame(self, level: usize)
        ensures
            self.reveal_level(level).graph == self.init_level(level).graph,
            self.reveal_level(level).graph.room_exs == self.graph.room_exs,
            self.reveal_level(level).graph.levels.len() == self.graph.levels.len(),
            forall|other: int|
                0 <= other < self.graph.levels.len() && other != level ==> (
                #[trigger] self.reveal_level(level).graph.levels[other]) == self.graph.levels[other],
    {
    }
}

/// A list of room records that ends within `fuel` records ends within any
/// larger number, and is the same list then.
pub proof fn lemma_room_list_fuel(
    room_exs: Seq<RoomEx>,
    start: Option<usize>,
    fuel: nat,
    more: nat,
)
    requires
        room_list_ends(room_exs, start, fuel),
        fuel <= more,
    ensures
        room_list_ends(room_exs, start, more),
        room_list(room_exs, start, more) == room_list(room_exs, start, fuel),
    decreases fuel,
{
    if let Some(r) = follow(room_exs, start) {
        lemma_room_list_fuel(room_exs, r.room_ex_next, (fuel - 1) as nat, (more - 1) as nat);
    }
}

/// Each member of a finite list of room records is a room record, and the
/// list that starts at it is the rest of the list.
pub proof fn lemma_room_list_rest(
    room_exs: Seq<RoomEx>,
    start: Option<usize>,
    fuel: nat,
    at: int,
)
    requires
        room_list_ends(room_exs, start, fuel),
        0 <= at < room_list(room_exs, start, fuel).len(),
    ensures
        at < fuel,
        room_list(room_exs, start, fuel)[at] < room_exs.len(),
        room_list_ends(
            room_exs,
            Some(room_list(room_exs, start, fuel)[at]),
            (fuel - at) as nat,
        ),
        room_list(room_exs, Some(room_list(room_exs, start, fuel)[at]), (fuel - at) as nat)
            == room_list(room_exs, start, fuel).skip(at),
    decreases at,
{
    let list = room_list(room_exs, start, fuel);
    let r = follow(room_exs, start).unwrap();
    if at == 0 {
        assert(list.skip(0) =~= list);
    } else {
        let rest = room_list(room_exs, r.room_ex_next, (fuel - 1) as nat);
        lemma_room_list_rest(room_exs, r.room_ex_next, (fuel - 1) as nat, at - 1);
        assert(list[at] == rest[at - 1]);
        assert(list.skip(at) =~= rest.skip(at - 1));
    }
}

/// No room record occurs twice in a finite list of room records.
pub proof fn lemma_room_list_no_duplicates(room_exs: Seq<RoomEx>, start: Option<usize>, fuel: nat)
    requires
        room_list_ends(room_exs, start, fuel),
    ensures
        room_list(room_exs, start, fuel).no_duplicates(),
    decreases fuel,
{
    let list = room_list(room_exs, start, fuel);
    if let Some(r) = follow(room_exs, start) {
        let first = start.unwrap();
        let rest = room_list(room_exs, r.room_ex_next, (fuel - 1) as nat);
        lemma_room_list_no_duplicates(room_exs, r.room_ex_next, (fuel - 1) as nat);
        assert forall|at: int| 0 <= at < rest.len() implies rest[at] != first by {
            if rest[at] == first {
                lemma_room_list_rest(room_exs, r.room_ex_next, (fuel - 1) as nat, at);
                lemma_room_list_fuel(room_exs, start, (fuel - 1 - at) as nat, fuel);
                assert(list.len() == rest.skip(at).len());
            }
        }
        assert forall|a: int, b: int| 0 <= a < list.len() && 0 <= b < list.len() && a != b implies list[a]
            != list[b] by {
            if a > 0 && b > 0 {
                assert(list[a] == rest[a - 1] && list[b] == rest[b - 1]);
            } else if a == 0 {
                assert(list[b] == rest[b - 1]);
            } else {
                assert(list[a] == rest[a - 1]);
            }
        }
    }
}

impl Graph {
    /// Whether revealing `level` makes any stop at all: the level is
    /// initialized and its act can be reached.
    pub open spec fn revealable(self, level: usize) -> bool {
        match self.level(Some(level)) {
            Some(l) => l.is_initialized() && self.level_act(l) is Some,
            None => false,
        }
    }

    /// Whether `visit` is the stop that some entry of the neighbour list of
    /// `room_ex` leads to, seen from a level with the id `level_no`.
    pub open spec fn near_stop(self, level_no: LevelId, room_ex: usize, visit: Visit) -> bool {
        match self.room_ex(Some(room_ex)) {
            Some(r) => exists|k: int|
                0 <= k < r.room_ex_near@.len() && self.near_visit(
                    level_no,
                    #[trigger] r.room_ex_near@[k],
                ) == Some(visit),
            None => false,
        }
    }

    /// The stops among the neighbours of a room record are exactly those
    /// that the entries of its neighbour list lead to.
    pub proof fn lemma_near_visits_contains(
        self,
        level_no: LevelId,
        near: Seq<Option<usize>>,
        visit: Visit,
    )
        ensures
            self.near_visits(level_no, near).contains(visit) <==> exists|k: int|
                0 <= k < near.len() && self.near_visit(level_no, #[trigger] near[k]) == Some(visit),
        decreases near.len(),
    {
        if near.len() > 0 {
            let front = near.drop_last();
            let before = self.near_visits(level_no, front);
            let stops = self.near_visits(level_no, near);
            self.lemma_near_visits_contains(level_no, front, visit);
            if stops.contains(visit) {
                let at = choose|at: int| 0 <= at < stops.len() && stops[at] == visit;
                if at < before.len() {
                    assert(before[at] == visit);
                    let k = choose|k: int|
                        0 <= k < front.len() && self.near_visit(level_no, #[trigger] front[k])
                            == Some(visit);
                    assert(near[k] == front[k]);
                } else {
                    assert(self.near_visit(level_no, near[near.len() - 1]) == Some(visit));
                }
            }
            if exists|k: int|
                0 <= k < near.len() && self.near_visit(level_no, #[trigger] near[k]) == Some(
                    visit,
                ) {
                let k = choose|k: int|
                    0 <= k < near.len() && self.near_visit(level_no, #[trigger] near[k]) == Some(
                        visit,
                    );
                if k < front.len() {
                    assert(front[k] == near[k]);
                    let at = choose|at: int| 0 <= at < before.len() && before[at] == visit;
                    assert(stops[at] == visit);
                } else {
                    assert(stops[stops.len() - 1] == visit);
                }
            }
        }
    }

    /// The stops made for one room record are the record itself and what
    /// its neighbour list leads to.
    pub proof fn lemma_room_visits_contains(self, level: usize, room_ex: usize, act: usize, visit: Visit)
        ensures
            self.room_visits(level, room_ex, act).contains(visit) <==> (self.level(
                Some(level),
            ) matches Some(l) && (visit == (Visit { room_ex, act }) || self.near_stop(
                l.level_no,
                room_ex,
                visit,
            ))),
    {
        if let Some(l) = self.level(Some(level)) {
            let own = seq![Visit { room_ex, act }];
            let near = match self.room_ex(Some(room_ex)) {
                Some(r) => self.near_visits(l.level_no, r.room_ex_near@),
                None => Seq::empty(),
            };
            let stops = self.room_visits(level, room_ex, act);
            if let Some(r) = self.room_ex(Some(room_ex)) {
                self.lemma_near_visits_contains(l.level_no, r.room_ex_near@, visit);
            }
            if stops.contains(visit) {
                let at = choose|at: int| 0 <= at < stops.len() && stops[at] == visit;
                if at > 0 {
                    assert(near[at - 1] == visit);
                }
            }
            if visit == (Visit { room_ex, act }) {
                assert(stops[0] == visit);
            }
            if self.near_stop(l.level_no, room_ex, visit) {
                let at = choose|at: int| 0 <= at < near.len() && near[at] == visit;
                assert(stops[at + 1] == visit);
            }
        }
    }

    /// The stops made for a list of room records are those made for its
    /// members.
    pub proof fn lemma_list_visits_contains(
        self,
        level: usize,
        start: Option<usize>,
        act: usize,
        fuel: nat,
        visit: Visit,
    )
        ensures
            self.list_visits(level, start, act, fuel).contains(visit) <==> exists|at: int|
                0 <= at < room_list(self.room_exs, start, fuel).len() && (
                #[trigger] self.room_visits(
                    level,
                    room_list(self.room_exs, start, fuel)[at],
                    act,
                )).contains(visit),
        decreases fuel,
    {
        let list = room_list(self.room_exs, start, fuel);
        let stops = self.list_visits(level, start, act, fuel);
        if let Some(r) = self.room_ex(start) {
            if fuel > 0 {
                let first = self.room_visits(level, start.unwrap(), act);
                let rest = room_list(self.room_exs, r.room_ex_next, (fuel - 1) as nat);
                let rest_stops = self.list_visits(level, r.room_ex_next, act, (fuel - 1) as nat);
                self.lemma_list_visits_contains(level, r.room_ex_next, act, (fuel - 1) as nat, visit);
                if stops.contains(visit) {
                    let at = choose|at: int| 0 <= at < stops.len() && stops[at] == visit;
                    if at < first.len() {
                        assert(first[at] == visit);
                        assert(self.room_visits(level, list[0], act).contains(visit));
                    } else {
                        assert(rest_stops[at - first.len()] == visit);
                        let q = choose|q: int|
                            0 <= q < rest.len() && (#[trigger] self.room_visits(
                                level,
                                rest[q],
                                act,
                            )).contains(visit);
                        assert(list[q + 1] == rest[q]);
                        assert(self.room_visits(level, list[q + 1], act).contains(visit));
                    }
                }
                if exists|at: int|
                    0 <= at < list.len() && (#[trigger] self.room_visits(
                        level,
                        list[at],
                        act,
                    )).contains(visit) {
                    let q = choose|q: int|
                        0 <= q < list.len() && (#[trigger] self.room_visits(
                            level,
                            list[q],
                            act,
                        )).contains(visit);
                    if q == 0 {
                        let at = choose|at: int| 0 <= at < first.len() && first[at] == visit;
                        assert(stops[at] == visit);
                    } else {
                        assert(list[q] == rest[q - 1]);
                        assert(self.room_visits(level, rest[q - 1], act).contains(visit));
                        let at = choose|at: int|
                            0 <= at < rest_stops.len() && rest_stops[at] == visit;
                        assert(stops[first.len() + at] == visit);
                    }
                }
            }
        }
    }

    /// Revealing a level goes exactly one hop beyond it. A stop is made at
    /// each room record of the level's list, and at each neighbour of such
    /// a record that lies in an initialized level with another id and a
    /// reachable act; at no other record, so not at a neighbour of a
    /// neighbour.
    pub proof fn lemma_level_visits_one_hop(self, level: usize, visit: Visit)
        ensures
            self.level_visits(level).contains(visit) <==> self.revealable(level) && exists|at: int|
                0 <= at < self.rooms_of(level).len() && {
                    let room_ex = #[trigger] self.rooms_of(level)[at];
                    let l = self.levels[level as int];
                    ||| visit == (Visit { room_ex, act: self.level_act(l).unwrap() })
                    ||| self.near_stop(l.level_no, room_ex, visit)
                },
    {
        if self.revealable(level) {
            let l = self.levels[level as int];
            let act = self.level_act(l).unwrap();
            let list = self.rooms_of(level);
            self.lemma_list_visits_contains(level, l.room_ex_first, act, self.room_exs.len(), visit);
            if self.level_visits(level).contains(visit) {
                let at = choose|at: int|
                    0 <= at < list.len() && (#[trigger] self.room_visits(
                        level,
                        list[at],
                        act,
                    )).contains(visit);
                self.lemma_room_visits_contains(level, list[at], act, visit);
                assert(self.rooms_of(level)[at] == list[at]);
            }
            if exists|at: int|
                0 <= at < self.rooms_of(level).len() && {
                    let room_ex = #[trigger] self.rooms_of(level)[at];
                    ||| visit == (Visit { room_ex, act })
                    ||| self.near_stop(l.level_no, room_ex, visit)
                } {
                let at = choose|at: int|
                    0 <= at < self.rooms_of(level).len() && {
                        let room_ex = #[trigger] self.rooms_of(level)[at];
                        ||| visit == (Visit { room_ex, act })
                        ||| self.near_stop(l.level_no, room_ex, visit)
                    };
                self.lemma_room_visits_contains(level, list[at], act, visit);
                assert(self.room_visits(level, list[at], act).contains(visit));
            }
        }
    }
}

/// The number of stops in `visits` that are made at `room_ex`.
pub open spec fn stops_at(visits: Seq<Visit>, room_ex: usize) -> nat
    decreases visits.len(),
{
    if visits.len() == 0 {
        0
    } else {
        stops_at(visits.drop_last(), room_ex) + if visits.last().room_ex == room_ex {
            1nat
        } else {
            0nat
        }
    }
}

/// The stops at a room record in two sequences of stops in a row are those
/// in the first and those in the second.
pub proof fn lemma_stops_at_add(first: Seq<Visit>, second: Seq<Visit>, room_ex: usize)
    ensures
        stops_at(first + second, room_ex) == stops_at(first, room_ex) + stops_at(second, room_ex),
    decreases second.len(),
{
    if second.len() == 0 {
        assert(first + second =~= first);
    } else {
        lemma_stops_at_add(first, second.drop_last(), room_ex);
        assert((first + second).drop_last() =~= first + second.drop_last());
    }
}

impl Graph {
    /// Whether `room_ex` is a room record of a level with the id
    /// `level_no`.
    pub open spec fn lies_in(self, room_ex: usize, level_no: LevelId) -> bool {
        match self.room_ex(Some(room_ex)) {
            Some(r) => match self.level(r.level) {
                Some(l) => l.level_no == level_no,
                None => false,
            },
            None => false,
        }
    }

    /// A neighbour that lies in a level with the id of the level being
    /// revealed is passed over, wherever it occurs in a neighbour list.
    pub proof fn lemma_same_level_neighbours_skipped(
        self,
        level_no: LevelId,
        near: Seq<Option<usize>>,
        room_ex: usize,
    )
        requires
            self.lies_in(room_ex, level_no),
        ensures
            self.near_visit(level_no, Some(room_ex)) is None,
            stops_at(self.near_visits(level_no, near), room_ex) == 0,
        decreases near.len(),
    {
        if near.len() > 0 {
            self.lemma_same_level_neighbours_skipped(level_no, near.drop_last(), room_ex);
            if let Some(visit) = self.near_visit(level_no, near.last()) {
                let before = self.near_visits(level_no, near.drop_last());
                assert(before.push(visit).drop_last() =~= before);
            }
        }
    }

    /// The stops made for a finite list of room records hold one stop at
    /// each member that lies in a level with the id of the level being
    /// revealed, however often the member occurs in neighbour lists.
    pub proof fn lemma_list_visits_stop_once(
        self,
        level: usize,
        start: Option<usize>,
        act: usize,
        fuel: nat,
        room_ex: usize,
    )
        requires
            room_list_ends(self.room_exs, start, fuel),
            self.level(Some(level)) matches Some(l) && self.lies_in(room_ex, l.level_no),
        ensures
            stops_at(self.list_visits(level, start, act, fuel), room_ex) == if room_list(
                self.room_exs,
                start,
                fuel,
            ).contains(room_ex) {
                1nat
            } else {
                0nat
            },
        decreases fuel,
    {
        let l = self.level(Some(level)).unwrap();
        let list = room_list(self.room_exs, start, fuel);
        if let Some(r) = self.room_ex(start) {
            let first = start.unwrap();
            let rest = room_list(self.room_exs, r.room_ex_next, (fuel - 1) as nat);
            let own = seq![Visit { room_ex: first, act }];
            let near = self.near_visits(l.level_no, r.room_ex_near@);
            self.lemma_list_visits_stop_once(level, r.room_ex_next, act, (fuel - 1) as nat, room_ex);
            self.lemma_same_level_neighbours_skipped(l.level_no, r.room_ex_near@, room_ex);
            lemma_stops_at_add(own, near, room_ex);
            lemma_stops_at_add(
                own + near,
                self.list_visits(level, r.room_ex_next, act, (fuel - 1) as nat),
                room_ex,
            );
            assert(own.drop_last() =~= Seq::<Visit>::empty());
            assert(stops_at(own.drop_last(), room_ex) == 0);
            assert(stops_at(own, room_ex) == if first == room_ex {
                1nat
            } else {
                0nat
            });
            lemma_room_list_no_duplicates(self.room_exs, start, fuel);
            if rest.contains(room_ex) {
                let at = choose|at: int| 0 <= at < rest.len() && rest[at] == room_ex;
                assert(list[at + 1] == room_ex);
                assert(list[0] == first);
            }
            if first == room_ex {
                assert(list[0] == room_ex);
            }
            if list.contains(room_ex) && first != room_ex {
                let at = choose|at: int| 0 <= at < list.len() && list[at] == room_ex;
                assert(rest[at - 1] == room_ex);
            }
        }
    }

    /// A room record of the level being revealed is revealed once: the
    /// stops made to reveal a level hold exactly one stop at each record of
    /// its list that lies in a level with its id, though the record may be
    /// a neighbour of other records of the list.
    pub proof fn lemma_level_visits_stop_once(self, level: usize, room_ex: usize)
        requires
            self.rooms_end(level),
            self.level(Some(level)) matches Some(l) && self.lies_in(room_ex, l.level_no),
        ensures
            stops_at(self.level_visits(level), room_ex) == if self.revealable(level)
                && self.rooms_of(level).contains(room_ex) {
                1nat
            } else {
                0nat
            },
    {
        let l = self.level(Some(level)).unwrap();
        if self.revealable(level) {
            let n = self.room_exs.len();
            self.lemma_list_visits_stop_once(
                level,
                l.room_ex_first,
                self.level_act(l).unwrap(),
                n,
                room_ex,
            );
        }
    }

    /// The requests made at a sequence of stops are those made at its
    /// stops, and no others.
    pub proof fn lemma_cycles_contains(self, visits: Seq<Visit>, call: HostCall)
        ensures
            self.cycles(visits).contains(call) <==> exists|at: int|
                0 <= at < visits.len() && (#[trigger] self.room_cycle(
                    visits[at].room_ex,
                    visits[at].act,
                )).contains(call),
        decreases visits.len(),
    {
        if visits.len() > 0 {
            let front = visits.drop_last();
            let before = self.cycles(front);
            let last = self.room_cycle(visits.last().room_ex, visits.last().act);
            let calls = self.cycles(visits);
            self.lemma_cycles_contains(front, call);
            if calls.contains(call) {
                let i = choose|i: int| 0 <= i < calls.len() && calls[i] == call;
                if i < before.len() {
                    assert(before[i] == call);
                    let at = choose|at: int|
                        0 <= at < front.len() && (#[trigger] self.room_cycle(
                            front[at].room_ex,
                            front[at].act,
                        )).contains(call);
                    assert(visits[at] == front[at]);
                    assert(self.room_cycle(visits[at].room_ex, visits[at].act).contains(call));
                } else {
                    assert(last[i - before.len()] == call);
                    assert(self.room_cycle(
                        visits[visits.len() - 1].room_ex,
                        visits[visits.len() - 1].act,
                    ).contains(call));
                }
            }
            if exists|at: int|
                0 <= at < visits.len() && (#[trigger] self.room_cycle(
                    visits[at].room_ex,
                    visits[at].act,
                )).contains(call) {
                let at = choose|at: int|
                    0 <= at < visits.len() && (#[trigger] self.room_cycle(
                        visits[at].room_ex,
                        visits[at].act,
                    )).contains(call);
                if at < front.len() {
                    assert(front[at] == visits[at]);
                    assert(self.room_cycle(front[at].room_ex, front[at].act).contains(call));
                    let i = choose|i: int| 0 <= i < before.len() && before[i] == call;
                    assert(calls[i] == call);
                } else {
                    let i = choose|i: int| 0 <= i < last.len() && last[i] == call;
                    assert(calls[before.len() + i] == call);
                }
            }
        }
    }

    /// At no stop is the host asked to build a level.
    pub proof fn lemma_cycles_build_no_level(self, visits: Seq<Visit>, level: usize)
        ensures
            !self.cycles(visits).contains(HostCall::InitLevel { level }),
    {
        self.lemma_cycles_contains(visits, HostCall::InitLevel { level });
        assert forall|at: int| 0 <= at < visits.len() implies !(#[trigger] self.room_cycle(
            visits[at].room_ex,
            visits[at].act,
        )).contains(HostCall::InitLevel { level }) by {
            let cycle = self.room_cycle(visits[at].room_ex, visits[at].act);
            if cycle.contains(HostCall::InitLevel { level }) {
                let i = choose|i: int| 0 <= i < cycle.len() && cycle[i] == (HostCall::InitLevel {
                    level,
                });
            }
        }
    }
}

/// Which levels a list of levels holds depends on the forward links only.
pub proof fn lemma_level_list_by_links(
    before: Seq<Level>,
    after: Seq<Level>,
    start: Option<usize>,
    fuel: nat,
)
    requires
        before.len() == after.len(),
        forall|i: int| 0 <= i < before.len() ==> before[i].level_next == after[i].level_next,
    ensures
        level_list(after, start, fuel) == level_list(before, start, fuel),
    decreases fuel,
{
    if let Some(l) = follow(before, start) {
        if fuel > 0 {
            lemma_level_list_by_links(before, after, l.level_next, (fuel - 1) as nat);
        }
    }
}

impl WorldView {
    /// The world after the levels `levels` were revealed one after the
    /// other.
    pub open spec fn reveal_each(self, levels: Seq<usize>) -> WorldView
        decreases levels.len(),
    {
        if levels.len() == 0 {
            self
        } else {
            self.reveal_level(levels[0]).reveal_each(levels.drop_first())
        }
    }

    /// Revealing the levels of a list from `start` on is revealing, one
    /// after the other, the levels that the list holds before the first of
    /// them is revealed: revealing a level takes no level out of the list
    /// and puts none in.
    pub proof fn lemma_reveal_levels_is_each(self, start: Option<usize>, fuel: nat)
        ensures
            self.reveal_levels(start, fuel) == self.reveal_each(
                level_list(self.graph.levels, start, fuel),
            ),
        decreases fuel,
    {
        if let Some(l) = self.graph.level(start) {
            if fuel > 0 {
                let first = start.unwrap();
                let next = self.reveal_level(first);
                let rest = level_list(self.graph.levels, l.level_next, (fuel - 1) as nat);
                next.lemma_reveal_levels_is_each(l.level_next, (fuel - 1) as nat);
                self.lemma_reveal_level_keeps_lists(first);
                lemma_level_list_by_links(
                    self.graph.levels,
                    next.graph.levels,
                    l.level_next,
                    (fuel - 1) as nat,
                );
                assert((seq![first] + rest).drop_first() =~= rest);
            }
        }
    }

    /// Revealing an act is revealing each level of the act's list, in list
    /// order.
    pub proof fn lemma_reveal_act_is_each_level(self, act: usize)
        ensures
            self.reveal_act(act) == self.reveal_each(self.graph.levels_of(act)),
    {
        if let Some(a) = self.graph.act(Some(act)) {
            if let Some(act_misc) = self.graph.act_misc(a.act_misc) {
                self.lemma_reveal_levels_is_each(act_misc.level_first, self.graph.levels.len());
            }
        }
    }

    /// Revealing levels one after the other changes the graph in the heads
    /// of room lists only, and only in those of the levels revealed.
    pub proof fn lemma_reveal_each_frame(self, levels: Seq<usize>)
        ensures
            self.reveal_each(levels).graph == (Graph {
                levels: self.reveal_each(levels).graph.levels,
                ..self.graph
            }),
            self.reveal_each(levels).graph.levels.len() == self.graph.levels.len(),
            forall|i: int|
                0 <= i < self.graph.levels.len() ==> (#[trigger] self.reveal_each(
                    levels,
                ).graph.levels[i]) == (Level {
                    room_ex_first: self.reveal_each(levels).graph.levels[i].room_ex_first,
                    ..self.graph.levels[i]
                }),
            forall|i: int|
                0 <= i < self.graph.levels.len() && !levels.contains(i as usize) ==> (
                #[trigger] self.reveal_each(levels).graph.levels[i]) == self.graph.levels[i],
        decreases levels.len(),
    {
        if levels.len() > 0 {
            let next = self.reveal_level(levels[0]);
            let rest = levels.drop_first();
            next.lemma_reveal_each_frame(rest);
            self.lemma_reveal_level_frame(levels[0]);
            assert forall|i: int|
                0 <= i < self.graph.levels.len() && !levels.contains(i as usize) implies (
            #[trigger] self.reveal_each(levels).graph.levels[i]) == self.graph.levels[i] by {
                if rest.contains(i as usize) {
                    let at = choose|at: int| 0 <= at < rest.len() && rest[at] == i as usize;
                    assert(levels[at + 1] == i as usize);
                }
                assert(levels[0] != i as usize);
            }
        }
    }

    /// Revealing an act leaves every level outside the act's list as it
    /// was, and every room record, act and unit; of a level of the act it
    /// changes the head of the room list at most.
    pub proof fn lemma_reveal_act_frame(self, act: usize)
        ensures
            self.reveal_act(act).graph == (Graph {
                levels: self.reveal_act(act).graph.levels,
                ..self.graph
            }),
            self.reveal_act(act).graph.levels.len() == self.graph.levels.len(),
            forall|i: int|
                0 <= i < self.graph.levels.len() ==> (#[trigger] self.reveal_act(
                    act,
                ).graph.levels[i]) == (Level {
                    room_ex_first: self.reveal_act(act).graph.levels[i].room_ex_first,
                    ..self.graph.levels[i]
                }),
            forall|i: int|
                0 <= i < self.graph.levels.len() && !self.graph.levels_of(act).contains(
                    i as usize,
                ) ==> (#[trigger] self.reveal_act(act).graph.levels[i]) == self.graph.levels[i],
    {
        self.lemma_reveal_act_is_each_level(act);
        self.lemma_reveal_each_frame(self.graph.levels_of(act));
    }
}

} // verus!
