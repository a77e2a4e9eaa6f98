//! The order in which rooms are announced: breadth first from the root, so that
//! a parent always comes before its children.

use vstd::prelude::*;

use crate::rumble_model::{rooms_view, RoomData, RoomInfo, ROOT_ROOM_UUID};

verus! {

/// Whether `room` is listed as a child of the room with the given UUID. The root
/// room is nobody's child.
pub open spec fn is_child_of(room: RoomData, parent: u128) -> bool {
    room.uuid() is Some && room.uuid() != Some(ROOT_ROOM_UUID) && room.parent() == parent
}

/// The positions, among the first `n` rooms, of the children of a room.
pub open spec fn children_among(rooms: Seq<RoomData>, parent: u128, n: nat) -> Seq<int>
    decreases n,
{
    if n == 0 {
        Seq::empty()
    } else {
        let earlier = children_among(rooms, parent, (n - 1) as nat);
        if is_child_of(rooms[n - 1], parent) {
            earlier.push(n - 1)
        } else {
            earlier
        }
    }
}

/// The positions of the children of a room, in the order in which they are listed.
pub open spec fn children(rooms: Seq<RoomData>, parent: u128) -> Seq<int> {
    children_among(rooms, parent, rooms.len())
}

/// Whether the room at position `i` is the first one listed as the root.
pub open spec fn is_root_entry(rooms: Seq<RoomData>, i: int) -> bool {
    &&& 0 <= i < rooms.len()
    &&& rooms[i].uuid() == Some(ROOT_ROOM_UUID)
    &&& forall|j: int| 0 <= j < i ==> rooms[j].uuid() != Some(ROOT_ROOM_UUID)
}

/// Whether the root is among the listed rooms.
pub open spec fn lists_root(rooms: Seq<RoomData>) -> bool {
    exists|i: int| is_root_entry(rooms, i)
}

/// Where the walk starts: at the root, or at its children where the root itself
/// is not listed.
pub open spec fn start(rooms: Seq<RoomData>) -> Seq<int> {
    if lists_root(rooms) {
        seq![choose|i: int| is_root_entry(rooms, i)]
    } else {
        children(rooms, ROOT_ROOM_UUID)
    }
}

/// The UUID of the room at a position (of a room that has one).
pub open spec fn uuid_at(rooms: Seq<RoomData>, i: int) -> u128 {
    match rooms[i].uuid() {
        Some(uuid) => uuid,
        None => ROOT_ROOM_UUID,
    }
}

/// The children of the rooms at the given positions, one room after the other.
pub open spec fn children_of_all(rooms: Seq<RoomData>, order: Seq<int>) -> Seq<int>
    decreases order.len(),
{
    if order.len() == 0 {
        Seq::empty()
    } else {
        children_of_all(rooms, order.drop_last()) + children(rooms, uuid_at(rooms, order.last()))
    }
}

/// What has been put in line once the rooms in `visited` have been visited.
pub open spec fn in_line(rooms: Seq<RoomData>, visited: Seq<int>) -> Seq<int> {
    start(rooms) + children_of_all(rooms, visited)
}

/// Whether `order` is the breadth-first walk: each room is in line before it is
/// visited, and in the end everything in line has been visited.
pub open spec fn is_walk(rooms: Seq<RoomData>, order: Seq<int>) -> bool {
    &&& order == in_line(rooms, order)
    &&& forall|n: int|
        0 <= n < order.len() ==> n < #[trigger] in_line(rooms, order.take(n)).len()
}

/// Whether the walk comes to an end. It does unless a room that the walk reaches
/// is listed a second time underneath itself.
pub open spec fn walk_ends(rooms: Seq<RoomData>) -> bool {
    exists|order: Seq<int>| is_walk(rooms, order)
}

/// The breadth-first walk through the listed rooms, as positions in the list.
pub open spec fn walk(rooms: Seq<RoomData>) -> Seq<int> {
    choose|order: Seq<int>| is_walk(rooms, order)
}

/// The positions as mathematical integers.
pub open spec fn positions(order: Seq<usize>) -> Seq<int> {
    order.map_values(|i: usize| i as int)
}

// ---------------------------------------------------------------------------
// Facts about the walk
// ---------------------------------------------------------------------------

/// Children among the first rooms: exactly the positions of children, ascending.
proof fn lemma_children_among(rooms: Seq<RoomData>, parent: u128, n: nat)
    requires
        n <= rooms.len(),
    ensures
        forall|k: int|
            0 <= k < children_among(rooms, parent, n).len() ==> {
                &&& 0 <= #[trigger] children_among(rooms, parent, n)[k] < n
                &&& is_child_of(rooms[children_among(rooms, parent, n)[k]], parent)
            },
        forall|i: int|
            0 <= i < n && is_child_of(rooms[i], parent) ==> #[trigger] children_among(
                rooms,
                parent,
                n,
            ).contains(i),
    decreases n,
{
    if n > 0 {
        let earlier = children_among(rooms, parent, (n - 1) as nat);
        let all = children_among(rooms, parent, n);
        lemma_children_among(rooms, parent, (n - 1) as nat);
        assert forall|i: int| 0 <= i < n && is_child_of(rooms[i], parent) implies all.contains(
            i,
        ) by {
            if i == n - 1 {
                assert(all[all.len() - 1] == i);
            } else {
                assert(earlier.contains(i));
                let k = choose|k: int| 0 <= k < earlier.len() && earlier[k] == i;
                assert(all[k] == i);
            }
        }
    }
}

/// The children of a room are exactly the rooms listed as its children.
pub proof fn lemma_children(rooms: Seq<RoomData>, parent: u128)
    ensures
        forall|k: int|
            0 <= k < children(rooms, parent).len() ==> {
                &&& 0 <= #[trigger] children(rooms, parent)[k] < rooms.len()
                &&& is_child_of(rooms[children(rooms, parent)[k]], parent)
            },
        forall|i: int|
            0 <= i < rooms.len() && is_child_of(rooms[i], parent) ==> #[trigger] children(
                rooms,
                parent,
            ).contains(i),
{
    lemma_children_among(rooms, parent, rooms.len());
}

/// The children of a longer list of rooms begin with those of a shorter one.
proof fn lemma_children_of_prefix(rooms: Seq<RoomData>, order: Seq<int>, n: int)
    requires
        0 <= n <= order.len(),
    ensures
        children_of_all(rooms, order.take(n)).len() <= children_of_all(rooms, order).len(),
        children_of_all(rooms, order).take(children_of_all(rooms, order.take(n)).len() as int)
            == children_of_all(rooms, order.take(n)),
    decreases order.len(),
{
    if n == order.len() {
        assert(order.take(n) =~= order);
    } else {
        let shorter = order.drop_last();
        lemma_children_of_prefix(rooms, shorter, n);
        assert(shorter.take(n) =~= order.take(n));
        let all = children_of_all(rooms, order);
        let some = children_of_all(rooms, shorter);
        let few = children_of_all(rooms, order.take(n));
        assert(all.take(few.len() as int) =~= some.take(few.len() as int));
        return ;
    }
    assert(children_of_all(rooms, order).take(children_of_all(rooms, order).len() as int)
        =~= children_of_all(rooms, order));
}

/// What is in line after a part of the walk is a beginning of the walk.
proof fn lemma_line_is_prefix(rooms: Seq<RoomData>, order: Seq<int>, n: int)
    requires
        is_walk(rooms, order),
        0 <= n <= order.len(),
    ensures
        in_line(rooms, order.take(n)).len() <= order.len(),
        order.take(in_line(rooms, order.take(n)).len() as int) == in_line(rooms, order.take(n)),
{
    lemma_children_of_prefix(rooms, order, n);
    let line = in_line(rooms, order.take(n));
    assert(order =~= in_line(rooms, order));
    assert(order.take(line.len() as int) =~= line);
}

/// There is only one walk.
pub proof fn walk_is_unique(rooms: Seq<RoomData>, a: Seq<int>, b: Seq<int>)
    requires
        is_walk(rooms, a),
        is_walk(rooms, b),
    ensures
        a == b,
{
    lemma_walks_agree(rooms, a, b, if a.len() < b.len() {
        a.len()
    } else {
        b.len()
    });
    if a.len() < b.len() {
        assert(a.take(a.len() as int) =~= a);
        assert(in_line(rooms, b.take(a.len() as int)).len() == a.len());
        assert(false);
    } else if b.len() < a.len() {
        assert(b.take(b.len() as int) =~= b);
        assert(in_line(rooms, a.take(b.len() as int)).len() == b.len());
        assert(false);
    } else {
        assert(a =~= a.take(a.len() as int));
        assert(b =~= b.take(b.len() as int));
    }
}

proof fn lemma_walks_agree(rooms: Seq<RoomData>, a: Seq<int>, b: Seq<int>, n: nat)
    requires
        is_walk(rooms, a),
        is_walk(rooms, b),
        n <= a.len(),
        n <= b.len(),
    ensures
        a.take(n as int) == b.take(n as int),
    decreases n,
{
    if n > 0 {
        let m = n - 1;
        lemma_walks_agree(rooms, a, b, m as nat);
        lemma_line_is_prefix(rooms, a, m);
        lemma_line_is_prefix(rooms, b, m);
        let line = in_line(rooms, a.take(m));
        assert(m < line.len());
        assert(a[m] == a.take(line.len() as int)[m]);
        assert(b[m] == b.take(line.len() as int)[m]);
        assert(a.take(n as int) =~= a.take(m).push(a[m]));
        assert(b.take(n as int) =~= b.take(m).push(b[m]));
    } else {
        assert(a.take(0) =~= b.take(0));
    }
}

/// Every position in line belongs to a listed room that has a UUID.
pub proof fn lemma_line_in_range(rooms: Seq<RoomData>, visited: Seq<int>)
    ensures
        forall|k: int|
            0 <= k < in_line(rooms, visited).len() ==> {
                &&& 0 <= #[trigger] in_line(rooms, visited)[k] < rooms.len()
                &&& rooms[in_line(rooms, visited)[k]].uuid() is Some
            },
    decreases visited.len(),
{
    let line = in_line(rooms, visited);
    if visited.len() == 0 {
        assert(line =~= start(rooms));
        lemma_children(rooms, ROOT_ROOM_UUID);
    } else {
        let earlier = in_line(rooms, visited.drop_last());
        let more = children(rooms, uuid_at(rooms, visited.last()));
        lemma_line_in_range(rooms, visited.drop_last());
        lemma_children(rooms, uuid_at(rooms, visited.last()));
        assert(line =~= earlier + more);
        assert forall|k: int| 0 <= k < line.len() implies 0 <= #[trigger] line[k] < rooms.len()
            && rooms[line[k]].uuid() is Some by {
            if k < earlier.len() {
                assert(line[k] == earlier[k]);
            } else {
                assert(line[k] == more[k - earlier.len()]);
            }
        }
    }
}

/// A room that is reached as a child comes after its parent in the walk.
pub proof fn parents_come_first(rooms: Seq<RoomData>, k: int)
    requires
        walk_ends(rooms),
        start(rooms).len() <= k < walk(rooms).len(),
    ensures
        exists|j: int|
            0 <= j < k && uuid_at(rooms, #[trigger] walk(rooms)[j]) == rooms[walk(
                rooms,
            )[k]].parent() && is_child_of(rooms[walk(rooms)[k]], uuid_at(rooms, walk(rooms)[j])),
{
    let order = walk(rooms);
    assert(is_walk(rooms, order));
    assert(order.take(order.len() as int) =~= order);
    lemma_child_has_parent_before(rooms, order, order.len() as int, k);
}

/// The walk reaches every listed child of a room that it reaches.
pub proof fn children_are_reached(rooms: Seq<RoomData>, k: int, i: int)
    requires
        walk_ends(rooms),
        0 <= k < walk(rooms).len(),
        0 <= i < rooms.len(),
        rooms[walk(rooms)[k]].uuid() is Some,
        rooms[i].uuid() is Some,
        rooms[i].uuid() != Some(ROOT_ROOM_UUID),
        rooms[walk(rooms)[k]].uuid() == Some(rooms[i].parent()),
    ensures
        walk(rooms).contains(i),
{
    let order = walk(rooms);
    assert(is_walk(rooms, order));
    lemma_children(rooms, rooms[i].parent());
    assert(children(rooms, rooms[i].parent()).contains(i));
    lemma_children_in_line(rooms, order, k, i);
    let all = children_of_all(rooms, order);
    let m = choose|m: int| 0 <= m < all.len() && all[m] == i;
    assert(in_line(rooms, order)[start(rooms).len() + m] == i);
    assert(order[start(rooms).len() + m] == i);
}

proof fn lemma_children_in_line(rooms: Seq<RoomData>, order: Seq<int>, k: int, i: int)
    requires
        0 <= k < order.len(),
        children(rooms, uuid_at(rooms, order[k])).contains(i),
    ensures
        children_of_all(rooms, order).contains(i),
    decreases order.len(),
{
    let front = order.drop_last();
    let before = children_of_all(rooms, front);
    let all = children_of_all(rooms, order);
    let more = children(rooms, uuid_at(rooms, order.last()));
    if k < front.len() {
        lemma_children_in_line(rooms, front, k, i);
        let m = choose|m: int| 0 <= m < before.len() && before[m] == i;
        assert(all[m] == i);
    } else {
        let m = choose|m: int| 0 <= m < more.len() && more[m] == i;
        assert(all[before.len() + m] == i);
    }
}

/// The walk reaches the root where it is listed, and what lies right below it in any case.
pub proof fn the_top_is_reached(rooms: Seq<RoomData>, i: int)
    requires
        walk_ends(rooms),
        0 <= i < rooms.len(),
        rooms[i].uuid() is Some,
        rooms[i].uuid() == Some(ROOT_ROOM_UUID) ==> forall|j: int|
            0 <= j < i ==> (#[trigger] rooms[j]).uuid() != Some(ROOT_ROOM_UUID),
        rooms[i].uuid() == Some(ROOT_ROOM_UUID) || rooms[i].parent() == ROOT_ROOM_UUID,
    ensures
        walk(rooms).contains(i),
{
    let order = walk(rooms);
    assert(is_walk(rooms, order));
    let first = start(rooms);
    assert(order.take(first.len() as int) =~= first);
    if rooms[i].uuid() == Some(ROOT_ROOM_UUID) {
        assert(is_root_entry(rooms, i));
        let r = choose|r: int| is_root_entry(rooms, r);
        assert(r == i);
        assert(order.take(first.len() as int)[0] == first[0]);
        assert(order[0] == i);
    } else if lists_root(rooms) {
        let r = choose|r: int| is_root_entry(rooms, r);
        assert(first[0] == r);
        assert(order.take(first.len() as int)[0] == first[0]);
        children_are_reached(rooms, 0, i);
    } else {
        lemma_children(rooms, ROOT_ROOM_UUID);
        assert(children(rooms, ROOT_ROOM_UUID).contains(i));
        let m = choose|m: int| 0 <= m < first.len() && first[m] == i;
        assert(order.take(first.len() as int)[m] == first[m]);
        assert(order[m] == i);
    }
}

proof fn lemma_child_has_parent_before(rooms: Seq<RoomData>, order: Seq<int>, n: int, k: int)
    requires
        is_walk(rooms, order),
        0 <= n <= order.len(),
        start(rooms).len() <= k < in_line(rooms, order.take(n)).len(),
    ensures
        exists|j: int|
            0 <= j < k && j < n && uuid_at(rooms, #[trigger] order[j]) == rooms[order[k]].parent()
                && is_child_of(rooms[order[k]], uuid_at(rooms, order[j])),
    decreases n,
{
    let line = in_line(rooms, order.take(n));
    lemma_line_is_prefix(rooms, order, n);
    if n == 0 {
        assert(order.take(0) =~= Seq::<int>::empty());
    } else {
        let m = n - 1;
        let earlier = in_line(rooms, order.take(m));
        assert(order.take(n).drop_last() =~= order.take(m));
        let more = children(rooms, uuid_at(rooms, order[m]));
        assert(line =~= earlier + more);
        if k < earlier.len() {
            lemma_child_has_parent_before(rooms, order, m, k);
        } else {
            assert(m < earlier.len());
            lemma_children(rooms, uuid_at(rooms, order[m]));
            assert(order[k] == order.take(line.len() as int)[k]);
            assert(order[k] == more[k - earlier.len()]);
            assert(is_child_of(rooms[order[k]], uuid_at(rooms, order[m])));
        }
    }
}

// ---------------------------------------------------------------------------
// The walk, computed
// ---------------------------------------------------------------------------

/// The UUID and the parent of each room.
struct RoomKeys {
    uuids: Vec<Option<u128>>,
    parents: Vec<u128>,
}

impl RoomKeys {
    spec fn of(&self, rooms: Seq<RoomData>) -> bool {
        &&& self.uuids@.len() == rooms.len()
        &&& self.parents@.len() == rooms.len()
        &&& forall|i: int| 0 <= i < rooms.len() ==> self.uuids@[i] == #[trigger] rooms[i].uuid()
        &&& forall|i: int| 0 <= i < rooms.len() ==> self.parents@[i] == #[trigger] rooms[i].parent()
    }

    fn new(rooms: &Vec<RoomInfo>) -> (keys: RoomKeys)
        ensures
            keys.of(rooms_view(rooms@)),
    {
        let mut uuids: Vec<Option<u128>> = Vec::new();
        let mut parents: Vec<u128> = Vec::new();
        let mut i: usize = 0;
        while i < rooms.len()
            invariant
                i <= rooms@.len(),
                uuids@.len() == i,
                parents@.len() == i,
                forall|j: int| 0 <= j < i ==> uuids@[j] == (#[trigger] rooms@[j])@.uuid(),
                forall|j: int| 0 <= j < i ==> parents@[j] == (#[trigger] rooms@[j])@.parent(),
            decreases rooms@.len() - i,
        {
            uuids.push(rooms[i].uuid());
            parents.push(rooms[i].parent());
            i = i + 1;
        }
        RoomKeys { uuids, parents }
    }

    /// Appends the positions of the children of a room.
    fn push_children(&self, line: &mut Vec<usize>, parent: u128, Ghost(rooms): Ghost<Seq<RoomData>>)
        requires
            self.of(rooms),
        ensures
            positions(final(line)@) == positions(old(line)@) + children(rooms, parent),
    {
        let mut i: usize = 0;
        let ghost before = positions(line@);
        assert(before + children_among(rooms, parent, 0) =~= before);
        while i < self.uuids.len()
            invariant
                self.of(rooms),
                i <= rooms.len(),
                positions(line@) == before + children_among(rooms, parent, i as nat),
            decreases rooms.len() - i,
        {
            let child: bool = match self.uuids[i] {
                Some(uuid) => uuid != ROOT_ROOM_UUID && self.parents[i] == parent,
                None => false,
            };
            assert(child == is_child_of(rooms[i as int], parent));
            if child {
                let ghost earlier = line@;
                line.push(i);
                assert(positions(line@) =~= positions(earlier).push(i as int));
            }
            i = i + 1;
            assert(positions(line@) =~= before + children_among(rooms, parent, i as nat));
        }
    }

    /// The first room listed as the root.
    fn root_entry(&self, Ghost(rooms): Ghost<Seq<RoomData>>) -> (at: Option<usize>)
        requires
            self.of(rooms),
        ensures
            match at {
                Some(i) => is_root_entry(rooms, i as int),
                None => !lists_root(rooms),
            },
    {
        let mut i: usize = 0;
        while i < self.uuids.len()
            invariant
                self.of(rooms),
                i <= rooms.len(),
                forall|j: int| 0 <= j < i ==> rooms[j].uuid() != Some(ROOT_ROOM_UUID),
            decreases rooms.len() - i,
        {
            let here: bool = match self.uuids[i] {
                Some(uuid) => uuid == ROOT_ROOM_UUID,
                None => false,
            };
            assert(here == (rooms[i as int].uuid() == Some(ROOT_ROOM_UUID)));
            if here {
                return Some(i);
            }
            i = i + 1;
        }
        None
    }
}

/// The rooms that the walk starts with.
fn start_line(keys: &RoomKeys, Ghost(rooms): Ghost<Seq<RoomData>>) -> (line: Vec<usize>)
    requires
        keys.of(rooms),
    ensures
        positions(line@) == start(rooms),
{
    let mut line: Vec<usize> = Vec::new();
    assert(positions(line@) =~= Seq::empty());
    match keys.root_entry(Ghost(rooms)) {
        Some(i) => {
            line.push(i);
            proof {
                let chosen = choose|i: int| is_root_entry(rooms, i);
                assert(is_root_entry(rooms, i as int));
                assert(is_root_entry(rooms, chosen));
                assert(chosen == i);
                assert(positions(line@) =~= seq![chosen]);
            }
        },
        None => {
            keys.push_children(&mut line, ROOT_ROOM_UUID, Ghost(rooms));
            assert(positions(line@) =~= children(rooms, ROOT_ROOM_UUID));
        },
    }
    line
}

/// The breadth-first walk through the listed rooms, as positions in the list.
pub fn channel_order(rooms: &Vec<RoomInfo>) -> (order: Vec<usize>)
    requires
        walk_ends(rooms_view(rooms@)),
    ensures
        positions(order@) == walk(rooms_view(rooms@)),
        is_walk(rooms_view(rooms@), positions(order@)),
{
    let ghost data = rooms_view(rooms@);
    let keys = RoomKeys::new(rooms);
    let mut line = start_line(&keys, Ghost(data));
    let ghost goal = walk(data);
    let mut visited: usize = 0;
    proof {
        let begun = positions(line@);
        assert(begun.take(0) =~= Seq::empty());
        assert(goal.take(0) =~= Seq::empty());
        assert(begun =~= in_line(data, begun.take(0)));
        lemma_line_is_prefix(data, goal, 0);
    }
    while visited < line.len()
        invariant
            data == rooms_view(rooms@),
            keys.of(data),
            is_walk(data, goal),
            visited <= line@.len() <= goal.len(),
            positions(line@) == in_line(data, positions(line@).take(visited as int)),
            positions(line@) == goal.take(line@.len() as int),
            forall|n: int|
                0 <= n < visited ==> n < #[trigger] in_line(data, positions(line@).take(n)).len(),
        decreases goal.len() - visited,
    {
        let at: usize = line[visited];
        let ghost before = positions(line@);
        proof {
            lemma_line_in_range(data, before.take(visited as int));
            assert(before[visited as int] == at);
        }
        let uuid: u128 = match keys.uuids[at] {
            Some(uuid) => uuid,
            None => ROOT_ROOM_UUID,
        };
        keys.push_children(&mut line, uuid, Ghost(data));
        visited = visited + 1;
        proof {
            let after = positions(line@);
            let seen = before.take(visited as int);
            assert(seen.drop_last() =~= before.take(visited - 1));
            assert(after =~= in_line(data, seen));
            assert(after.take(visited as int) =~= seen);
            assert(seen =~= goal.take(visited as int));
            lemma_line_is_prefix(data, goal, visited as int);
            assert forall|n: int| 0 <= n < visited implies n < #[trigger] in_line(
                data,
                after.take(n),
            ).len() by {
                assert(after.take(n) =~= before.take(n));
            }
        }
    }
    proof {
        let done = positions(line@);
        assert(done.take(line@.len() as int) =~= done);
        walk_is_unique(data, done, goal);
    }
    line
}

// ---------------------------------------------------------------------------
// Whether the walk ends
// ---------------------------------------------------------------------------

/// No UUID is listed twice.
pub open spec fn distinct_rooms(rooms: Seq<RoomData>) -> bool {
    forall|i: int, j: int|
        0 <= i < j < rooms.len() && (#[trigger] rooms[i]).uuid() is Some ==> rooms[i].uuid() != (
        #[trigger] rooms[j]).uuid()
}

proof fn lemma_children_once(rooms: Seq<RoomData>, parent: u128, n: nat)
    requires
        n <= rooms.len(),
    ensures
        children_among(rooms, parent, n).no_duplicates(),
    decreases n,
{
    if n > 0 {
        lemma_children_once(rooms, parent, (n - 1) as nat);
        lemma_children_among(rooms, parent, (n - 1) as nat);
    }
}

/// What is in line is in line once, and what is not there from the start is so as the child
/// of a room that was visited.
spec fn once_in_line(rooms: Seq<RoomData>, visited: Seq<int>) -> bool {
    let line = in_line(rooms, visited);
    &&& line.no_duplicates()
    &&& forall|k: int|
        start(rooms).len() <= k < line.len() ==> exists|j: int|
            0 <= j < visited.len() && uuid_at(rooms, visited[j]) == rooms[#[trigger] line[k]].parent()
}

/// The children of the room that is visited next are not in line yet.
proof fn lemma_children_are_new(rooms: Seq<RoomData>, visited: Seq<int>, k: int, m: int)
    requires
        distinct_rooms(rooms),
        visited.len() < in_line(rooms, visited).len(),
        visited == in_line(rooms, visited).take(visited.len() as int),
        once_in_line(rooms, visited),
        0 <= k < in_line(rooms, visited).len(),
        0 <= m < children(
            rooms,
            uuid_at(rooms, in_line(rooms, visited)[visited.len() as int]),
        ).len(),
    ensures
        in_line(rooms, visited)[k] != children(
            rooms,
            uuid_at(rooms, in_line(rooms, visited)[visited.len() as int]),
        )[m],
{
    let line = in_line(rooms, visited);
    let n = visited.len() as int;
    let next = line[n];
    let more = children(rooms, uuid_at(rooms, next));
    lemma_children(rooms, uuid_at(rooms, next));
    lemma_line_in_range(rooms, visited);
    if line[k] == more[m] {
        let child = rooms[more[m]];
        assert(is_child_of(child, uuid_at(rooms, next)));
        if k < start(rooms).len() {
            assert(line[k] == start(rooms)[k]);
            if !lists_root(rooms) {
                lemma_children(rooms, ROOT_ROOM_UUID);
                assert(child.parent() == ROOT_ROOM_UUID);
                lemma_no_root(rooms, next);
            }
        } else {
            let j = choose|j: int|
                0 <= j < visited.len() && uuid_at(rooms, visited[j]) == rooms[line[k]].parent();
            assert(visited[j] == line[j]);
            assert(rooms[line[j]].uuid() is Some && rooms[next].uuid() is Some);
            assert(line[j] == next) by {
                if line[j] < next {
                    assert(rooms[line[j]].uuid() != rooms[next].uuid());
                } else if next < line[j] {
                    assert(rooms[next].uuid() != rooms[line[j]].uuid());
                }
            }
        }
    }
}

proof fn lemma_no_root(rooms: Seq<RoomData>, i: int)
    requires
        !lists_root(rooms),
        0 <= i < rooms.len(),
        rooms[i].uuid() is Some,
    ensures
        uuid_at(rooms, i) != ROOT_ROOM_UUID,
    decreases i,
{
    if rooms[i].uuid() == Some(ROOT_ROOM_UUID) {
        if exists|j: int| 0 <= j < i && rooms[j].uuid() == Some(ROOT_ROOM_UUID) {
            let j = choose|j: int| 0 <= j < i && rooms[j].uuid() == Some(ROOT_ROOM_UUID);
            lemma_no_root(rooms, j);
        } else {
            assert(is_root_entry(rooms, i));
        }
    }
}

/// A walk begun at `visited` can be completed where no UUID is listed twice.
proof fn lemma_distinct_walk_ends(rooms: Seq<RoomData>, visited: Seq<int>)
    requires
        distinct_rooms(rooms),
        visited.len() <= in_line(rooms, visited).len(),
        visited == in_line(rooms, visited).take(visited.len() as int),
        forall|n: int|
            0 <= n < visited.len() ==> n < #[trigger] in_line(rooms, visited.take(n)).len(),
        once_in_line(rooms, visited),
    ensures
        walk_ends(rooms),
    decreases rooms.len() - visited.len(),
{
    let line = in_line(rooms, visited);
    let n = visited.len() as int;
    lemma_line_in_range(rooms, visited);
    if n == line.len() {
        assert(line.take(n) =~= line);
        assert(is_walk(rooms, visited));
    } else {
        let next = line[n];
        let longer = visited.push(next);
        let more = children(rooms, uuid_at(rooms, next));
        let longer_line = in_line(rooms, longer);
        assert(longer.drop_last() =~= visited);
        assert(longer_line =~= line + more);
        assert(line.len() <= rooms.len()) by {
            line.unique_seq_to_set();
            vstd::set_lib::lemma_int_range(0, rooms.len() as int);
            assert forall|i: int| line.to_set().contains(i) implies vstd::set_lib::set_int_range(
                0,
                rooms.len() as int,
            ).contains(i) by {
                let k = choose|k: int| 0 <= k < line.len() && line[k] == i;
            }
            vstd::set_lib::lemma_len_subset(
                line.to_set(),
                vstd::set_lib::set_int_range(0, rooms.len() as int),
            );
        }
        assert(longer =~= longer_line.take(n + 1));
        assert forall|m: int| 0 <= m < longer.len() implies m < #[trigger] in_line(
            rooms,
            longer.take(m),
        ).len() by {
            if m == n {
                assert(longer.take(m) =~= visited);
            } else {
                assert(longer.take(m) =~= visited.take(m));
            }
        }
        lemma_children_once(rooms, uuid_at(rooms, next), rooms.len());
        lemma_children(rooms, uuid_at(rooms, next));
        assert(longer_line.no_duplicates()) by {
            assert forall|a: int, b: int|
                0 <= a < longer_line.len() && 0 <= b < longer_line.len() && a
                    != b implies longer_line[a] != longer_line[b] by {
                if a < line.len() && b >= line.len() {
                    lemma_children_are_new(rooms, visited, a, b - line.len());
                } else if b < line.len() && a >= line.len() {
                    lemma_children_are_new(rooms, visited, b, a - line.len());
                }
            }
        }
        assert forall|k: int| start(rooms).len() <= k < longer_line.len() implies exists|j: int|
            0 <= j < longer.len() && uuid_at(rooms, longer[j])
                == rooms[#[trigger] longer_line[k]].parent() by {
            if k < line.len() {
                assert(longer_line[k] == line[k]);
                let j = choose|j: int|
                    0 <= j < visited.len() && uuid_at(rooms, visited[j])
                        == rooms[line[k]].parent();
                assert(longer[j] == visited[j]);
            } else {
                assert(longer_line[k] == more[k - line.len()]);
                assert(longer[n] == next);
            }
        }
        lemma_distinct_walk_ends(rooms, longer);
    }
}

/// Rooms can be walked through wherever no UUID is listed twice.
pub proof fn distinct_rooms_can_be_walked(rooms: Seq<RoomData>)
    requires
        distinct_rooms(rooms),
    ensures
        walk_ends(rooms),
{
    let none = Seq::<int>::empty();
    let line = in_line(rooms, none);
    assert(line =~= start(rooms));
    assert(line.take(0) =~= none);
    if !lists_root(rooms) {
        lemma_children_once(rooms, ROOT_ROOM_UUID, rooms.len());
    }
    lemma_distinct_walk_ends(rooms, none);
}

/// The sum of the sizes of the rooms at the given positions.
spec fn total(size: Map<int, nat>, line: Seq<int>) -> nat
    decreases line.len(),
{
    if line.len() == 0 {
        0
    } else {
        total(size, line.drop_last()) + size[line.last()]
    }
}

proof fn lemma_total_concat(size: Map<int, nat>, a: Seq<int>, b: Seq<int>)
    ensures
        total(size, a + b) == total(size, a) + total(size, b),
    decreases b.len(),
{
    if b.len() == 0 {
        assert(a + b =~= a);
    } else {
        assert((a + b).drop_last() =~= a + b.drop_last());
        lemma_total_concat(size, a, b.drop_last());
    }
}

/// The size of the room at `i` counts the visits that the walk makes to it and
/// to what lies under it; the sizes of its children are known.
#[verifier::opaque]
spec fn sized_at(rooms: Seq<RoomData>, size: Map<int, nat>, i: int) -> bool {
    &&& 0 <= i < rooms.len()
    &&& forall|k: int|
        0 <= k < children(rooms, uuid_at(rooms, i)).len() ==> size.contains_key(
            #[trigger] children(rooms, uuid_at(rooms, i))[k],
        )
    &&& size[i] == 1 + total(size, children(rooms, uuid_at(rooms, i)))
}

/// Every size is right.
spec fn sized(rooms: Seq<RoomData>, size: Map<int, nat>) -> bool {
    forall|i: int| #[trigger] size.contains_key(i) ==> sized_at(rooms, size, i)
}

proof fn lemma_sized_at(rooms: Seq<RoomData>, size: Map<int, nat>, i: int)
    requires
        sized(rooms, size),
        size.contains_key(i),
    ensures
        forall|k: int|
            0 <= k < children(rooms, uuid_at(rooms, i)).len() ==> size.contains_key(
                #[trigger] children(rooms, uuid_at(rooms, i))[k],
            ),
        size[i] == 1 + total(size, children(rooms, uuid_at(rooms, i))),
{
    assert(sized_at(rooms, size, i));
    reveal(sized_at);
}

/// A walk begun at `visited` can be completed where everything in line has a size.
proof fn lemma_sized_walk_ends(rooms: Seq<RoomData>, size: Map<int, nat>, visited: Seq<int>)
    requires
        sized(rooms, size),
        visited.len() <= in_line(rooms, visited).len(),
        visited == in_line(rooms, visited).take(visited.len() as int),
        forall|n: int|
            0 <= n < visited.len() ==> n < #[trigger] in_line(rooms, visited.take(n)).len(),
        forall|k: int|
            0 <= k < in_line(rooms, visited).len() ==> size.contains_key(
                #[trigger] in_line(rooms, visited)[k],
            ),
    ensures
        walk_ends(rooms),
    decreases total(size, in_line(rooms, visited).skip(visited.len() as int)),
{
    let line = in_line(rooms, visited);
    let n = visited.len() as int;
    if n == line.len() {
        assert(line.take(n) =~= line);
        assert(is_walk(rooms, visited));
    } else {
        let next = line[n];
        let longer = visited.push(next);
        let more = children(rooms, uuid_at(rooms, next));
        let longer_line = in_line(rooms, longer);
        assert(longer.drop_last() =~= visited);
        assert(longer_line =~= line + more);
        assert(size.contains_key(next));
        lemma_sized_at(rooms, size, next);
        assert forall|k: int| 0 <= k < longer_line.len() implies size.contains_key(
            #[trigger] longer_line[k],
        ) by {
            if k < line.len() {
                assert(longer_line[k] == line[k]);
            } else {
                assert(longer_line[k] == more[k - line.len()]);
            }
        }
        assert(longer =~= longer_line.take(n + 1));
        assert forall|m: int| 0 <= m < longer.len() implies m < #[trigger] in_line(
            rooms,
            longer.take(m),
        ).len() by {
            if m == n {
                assert(longer.take(m) =~= visited);
            } else {
                assert(longer.take(m) =~= visited.take(m));
            }
        }
        assert(line.skip(n) =~= seq![next] + line.skip(n + 1));
        lemma_total_concat(size, seq![next], line.skip(n + 1));
        assert(seq![next].drop_last() =~= Seq::<int>::empty());
        assert(total(size, seq![next]) == size[next]) by {
            reveal_with_fuel(total, 2);
        }
        assert(longer_line.skip(n + 1) =~= line.skip(n + 1) + more);
        lemma_total_concat(size, line.skip(n + 1), more);
        lemma_sized_walk_ends(rooms, size, longer);
    }
}

/// A walk that visits a room without a size does not end, where each such room
/// has a child of the same kind.
proof fn lemma_stuck_walk(rooms: Seq<RoomData>, size: Map<int, nat>, order: Seq<int>, k: int)
    requires
        0 <= k < order.len(),
        !size.contains_key(order[k]),
        stuck(rooms, size),
    ensures
        !is_walk(rooms, order),
    decreases order.len() - k,
{
    if is_walk(rooms, order) {
        lemma_line_in_range(rooms, order);
        let i = order[k];
        let more = children(rooms, uuid_at(rooms, i));
        assert(has_unsized_child(rooms, size, i));
        let c = choose|c: int| 0 <= c < more.len() && !size.contains_key(#[trigger] more[c]);
        let earlier = in_line(rooms, order.take(k));
        lemma_line_is_prefix(rooms, order, k);
        lemma_line_is_prefix(rooms, order, k + 1);
        let later = in_line(rooms, order.take(k + 1));
        assert(order.take(k + 1).drop_last() =~= order.take(k));
        assert(later =~= earlier + more);
        let at = earlier.len() + c;
        assert(order[at] == order.take(later.len() as int)[at]);
        assert(order[at] == more[c]);
        assert(k < earlier.len());
        lemma_stuck_walk(rooms, size, order, at);
    }
}

impl RoomKeys {
    /// Whether all children of a room are marked.
    fn children_marked(
        &self,
        marked: &Vec<bool>,
        parent: u128,
        Ghost(rooms): Ghost<Seq<RoomData>>,
    ) -> (all: bool)
        requires
            self.of(rooms),
            marked@.len() == rooms.len(),
        ensures
            all == (forall|k: int|
                0 <= k < children(rooms, parent).len()
                    ==> marked@[#[trigger] children(rooms, parent)[k]]),
    {
        proof {
            lemma_children(rooms, parent);
        }
        let mut i: usize = 0;
        while i < self.uuids.len()
            invariant
                self.of(rooms),
                marked@.len() == rooms.len(),
                i <= rooms.len(),
                forall|j: int| 0 <= j < i && is_child_of(#[trigger] rooms[j], parent) ==> marked@[j],
                forall|j: int|
                    0 <= j < rooms.len() && is_child_of(rooms[j], parent) ==> #[trigger] children(
                        rooms,
                        parent,
                    ).contains(j),
            decreases rooms.len() - i,
        {
            let child: bool = match self.uuids[i] {
                Some(uuid) => uuid != ROOT_ROOM_UUID && self.parents[i] == parent,
                None => false,
            };
            assert(child == is_child_of(rooms[i as int], parent));
            if child && !marked[i] {
                proof {
                    let list = children(rooms, parent);
                    assert(list.contains(i as int));
                    let k = choose|k: int| 0 <= k < list.len() && list[k] == i;
                    assert(!marked@[list[k]]);
                }
                return false;
            }
            i = i + 1;
        }
        true
    }
}

/// Whether the walk through the listed rooms ends.
pub fn order_is_finite(rooms: &Vec<RoomInfo>) -> (finite: bool)
    ensures
        finite == walk_ends(rooms_view(rooms@)),
{
    let ghost data = rooms_view(rooms@);
    let keys = RoomKeys::new(rooms);
    let len: usize = rooms.len();
    let mut marked: Vec<bool> = Vec::new();
    let mut filled: usize = 0;
    while filled < len
        invariant
            filled <= len,
            marked@.len() == filled,
            unmarked(marked@) == filled,
            forall|j: int| 0 <= j < filled ==> !marked@[j],
        decreases len - filled,
    {
        let ghost before = marked@;
        marked.push(false);
        filled = filled + 1;
        assert(marked@.drop_last() =~= before);
    }
    let ghost mut size: Map<int, nat> = Map::empty();
    let mut left: usize = len;
    let mut changed: bool = true;
    while changed
        invariant
            data == rooms_view(rooms@),
            data.len() == len,
            keys.of(data),
            marked@.len() == len,
            left <= len,
            left == unmarked(marked@),
            sized(data, size),
            forall|i: int| 0 <= i < len ==> (marked@[i] == #[trigger] size.contains_key(i)),
            !changed ==> stuck(data, size),
        decreases left, (if changed {
            1int
        } else {
            0int
        }),
    {
        changed = false;
        let mut i: usize = 0;
        let ghost left_before = left;
        while i < len
            invariant
                data == rooms_view(rooms@),
                data.len() == len,
                keys.of(data),
                marked@.len() == len,
                i <= len,
                left == unmarked(marked@),
                left <= left_before,
                changed ==> left < left_before,
                sized(data, size),
                forall|j: int| 0 <= j < len ==> (marked@[j] == #[trigger] size.contains_key(j)),
                !changed ==> forall|j: int|
                    0 <= j < i && data[j].uuid() is Some && !#[trigger] size.contains_key(j)
                        ==> has_unsized_child(data, size, j),
            decreases len - i,
        {
            let candidate: Option<u128> = if marked[i] {
                None
            } else {
                keys.uuids[i]
            };
            if let Some(uuid) = candidate {
                let ghost list = children(data, uuid);
                proof {
                    lemma_children(data, uuid);
                }
                if keys.children_marked(&marked, uuid, Ghost(data)) {
                    let ghost old_size = size;
                    let ghost old_marked = marked@;
                    marked.set(i, true);
                    proof {
                        lemma_unmarked_set(old_marked, i as int);
                        size = old_size.insert(i as int, 1 + total(old_size, list));
                        lemma_size_extended(data, old_size, i as int);
                    }
                    left = left - 1;
                    changed = true;
                } else {
                    proof {
                        let k = choose|k: int| 0 <= k < list.len() && !marked@[#[trigger] list[k]];
                        assert(!size.contains_key(list[k]));
                        assert(has_unsized_child(data, size, i as int));
                    }
                }
            }
            i = i + 1;
        }
    }
    let first = start_line(&keys, Ghost(data));
    let ghost begun = positions(first@);
    proof {
        lemma_line_in_range(data, Seq::empty());
        assert(in_line(data, Seq::empty()) =~= begun);
    }
    let mut k: usize = 0;
    while k < first.len()
        invariant
            data == rooms_view(rooms@),
            begun == positions(first@),
            begun == start(data),
            in_line(data, Seq::empty()) == begun,
            marked@.len() == len,
            data.len() == len,
            forall|i: int| 0 <= i < len ==> (marked@[i] == #[trigger] size.contains_key(i)),
            forall|j: int| 0 <= j < begun.len() ==> 0 <= #[trigger] begun[j] < len,
            forall|j: int| 0 <= j < k ==> size.contains_key(#[trigger] begun[j]),
            stuck(data, size),
            k <= first@.len(),
        decreases first@.len() - k,
    {
        let at: usize = first[k];
        assert(begun[k as int] == at);
        if !marked[at] {
            proof {
                if walk_ends(data) {
                    let order = walk(data);
                    assert(is_walk(data, order));
                    lemma_line_is_prefix(data, order, 0);
                    assert(order.take(0) =~= Seq::empty());
                    assert(order.take(begun.len() as int)[k as int] == begun[k as int]);
                    lemma_stuck_walk(data, size, order, k as int);
                }
            }
            return false;
        }
        k = k + 1;
    }
    proof {
        assert(in_line(data, Seq::empty()).take(0) =~= Seq::empty());
        lemma_sized_walk_ends(data, size, Seq::empty());
    }
    true
}

/// Whether a room has a child without a size.
spec fn has_unsized_child(rooms: Seq<RoomData>, size: Map<int, nat>, i: int) -> bool {
    exists|c: int|
        0 <= c < children(rooms, uuid_at(rooms, i)).len() && !size.contains_key(
            #[trigger] children(rooms, uuid_at(rooms, i))[c],
        )
}

/// Each room without a size has a child without one.
spec fn stuck(rooms: Seq<RoomData>, size: Map<int, nat>) -> bool {
    forall|i: int|
        0 <= i < rooms.len() && rooms[i].uuid() is Some && !#[trigger] size.contains_key(i)
            ==> has_unsized_child(rooms, size, i)
}

/// How many marks are missing.
spec fn unmarked(marked: Seq<bool>) -> nat
    decreases marked.len(),
{
    if marked.len() == 0 {
        0
    } else {
        unmarked(marked.drop_last()) + (if marked.last() {
            0nat
        } else {
            1
        })
    }
}

proof fn lemma_unmarked_set(marked: Seq<bool>, i: int)
    requires
        0 <= i < marked.len(),
        !marked[i],
    ensures
        unmarked(marked.update(i, true)) + 1 == unmarked(marked),
    decreases marked.len(),
{
    let after = marked.update(i, true);
    if i == marked.len() - 1 {
        assert(after.drop_last() =~= marked.drop_last());
    } else {
        assert(after.drop_last() =~= marked.drop_last().update(i, true));
        lemma_unmarked_set(marked.drop_last(), i);
    }
}

/// A new size does not change the sum of the sizes of other rooms.
proof fn lemma_total_insert(size: Map<int, nat>, i: int, n: nat, line: Seq<int>)
    requires
        !size.contains_key(i),
        forall|k: int| 0 <= k < line.len() ==> size.contains_key(#[trigger] line[k]),
    ensures
        total(size.insert(i, n), line) == total(size, line),
    decreases line.len(),
{
    if line.len() > 0 {
        assert(size.contains_key(line[line.len() - 1]));
        lemma_total_insert(size, i, n, line.drop_last());
    }
}

proof fn lemma_size_extended(rooms: Seq<RoomData>, size: Map<int, nat>, i: int)
    requires
        sized(rooms, size),
        0 <= i < rooms.len(),
        !size.contains_key(i),
        forall|k: int|
            0 <= k < children(rooms, uuid_at(rooms, i)).len() ==> size.contains_key(
                #[trigger] children(rooms, uuid_at(rooms, i))[k],
            ),
    ensures
        sized(rooms, size.insert(i, 1 + total(size, children(rooms, uuid_at(rooms, i))))),
{
    let n = 1 + total(size, children(rooms, uuid_at(rooms, i)));
    let larger = size.insert(i, n);
    assert forall|j: int| #[trigger] larger.contains_key(j) implies sized_at(
        rooms,
        larger,
        j,
    ) by {
        if j != i {
            assert(size.contains_key(j));
            assert(sized_at(rooms, size, j));
        }
        reveal(sized_at);
        lemma_total_insert(size, i, n, children(rooms, uuid_at(rooms, j)));
    }
}

} // verus!
