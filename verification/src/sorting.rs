//! Keys of maps, and lists in ascending order.

use std::collections::HashMap;
use std::hash::Hash;

use vstd::prelude::*;
use vstd::std_specs::hash::obeys_key_model;

verus! {

broadcast use vstd::std_specs::hash::group_hash_axioms;

/// The keys of a map, each once.
pub fn keys_of<K: Copy + Eq + Hash, V>(map: &HashMap<K, V>) -> (keys: Vec<K>)
    requires
        obeys_key_model::<K>(),
    ensures
        keys@.no_duplicates(),
        keys@.to_set() == map@.dom(),
{
    let mut keys: Vec<K> = Vec::new();
    for key in iter: map.keys()
        invariant
            keys@.len() == iter.index(),
            forall|i: int|
                #![trigger keys@[i]]
                #![trigger iter.seq().unref()[i]]
                0 <= i < keys@.len() ==> keys@[i] == iter.seq().unref()[i],
            forall|x: K|
                #![trigger map@.dom().contains(x)]
                #![trigger iter.seq().unref().contains(x)]
                iter.seq().unref().contains(x) <==> map@.dom().contains(x),
            iter.seq().no_duplicates(),
    {
        keys.push(*key);
    }
    assert(keys@.to_set() =~= map@.dom());
    keys
}

/// Each element is smaller than every later one.
pub open spec fn ascending(list: Seq<u64>) -> bool {
    forall|i: int, j: int| 0 <= i < j < list.len() ==> list[i] < list[j]
}

/// Where `value` belongs in an ascending list that does not hold it.
fn place_for(list: &Vec<u64>, value: u64) -> (at: usize)
    requires
        ascending(list@),
        !list@.contains(value),
    ensures
        at <= list@.len(),
        forall|i: int| 0 <= i < at ==> list@[i] < value,
        forall|i: int| at <= i < list@.len() ==> value < list@[i],
{
    let mut at: usize = 0;
    while at < list.len() && list[at] < value
        invariant
            at <= list@.len(),
            forall|i: int| 0 <= i < at ==> list@[i] < value,
        decreases list@.len() - at,
    {
        at = at + 1;
    }
    assert forall|i: int| at <= i < list@.len() implies value < list@[i] by {
        assert(list@.contains(list@[at as int]));
        assert(list@[at as int] <= list@[i]);
    }
    at
}

/// The elements of a list without repetitions, in ascending order.
pub fn sorted(list: &Vec<u64>) -> (result: Vec<u64>)
    requires
        list@.no_duplicates(),
    ensures
        ascending(result@),
        result@.to_set() == list@.to_set(),
{
    let mut result: Vec<u64> = Vec::new();
    let mut i: usize = 0;
    while i < list.len()
        invariant
            i <= list@.len(),
            list@.no_duplicates(),
            ascending(result@),
            forall|x: u64| result@.contains(x) <==> list@.take(i as int).contains(x),
        decreases list@.len() - i,
    {
        let value: u64 = list[i];
        let ghost before = result@;
        let ghost seen = list@.take(i as int);
        assert(!seen.contains(value));
        let at: usize = place_for(&result, value);
        result.insert(at, value);
        i = i + 1;
        proof {
            assert(list@.take(i as int) =~= seen.push(value));
            assert forall|x: u64| result@.contains(x) <==> list@.take(i as int).contains(x) by {
                lemma_insert_contains(before, at as int, value, x);
                lemma_push_contains(seen, value, x);
            }
        }
    }
    assert(list@.take(list@.len() as int) =~= list@);
    assert(result@.to_set() =~= list@.to_set());
    result
}

/// Inserting an element adds it and nothing else.
pub proof fn lemma_insert_contains<A>(list: Seq<A>, at: int, value: A, x: A)
    requires
        0 <= at <= list.len(),
    ensures
        list.insert(at, value).contains(x) <==> list.contains(x) || x == value,
{
    let longer = list.insert(at, value);
    if longer.contains(x) {
        let i = choose|i: int| 0 <= i < longer.len() && longer[i] == x;
        if i < at {
            assert(list[i] == x);
        } else if i > at {
            assert(list[i - 1] == x);
        }
    }
    if list.contains(x) {
        let i = choose|i: int| 0 <= i < list.len() && list[i] == x;
        if i < at {
            assert(longer[i] == x);
        } else {
            assert(longer[i + 1] == x);
        }
    }
    assert(longer[at] == value);
}

/// Appending an element adds it and nothing else.
pub proof fn lemma_push_contains<A>(list: Seq<A>, value: A, x: A)
    ensures
        list.push(value).contains(x) <==> list.contains(x) || x == value,
{
    let longer = list.push(value);
    if longer.contains(x) {
        let i = choose|i: int| 0 <= i < longer.len() && longer[i] == x;
        if i < list.len() {
            assert(list[i] == x);
        }
    }
    if list.contains(x) {
        let i = choose|i: int| 0 <= i < list.len() && list[i] == x;
        assert(longer[i] == x);
    }
    assert(longer[list.len() as int] == value);
}

/// Each element comes before every later one.
pub open spec fn in_order<A>(list: Seq<A>, before: spec_fn(A, A) -> bool) -> bool {
    forall|i: int, j: int| 0 <= i < j < list.len() ==> before(list[i], list[j])
}

/// The elements of a set, in order.
pub open spec fn elements_in_order<A>(set: Set<A>, before: spec_fn(A, A) -> bool) -> Seq<A> {
    choose|list: Seq<A>| in_order(list, before) && list.to_set() == set
}

/// Smaller numbers first.
pub open spec fn less(a: u64, b: u64) -> bool {
    a < b
}

/// There is one way to put given elements in order.
pub proof fn order_is_unique<A>(a: Seq<A>, b: Seq<A>, before: spec_fn(A, A) -> bool)
    requires
        in_order(a, before),
        in_order(b, before),
        a.to_set() == b.to_set(),
        forall|x: A, y: A| !(#[trigger] before(x, y) && before(y, x)),
    ensures
        a == b,
    decreases a.len(),
{
    if a.len() == 0 {
        if b.len() > 0 {
            assert(b.to_set().contains(b[0]));
            assert(a.to_set().contains(b[0]));
        }
        assert(a =~= b);
    } else {
        assert(a.to_set().contains(a.last()));
        assert(b.to_set().contains(a.last()));
        assert(b.contains(a.last()));
        assert(b.to_set().contains(b.last()));
        assert(a.to_set().contains(b.last()));
        assert(a.contains(b.last()));
        let i = choose|i: int| 0 <= i < b.len() && b[i] == a.last();
        let j = choose|j: int| 0 <= j < a.len() && a[j] == b.last();
        if a.last() != b.last() {
            assert(before(b[i], b[b.len() - 1]));
            assert(before(a[j], a[a.len() - 1]));
        }
        lemma_front_set(a, before);
        lemma_front_set(b, before);
        order_is_unique(a.drop_last(), b.drop_last(), before);
        assert(a =~= a.drop_last().push(a.last()));
        assert(b =~= b.drop_last().push(b.last()));
    }
}

proof fn lemma_front_set<A>(list: Seq<A>, before: spec_fn(A, A) -> bool)
    requires
        list.len() > 0,
        in_order(list, before),
        forall|x: A, y: A| !(#[trigger] before(x, y) && before(y, x)),
    ensures
        list.drop_last().to_set() == list.to_set().remove(list.last()),
{
    let front = list.drop_last();
    assert forall|x: A| front.to_set().contains(x) <==> list.to_set().remove(
        list.last(),
    ).contains(x) by {
        if front.contains(x) {
            let i = choose|i: int| 0 <= i < front.len() && front[i] == x;
            assert(list[i] == x);
            assert(before(list[i], list[list.len() - 1]));
        }
        if list.contains(x) && x != list.last() {
            let i = choose|i: int| 0 <= i < list.len() && list[i] == x;
            assert(front[i] == x);
        }
    }
    assert(front.to_set() =~= list.to_set().remove(list.last()));
}

// ---------------------------------------------------------------------------
// Sets of sessions
// ---------------------------------------------------------------------------

/// A set of sessions, kept in ascending order.
#[derive(Debug)]
pub struct SessionSet {
    list: Vec<u32>,
}

impl View for SessionSet {
    type V = Set<u32>;

    closed spec fn view(&self) -> Set<u32> {
        self.list@.to_set()
    }
}

/// The sessions of a set, in ascending order.
pub open spec fn session_list(set: Set<u32>) -> Seq<u32> {
    elements_in_order(set, |a: u32, b: u32| a < b)
}

/// A list of sessions in ascending order is the list of its elements.
pub proof fn lemma_session_list(list: Seq<u32>, set: Set<u32>)
    requires
        in_order(list, |a: u32, b: u32| a < b),
        list.to_set() == set,
    ensures
        list == session_list(set),
{
    order_is_unique(list, session_list(set), |a: u32, b: u32| a < b);
}

/// The sessions of a finite set can be put in ascending order.
pub proof fn session_list_is_complete(set: Set<u32>)
    requires
        set.finite(),
    ensures
        session_list(set).to_set() == set,
        in_order(session_list(set), |a: u32, b: u32| a < b),
{
    lemma_some_order(set, |a: u32, b: u32| a < b);
}

/// Of two elements of a set one comes first, and the order carries on from one pair to
/// the next.
pub open spec fn orders<A>(set: Set<A>, before: spec_fn(A, A) -> bool) -> bool {
    &&& forall|a: A, b: A|
        set.contains(a) && set.contains(b) && a != b ==> #[trigger] before(a, b) || before(b, a)
    &&& forall|a: A, b: A, c: A|
        set.contains(a) && set.contains(b) && set.contains(c) && #[trigger] before(a, b)
            && #[trigger] before(b, c) ==> before(a, c)
}

/// The elements of a finite set can be put in order.
pub proof fn lemma_some_order<A>(set: Set<A>, before: spec_fn(A, A) -> bool)
    requires
        set.finite(),
        orders(set, before),
    ensures
        exists|list: Seq<A>| in_order(list, before) && #[trigger] list.to_set() == set,
    decreases set.len(),
{
    if set.len() == 0 {
        let nothing = Seq::<A>::empty();
        assert(nothing.to_set() =~= set);
        assert(in_order(nothing, before));
    } else {
        let top = lemma_greatest(set, before);
        lemma_some_order(set.remove(top), before);
        let front = choose|list: Seq<A>|
            in_order(list, before) && #[trigger] list.to_set() == set.remove(top);
        let list = front.push(top);
        assert forall|x: A| list.to_set().contains(x) <==> set.contains(x) by {
            lemma_push_contains(front, top, x);
            assert(front.to_set().contains(x) <==> front.contains(x));
        }
        assert(list.to_set() =~= set);
        assert forall|i: int, j: int| 0 <= i < j < list.len() implies before(list[i], list[j]) by {
            if j < front.len() {
                assert(before(front[i], front[j]));
            } else {
                assert(front.contains(front[i]));
                assert(front.to_set().contains(front[i]));
            }
        }
        assert(in_order(list, before));
    }
}

/// A finite set that is not empty has an element that comes last.
proof fn lemma_greatest<A>(set: Set<A>, before: spec_fn(A, A) -> bool) -> (top: A)
    requires
        set.finite(),
        set.len() > 0,
        orders(set, before),
    ensures
        set.contains(top),
        forall|x: A| set.contains(x) && x != top ==> #[trigger] before(x, top),
    decreases set.len(),
{
    let a = set.choose();
    let rest = set.remove(a);
    if rest.len() == 0 {
        assert forall|x: A| set.contains(x) && x != a implies #[trigger] before(x, a) by {
            assert(rest.contains(x));
        }
        a
    } else {
        let b = lemma_greatest(rest, before);
        if before(a, b) {
            b
        } else {
            assert(before(b, a));
            assert forall|x: A| set.contains(x) && x != a implies #[trigger] before(x, a) by {
                assert(rest.contains(x));
                if x != b {
                    assert(before(x, b));
                }
            }
            a
        }
    }
}

impl SessionSet {
    /// The list is in ascending order.
    pub closed spec fn wf(&self) -> bool {
        in_order(self.list@, |a: u32, b: u32| a < b)
    }

    /// The empty set.
    pub fn new() -> (set: Self)
        ensures
            set.wf(),
            set@ == Set::<u32>::empty(),
    {
        let set = SessionSet { list: Vec::new() };
        assert(set@ =~= Set::empty());
        set
    }

    /// The sessions, in ascending order.
    pub fn sessions(&self) -> (list: &Vec<u32>)
        requires
            self.wf(),
        ensures
            list@ == session_list(self@),
            list@.to_set() == self@,
            in_order(list@, |a: u32, b: u32| a < b),
    {
        proof {
            lemma_session_list(self.list@, self@);
        }
        &self.list
    }

    /// Whether a session is in the set.
    pub fn contains(&self, session: u32) -> (found: bool)
        ensures
            found == self@.contains(session),
    {
        let mut i: usize = 0;
        while i < self.list.len()
            invariant
                i <= self.list@.len(),
                forall|j: int| 0 <= j < i ==> self.list@[j] != session,
            decreases self.list@.len() - i,
        {
            if self.list[i] == session {
                assert(self.list@.contains(session));
                return true;
            }
            i = i + 1;
        }
        false
    }

    /// Puts a session into the set.
    pub fn insert(&mut self, session: u32)
        requires
            old(self).wf(),
        ensures
            final(self).wf(),
            final(self)@ == old(self)@.insert(session),
    {
        let ghost before = self.list@;
        let mut at: usize = 0;
        while at < self.list.len() && self.list[at] < session
            invariant
                self.list@ == before,
                at <= before.len(),
                forall|j: int| 0 <= j < at ==> before[j] < session,
            decreases before.len() - at,
        {
            at = at + 1;
        }
        if at < self.list.len() && self.list[at] == session {
            assert(before.contains(session));
            assert(self@ =~= old(self)@.insert(session));
            return;
        }
        self.list.insert(at, session);
        proof {
            let after = self.list@;
            assert(after == before.insert(at as int, session));
            assert forall|x: u32| after.to_set().contains(x) <==> before.to_set().insert(
                session,
            ).contains(x) by {
                lemma_insert_contains(before, at as int, session, x);
            }
            assert(self@ =~= old(self)@.insert(session));
            let less = |a: u32, b: u32| a < b;
            assert(in_order(before, less));
            assert forall|i: int, j: int| 0 <= i < j < after.len() implies less(
                after[i],
                after[j],
            ) by {
                let bi = if i < at { i } else { i - 1 };
                let bj = if j < at { j } else { j - 1 };
                if i == at {
                    assert(session < before[at as int]);
                    if bj > at {
                        assert(less(before[at as int], before[bj]));
                    }
                } else if j != at {
                    assert(less(before[bi], before[bj]));
                }
            }
        }
    }

    /// Takes a session out of the set.
    pub fn remove(&mut self, session: u32)
        requires
            old(self).wf(),
        ensures
            final(self).wf(),
            final(self)@ == old(self)@.remove(session),
    {
        let kept = without(&self.list, session);
        proof {
            assert(kept@.to_set() =~= old(self)@.remove(session)) by {
                assert forall|x: u32| kept@.to_set().contains(x) <==> old(self)@.remove(
                    session,
                ).contains(x) by {
                    assert(kept@.contains(x) <==> self.list@.contains(x) && x != session);
                }
            }
        }
        self.list = kept;
    }
}

/// An ascending list without one element.
fn without(list: &Vec<u32>, session: u32) -> (kept: Vec<u32>)
    requires
        in_order(list@, |a: u32, b: u32| a < b),
    ensures
        in_order(kept@, |a: u32, b: u32| a < b),
        forall|x: u32| #[trigger] kept@.contains(x) <==> (list@.contains(x) && x != session),
{
    let mut kept: Vec<u32> = Vec::new();
    let ghost less = |a: u32, b: u32| a < b;
    let mut i: usize = 0;
    while i < list.len()
        invariant
            i <= list@.len(),
            less == (|a: u32, b: u32| a < b),
            in_order(list@, less),
            in_order(kept@, less),
            forall|k: int| 0 <= k < kept@.len() && i < list@.len() ==> kept@[k] < list@[i as int],
            forall|x: u32| #[trigger]
                kept@.contains(x) <==> (list@.take(i as int).contains(x) && x != session),
        decreases list@.len() - i,
    {
        let item: u32 = list[i];
        let ghost before = kept@;
        let ghost seen = list@.take(i as int);
        if item != session {
            kept.push(item);
        }
        i = i + 1;
        proof {
            assert(list@.take(i as int) =~= seen.push(item));
            assert forall|x: u32| #[trigger]
                kept@.contains(x) <==> (list@.take(i as int).contains(x) && x != session) by {
                lemma_push_contains(seen, item, x);
                lemma_push_contains(before, item, x);
                assert(before.contains(x) <==> (seen.contains(x) && x != session));
            }
            if i < list@.len() {
                assert(less(list@[i - 1], list@[i as int]));
            }
        }
    }
    assert(list@.take(i as int) =~= list@);
    kept
}

/// The sessions of a set other than one.
pub fn sessions_except(set: &SessionSet, session: u32) -> (list: Vec<u32>)
    requires
        set.wf(),
    ensures
        list@ == session_list(set@.remove(session)),
{
    let all = set.sessions();
    let list = without(all, session);
    proof {
        assert forall|x: u32| list@.to_set().contains(x) <==> set@.remove(session).contains(x) by {
            assert(list@.contains(x) <==> all@.contains(x) && x != session);
            assert(all@.to_set().contains(x) <==> all@.contains(x));
        }
        assert(list@.to_set() =~= set@.remove(session));
        lemma_session_list(list@, set@.remove(session));
    }
    list
}

/// A map's keys, in ascending order.
pub fn sorted_keys<V>(map: &HashMap<u32, V>) -> (list: Vec<u32>)
    ensures
        list@ == session_list(map@.dom()),
        list@.to_set() == map@.dom(),
        list@.no_duplicates(),
{
    let keys = keys_of(map);
    let mut set = SessionSet::new();
    let mut i: usize = 0;
    assert(keys@.take(0).to_set() =~= Set::empty());
    while i < keys.len()
        invariant
            i <= keys@.len(),
            set.wf(),
            set@ == keys@.take(i as int).to_set(),
        decreases keys@.len() - i,
    {
        set.insert(keys[i]);
        i = i + 1;
        proof {
            let seen = keys@.take(i - 1);
            assert(keys@.take(i as int) =~= seen.push(keys@[i - 1]));
            assert forall|x: u32| keys@.take(i as int).to_set().contains(x) <==> seen.to_set().insert(
                keys@[i - 1],
            ).contains(x) by {
                lemma_push_contains(seen, keys@[i - 1], x);
            }
            assert(keys@.take(i as int).to_set() =~= seen.to_set().insert(keys@[i - 1]));
        }
    }
    assert(keys@.take(i as int) =~= keys@);
    let list = set.sessions();
    proof {
        let less = |a: u32, b: u32| a < b;
        assert(in_order(list@, less));
        assert forall|a: int, b: int| 0 <= a < list@.len() && 0 <= b < list@.len() && a
            != b implies list@[a] != list@[b] by {
            if a < b {
                assert(less(list@[a], list@[b]));
            } else {
                assert(less(list@[b], list@[a]));
            }
        }
    }
    let mut copy: Vec<u32> = Vec::new();
    let mut k: usize = 0;
    while k < list.len()
        invariant
            k <= list@.len(),
            copy@ == list@.take(k as int),
        decreases list@.len() - k,
    {
        copy.push(list[k]);
        k = k + 1;
        assert(copy@ =~= list@.take(k as int));
    }
    assert(copy@ =~= list@);
    copy
}

} // verus!
