//! In-process stampede protection: concurrent misses for one key elect one
//! leader, which runs the query; the others follow and get its result.
//!
//! The group records, for each key in flight, the channel end (`S`) on
//! which its followers wait; sending on it is the caller's business.

use vstd::prelude::*;

verus! {

/// What the leader of a flight hands to its followers.
#[derive(Clone, Debug, PartialEq, Eq)]
pub enum SingleflightResult {
    Success(Vec<u8>),
    Error,
}

/// One key in flight and its followers' channel end.
#[derive(Debug)]
pub struct Flight<S> {
    key: String,
    sender: S,
}

/// The keys in flight.
#[derive(Debug)]
pub struct SingleflightGroup<S> {
    flights: Vec<Flight<S>>,
}

/// Whether some flight of the list is for `key`.
spec fn has_key<S>(flights: Seq<Flight<S>>, key: Seq<char>) -> bool {
    exists|i: int| 0 <= i < flights.len() && #[trigger] flights[i].key@ == key
}

/// The position of the flight for `key`.
spec fn position_of<S>(flights: Seq<Flight<S>>, key: Seq<char>) -> int {
    choose|i: int| 0 <= i < flights.len() && #[trigger] flights[i].key@ == key
}

/// No two flights share a key.
spec fn keys_distinct<S>(flights: Seq<Flight<S>>) -> bool {
    forall|i: int, j: int|
        0 <= i < flights.len() && 0 <= j < flights.len() && i != j ==> #[trigger] flights[i].key@
            != #[trigger] flights[j].key@
}

/// The keys in flight, each with its channel end.
spec fn flights_map<S>(flights: Seq<Flight<S>>) -> Map<Seq<char>, S> {
    Map::new(
        |k: Seq<char>| has_key(flights, k),
        |k: Seq<char>| flights[position_of(flights, k)].sender,
    )
}

proof fn lemma_position<S>(flights: Seq<Flight<S>>, i: int)
    requires
        keys_distinct(flights),
        0 <= i < flights.len(),
    ensures
        position_of(flights, flights[i].key@) == i,
        flights_map(flights).contains_key(flights[i].key@),
        flights_map(flights)[flights[i].key@] == flights[i].sender,
{
    let k = flights[i].key@;
    assert(has_key(flights, k));
    let j = position_of(flights, k);
    assert(0 <= j < flights.len() && flights[j].key@ == k);
}

proof fn lemma_push<S>(flights: Seq<Flight<S>>, f: Flight<S>)
    requires
        keys_distinct(flights),
        !has_key(flights, f.key@),
    ensures
        keys_distinct(flights.push(f)),
        flights_map(flights.push(f)) == flights_map(flights).insert(f.key@, f.sender),
{
    let n = flights.push(f);
    assert forall|i: int, j: int|
        0 <= i < n.len() && 0 <= j < n.len() && i != j implies #[trigger] n[i].key@
        != #[trigger] n[j].key@ by {
        if i < flights.len() && j < flights.len() {
            assert(flights[i] == n[i] && flights[j] == n[j]);
        } else if i < flights.len() {
            assert(n[i] == flights[i]);
        } else {
            assert(n[j] == flights[j]);
        }
    }
    let a = flights_map(n);
    let b = flights_map(flights).insert(f.key@, f.sender);
    assert forall|k: Seq<char>| a.contains_key(k) <==> b.contains_key(k) by {
        if has_key(n, k) {
            let i = choose|i: int| 0 <= i < n.len() && #[trigger] n[i].key@ == k;
            if i < flights.len() {
                assert(flights[i].key@ == k);
            }
        }
        if has_key(flights, k) {
            let i = choose|i: int| 0 <= i < flights.len() && #[trigger] flights[i].key@ == k;
            assert(n[i].key@ == k);
        }
        if k == f.key@ {
            assert(n[flights.len() as int].key@ == k);
        }
    }
    assert forall|k: Seq<char>| #[trigger] a.contains_key(k) implies a[k] == b[k] by {
        let i = choose|i: int| 0 <= i < n.len() && #[trigger] n[i].key@ == k;
        lemma_position(n, i);
        if i < flights.len() {
            assert(n[i] == flights[i]);
            lemma_position(flights, i);
        }
    }
    assert(a =~= b);
}

proof fn lemma_remove<S>(flights: Seq<Flight<S>>, i: int)
    requires
        keys_distinct(flights),
        0 <= i < flights.len(),
    ensures
        keys_distinct(flights.remove(i)),
        flights_map(flights.remove(i)) == flights_map(flights).remove(flights[i].key@),
{
    let n = flights.remove(i);
    let key = flights[i].key@;
    assert forall|a: int, b: int|
        0 <= a < n.len() && 0 <= b < n.len() && a != b implies #[trigger] n[a].key@
        != #[trigger] n[b].key@ by {
        let a2 = if a < i {
            a
        } else {
            a + 1
        };
        let b2 = if b < i {
            b
        } else {
            b + 1
        };
        assert(n[a] == flights[a2] && n[b] == flights[b2]);
    }
    let m1 = flights_map(n);
    let m2 = flights_map(flights).remove(key);
    assert forall|k: Seq<char>| m1.contains_key(k) <==> m2.contains_key(k) by {
        if has_key(n, k) {
            let a = choose|a: int| 0 <= a < n.len() && #[trigger] n[a].key@ == k;
            let a2 = if a < i {
                a
            } else {
                a + 1
            };
            assert(n[a] == flights[a2]);
            assert(flights[a2].key@ == k);
            assert(a2 != i);
        }
        if has_key(flights, k) && k != key {
            let a = choose|a: int| 0 <= a < flights.len() && #[trigger] flights[a].key@ == k;
            assert(a != i);
            let a1 = if a < i {
                a
            } else {
                a - 1
            };
            assert(n[a1] == flights[a]);
            assert(n[a1].key@ == k);
        }
    }
    assert forall|k: Seq<char>| #[trigger] m1.contains_key(k) implies m1[k] == m2[k] by {
        let a = choose|a: int| 0 <= a < n.len() && #[trigger] n[a].key@ == k;
        lemma_position(n, a);
        let a2 = if a < i {
            a
        } else {
            a + 1
        };
        assert(n[a] == flights[a2]);
        lemma_position(flights, a2);
    }
    assert(m1 =~= m2);
}

/// A leader's hold on its flight.
#[derive(Debug)]
pub struct SingleflightGuard {
    key: String,
    completed: bool,
}

impl SingleflightGuard {
    /// The key of the flight.
    pub closed spec fn key(&self) -> Seq<char> {
        self.key@
    }

    /// Whether the flight was already ended by this guard.
    pub closed spec fn is_completed(&self) -> bool {
        self.completed
    }

    /// The key of the flight.
    pub fn key_str(&self) -> (s: &str)
        ensures
            s@ == self.key(),
    {
        self.key.as_str()
    }
}

/// The outcome of entering a key.
#[derive(Debug)]
pub enum SingleflightStatus {
    /// No flight was under way: the caller runs the query and must end the
    /// flight with [`SingleflightGuard::finish`].
    Leader(SingleflightGuard),
    /// A flight was under way: the caller waits on its channel end.
    Follower,
}

/// A result to send to a flight's followers, with the channel end to send it on.
#[derive(Debug)]
pub struct Delivery<S> {
    pub sender: S,
    pub result: SingleflightResult,
}

impl<S> SingleflightGroup<S> {
    /// The keys in flight, each with its followers' channel end.
    pub closed spec fn view(&self) -> Map<Seq<char>, S> {
        flights_map(self.flights@)
    }

    /// The group's invariant: no key is in flight twice.
    #[verifier::type_invariant]
    spec fn no_key_twice(&self) -> bool {
        keys_distinct(self.flights@)
    }

    /// An empty group.
    pub fn new() -> (g: Self)
        ensures
            g@ == Map::<Seq<char>, S>::empty(),
    {
        let g = SingleflightGroup { flights: Vec::new() };
        assert(flights_map(g.flights@) =~= Map::<Seq<char>, S>::empty());
        g
    }

    /// The position of the flight for `key`, if any.
    fn find(&self, key: &str) -> (r: Option<usize>)
        ensures
            r is None <==> !self@.contains_key(key@),
            r matches Some(i) ==> i < self.flights@.len() && self.flights@[i as int].key@ == key@,
    {
        proof {
            use_type_invariant(self);
        }
        let wanted = String::from_str(key);
        let n = self.flights.len();
        let mut i: usize = 0;
        while i < n
            invariant
                n == self.flights@.len(),
                wanted@ == key@,
                i <= n,
                forall|j: int| 0 <= j < i ==> #[trigger] self.flights@[j].key@ != key@,
            decreases n - i,
        {
            if self.flights[i].key == wanted {
                return Some(i);
            }
            i = i + 1;
        }
        None
    }

    /// The followers' channel end of the flight for `key`, if one is under way.
    pub fn sender(&self, key: &str) -> (r: Option<&S>)
        ensures
            r is Some <==> self@.contains_key(key@),
            r matches Some(s) ==> *s == self@[key@],
    {
        proof {
            use_type_invariant(self);
        }
        match self.find(key) {
            Some(i) => {
                proof {
                    lemma_position(self.flights@, i as int);
                }
                Some(&self.flights[i].sender)
            },
            None => None,
        }
    }

    /// Enters `key`: the caller leads a new flight, with `sender` as its
    /// followers' channel end, when none is under way for the key;
    /// otherwise it follows the one under way and the group is unchanged.
    pub fn enter(&mut self, key: &str, sender: S) -> (r: SingleflightStatus)
        ensures
            final(self)@ == entered(old(self)@, key@, sender),
            r is Leader <==> leads(old(self)@, key@),
            r matches SingleflightStatus::Leader(g) ==> g.key() == key@ && !g.is_completed(),
    {
        match self.find(key) {
            Some(_) => SingleflightStatus::Follower,
            None => {
                proof {
                    use_type_invariant(&*self);
                }
                let f = Flight { key: String::from_str(key), sender };
                proof {
                    lemma_push(self.flights@, f);
                }
                let mut flights: Vec<Flight<S>> = Vec::new();
                std::mem::swap(&mut flights, &mut self.flights);
                flights.push(f);
                self.flights = flights;
                SingleflightStatus::Leader(
                    SingleflightGuard { key: String::from_str(key), completed: false },
                )
            },
        }
    }

    /// Ends the flight for `key`, handing back its channel end.
    fn end(&mut self, key: &str) -> (r: Option<S>)
        ensures
            final(self)@ == old(self)@.remove(key@),
            r is Some <==> old(self)@.contains_key(key@),
            r matches Some(s) ==> s == old(self)@[key@],
    {
        match self.find(key) {
            Some(i) => {
                proof {
                    use_type_invariant(&*self);
                    lemma_position(self.flights@, i as int);
                    lemma_remove(self.flights@, i as int);
                }
                let mut flights: Vec<Flight<S>> = Vec::new();
                std::mem::swap(&mut flights, &mut self.flights);
                let f = flights.remove(i);
                self.flights = flights;
                Some(f.sender)
            },
            None => {
                assert(self@ =~= self@.remove(key@));
                None
            },
        }
    }
}

impl<S> Default for SingleflightGroup<S> {
    /// An empty group.
    fn default() -> (g: Self)
        ensures
            g@ == Map::<Seq<char>, S>::empty(),
    {
        Self::new()
    }
}

impl SingleflightGuard {
    /// Ends the leader's flight with `result`: the key is no longer in
    /// flight, and the result is to be sent on the flight's channel end.
    pub fn finish<S>(self, group: &mut SingleflightGroup<S>, result: SingleflightResult) -> (r:
        Option<Delivery<S>>)
        ensures
            final(group)@ == ended(old(group)@, self.key()),
            r is Some <==> old(group)@.contains_key(self.key()),
            r matches Some(d) ==> d.sender == old(group)@[self.key()] && d.result == result,
    {
        match group.end(self.key.as_str()) {
            Some(sender) => Some(Delivery { sender, result }),
            None => None,
        }
    }

    /// What dropping a leader's guard does: when the flight was not ended
    /// yet, it is ended with an error for the followers.
    pub fn abandon<S>(&mut self, group: &mut SingleflightGroup<S>) -> (r: Option<Delivery<S>>)
        ensures
            final(self).key() == old(self).key(),
            final(self).is_completed(),
            old(self).is_completed() ==> r is None && final(group)@ == old(group)@,
            !old(self).is_completed() ==> {
                &&& final(group)@ == ended(old(group)@, old(self).key())
                &&& (r is Some <==> old(group)@.contains_key(old(self).key()))
                &&& r matches Some(d) ==> d.sender == old(group)@[old(self).key()] && d.result
                    == SingleflightResult::Error
            },
    {
        if self.completed {
            return None;
        }
        self.completed = true;
        match group.end(self.key.as_str()) {
            Some(sender) => Some(Delivery { sender, result: SingleflightResult::Error }),
            None => None,
        }
    }
}

/// Whether entering `key` makes the caller the leader: no flight for the
/// key is under way.
pub open spec fn leads<S>(flights: Map<Seq<char>, S>, key: Seq<char>) -> bool {
    !flights.contains_key(key)
}

/// The flights after entering `key` with `sender`: a new flight when the
/// caller leads, the same flights when it follows.
pub open spec fn entered<S>(flights: Map<Seq<char>, S>, key: Seq<char>, sender: S) -> Map<
    Seq<char>,
    S,
> {
    if leads(flights, key) {
        flights.insert(key, sender)
    } else {
        flights
    }
}

/// The flights after the flight for `key` ends.
pub open spec fn ended<S>(flights: Map<Seq<char>, S>, key: Seq<char>) -> Map<Seq<char>, S> {
    flights.remove(key)
}

/// One leader per flight: when a caller leads a flight for a key of a
/// group, every further entry for that key follows and leaves the group as
/// it is, until the flight ends; once it ends the group is as before the
/// flight, and the next entry for the key leads again; flights of other
/// keys are untouched throughout.
pub proof fn one_leader_per_flight<S>(
    group: SingleflightGroup<S>,
    key: Seq<char>,
    first: S,
    later: S,
    next: S,
    other: Seq<char>,
)
    requires
        leads(group@, key),
        other != key,
    ensures
        !leads(entered(group@, key, first), key),
        entered(entered(group@, key, first), key, later) == entered(group@, key, first),
        entered(group@, key, first)[key] == first,
        ended(entered(group@, key, first), key) == group@,
        leads(ended(entered(group@, key, first), key), key),
        entered(ended(entered(group@, key, first), key), key, next)[key] == next,
        entered(group@, key, first).contains_key(other) == group@.contains_key(other),
{
    assert(ended(entered(group@, key, first), key) =~= group@);
}

} // verus!
