//! The registry of modules, keyed by event.

use vstd::prelude::*;
use crate::event::Event;

verus! {

/// Maps each registered event to its module. No event is registered twice.
pub struct ModuleMap<M> {
    events: Vec<Event>,
    modules: Vec<M>,
}

impl<M> ModuleMap<M> {
    #[verifier::type_invariant]
    spec fn well_formed(self) -> bool {
        &&& self.events.len() == self.modules.len()
        &&& forall|i: int, j: int|
            0 <= i < j < self.events.len() ==> self.events[i]@ != self.events[j]@
    }

    /// Whether `name` is the event at position `i`.
    spec fn holds_at(self, name: Seq<char>, i: int) -> bool {
        0 <= i < self.events.len() && self.events[i]@ == name
    }

    /// The registry as a map from event names to modules.
    pub closed spec fn view(self) -> Map<Seq<char>, M> {
        Map::new(
            |name: Seq<char>| exists|i: int| self.holds_at(name, i),
            |name: Seq<char>| self.modules[choose|i: int| self.holds_at(name, i)],
        )
    }

    /// A registry without modules.
    pub fn new() -> (map: ModuleMap<M>)
        ensures
            map.view() == Map::<Seq<char>, M>::empty(),
    {
        let map = ModuleMap { events: Vec::new(), modules: Vec::new() };
        assert(map.view() =~= Map::<Seq<char>, M>::empty());
        map
    }

    /// The position of `event`, if it is registered.
    fn position(&self, event: &Event) -> (found: Option<usize>)
        ensures
            match found {
                Some(i) => self.holds_at(event@, i as int),
                None => forall|i: int| !self.holds_at(event@, i),
            },
    {
        let mut i: usize = 0;
        while i < self.events.len()
            invariant
                i <= self.events.len(),
                forall|k: int| 0 <= k < i ==> self.events[k]@ != event@,
            decreases self.events.len() - i,
        {
            if self.events[i].same(event) {
                return Some(i);
            }
            i += 1;
        }
        None
    }

    /// Whether a module is registered for `event`.
    pub fn contains(&self, event: &Event) -> (found: bool)
        ensures
            found == self.view().contains_key(event@),
    {
        self.position(event).is_some()
    }

    /// Looks up the module registered for `event`.
    pub fn get(&self, event: &Event) -> (found: Option<&M>)
        ensures
            match found {
                Some(module) => self.view().contains_key(event@) && self.view()[event@] == *module,
                None => !self.view().contains_key(event@),
            },
    {
        proof {
            use_type_invariant(self);
        }
        match self.position(event) {
            Some(i) => {
                proof {
                    let chosen = choose|k: int| self.holds_at(event@, k);
                    assert(self.holds_at(event@, chosen));
                    assert(chosen == i);
                }
                Some(&self.modules[i])
            },
            None => None,
        }
    }

    /// Registers `module` for `event`, unless the event already has a module:
    /// the first registration stays.
    pub fn register(self, event: Event, module: M) -> (map: ModuleMap<M>)
        ensures
            map.view() == if self.view().contains_key(event@) {
                self.view()
            } else {
                self.view().insert(event@, module)
            },
    {
        proof {
            use_type_invariant(&self);
        }
        match self.position(&event) {
            Some(_) => self,
            None => {
                let ghost before = self;
                let ghost name = event@;
                let ModuleMap { mut events, mut modules } = self;
                events.push(event);
                modules.push(module);
                proof {
                    assert forall|i: int, j: int| 0 <= i < j < events.len() implies events[i]@
                        != events[j]@ by {
                        if j == before.events.len() {
                            assert(!before.holds_at(name, i));
                        } else {
                            assert(before.events[i]@ != before.events[j]@);
                        }
                    }
                }
                let after = ModuleMap { events, modules };
                proof {
                    let last = before.events.len() as int;
                    assert forall|key: Seq<char>|
                        after.view().contains_key(key) == before.view().insert(
                            name,
                            module,
                        ).contains_key(key) by {
                        if key == name {
                            assert(after.holds_at(key, last));
                        } else if before.view().contains_key(key) {
                            let i = choose|i: int| before.holds_at(key, i);
                            assert(after.holds_at(key, i));
                        } else if after.view().contains_key(key) {
                            let i = choose|i: int| after.holds_at(key, i);
                            assert(before.holds_at(key, i));
                        }
                    }
                    assert forall|key: Seq<char>| after.view().contains_key(key) implies after.view()[key]
                        == before.view().insert(name, module)[key] by {
                        let i = choose|i: int| after.holds_at(key, i);
                        assert(after.holds_at(key, i));
                        if key == name {
                            assert(after.holds_at(key, last));
                            assert(i == last);
                        } else {
                            assert(before.holds_at(key, i));
                            let j = choose|j: int| before.holds_at(key, j);
                            assert(before.holds_at(key, j));
                            assert(i == j);
                        }
                    }
                    assert(after.view() =~= before.view().insert(name, module));
                }
                after
            },
        }
    }

    /// The number of registered modules.
    pub fn len(&self) -> (count: usize)
        ensures
            count == self.view().dom().len(),
            self.view().dom().finite(),
    {
        proof {
            use_type_invariant(self);
            self.count_keys(self.events.len() as int);
        }
        self.events.len()
    }

    /// The names at the first `n` positions.
    spec fn names_before(self, n: int) -> Set<Seq<char>> {
        Set::new(|name: Seq<char>| exists|i: int| 0 <= i < n && self.holds_at(name, i))
    }

    proof fn count_keys(self, n: int)
        requires
            self.well_formed(),
            0 <= n <= self.events.len(),
        ensures
            self.names_before(n).finite(),
            self.names_before(n).len() == n,
            n == self.events.len() ==> self.names_before(n) == self.view().dom(),
        decreases n,
    {
        if n == 0 {
            assert(self.names_before(0) =~= Set::<Seq<char>>::empty());
        } else {
            self.count_keys(n - 1);
            let name = self.events[n - 1]@;
            assert(self.holds_at(name, n - 1));
            assert(self.names_before(n) =~= self.names_before(n - 1).insert(name)) by {
                assert forall|key: Seq<char>| self.names_before(n).contains(key) implies self.names_before(
                    n - 1,
                ).insert(name).contains(key) by {
                    let i = choose|i: int| 0 <= i < n && self.holds_at(key, i);
                    if i < n - 1 {
                        assert(0 <= i < n - 1 && self.holds_at(key, i));
                    }
                }
            }
            assert(!self.names_before(n - 1).contains(name));
        }
        if n == self.events.len() {
            assert(self.names_before(n) =~= self.view().dom());
        }
    }
}

} // verus!
