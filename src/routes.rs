use vstd::prelude::*;

verus! {

/// One entry of the routing table: a topic and the delivery sink that
/// receives its messages.
#[derive(Debug)]
pub struct Route {
    pub topic: String,
    pub sink: u64,
}

/// Topic -> delivery sink. Topics are unique keys; the table is viewed as a
/// map and the entries are kept in a vector.
pub struct RouteTable {
    entries: Vec<Route>,
    table: Ghost<Map<Seq<char>, u64>>,
}

impl View for RouteTable {
    type V = Map<Seq<char>, u64>;

    closed spec fn view(&self) -> Map<Seq<char>, u64> {
        self.table@
    }
}

impl RouteTable {
    /// Each entry is in the map with its sink, each key of the map has an
    /// entry, and no topic has two entries.
    pub closed spec fn wf(&self) -> bool {
        &&& forall|i: int|
            0 <= i < self.entries@.len() ==> {
                &&& #[trigger] self.table@.contains_key(self.entries@[i].topic@)
                &&& self.table@[self.entries@[i].topic@] == self.entries@[i].sink
            }
        &&& forall|t: Seq<char>|
            #[trigger] self.table@.contains_key(t) ==> exists|i: int|
                0 <= i < self.entries@.len() && #[trigger] self.entries@[i].topic@ == t
        &&& forall|i: int, j: int|
            0 <= i < self.entries@.len() && 0 <= j < self.entries@.len() && i != j
                ==> #[trigger] self.entries@[i].topic@ != #[trigger] self.entries@[j].topic@
    }

    pub fn new() -> (r: RouteTable)
        ensures
            r.wf(),
            r@ == Map::<Seq<char>, u64>::empty(),
    {
        RouteTable { entries: Vec::new(), table: Ghost(Map::empty()) }
    }

    pub fn len(&self) -> (r: usize)
        requires
            self.wf(),
        ensures
            r == self@.dom().len(),
    {
        proof {
            self.lemma_dom_is_topics();
        }
        self.entries.len()
    }

    proof fn lemma_dom_is_topics(&self)
        requires
            self.wf(),
        ensures
            self@.dom() == self.entries@.map_values(|e: Route| e.topic@).to_set(),
            self.entries@.map_values(|e: Route| e.topic@).no_duplicates(),
            self@.dom().len() == self.entries@.len(),
    {
        let ts = self.entries@.map_values(|e: Route| e.topic@);
        assert forall|t: Seq<char>| self@.dom().contains(t) <==> ts.to_set().contains(t) by {
            if self@.dom().contains(t) {
                let i = choose|i: int| 0 <= i < self.entries@.len() && #[trigger] self.entries@[i].topic@ == t;
                assert(ts[i] == t);
            }
            if ts.to_set().contains(t) {
                assert(ts.contains(t));
                let i = choose|i: int| 0 <= i < ts.len() && ts[i] == t;
                assert(self.entries@[i].topic@ == t);
            }
        }
        assert(self@.dom() =~= ts.to_set());
        assert(ts.no_duplicates()) by {
            assert forall|i: int, j: int| 0 <= i < ts.len() && 0 <= j < ts.len() && i != j implies ts[i] != ts[j] by {
                assert(self.entries@[i].topic@ != self.entries@[j].topic@);
            }
        }
        ts.unique_seq_to_set();
    }

    /// Index of the entry for `topic`, if there is one.
    fn position(&self, topic: &String) -> (r: Option<usize>)
        requires
            self.wf(),
        ensures
            match r {
                Some(i) => i < self.entries@.len() && self.entries@[i as int].topic@ == topic@,
                None => !self@.contains_key(topic@),
            },
    {
        let mut i: usize = 0;
        while i < self.entries.len()
            invariant
                self.wf(),
                i <= self.entries@.len(),
                forall|k: int| 0 <= k < i ==> self.entries@[k].topic@ != topic@,
            decreases self.entries@.len() - i,
        {
            if self.entries[i].topic == *topic {
                return Some(i);
            }
            i = i + 1;
        }
        proof {
            if self@.contains_key(topic@) {
                let k = choose|k: int| 0 <= k < self.entries@.len() && #[trigger] self.entries@[k].topic@ == topic@;
                assert(self.entries@[k].topic@ != topic@);
            }
        }
        None
    }

    /// The sink routed for `topic`.
    pub fn get(&self, topic: &String) -> (r: Option<u64>)
        requires
            self.wf(),
        ensures
            r == (if self@.contains_key(topic@) { Some(self@[topic@]) } else { None::<u64> }),
    {
        match self.position(topic) {
            Some(i) => Some(self.entries[i].sink),
            None => None,
        }
    }

    /// Routes `topic` to `sink`, replacing an earlier route of the same topic.
    pub fn insert(&mut self, topic: String, sink: u64)
        requires
            old(self).wf(),
        ensures
            final(self).wf(),
            final(self)@ == old(self)@.insert(topic@, sink),
    {
        self.remove(&topic);
        let ghost t = topic@;
        let ghost before = self.entries@;
        let ghost m0 = self.table@;
        self.entries.push(Route { topic, sink });
        self.table = Ghost(self.table@.insert(t, sink));
        proof {
            let n = before.len() as int;
            assert(self.entries@[n].topic@ == t);
            assert forall|i: int| 0 <= i < self.entries@.len() implies {
                &&& #[trigger] self.table@.contains_key(self.entries@[i].topic@)
                &&& self.table@[self.entries@[i].topic@] == self.entries@[i].sink
            } by {
                if i < n {
                    assert(self.entries@[i] == before[i]);
                }
            }
            assert forall|u: Seq<char>| #[trigger] self.table@.contains_key(u) implies exists|i: int|
                0 <= i < self.entries@.len() && #[trigger] self.entries@[i].topic@ == u by {
                if u != t {
                    let i = choose|i: int| 0 <= i < before.len() && #[trigger] before[i].topic@ == u;
                    assert(self.entries@[i] == before[i]);
                }
            }
            assert forall|i: int, j: int|
                0 <= i < self.entries@.len() && 0 <= j < self.entries@.len() && i != j
                    implies #[trigger] self.entries@[i].topic@ != #[trigger] self.entries@[j].topic@ by {
                if i < n && j < n {
                    assert(before[i].topic@ != before[j].topic@);
                } else if i < n {
                    assert(self.entries@[i] == before[i]);
                    assert(m0.contains_key(before[i].topic@));
                } else if j < n {
                    assert(self.entries@[j] == before[j]);
                    assert(m0.contains_key(before[j].topic@));
                }
            }
        }
    }

    /// Drops the route of `topic`, if there is one.
    pub fn remove(&mut self, topic: &String)
        requires
            old(self).wf(),
        ensures
            final(self).wf(),
            final(self)@ == old(self)@.remove(topic@),
    {
        match self.position(topic) {
            None => {
                assert(self.table@.remove(topic@) =~= self.table@);
            },
            Some(p) => {
                let ghost before = self.entries@;
                let ghost n = before.len() - 1;
                let _ = self.entries.swap_remove(p);
                self.table = Ghost(self.table@.remove(topic@));
                proof {
                    assert forall|i: int| 0 <= i < self.entries@.len() implies
                        self.entries@[i] == (if i == p { before[n] } else { before[i] }) by {}
                    assert forall|i: int| 0 <= i < self.entries@.len() implies {
                        &&& #[trigger] self.table@.contains_key(self.entries@[i].topic@)
                        &&& self.table@[self.entries@[i].topic@] == self.entries@[i].sink
                    } by {
                        if i == p {
                            assert(before[n].topic@ != before[p as int].topic@);
                        } else {
                            assert(before[i].topic@ != before[p as int].topic@);
                        }
                    }
                    assert forall|u: Seq<char>| #[trigger] self.table@.contains_key(u) implies exists|i: int|
                        0 <= i < self.entries@.len() && #[trigger] self.entries@[i].topic@ == u by {
                        let i = choose|i: int| 0 <= i < before.len() && #[trigger] before[i].topic@ == u;
                        if i == n {
                            if n != p {
                                assert(self.entries@[p as int].topic@ == u);
                            }
                        } else {
                            assert(i != p);
                            assert(self.entries@[i].topic@ == u);
                        }
                    }
                    assert forall|i: int, j: int|
                        0 <= i < self.entries@.len() && 0 <= j < self.entries@.len() && i != j
                            implies #[trigger] self.entries@[i].topic@ != #[trigger] self.entries@[j].topic@ by {
                        let a = if i == p { n } else { i };
                        let b = if j == p { n } else { j };
                        assert(before[a].topic@ != before[b].topic@);
                    }
                }
            },
        }
    }

    /// Every routed topic, each once, in no particular order.
    pub fn topics(&self) -> (r: Vec<String>)
        requires
            self.wf(),
        ensures
            forall|i: int| 0 <= i < r@.len() ==> self@.contains_key(#[trigger] r@[i]@),
            forall|t: Seq<char>| #[trigger] self@.contains_key(t) ==> exists|i: int| 0 <= i < r@.len() && #[trigger] r@[i]@ == t,
            forall|i: int, j: int| 0 <= i < r@.len() && 0 <= j < r@.len() && i != j ==> #[trigger] r@[i]@ != #[trigger] r@[j]@,
    {
        let mut r: Vec<String> = Vec::new();
        let mut i: usize = 0;
        while i < self.entries.len()
            invariant
                self.wf(),
                i <= self.entries@.len(),
                r@.len() == i,
                forall|k: int| 0 <= k < i ==> #[trigger] r@[k]@ == self.entries@[k].topic@,
            decreases self.entries@.len() - i,
        {
            r.push(self.entries[i].topic.clone());
            i = i + 1;
        }
        proof {
            assert forall|i: int| 0 <= i < r@.len() implies self@.contains_key(#[trigger] r@[i]@) by {
                assert(r@[i]@ == self.entries@[i].topic@);
            }
            assert forall|t: Seq<char>| #[trigger] self@.contains_key(t) implies exists|i: int| 0 <= i < r@.len() && #[trigger] r@[i]@ == t by {
                let i = choose|i: int| 0 <= i < self.entries@.len() && #[trigger] self.entries@[i].topic@ == t;
                assert(r@[i]@ == t);
            }
            assert forall|i: int, j: int| 0 <= i < r@.len() && 0 <= j < r@.len() && i != j implies #[trigger] r@[i]@ != #[trigger] r@[j]@ by {
                assert(r@[i]@ == self.entries@[i].topic@);
                assert(r@[j]@ == self.entries@[j].topic@);
            }
        }
        r
    }
}

} // verus!
