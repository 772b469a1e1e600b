//! The datalinks being sampled, by name.
use vstd::prelude::*;

verus! {

/// The handle under which the kernel-statistics sampler knows a target.
#[derive(Clone, Copy, Debug, PartialEq, Eq, Structural)]
pub struct TargetId(pub u64);

/// One tracked link: its name and the sampler's handle for it.
#[derive(Debug)]
pub struct LinkEntry {
    pub name: String,
    pub id: TargetId,
}

/// A map from link name to sampler handle, each name held at most once.
pub struct LinkTracker {
    entries: Vec<LinkEntry>,
    links: Ghost<Map<Seq<char>, TargetId>>,
}

impl LinkTracker {
    /// The handle of each tracked link, by name.
    pub closed spec fn view(&self) -> Map<Seq<char>, TargetId> {
        self.links@
    }

    /// Names are unique, and the entries hold exactly the view.
    pub closed spec fn wf(&self) -> bool {
        &&& forall|i: int, j: int|
            0 <= i < j < self.entries@.len() ==> self.entries@[i].name@ != self.entries@[j].name@
        &&& forall|i: int|
            0 <= i < self.entries@.len() ==> #[trigger] self.links@.contains_key(
                self.entries@[i].name@,
            ) && self.links@[self.entries@[i].name@] == self.entries@[i].id
        &&& forall|k: Seq<char>|
            #[trigger] self.links@.contains_key(k) ==> exists|i: int|
                0 <= i < self.entries@.len() && self.entries@[i].name@ == k
    }

    /// An empty tracker.
    pub fn new() -> (r: Self)
        ensures
            r.wf(),
            r@ == Map::<Seq<char>, TargetId>::empty(),
    {
        LinkTracker { entries: Vec::new(), links: Ghost(Map::empty()) }
    }

    /// The position of the entry named `name`, if there is one.
    fn find(&self, name: &String) -> (r: Option<usize>)
        requires
            self.wf(),
        ensures
            match r {
                Some(i) => i < self.entries@.len() && self.entries@[i as int].name@ == name@,
                None => !self@.contains_key(name@),
            },
    {
        let mut i: usize = 0;
        while i < self.entries.len()
            invariant
                self.wf(),
                i <= self.entries@.len(),
                forall|j: int| 0 <= j < i ==> self.entries@[j].name@ != name@,
            decreases self.entries@.len() - i,
        {
            if self.entries[i].name == *name {
                return Some(i);
            }
            i = i + 1;
        }
        None
    }

    /// The handle tracked under `name`.
    pub fn get(&self, name: &str) -> (r: Option<TargetId>)
        requires
            self.wf(),
        ensures
            self@.contains_key(name@) ==> r == Some(self@[name@]),
            !self@.contains_key(name@) ==> r is None,
    {
        let key = name.to_owned();
        match self.find(&key) {
            Some(i) => Some(self.entries[i].id),
            None => None,
        }
    }

    /// Whether a handle is tracked under `name`.
    pub fn contains(&self, name: &str) -> (r: bool)
        requires
            self.wf(),
        ensures
            r == self@.contains_key(name@),
    {
        self.get(name).is_some()
    }

    /// Tracks `id` under `name`, replacing and returning any earlier handle.
    pub fn insert(&mut self, name: String, id: TargetId) -> (r: Option<TargetId>)
        requires
            old(self).wf(),
        ensures
            final(self).wf(),
            final(self)@ == old(self)@.insert(name@, id),
            old(self)@.contains_key(name@) ==> r == Some(old(self)@[name@]),
            !old(self)@.contains_key(name@) ==> r is None,
    {
        match self.find(&name) {
            Some(i) => {
                let prev = self.entries[i].id;
                self.entries.set(i, LinkEntry { name, id });
                self.links = Ghost(self.links@.insert(self.entries@[i as int].name@, id));
                proof {
                    let e = old(self).entries@;
                    let k = e[i as int].name@;
                    assert forall|q: Seq<char>| #[trigger] self.links@.contains_key(q) implies exists|j: int|
                        0 <= j < self.entries@.len() && self.entries@[j].name@ == q by {
                        if q != k {
                            let j = choose|j: int| 0 <= j < e.len() && e[j].name@ == q;
                            assert(self.entries@[j].name@ == q);
                        } else {
                            assert(self.entries@[i as int].name@ == q);
                        }
                    }
                }
                Some(prev)
            },
            None => {
                let ghost k = name@;
                self.entries.push(LinkEntry { name, id });
                self.links = Ghost(self.links@.insert(k, id));
                proof {
                    let e = old(self).entries@;
                    let n = self.entries@.len() - 1;
                    assert(self.entries@[n].name@ == k);
                    assert forall|i: int| 0 <= i < e.len() implies self.entries@[i] == e[i]
                        && e[i].name@ != k by {
                        if e[i].name@ == k {
                            assert(old(self).links@.contains_key(e[i].name@));
                        }
                    }
                    assert forall|q: Seq<char>| #[trigger] self.links@.contains_key(q) implies exists|j: int|
                        0 <= j < self.entries@.len() && self.entries@[j].name@ == q by {
                        if q != k {
                            let j = choose|j: int| 0 <= j < e.len() && e[j].name@ == q;
                            assert(self.entries@[j].name@ == q);
                        } else {
                            assert(self.entries@[n].name@ == q);
                        }
                    }
                }
                None
            },
        }
    }

    /// Stops tracking `name`, returning its handle if it was tracked.
    pub fn remove(&mut self, name: &str) -> (r: Option<TargetId>)
        requires
            old(self).wf(),
        ensures
            final(self).wf(),
            final(self)@ == old(self)@.remove(name@),
            old(self)@.contains_key(name@) ==> r == Some(old(self)@[name@]),
            !old(self)@.contains_key(name@) ==> r is None,
    {
        let key = name.to_owned();
        match self.find(&key) {
            Some(i) => {
                let entry = self.entries.remove(i);
                self.links = Ghost(self.links@.remove(key@));
                proof {
                    let e = old(self).entries@;
                    assert forall|j: int| 0 <= j < self.entries@.len() implies
                        self.entries@[j] == (if j < i { e[j] } else { e[j + 1] }) by {}
                    assert forall|q: Seq<char>| #[trigger] self.links@.contains_key(q) implies exists|j: int|
                        0 <= j < self.entries@.len() && self.entries@[j].name@ == q by {
                        let j = choose|j: int| 0 <= j < e.len() && e[j].name@ == q;
                        if j < i {
                            assert(self.entries@[j].name@ == q);
                        } else {
                            assert(j != i);
                            assert(self.entries@[j - 1].name@ == q);
                        }
                    }
                }
                Some(entry.id)
            },
            None => {
                proof {
                    assert(self.links@.remove(key@) =~= self.links@);
                }
                None
            },
        }
    }
}

} // verus!
