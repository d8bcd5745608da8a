//! The connection registry: at most one connection handle per guild.
use vstd::prelude::*;

verus! {

/// The record of a live or pending voice connection of one guild.
#[derive(Clone, Copy, PartialEq, Eq, Structural, Debug)]
pub struct ConnectionHandle {
    pub guild: u64,
    pub current_channel: Option<u64>,
}

/// Owns the connection handles, one per guild at most.
///
/// Its model is a map from a guild to the channel its handle is in
/// (`None`: a handle that is not in any channel yet).
pub struct ConnectionRegistry {
    handles: Vec<ConnectionHandle>,
}

impl ConnectionRegistry {
    /// The handles, in the order in which they were made.
    pub closed spec fn handles(&self) -> Seq<ConnectionHandle> {
        self.handles@
    }

    /// No two handles belong to the same guild.
    pub open spec fn wf(&self) -> bool {
        forall|i: int, j: int|
            0 <= i < self.handles().len() && 0 <= j < self.handles().len() && i != j ==> (
            #[trigger] self.handles()[i]).guild != (#[trigger] self.handles()[j]).guild
    }

    /// Whether some handle belongs to `guild`.
    pub open spec fn holds(&self, guild: u64) -> bool {
        exists|i: int| 0 <= i < self.handles().len() && (#[trigger] self.handles()[i]).guild == guild
    }

    /// The position of the handle of `guild`.
    pub open spec fn index_of(&self, guild: u64) -> int {
        choose|i: int| 0 <= i < self.handles().len() && (#[trigger] self.handles()[i]).guild == guild
    }

    pub open spec fn view(&self) -> Map<u64, Option<u64>> {
        Map::new(
            |g: u64| self.holds(g),
            |g: u64| self.handles()[self.index_of(g)].current_channel,
        )
    }

    proof fn lemma_index_of(&self, i: int)
        requires
            self.wf(),
            0 <= i < self.handles().len(),
        ensures
            self.holds(self.handles()[i].guild),
            self.index_of(self.handles()[i].guild) == i,
            self@.contains_key(self.handles()[i].guild),
            self@[self.handles()[i].guild] == self.handles()[i].current_channel,
    {
        let g = self.handles()[i].guild;
        assert(self.handles()[i].guild == g);
        let j = self.index_of(g);
        assert(self.handles()[j].guild == g);
    }

    /// A registry without handles.
    pub fn new() -> (r: Self)
        ensures
            r.wf(),
            r@ == Map::<u64, Option<u64>>::empty(),
    {
        let r = ConnectionRegistry { handles: Vec::new() };
        assert(r@ =~= Map::<u64, Option<u64>>::empty());
        r
    }

    fn find(&self, guild: u64) -> (r: Option<usize>)
        requires
            self.wf(),
        ensures
            match r {
                Some(i) => i < self.handles().len() && self.handles()[i as int].guild == guild
                    && self.index_of(guild) == i,
                None => !self.holds(guild),
            },
    {
        let mut i: usize = 0;
        while i < self.handles.len()
            invariant
                self.wf(),
                i <= self.handles().len(),
                forall|j: int| 0 <= j < i ==> (#[trigger] self.handles()[j]).guild != guild,
            decreases self.handles().len() - i,
        {
            if self.handles[i].guild == guild {
                proof {
                    self.lemma_index_of(i as int);
                }
                return Some(i);
            }
            i = i + 1;
        }
        None
    }

    /// The handle of `guild`, if there is one. Makes none.
    pub fn get(&self, guild: u64) -> (r: Option<ConnectionHandle>)
        requires
            self.wf(),
        ensures
            match r {
                Some(h) => self@.contains_key(guild) && h.guild == guild && h.current_channel
                    == self@[guild],
                None => !self@.contains_key(guild),
            },
    {
        match self.find(guild) {
            Some(i) => {
                proof {
                    self.lemma_index_of(i as int);
                }
                Some(self.handles[i])
            },
            None => None,
        }
    }

    /// The handle of `guild`, made (in no channel) when there is none yet.
    pub fn get_or_insert(&mut self, guild: u64) -> (r: ConnectionHandle)
        requires
            old(self).wf(),
        ensures
            final(self).wf(),
            final(self)@ == (if old(self)@.contains_key(guild) {
                old(self)@
            } else {
                old(self)@.insert(guild, None)
            }),
            r.guild == guild,
            r.current_channel == final(self)@[guild],
    {
        match self.find(guild) {
            Some(i) => {
                proof {
                    self.lemma_index_of(i as int);
                }
                self.handles[i]
            },
            None => {
                let h = ConnectionHandle { guild, current_channel: None };
                let ghost before = *self;
                self.handles.push(h);
                let ghost n = before.handles().len() as int;
                assert(self.handles() == before.handles().push(h));
                assert forall|i: int, j: int|
                    0 <= i < self.handles().len() && 0 <= j < self.handles().len() && i
                        != j implies (#[trigger] self.handles()[i]).guild != (
                #[trigger] self.handles()[j]).guild by {
                    if i == n {
                        assert(before.handles()[j].guild == self.handles()[j].guild);
                    } else if j == n {
                        assert(before.handles()[i].guild == self.handles()[i].guild);
                    }
                }
                proof {
                    self.lemma_index_of(n);
                    assert forall|g: u64| #[trigger]
                        self@.contains_key(g) <==> before@.insert(guild, None).contains_key(g) by {
                        if self.holds(g) && g != guild {
                            let i = self.index_of(g);
                            assert(before.handles()[i].guild == g);
                        }
                        if before.holds(g) {
                            let i = before.index_of(g);
                            assert(self.handles()[i].guild == g);
                        }
                    }
                    assert forall|g: u64| #[trigger]
                        self@.contains_key(g) implies self@[g] == before@.insert(guild, None)[g] by {
                        if g != guild {
                            let i = before.index_of(g);
                            assert(before.handles()[i].guild == g);
                            before.lemma_index_of(i);
                            self.lemma_index_of(i);
                        }
                    }
                    assert(self@ =~= before@.insert(guild, None));
                }
                h
            },
        }
    }

    /// Puts the handle of `guild`, which must exist, into `channel`.
    pub fn set_channel(&mut self, guild: u64, channel: Option<u64>)
        requires
            old(self).wf(),
            old(self)@.contains_key(guild),
        ensures
            final(self).wf(),
            final(self)@ == old(self)@.insert(guild, channel),
    {
        let ghost before = *self;
        match self.find(guild) {
            Some(i) => {
                self.handles.set(i, ConnectionHandle { guild, current_channel: channel });
                assert forall|a: int, b: int|
                    0 <= a < self.handles().len() && 0 <= b < self.handles().len() && a
                        != b implies (#[trigger] self.handles()[a]).guild != (
                #[trigger] self.handles()[b]).guild by {
                    assert(self.handles()[a].guild == before.handles()[a].guild);
                    assert(self.handles()[b].guild == before.handles()[b].guild);
                }
                proof {
                    self.lemma_index_of(i as int);
                    assert forall|g: u64| #[trigger]
                        self@.contains_key(g) <==> before@.contains_key(g) by {
                        if self.holds(g) {
                            let j = self.index_of(g);
                            assert(before.handles()[j].guild == g);
                        }
                        if before.holds(g) {
                            let j = before.index_of(g);
                            assert(self.handles()[j].guild == g);
                        }
                    }
                    assert forall|g: u64| #[trigger]
                        self@.contains_key(g) implies self@[g] == before@.insert(guild, channel)[g] by {
                        if g != guild {
                            let j = before.index_of(g);
                            assert(before.handles()[j].guild == g);
                            before.lemma_index_of(j);
                            self.lemma_index_of(j);
                        }
                    }
                    assert(self@ =~= before@.insert(guild, channel));
                }
            },
            None => {},
        }
    }

    /// Releases the handle of `guild`; returns whether there was one.
    pub fn remove(&mut self, guild: u64) -> (r: bool)
        requires
            old(self).wf(),
        ensures
            final(self).wf(),
            final(self)@ == old(self)@.remove(guild),
            r == old(self)@.contains_key(guild),
    {
        let ghost before = *self;
        match self.find(guild) {
            Some(i) => {
                self.handles.remove(i);
                assert(self.handles() == before.handles().remove(i as int));
                assert forall|a: int, b: int|
                    0 <= a < self.handles().len() && 0 <= b < self.handles().len() && a
                        != b implies (#[trigger] self.handles()[a]).guild != (
                #[trigger] self.handles()[b]).guild by {
                    let oa = if a < i { a } else { a + 1 };
                    let ob = if b < i { b } else { b + 1 };
                    assert(self.handles()[a] == before.handles()[oa]);
                    assert(self.handles()[b] == before.handles()[ob]);
                }
                proof {
                    before.lemma_index_of(i as int);
                    assert forall|g: u64| #[trigger]
                        self@.contains_key(g) <==> before@.remove(guild).contains_key(g) by {
                        if self.holds(g) {
                            let j = self.index_of(g);
                            let oj = if j < i { j } else { j + 1 };
                            assert(before.handles()[oj].guild == g);
                            assert(oj != i);
                        }
                        if before.holds(g) && g != guild {
                            let j = before.index_of(g);
                            assert(before.handles()[j].guild == g);
                            let nj = if j < i { j } else { j - 1 };
                            assert(self.handles()[nj].guild == g);
                        }
                    }
                    assert forall|g: u64| #[trigger]
                        self@.contains_key(g) implies self@[g] == before@.remove(guild)[g] by {
                        let j = before.index_of(g);
                        assert(before.handles()[j].guild == g);
                        before.lemma_index_of(j);
                        let nj = if j < i { j } else { j - 1 };
                        assert(self.handles()[nj] == before.handles()[j]);
                        self.lemma_index_of(nj);
                    }
                    assert(self@ =~= before@.remove(guild));
                }
                true
            },
            None => {
                assert(self@ =~= before@.remove(guild));
                false
            },
        }
    }
}

/// A guild never has two handles at once: in a well-formed registry, two
/// handles of the same guild are one and the same handle. Every operation
/// of the registry keeps it well formed.
pub proof fn lemma_one_handle_per_guild(registry: &ConnectionRegistry, i: int, j: int)
    requires
        registry.wf(),
        0 <= i < registry.handles().len(),
        0 <= j < registry.handles().len(),
        registry.handles()[i].guild == registry.handles()[j].guild,
    ensures
        i == j,
{
}

} // verus!
