//! The session pool: one entry per agent name, each owning the handle of a
//! live resource actor, with the recycling policy that bounds how long a
//! session may be reused.
//!
//! A session is handed out again only while it is *fresh*: fewer than
//! [`MAX_TASKS`] tasks assigned and younger than [`MAX_AGE_SECS`]. A stale
//! entry is removed and its handle surfaced so the caller can send the actor
//! its close command; the caller then builds a fresh resource and registers
//! it with [`SessionPool::install`]. When resource construction fails,
//! nothing is registered, so the pool never holds a dead entry.

use vstd::prelude::*;

use crate::text::str_eq;

verus! {

/// A session is recycled once this many tasks have been assigned to it.
pub const MAX_TASKS: u64 = 50;

/// A session is recycled once it is this many seconds old.
pub const MAX_AGE_SECS: u64 = 3600;

/// One pooled session: the resource actor's handle, how many tasks were
/// assigned to it, and when it was created (seconds on the caller's clock).
#[derive(Clone, Copy, PartialEq, Eq, Structural, Debug)]
pub struct SessionEntry {
    pub handle: u64,
    pub task_count: u64,
    pub created_at: u64,
}

/// How old an entry is at time `now`; a clock that moved backwards counts
/// as age zero rather than wrapping.
pub open spec fn spec_age(entry: SessionEntry, now: u64) -> int {
    if now >= entry.created_at {
        now - entry.created_at
    } else {
        0
    }
}

/// Whether an entry may still be handed out at time `now`.
pub open spec fn spec_fresh(entry: SessionEntry, now: u64) -> bool {
    entry.task_count < MAX_TASKS && spec_age(entry, now) < MAX_AGE_SECS
}

/// The result of one `get_or_create` step.
#[derive(PartialEq, Eq, Structural, Debug)]
pub enum PoolStep {
    /// A fresh entry exists; its task count has been incremented and its
    /// handle can be used for the task at hand.
    Reuse { handle: u64 },
    /// No usable entry. A stale entry, if there was one, has been removed
    /// and its handle is returned so the caller can close that actor; the
    /// caller builds a fresh resource and registers it with `install`.
    NeedFresh { close: Option<u64> },
}

pub struct SessionPool {
    sessions: Vec<(String, SessionEntry)>,
}

impl SessionPool {
    /// The agent names that currently own a pooled session.
    pub closed spec fn names(self) -> Seq<Seq<char>> {
        self.sessions@.map_values(|e: (String, SessionEntry)| e.0@)
    }

    pub open spec fn contains_agent(self, name: Seq<char>) -> bool {
        self.names().contains(name)
    }

    /// The index of `name`'s entry; meaningful only when `contains_agent`.
    pub closed spec fn index_of(self, name: Seq<char>) -> int {
        choose|i: int| 0 <= i < self.names().len() && self.names()[i] == name
    }

    /// The entry pooled for `name`; meaningful only when `contains_agent`.
    pub closed spec fn entry_for(self, name: Seq<char>) -> SessionEntry
        recommends
            self.contains_agent(name),
    {
        self.sessions@[self.index_of(name)].1
    }

    /// Each agent name owns at most one pooled session.
    pub open spec fn wf(self) -> bool {
        forall|i: int, j: int|
            0 <= i < j < self.names().len() ==> self.names()[i] != self.names()[j]
    }

    proof fn lemma_entry_at(self, i: int)
        requires
            self.wf(),
            0 <= i < self.names().len(),
        ensures
            self.contains_agent(self.names()[i]),
            self.index_of(self.names()[i]) == i,
            self.entry_for(self.names()[i]) == self.sessions@[i].1,
    {
        assert(self.names().contains(self.names()[i]));
    }

    pub fn new() -> (r: SessionPool)
        ensures
            r.wf(),
            r.names() == Seq::<Seq<char>>::empty(),
    {
        let r = SessionPool { sessions: Vec::new() };
        proof {
            assert(r.names() =~= Seq::<Seq<char>>::empty());
        }
        r
    }

    /// Looks up the entry pooled for `name`.
    pub fn lookup(&self, name: &str) -> (r: Option<SessionEntry>)
        requires
            self.wf(),
        ensures
            r matches Some(e) ==> self.contains_agent(name@) && e == self.entry_for(name@),
            r is None ==> !self.contains_agent(name@),
    {
        let mut i: usize = 0;
        while i < self.sessions.len()
            invariant
                self.wf(),
                i <= self.sessions@.len(),
                forall|j: int| 0 <= j < i ==> self.names()[j] != name@,
            decreases self.sessions@.len() - i,
        {
            if str_eq(self.sessions[i].0.as_str(), name) {
                proof {
                    assert(self.names()[i as int] == name@);
                    self.lemma_entry_at(i as int);
                }
                return Some(self.sessions[i].1);
            }
            i += 1;
        }
        None
    }

    /// One pool step at time `now`: hands out the pooled session while it is
    /// fresh (counting the new task), and otherwise evicts the stale entry —
    /// returning its handle for closing — so the caller creates a fresh
    /// resource and `install`s it.
    pub fn get_or_create(&mut self, name: &str, now: u64) -> (r: PoolStep)
        requires
            old(self).wf(),
        ensures
            final(self).wf(),
            get_or_create_post(*old(self), *final(self), name@, now, r),
    {
        let mut i: usize = 0;
        while i < self.sessions.len()
            invariant
                old(self).wf(),
                *self == *old(self),
                i <= self.sessions@.len(),
                forall|j: int| 0 <= j < i ==> self.names()[j] != name@,
            decreases self.sessions@.len() - i,
        {
            if str_eq(self.sessions[i].0.as_str(), name) {
                proof {
                    assert(self.names()[i as int] == name@);
                    self.lemma_entry_at(i as int);
                }
                let entry = self.sessions[i].1;
                let age = if now >= entry.created_at { now - entry.created_at } else { 0 };
                if entry.task_count < MAX_TASKS && age < MAX_AGE_SECS {
                    self.sessions[i].1.task_count = entry.task_count + 1;
                    proof {
                        self.pool_update_facts(*old(self), i as int, name@);
                    }
                    return PoolStep::Reuse { handle: entry.handle };
                } else {
                    self.sessions.remove(i);
                    proof {
                        self.pool_removal_facts(*old(self), i as int, name@);
                    }
                    return PoolStep::NeedFresh { close: Some(entry.handle) };
                }
            }
            i += 1;
        }
        PoolStep::NeedFresh { close: None }
    }

    /// Registers a freshly created resource for `name` with a task count of
    /// zero; the caller must have evicted or never had an entry for `name`.
    pub fn install(&mut self, name: &str, handle: u64, now: u64)
        requires
            old(self).wf(),
            !old(self).contains_agent(name@),
        ensures
            final(self).wf(),
            install_post(*old(self), *final(self), name@, handle, now),
    {
        let entry = SessionEntry { handle, task_count: 0, created_at: now };
        self.sessions.push((name.to_owned(), entry));
        proof {
            let pre = old(self).names();
            let post = self.names();
            assert(post =~= pre.push(name@));
            let n = post.len() - 1;
            assert(post[n] == name@);
            assert forall|k: int| 0 <= k < n implies post[k] != name@ by {
                assert(!pre.contains(name@));
            }
            assert(self.index_of(name@) == n);
            assert forall|a: Seq<char>| a != name@ implies {
                &&& self.contains_agent(a) == old(self).contains_agent(a)
                &&& (old(self).contains_agent(a) ==> self.entry_for(a) == old(self).entry_for(a))
            } by {
                if pre.contains(a) {
                    let k = choose|k: int| 0 <= k < pre.len() && pre[k] == a;
                    assert(post[k] == a);
                    old(self).lemma_entry_at(k);
                    self.lemma_entry_at(k);
                    assert(self.sessions@[k] == old(self).sessions@[k]);
                }
                if post.contains(a) {
                    let k = choose|k: int| 0 <= k < post.len() && post[k] == a;
                    assert(k < pre.len());
                    assert(pre[k] == a);
                }
            }
        }
    }

    /// Counts one more task against `name`'s pooled session, if any.
    pub fn increment_task(&mut self, name: &str)
        requires
            old(self).wf(),
            old(self).contains_agent(name@)
                ==> old(self).entry_for(name@).task_count < u64::MAX,
        ensures
            final(self).wf(),
            old(self).contains_agent(name@) ==> {
                &&& final(self).contains_agent(name@)
                &&& final(self).entry_for(name@) == (SessionEntry {
                    task_count: (old(self).entry_for(name@).task_count + 1) as u64,
                    ..old(self).entry_for(name@)
                })
            },
            !old(self).contains_agent(name@) ==> *final(self) == *old(self),
            forall|a: Seq<char>| a != name@ ==> {
                &&& final(self).contains_agent(a) == old(self).contains_agent(a)
                &&& (old(self).contains_agent(a)
                    ==> final(self).entry_for(a) == old(self).entry_for(a))
            },
    {
        let mut i: usize = 0;
        while i < self.sessions.len()
            invariant
                old(self).wf(),
                *self == *old(self),
                old(self).contains_agent(name@)
                    ==> old(self).entry_for(name@).task_count < u64::MAX,
                i <= self.sessions@.len(),
                forall|j: int| 0 <= j < i ==> self.names()[j] != name@,
            decreases self.sessions@.len() - i,
        {
            if str_eq(self.sessions[i].0.as_str(), name) {
                proof {
                    assert(self.names()[i as int] == name@);
                    self.lemma_entry_at(i as int);
                }
                let count = self.sessions[i].1.task_count;
                self.sessions[i].1.task_count = count + 1;
                proof {
                    self.pool_update_facts(*old(self), i as int, name@);
                }
                return;
            }
            i += 1;
        }
    }

    /// Removes `name`'s entry unconditionally, returning the handle the
    /// caller must close; the next `get_or_create` is forced to build fresh.
    pub fn purge(&mut self, name: &str) -> (r: Option<u64>)
        requires
            old(self).wf(),
        ensures
            final(self).wf(),
            purge_post(*old(self), *final(self), name@, r),
    {
        let mut i: usize = 0;
        while i < self.sessions.len()
            invariant
                old(self).wf(),
                *self == *old(self),
                i <= self.sessions@.len(),
                forall|j: int| 0 <= j < i ==> self.names()[j] != name@,
            decreases self.sessions@.len() - i,
        {
            if str_eq(self.sessions[i].0.as_str(), name) {
                proof {
                    assert(self.names()[i as int] == name@);
                    self.lemma_entry_at(i as int);
                }
                let entry = self.sessions[i].1;
                self.sessions.remove(i);
                proof {
                    self.pool_removal_facts(*old(self), i as int, name@);
                }
                return Some(entry.handle);
            }
            i += 1;
        }
        None
    }

    /// After updating the entry at index `i` (same name, new session data),
    /// lookups for every other name are unchanged.
    proof fn pool_update_facts(self, pre: SessionPool, i: int, name: Seq<char>)
        requires
            pre.wf(),
            0 <= i < pre.sessions@.len(),
            pre.names()[i] == name,
            self.sessions@ == pre.sessions@.update(i, (pre.sessions@[i].0, self.sessions@[i].1)),
        ensures
            self.wf(),
            self.contains_agent(name),
            self.index_of(name) == i,
            self.entry_for(name) == self.sessions@[i].1,
            forall|a: Seq<char>| a != name ==> {
                &&& self.contains_agent(a) == pre.contains_agent(a)
                &&& (pre.contains_agent(a) ==> self.entry_for(a) == pre.entry_for(a))
            },
    {
        assert(self.names() =~= pre.names());
        assert(self.names()[i] == name);
        assert(self.contains_agent(name));
        pre.lemma_entry_at(i);
        assert forall|k: int|
            0 <= k < self.names().len() && self.names()[k] == name implies k == i by {
            if k != i {
                assert(pre.names()[k] == pre.names()[i]);
            }
        }
        assert(self.index_of(name) == i);
        assert forall|a: Seq<char>| a != name implies {
            &&& self.contains_agent(a) == pre.contains_agent(a)
            &&& (pre.contains_agent(a) ==> self.entry_for(a) == pre.entry_for(a))
        } by {
            if pre.contains_agent(a) {
                let k = choose|k: int| 0 <= k < pre.names().len() && pre.names()[k] == a;
                assert(self.names()[k] == a);
                pre.lemma_entry_at(k);
                self.lemma_entry_at(k);
                assert(k != i);
                assert(self.sessions@[k] == pre.sessions@[k]);
            }
        }
    }

    /// After removing the entry at index `i` (the one entry named `name`),
    /// lookups for every other name are unchanged and `name` is gone.
    proof fn pool_removal_facts(self, pre: SessionPool, i: int, name: Seq<char>)
        requires
            pre.wf(),
            0 <= i < pre.sessions@.len(),
            pre.names()[i] == name,
            self.sessions@ == pre.sessions@.remove(i),
        ensures
            self.wf(),
            !self.contains_agent(name),
            forall|a: Seq<char>| a != name ==> {
                &&& self.contains_agent(a) == pre.contains_agent(a)
                &&& (pre.contains_agent(a) ==> self.entry_for(a) == pre.entry_for(a))
            },
    {
        let pren = pre.names();
        let postn = self.names();
        assert(postn =~= pren.remove(i));
        pren.remove_ensures(i);
        assert forall|k: int| 0 <= k < postn.len() implies postn[k] != name by {
            if k >= i {
                assert(postn[k] == pren[k + 1]);
                assert(pren[i] != pren[k + 1]);
            }
        }
        assert forall|k1: int, k2: int|
            0 <= k1 < k2 < postn.len() implies postn[k1] != postn[k2] by {
            let m1: int = if k1 < i { k1 } else { k1 + 1 };
            let m2: int = if k2 < i { k2 } else { k2 + 1 };
            assert(postn[k1] == pren[m1]);
            assert(postn[k2] == pren[m2]);
            assert(pren[m1] != pren[m2]);
        }
        assert forall|a: Seq<char>| a != name implies {
            &&& self.contains_agent(a) == pre.contains_agent(a)
            &&& (pre.contains_agent(a) ==> self.entry_for(a) == pre.entry_for(a))
        } by {
            if pre.contains_agent(a) {
                let k = choose|k: int| 0 <= k < pren.len() && pren[k] == a;
                pre.lemma_entry_at(k);
                let k2: int = if k < i { k } else { k - 1 };
                assert(postn[k2] == a);
                self.lemma_entry_at(k2);
                if k < i {
                    assert(self.sessions@[k2] == pre.sessions@[k]);
                } else {
                    assert(self.sessions@[k2] == pre.sessions@[k2 + 1]);
                }
            }
            if self.contains_agent(a) {
                let k = choose|k: int| 0 <= k < postn.len() && postn[k] == a;
                if k < i {
                    assert(pren[k] == a);
                } else {
                    assert(pren[k + 1] == a);
                }
            }
        }
    }
}

/// The contract of one `get_or_create` step, as a relation between the pool
/// before and after, the agent, the clock, and the result.
pub open spec fn get_or_create_post(
    pre: SessionPool,
    post: SessionPool,
    name: Seq<char>,
    now: u64,
    r: PoolStep,
) -> bool {
    &&& (pre.contains_agent(name) && spec_fresh(pre.entry_for(name), now) ==> {
        &&& r == (PoolStep::Reuse { handle: pre.entry_for(name).handle })
        &&& post.contains_agent(name)
        &&& post.entry_for(name) == (SessionEntry {
            task_count: (pre.entry_for(name).task_count + 1) as u64,
            ..pre.entry_for(name)
        })
    })
    &&& (pre.contains_agent(name) && !spec_fresh(pre.entry_for(name), now) ==> {
        &&& r == (PoolStep::NeedFresh { close: Some(pre.entry_for(name).handle) })
        &&& !post.contains_agent(name)
    })
    &&& (!pre.contains_agent(name) ==> {
        &&& r == (PoolStep::NeedFresh { close: None::<u64> })
        &&& post == pre
    })
    &&& forall|a: Seq<char>| a != name ==> {
        &&& post.contains_agent(a) == pre.contains_agent(a)
        &&& (pre.contains_agent(a) ==> post.entry_for(a) == pre.entry_for(a))
    }
}

/// The contract of `install`: a brand-new entry for `name`, nothing else
/// touched.
pub open spec fn install_post(
    pre: SessionPool,
    post: SessionPool,
    name: Seq<char>,
    handle: u64,
    now: u64,
) -> bool {
    &&& post.contains_agent(name)
    &&& post.entry_for(name) == (SessionEntry { handle, task_count: 0, created_at: now })
    &&& forall|a: Seq<char>| a != name ==> {
        &&& post.contains_agent(a) == pre.contains_agent(a)
        &&& (pre.contains_agent(a) ==> post.entry_for(a) == pre.entry_for(a))
    }
}

/// The contract of `purge`: the entry is gone, its handle is surfaced for
/// closing, nothing else is touched.
pub open spec fn purge_post(
    pre: SessionPool,
    post: SessionPool,
    name: Seq<char>,
    r: Option<u64>,
) -> bool {
    &&& !post.contains_agent(name)
    &&& r == if pre.contains_agent(name) { Some(pre.entry_for(name).handle) } else { None::<u64> }
    &&& (!pre.contains_agent(name) ==> post == pre)
    &&& forall|a: Seq<char>| a != name ==> {
        &&& post.contains_agent(a) == pre.contains_agent(a)
        &&& (pre.contains_agent(a) ==> post.entry_for(a) == pre.entry_for(a))
    }
}

/// Recycling: once an entry has served [`MAX_TASKS`] tasks or has reached
/// [`MAX_AGE_SECS`] of age, the next `get_or_create` evicts it — handing its
/// handle back so its actor is sent `Close` — and once the fresh resource is
/// installed, the pool holds a new entry for the agent with a task count of
/// zero.
pub proof fn lemma_recycling(
    pre: SessionPool,
    mid: SessionPool,
    post: SessionPool,
    name: Seq<char>,
    now: u64,
    r: PoolStep,
    handle: u64,
    now2: u64,
)
    requires
        pre.contains_agent(name),
        pre.entry_for(name).task_count >= MAX_TASKS
            || spec_age(pre.entry_for(name), now) >= MAX_AGE_SECS,
        get_or_create_post(pre, mid, name, now, r),
        install_post(mid, post, name, handle, now2),
    ensures
        r == (PoolStep::NeedFresh { close: Some(pre.entry_for(name).handle) }),
        !mid.contains_agent(name),
        post.contains_agent(name),
        post.entry_for(name).task_count == 0,
        post.entry_for(name).handle == handle,
{
}

/// A failed health check purges the entry, and recreation succeeds: after
/// `purge` the pool no longer holds the old entry, and the next
/// `get_or_create` finds nothing to reuse, so it asks the caller to build
/// fresh — with no stale handle left to close.
pub proof fn lemma_purge_forces_fresh(
    pre: SessionPool,
    mid: SessionPool,
    post: SessionPool,
    name: Seq<char>,
    rp: Option<u64>,
    now: u64,
    rg: PoolStep,
)
    requires
        purge_post(pre, mid, name, rp),
        get_or_create_post(mid, post, name, now, rg),
    ensures
        !mid.contains_agent(name),
        rg == (PoolStep::NeedFresh { close: None::<u64> }),
        post == mid,
{
}

} // verus!
