//! Single-writer authority over the shared mutable orchestration state: the
//! set of processed message ids, the per-agent busy flags, and the last-seen
//! message id watermark.
//!
//! All mutation goes through the methods here (in the running system, through
//! [`StateCommand`] messages handled by `handle_command`), so check-then-act
//! sequences such as `try_set_busy` and `check_and_mark_processed` are atomic
//! with respect to every other reader and writer.

use std::collections::HashSet;
use vstd::prelude::*;

use crate::text::str_eq;

verus! {

/// A request to the state authority. Replies travel back as [`StateReply`].
pub enum StateCommand {
    CheckProcessed { id: usize },
    SaveProcessed { id: usize },
    /// Atomically reports whether `id` was processed and marks it processed.
    CheckAndMarkProcessed { id: usize },
    IsBusy { agent: String },
    SetBusy { agent: String, busy: bool },
    /// Atomically sets the busy flag and reports whether it was clear before.
    TrySetBusy { agent: String },
    GetLastMessageId,
    SetLastMessageId { id: usize },
}

#[derive(Debug, PartialEq, Eq, Structural)]
pub enum StateReply {
    Flag(bool),
    Id(usize),
    Done,
}

pub struct StateActor {
    processed_ids: HashSet<usize>,
    busy_agents: Vec<String>,
    last_message_id: usize,
}

impl StateActor {
    /// The ids already dispatched; append-only across the process lifetime.
    pub closed spec fn processed(self) -> Set<usize> {
        self.processed_ids@
    }

    /// The names of the agents that currently have an in-flight task.
    pub closed spec fn busy_names(self) -> Seq<Seq<char>> {
        self.busy_agents@.map_values(|s: String| s@)
    }

    /// Whether `agent` currently has an in-flight task.
    pub open spec fn busy(self, agent: Seq<char>) -> bool {
        self.busy_names().contains(agent)
    }

    /// The highest message id seen so far.
    pub closed spec fn last_seen(self) -> usize {
        self.last_message_id
    }

    /// Each busy agent is recorded exactly once.
    pub open spec fn wf(self) -> bool {
        forall|i: int, j: int|
            0 <= i < j < self.busy_names().len()
                ==> self.busy_names()[i] != self.busy_names()[j]
    }

    /// Starts the authority from the persisted processed-id list; every agent
    /// is idle and the watermark is zero.
    pub fn new(persisted: Vec<usize>) -> (r: StateActor)
        ensures
            r.wf(),
            forall|id: usize| r.processed().contains(id) == persisted@.contains(id),
            r.busy_names() == Seq::<Seq<char>>::empty(),
            r.last_seen() == 0,
    {
        let mut processed_ids: HashSet<usize> = HashSet::new();
        let mut i: usize = 0;
        while i < persisted.len()
            invariant
                i <= persisted.len(),
                forall|id: usize| #[trigger] processed_ids@.contains(id)
                    == exists|j: int| 0 <= j < i && persisted@[j] == id,
            decreases persisted.len() - i,
        {
            processed_ids.insert(persisted[i]);
            i += 1;
        }
        let r = StateActor { processed_ids, busy_agents: Vec::new(), last_message_id: 0 };
        proof {
            assert(r.busy_names() =~= Seq::<Seq<char>>::empty());
        }
        r
    }

    pub fn check_processed(&self, id: usize) -> (r: bool)
        ensures
            r == self.processed().contains(id),
    {
        self.processed_ids.contains(&id)
    }

    pub fn save_processed(&mut self, id: usize)
        ensures
            final(self).processed() == old(self).processed().insert(id),
            final(self).busy_names() == old(self).busy_names(),
            final(self).last_seen() == old(self).last_seen(),
    {
        self.processed_ids.insert(id);
    }

    /// Atomic check-then-mark: reports whether `id` was already processed
    /// and, in the same step, records it as processed.
    pub fn check_and_mark_processed(&mut self, id: usize) -> (r: bool)
        ensures
            r == old(self).processed().contains(id),
            final(self).processed() == old(self).processed().insert(id),
            final(self).busy_names() == old(self).busy_names(),
            final(self).last_seen() == old(self).last_seen(),
    {
        let was = self.processed_ids.contains(&id);
        self.processed_ids.insert(id);
        was
    }

    pub fn is_busy(&self, agent: &str) -> (r: bool)
        ensures
            r == self.busy(agent@),
    {
        let mut i: usize = 0;
        while i < self.busy_agents.len()
            invariant
                i <= self.busy_agents@.len(),
                forall|j: int| 0 <= j < i ==> self.busy_names()[j] != agent@,
            decreases self.busy_agents@.len() - i,
        {
            if str_eq(self.busy_agents[i].as_str(), agent) {
                proof {
                    assert(self.busy_names()[i as int] == agent@);
                }
                return true;
            }
            i += 1;
        }
        false
    }

    /// Atomic busy-flag acquisition: returns `true` and sets the flag only if
    /// the agent was idle; returns `false` (and changes nothing) otherwise.
    pub fn try_set_busy(&mut self, agent: &str) -> (r: bool)
        requires
            old(self).wf(),
        ensures
            final(self).wf(),
            r == !old(self).busy(agent@),
            final(self).busy_names()
                == if r { old(self).busy_names().push(agent@) } else { old(self).busy_names() },
            final(self).busy(agent@),
            forall|a: Seq<char>| a != agent@ ==> final(self).busy(a) == old(self).busy(a),
            final(self).processed() == old(self).processed(),
            final(self).last_seen() == old(self).last_seen(),
    {
        if self.is_busy(agent) {
            return false;
        }
        self.busy_agents.push(agent.to_owned());
        proof {
            let pren = old(self).busy_names();
            let postn = self.busy_names();
            assert(postn =~= pren.push(agent@));
            let n = postn.len() - 1;
            assert(postn[n] == agent@);
            assert forall|a: Seq<char>| a != agent@ implies
                postn.contains(a) == pren.contains(a) by {
                if pren.contains(a) {
                    let k = choose|k: int| 0 <= k < pren.len() && pren[k] == a;
                    assert(postn[k] == a);
                }
                if postn.contains(a) {
                    let k = choose|k: int| 0 <= k < postn.len() && postn[k] == a;
                    assert(k < pren.len());
                    assert(pren[k] == a);
                }
            }
        }
        true
    }

    /// Clears the busy flag for `agent`; a no-op when the agent is idle.
    pub fn set_idle(&mut self, agent: &str)
        requires
            old(self).wf(),
        ensures
            final(self).wf(),
            !final(self).busy(agent@),
            forall|a: Seq<char>| a != agent@ ==> final(self).busy(a) == old(self).busy(a),
            final(self).processed() == old(self).processed(),
            final(self).last_seen() == old(self).last_seen(),
    {
        let mut i: usize = 0;
        while i < self.busy_agents.len()
            invariant
                old(self).wf(),
                *self == *old(self),
                i <= self.busy_agents@.len(),
                forall|j: int| 0 <= j < i ==> self.busy_names()[j] != agent@,
            decreases self.busy_agents@.len() - i,
        {
            if str_eq(self.busy_agents[i].as_str(), agent) {
                let ghost pren = old(self).busy_names();
                proof {
                    assert(pren[i as int] == agent@);
                }
                self.busy_agents.remove(i);
                proof {
                    let postn = self.busy_names();
                    assert(postn =~= pren.remove(i as int));
                    pren.remove_ensures(i as int);
                    assert forall|k: int| 0 <= k < postn.len() implies postn[k] != agent@ by {
                        if k >= i {
                            assert(postn[k] == pren[k + 1]);
                            assert(old(self).busy_names()[i as int]
                                != old(self).busy_names()[k + 1]);
                        }
                    }
                    assert forall|k1: int, k2: int|
                        0 <= k1 < k2 < postn.len() implies postn[k1] != postn[k2] by {
                        let m1: int = if k1 < i { k1 } else { k1 + 1 };
                        let m2: int = if k2 < i { k2 } else { k2 + 1 };
                        assert(postn[k1] == pren[m1]);
                        assert(postn[k2] == pren[m2]);
                        assert(old(self).busy_names()[m1] != old(self).busy_names()[m2]);
                    }
                    assert forall|a: Seq<char>| a != agent@ implies
                        postn.contains(a) == pren.contains(a) by {
                        if pren.contains(a) {
                            let k = choose|k: int| 0 <= k < pren.len() && pren[k] == a;
                            if k < i {
                                assert(postn[k] == a);
                            } else {
                                assert(postn[k - 1] == a);
                            }
                        }
                    }
                }
                return;
            }
            i += 1;
        }
    }

    /// Sets or clears the busy flag unconditionally.
    pub fn set_busy(&mut self, agent: &str, busy: bool)
        requires
            old(self).wf(),
        ensures
            final(self).wf(),
            final(self).busy(agent@) == busy,
            forall|a: Seq<char>| a != agent@ ==> final(self).busy(a) == old(self).busy(a),
            final(self).processed() == old(self).processed(),
            final(self).last_seen() == old(self).last_seen(),
    {
        if busy {
            let _ = self.try_set_busy(agent);
        } else {
            self.set_idle(agent);
        }
    }

    pub fn get_last_message_id(&self) -> (r: usize)
        ensures
            r == self.last_seen(),
    {
        self.last_message_id
    }

    /// Advances the watermark; ids at or below the current value are ignored.
    pub fn set_last_message_id(&mut self, id: usize)
        ensures
            final(self).last_seen()
                == if id > old(self).last_seen() { id } else { old(self).last_seen() },
            final(self).processed() == old(self).processed(),
            final(self).busy_names() == old(self).busy_names(),
    {
        if id > self.last_message_id {
            self.last_message_id = id;
        }
    }

    /// One step of the state authority: handles a single command and yields
    /// the reply that travels back to the requester. The surrounding actor
    /// loop feeds commands one at a time, which is what makes each of these
    /// read-modify-write steps atomic.
    pub fn handle_command(&mut self, cmd: StateCommand) -> (r: StateReply)
        requires
            old(self).wf(),
        ensures
            final(self).wf(),
            cmd matches StateCommand::CheckProcessed { id } ==> {
                &&& r == StateReply::Flag(old(self).processed().contains(id))
                &&& final(self).processed() == old(self).processed()
            },
            cmd matches StateCommand::SaveProcessed { id } ==> {
                &&& r == StateReply::Done
                &&& final(self).processed() == old(self).processed().insert(id)
            },
            cmd matches StateCommand::CheckAndMarkProcessed { id } ==> {
                &&& r == StateReply::Flag(old(self).processed().contains(id))
                &&& final(self).processed() == old(self).processed().insert(id)
            },
            cmd matches StateCommand::IsBusy { agent } ==> {
                &&& r == StateReply::Flag(old(self).busy(agent@))
                &&& final(self).busy_names() == old(self).busy_names()
            },
            cmd matches StateCommand::SetBusy { agent, busy } ==> {
                &&& r == StateReply::Done
                &&& final(self).busy(agent@) == busy
                &&& forall|a: Seq<char>| a != agent@
                    ==> final(self).busy(a) == old(self).busy(a)
            },
            cmd matches StateCommand::TrySetBusy { agent } ==> {
                &&& r == StateReply::Flag(!old(self).busy(agent@))
                &&& final(self).busy(agent@)
                &&& forall|a: Seq<char>| a != agent@
                    ==> final(self).busy(a) == old(self).busy(a)
            },
            cmd matches StateCommand::GetLastMessageId ==> {
                &&& r == StateReply::Id(old(self).last_seen())
                &&& final(self).last_seen() == old(self).last_seen()
            },
            cmd matches StateCommand::SetLastMessageId { id } ==> {
                &&& r == StateReply::Done
                &&& final(self).last_seen()
                    == if id > old(self).last_seen() { id } else { old(self).last_seen() }
            },
            !(cmd matches StateCommand::SaveProcessed { .. })
                && !(cmd matches StateCommand::CheckAndMarkProcessed { .. })
                ==> final(self).processed() == old(self).processed(),
            !(cmd matches StateCommand::SetBusy { .. })
                && !(cmd matches StateCommand::TrySetBusy { .. })
                ==> final(self).busy_names() == old(self).busy_names(),
            !(cmd matches StateCommand::SetLastMessageId { .. })
                ==> final(self).last_seen() == old(self).last_seen(),
    {
        match cmd {
            StateCommand::CheckProcessed { id } => StateReply::Flag(self.check_processed(id)),
            StateCommand::SaveProcessed { id } => {
                self.save_processed(id);
                StateReply::Done
            },
            StateCommand::CheckAndMarkProcessed { id } => {
                StateReply::Flag(self.check_and_mark_processed(id))
            },
            StateCommand::IsBusy { agent } => StateReply::Flag(self.is_busy(agent.as_str())),
            StateCommand::SetBusy { agent, busy } => {
                self.set_busy(agent.as_str(), busy);
                StateReply::Done
            },
            StateCommand::TrySetBusy { agent } => {
                StateReply::Flag(self.try_set_busy(agent.as_str()))
            },
            StateCommand::GetLastMessageId => StateReply::Id(self.get_last_message_id()),
            StateCommand::SetLastMessageId { id } => {
                self.set_last_message_id(id);
                StateReply::Done
            },
        }
    }
}

} // verus!
