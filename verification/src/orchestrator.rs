//! The poll loop's per-message step: deduplication, watermark advance, and
//! classification, in the order the loop applies them.
//!
//! The surrounding loop fetches the message batch, calls
//! [`process_message`] for each message, and acts on the returned
//! classification: runs a command, spawns a dispatch, or does nothing. Every
//! message that leads to a command, a dispatch, or a malformed-envelope drop
//! is marked processed *in the same step*, before the caller acts on it, so
//! the next poll tick — which may run long before the spawned task finishes —
//! can never dispatch the same id again.

use vstd::prelude::*;

use crate::classify::{
    classification_ok, classify, envelope_of, AgentTag, Classification,
};
use crate::models::Message;
use crate::state::StateActor;
use crate::text::spec_trim;

verus! {

/// Whether a classification makes the poll loop hand work to an agent.
pub open spec fn is_dispatching(c: Classification) -> bool {
    c is Envelope || c is Mention
}

/// Whether a classification marks the message processed. Commands and
/// malformed envelopes are marked unconditionally — whatever their outcome —
/// so a failing command or bad JSON can never retrigger forever; unmatched
/// messages stay unmarked so they can be reclassified later.
pub open spec fn is_marking(c: Classification) -> bool {
    c is Command || c is Envelope || c is Mention || c is MalformedEnvelope
}

/// The relation between the state before and after one per-message step,
/// the message, and the step's result.
pub open spec fn process_step_ok(
    pre: StateActor,
    post: StateActor,
    msg: Message,
    agents: Seq<AgentTag>,
    commands: Seq<String>,
    r: Option<Classification>,
) -> bool {
    &&& (match msg.id {
        None => r is None && post == pre,
        Some(id) => {
            if pre.processed().contains(id) {
                &&& r is None
                &&& post == pre
            } else {
                &&& r matches Some(c)
                &&& classification_ok(
                    msg.message@,
                    msg.sender@,
                    envelope_of(spec_trim(msg.message@)),
                    agents,
                    commands,
                    c,
                )
                &&& post.processed() == if is_marking(c) {
                    pre.processed().insert(id)
                } else {
                    pre.processed()
                }
                &&& post.last_seen()
                    == if id > pre.last_seen() { id } else { pre.last_seen() }
            }
        },
    })
    &&& post.busy_names() == pre.busy_names()
}

/// One step of the poll loop for one message: skip it when it has no id or
/// was already processed; otherwise advance the watermark, classify it, and
/// mark it processed unless no rule matched. The caller acts on the returned
/// classification (and only on it): the busy flags are untouched here — the
/// dispatcher's own entry guard takes them.
pub fn process_message(
    state: &mut StateActor,
    msg: &Message,
    agents: &Vec<AgentTag>,
    commands: &Vec<String>,
) -> (r: Option<Classification>)
    requires
        old(state).wf(),
    ensures
        final(state).wf(),
        process_step_ok(*old(state), *final(state), *msg, agents@, commands@, r),
{
    let id = match msg.id {
        Some(id) => id,
        None => {
            return None;
        },
    };
    if state.check_processed(id) {
        return None;
    }
    state.set_last_message_id(id);
    let c = classify(msg.message.as_str(), msg.sender.as_str(), agents, commands);
    let marking = match c {
        Classification::Command { .. } => true,
        Classification::Envelope { .. } => true,
        Classification::Mention { .. } => true,
        Classification::MalformedEnvelope => true,
        Classification::Unmatched => false,
    };
    if marking {
        state.save_processed(id);
    }
    Some(c)
}

/// The highest id among `messages`, or 0 when none carries an id: the
/// initial last-seen watermark.
pub fn max_message_id(messages: &Vec<Message>) -> (r: usize)
    ensures
        forall|j: int| 0 <= j < messages@.len()
            ==> (#[trigger] messages@[j].id matches Some(id) ==> id <= r),
        r != 0 ==> exists|j: int|
            0 <= j < messages@.len() && messages@[j].id == Some(r),
{
    let mut r: usize = 0;
    let mut i: usize = 0;
    while i < messages.len()
        invariant
            i <= messages@.len(),
            forall|j: int| 0 <= j < i
                ==> (#[trigger] messages@[j].id matches Some(id) ==> id <= r),
            r != 0 ==> exists|j: int| 0 <= j < i && messages@[j].id == Some(r),
        decreases messages@.len() - i,
    {
        match messages[i].id {
            Some(id) => {
                if id > r {
                    r = id;
                }
            },
            None => {},
        }
        i += 1;
    }
    r
}

/// Once an id is processed, replaying the same message is a no-op: the
/// second pass returns nothing and changes nothing, so a task is dispatched
/// at most once per id across any sequence of poll ticks.
pub proof fn lemma_dispatch_at_most_once(
    s0: StateActor,
    s1: StateActor,
    s2: StateActor,
    msg: Message,
    agents: Seq<AgentTag>,
    commands: Seq<String>,
    r1: Option<Classification>,
    r2: Option<Classification>,
)
    requires
        process_step_ok(s0, s1, msg, agents, commands, r1),
        process_step_ok(s1, s2, msg, agents, commands, r2),
        msg.id is Some,
        r1 matches Some(c) && is_marking(c),
    ensures
        r2 is None,
        s2 == s1,
{
    let id = msg.id->0;
    assert(s1.processed().contains(id));
}

/// The processed set only grows: every per-message step keeps each id
/// already recorded, whatever message it handles. With
/// `lemma_dispatch_at_most_once` this gives at-most-once dispatch per id
/// across any sequence of poll ticks, whatever other messages arrive in
/// between.
pub proof fn lemma_processed_monotone(
    pre: StateActor,
    post: StateActor,
    msg: Message,
    agents: Seq<AgentTag>,
    commands: Seq<String>,
    r: Option<Classification>,
    id: usize,
)
    requires
        process_step_ok(pre, post, msg, agents, commands, r),
        pre.processed().contains(id),
    ensures
        post.processed().contains(id),
{
}

/// The dedup survives a restart: a state rebuilt from the persisted
/// processed-id list still skips every id that list holds, so a task is
/// dispatched at most once per id even across process restarts.
pub proof fn lemma_dedup_survives_restart(
    restarted: StateActor,
    after: StateActor,
    persisted: Seq<usize>,
    msg: Message,
    agents: Seq<AgentTag>,
    commands: Seq<String>,
    r: Option<Classification>,
)
    requires
        // what `StateActor::new(persisted)` establishes
        forall|id: usize| restarted.processed().contains(id) == persisted.contains(id),
        process_step_ok(restarted, after, msg, agents, commands, r),
        msg.id matches Some(id) && persisted.contains(id),
    ensures
        r is None,
        after == restarted,
{
}

} // verus!
