//! The resource actor's command protocol. One actor owns one automation
//! resource (a driven browser session) and is the only entity that operates
//! on it; the surrounding loop receives commands from a single queue and
//! feeds them here one at a time, so exactly one command is in effect at any
//! moment and two dispatched tasks can never mutate the same resource
//! concurrently.
//!
//! `step` only decides; the loop around it performs the returned
//! [`ActorAction`] on the real resource and sends the reply.

use vstd::prelude::*;

verus! {

/// The closed set of operations accepted by a resource actor.
#[derive(Debug, Clone)]
pub enum BrowserCommand {
    /// Hand the caller a live page at `url` for the duration of one task.
    GetPage { url: String },
    /// Cheap liveness probe (a version round trip, bounded by a timeout).
    Ping,
    /// Tear the resource down and stop accepting commands.
    Close,
}

/// What the actor loop must do with the underlying resource for one command.
#[derive(Debug, Clone)]
pub enum ActorAction {
    /// Open (or reuse) a page at `url` and reply with it.
    OpenPage { url: String },
    /// Probe the resource and reply with the liveness result.
    Probe,
    /// Close the underlying resource, abort its event-pump task, and stop
    /// the command loop.
    Shutdown,
    /// The actor has already shut down: do nothing. This is what makes a
    /// `Close` after shutdown a safe no-op rather than a crash.
    Ignore,
}

/// The decision state of one resource actor.
pub struct BrowserActor {
    shut_down: bool,
    task_count: u64,
}

impl BrowserActor {
    /// Whether the actor has processed its `Close` command.
    pub closed spec fn is_shut_down(self) -> bool {
        self.shut_down
    }

    /// How many `GetPage` commands the actor has served.
    pub closed spec fn tasks_served(self) -> u64 {
        self.task_count
    }

    /// A newly spawned actor: accepting commands, no task served yet.
    pub fn new() -> (r: BrowserActor)
        ensures
            !r.is_shut_down(),
            r.tasks_served() == 0,
    {
        BrowserActor { shut_down: false, task_count: 0 }
    }

    /// Processes exactly one command. The actor serializes all access to its
    /// resource: the loop calls this once per received command, in order.
    pub fn step(&mut self, cmd: BrowserCommand) -> (a: ActorAction)
        requires
            old(self).tasks_served() < u64::MAX,
        ensures
            old(self).is_shut_down() ==> {
                &&& a is Ignore
                &&& *final(self) == *old(self)
            },
            !old(self).is_shut_down() ==> (cmd matches BrowserCommand::GetPage { url } ==> {
                &&& a == (ActorAction::OpenPage { url })
                &&& !final(self).is_shut_down()
                &&& final(self).tasks_served() == old(self).tasks_served() + 1
            }),
            !old(self).is_shut_down() && cmd is Ping ==> {
                &&& a is Probe
                &&& *final(self) == *old(self)
            },
            !old(self).is_shut_down() && cmd is Close ==> {
                &&& a is Shutdown
                &&& final(self).is_shut_down()
                &&& final(self).tasks_served() == old(self).tasks_served()
            },
    {
        if self.shut_down {
            return ActorAction::Ignore;
        }
        match cmd {
            BrowserCommand::GetPage { url } => {
                self.task_count = self.task_count + 1;
                ActorAction::OpenPage { url }
            },
            BrowserCommand::Ping => ActorAction::Probe,
            BrowserCommand::Close => {
                self.shut_down = true;
                ActorAction::Shutdown
            },
        }
    }
}

} // verus!
