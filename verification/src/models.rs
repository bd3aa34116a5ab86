//! Plain data carried between the orchestrator, the external message/state
//! store, and the dashboard. The store assigns message ids and timestamps;
//! everything here is immutable once read.

use vstd::prelude::*;

verus! {

/// One message from the external store; the ordinal `id` is assigned by the
/// store and is the deduplication key.
#[derive(Debug, Clone)]
pub struct Message {
    pub id: Option<usize>,
    pub sender: String,
    pub message: String,
    pub timestamp: Option<String>,
}

/// The published view of one agent: its status and its current / last task.
#[derive(Debug, Clone)]
pub struct AgentState {
    pub status: String,
    pub current_task: Option<String>,
    pub last_task: Option<String>,
}

/// The mission-level state published to observers.
#[derive(Debug, Clone)]
pub struct MissionState {
    pub mission_id: String,
    pub status: String,
    pub agents: Vec<(String, AgentState)>,
    pub current_task: Option<String>,
}

/// One subsystem's liveness, as shown on the dashboard.
#[derive(Debug, Clone)]
pub struct SystemStatus {
    pub name: String,
    pub status: String,
}

/// One dashboard activity line.
#[derive(Debug, Clone)]
pub struct Activity {
    pub time: String,
    pub agent: String,
    pub action: String,
    pub activity_type: String,
}

/// One tracked project, as shown on the dashboard.
#[derive(Debug, Clone)]
pub struct Project {
    pub name: String,
    pub description: String,
    pub status: String,
    pub tags: Vec<String>,
}

/// One registered document.
#[derive(Debug, Clone)]
pub struct DocInfo {
    pub path: String,
    pub added: String,
}

/// One candidate for disk cleanup.
#[derive(Debug, Clone)]
pub struct CleanupItem {
    pub id: String,
    pub name: String,
    pub path: String,
    pub size: u64,
    pub category: String,
}

/// Parameters of a cleanup request.
#[derive(Debug, Clone)]
pub struct CleanupParams {
    pub path: String,
    pub category: String,
}

/// Parameters of a document-content request.
#[derive(Debug, Clone)]
pub struct ContentParams {
    pub path: String,
}

/// Identifies one spawned background task towards the cleanup channel.
#[derive(Debug, Clone, Copy, PartialEq, Eq, Structural)]
pub struct TaskId(pub usize);

} // verus!
