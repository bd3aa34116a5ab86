//! Building the status updates the orchestrator publishes to the state
//! store: busy/idle transitions, the truncated task summary shown on the
//! dashboard, and the terminal failed status after exhausted retries.

use vstd::prelude::*;
use vstd::string::{StrSliceExecFns, StringExecFns};

use crate::models::AgentState;

verus! {

/// How many characters of a task are shown before it is cut off.
pub const TASK_SUMMARY_LEN: usize = 50;

/// The summary of a task: the task itself, or its first
/// [`TASK_SUMMARY_LEN`] characters followed by an ellipsis.
pub open spec fn summary_of(task: Seq<char>) -> Seq<char> {
    if task.len() > TASK_SUMMARY_LEN {
        task.subrange(0, TASK_SUMMARY_LEN as int) + "..."@
    } else {
        task
    }
}

pub fn summarize_task(task: &str) -> (r: String)
    ensures
        r@ == summary_of(task@),
{
    let n = task.unicode_len();
    if n > TASK_SUMMARY_LEN {
        let head = task.substring_char(0, TASK_SUMMARY_LEN);
        head.to_owned().concat("...")
    } else {
        task.to_owned()
    }
}

/// The status record published for an agent: the given status, and the
/// summarized task — or the literal `None` text when there is no task, as
/// the dashboard expects.
pub fn update_agent_status(status: &str, task: &str) -> (r: AgentState)
    ensures
        r.status@ == status@,
        task@.len() == 0 ==> (r.current_task matches Some(t) && t@ == "None"@),
        task@.len() > 0 ==> (r.current_task matches Some(t) && t@ == summary_of(task@)),
        r.last_task is None,
{
    let current = if task.unicode_len() == 0 {
        String::from_str("None")
    } else {
        summarize_task(task)
    };
    AgentState { status: status.to_owned(), current_task: Some(current), last_task: None }
}

/// The terminal status after exhausted retries: the agent is reported
/// `not connected`, with no current task and the failed prompt on record —
/// a distinguishable failed state, not a silent return to idle.
pub fn failed_status(prompt: &str) -> (r: AgentState)
    ensures
        r.status@ == "not connected"@,
        r.current_task matches Some(t) && t@ == "None"@,
        r.last_task matches Some(t) && t@ == "FAILED: "@ + prompt@,
{
    AgentState {
        status: String::from_str("not connected"),
        current_task: Some(String::from_str("None")),
        last_task: Some(String::from_str("FAILED: ").concat(prompt)),
    }
}

/// The status published when a task completed: no current task, and the
/// finished prompt on record.
pub fn completed_status(prompt: &str) -> (r: AgentState)
    ensures
        r.status@ == "not connected"@,
        r.current_task matches Some(t) && t@ == "None"@,
        r.last_task matches Some(t) && t@ == prompt@,
{
    AgentState {
        status: String::from_str("not connected"),
        current_task: Some(String::from_str("None")),
        last_task: Some(prompt.to_owned()),
    }
}

/// Wraps a request in the consultant framing handed to the general-purpose
/// agent.
pub fn translate_to_consultant_prompt(text: &str) -> (r: String)
    ensures
        r@ == "AI Consultant Service: Please analyze and provide professional advice on the following request from the Commander. Ensure high accuracy and actionable insights.\n\nCommander's Request: "@
            + text@,
{
    String::from_str(
        "AI Consultant Service: Please analyze and provide professional advice on the following request from the Commander. Ensure high accuracy and actionable insights.\n\nCommander's Request: ",
    ).concat(text)
}

} // verus!
