use bridge_core::status::{
    completed_status, failed_status, summarize_task, translate_to_consultant_prompt,
    update_agent_status,
};
use bridge_core::text::{find_sub, str_eq, str_eq_ci, trim_str};

#[test]
fn str_eq_compares_exactly() {
    assert!(str_eq("ChatGPT", "ChatGPT"));
    assert!(!str_eq("ChatGPT", "chatgpt"));
    assert!(!str_eq("a", "ab"));
    assert!(str_eq("", ""));
}

#[test]
fn str_eq_ci_folds_ascii_case_only() {
    assert!(str_eq_ci("ChatGPT", "chatgpt"));
    assert!(str_eq_ci("OLLAMA", "ollama"));
    assert!(!str_eq_ci("ollama", "ollam"));
    // non-ASCII characters are compared exactly
    assert!(str_eq_ci("über", "über"));
    assert!(!str_eq_ci("Über", "über"));
}

#[test]
fn trim_removes_surrounding_whitespace() {
    assert_eq!(trim_str("  hello \t\r\n"), "hello");
    assert_eq!(trim_str("nothing to do"), "nothing to do");
    assert_eq!(trim_str(" \n "), "");
    assert_eq!(trim_str(""), "");
}

#[test]
fn find_sub_reports_the_first_occurrence() {
    assert_eq!(find_sub("hello @chatgpt and @chatgpt", "@chatgpt", false), Some(6));
    assert_eq!(find_sub("hello @ChatGPT", "@chatgpt", false), None);
    assert_eq!(find_sub("hello @ChatGPT", "@chatgpt", true), Some(6));
    assert_eq!(find_sub("short", "longer pattern", true), None);
    assert_eq!(find_sub("anything", "", false), Some(0));
}

#[test]
fn long_tasks_are_summarized_to_fifty_characters() {
    let long = "abcdefghij".repeat(6);
    let summary = summarize_task(&long);
    assert_eq!(summary.chars().count(), 53);
    assert_eq!(summary, format!("{}...", &long[..50]));
    let short = "just a short task";
    assert_eq!(summarize_task(short), short);
}

#[test]
fn status_updates_carry_the_summary_or_a_placeholder() {
    let busy = update_agent_status("busy", "write a poem");
    assert_eq!(busy.status, "busy");
    assert_eq!(busy.current_task.as_deref(), Some("write a poem"));
    assert!(busy.last_task.is_none());

    let idle = update_agent_status("idle", "");
    assert_eq!(idle.status, "idle");
    assert_eq!(idle.current_task.as_deref(), Some("None"));
}

#[test]
fn terminal_failure_is_a_distinguishable_status() {
    let failed = failed_status("write a poem");
    assert_eq!(failed.status, "not connected");
    assert_eq!(failed.current_task.as_deref(), Some("None"));
    assert_eq!(failed.last_task.as_deref(), Some("FAILED: write a poem"));

    let done = completed_status("write a poem");
    assert_eq!(done.status, "not connected");
    assert_eq!(done.last_task.as_deref(), Some("write a poem"));
}

#[test]
fn consultant_prompt_wraps_the_request() {
    let p = translate_to_consultant_prompt("review the plan");
    assert!(p.starts_with("AI Consultant Service:"));
    assert!(p.ends_with("Commander's Request: review the plan"));
}
