use bridge_core::classify::{classify, extract_prompt, AgentTag, Classification};
use bridge_core::models::Message;
use bridge_core::orchestrator::process_message;
use bridge_core::state::StateActor;

fn tags() -> Vec<AgentTag> {
    vec![
        AgentTag { agent: "ChatGPT".to_string(), tag: "@chatgpt".to_string() },
        AgentTag { agent: "Ollama".to_string(), tag: "@ollama".to_string() },
        AgentTag { agent: "ChatGPT".to_string(), tag: "!gpt".to_string() },
    ]
}

fn commands() -> Vec<String> {
    vec!["!brief".to_string(), "!audit".to_string()]
}

#[test]
fn envelope_round_trip_dispatches_chatgpt() {
    let mut state = StateActor::new(Vec::new());
    let msg = Message {
        id: Some(1),
        sender: "Commander".to_string(),
        message: "{\"assigned_to\":\"ChatGPT\",\"input\":\"hello\"}".to_string(),
        timestamp: None,
    };
    let r = process_message(&mut state, &msg, &tags(), &commands());
    match r {
        Some(Classification::Envelope { agent, prompt }) => {
            assert_eq!(agent, "ChatGPT");
            assert_eq!(prompt, "hello");
        }
        other => panic!("expected an envelope dispatch, got {:?}", other),
    }
    assert!(state.check_processed(1));
}

#[test]
fn malformed_braced_envelope_is_dropped_and_marked() {
    let mut state = StateActor::new(Vec::new());
    let msg = Message {
        id: Some(2),
        sender: "Commander".to_string(),
        message: "{assigned_to: broken}".to_string(),
        timestamp: None,
    };
    let r = process_message(&mut state, &msg, &tags(), &commands());
    assert!(matches!(r, Some(Classification::MalformedEnvelope)));
    // marked processed: the broken JSON is never parsed again
    assert!(state.check_processed(2));
    // and it produced zero dispatches: replay is skipped entirely
    let r2 = process_message(&mut state, &msg, &tags(), &commands());
    assert!(r2.is_none());
}

#[test]
fn unclosed_brace_matches_no_rule_and_stays_unmarked() {
    let mut state = StateActor::new(Vec::new());
    let msg = Message {
        id: Some(3),
        sender: "Commander".to_string(),
        message: "{assigned_to: broken".to_string(),
        timestamp: None,
    };
    let r = process_message(&mut state, &msg, &tags(), &commands());
    assert!(matches!(r, Some(Classification::Unmatched)));
    assert!(!state.check_processed(3));
}

#[test]
fn envelope_with_non_string_input_is_stringified() {
    let c = classify(
        "{\"assigned_to\":\"Ollama\",\"input\":{\"a\":1}}",
        "Commander",
        &tags(),
        &commands(),
    );
    match c {
        Classification::Envelope { agent, prompt } => {
            assert_eq!(agent, "Ollama");
            assert_eq!(prompt, "{\"a\":1}");
        }
        other => panic!("expected an envelope, got {:?}", other),
    }
}

#[test]
fn envelope_with_missing_input_reads_null() {
    let c = classify("{\"assigned_to\":\"ollama\"}", "Commander", &tags(), &commands());
    match c {
        Classification::Envelope { agent, prompt } => {
            // the envelope's own casing is kept for the busy-flag key
            assert_eq!(agent, "ollama");
            assert_eq!(prompt, "null");
        }
        other => panic!("expected an envelope, got {:?}", other),
    }
}

#[test]
fn envelope_for_unknown_agent_falls_through_to_mentions() {
    let c = classify(
        "{\"assigned_to\":\"Nobody\",\"input\":\"@ollama check this\"}",
        "Commander",
        &tags(),
        &commands(),
    );
    match c {
        Classification::Mention { agent, prompt } => {
            assert_eq!(agent, "Ollama");
            assert_eq!(prompt, "check this\"}");
        }
        other => panic!("expected a mention, got {:?}", other),
    }
}

#[test]
fn mention_takes_remainder_after_tag() {
    let c = classify("  @chatgpt please review the plan ", "Commander", &tags(), &commands());
    match c {
        Classification::Mention { agent, prompt } => {
            assert_eq!(agent, "ChatGPT");
            assert_eq!(prompt, "please review the plan");
        }
        other => panic!("expected a mention, got {:?}", other),
    }
}

#[test]
fn mention_matches_case_insensitively() {
    let c = classify("hey @ChatGPT do it", "Commander", &tags(), &commands());
    match c {
        Classification::Mention { agent, prompt } => {
            assert_eq!(agent, "ChatGPT");
            assert_eq!(prompt, "do it");
        }
        other => panic!("expected a mention, got {:?}", other),
    }
}

#[test]
fn own_reply_does_not_retrigger_agent() {
    // a reply from ChatGPT containing its own tag must not bounce back
    let c = classify("@chatgpt done, over.", "ChatGPT", &tags(), &commands());
    assert!(matches!(c, Classification::Unmatched));
}

#[test]
fn own_reply_can_still_trigger_another_agent() {
    let c = classify("@ollama your turn", "ChatGPT", &tags(), &commands());
    match c {
        Classification::Mention { agent, prompt } => {
            assert_eq!(agent, "Ollama");
            assert_eq!(prompt, "your turn");
        }
        other => panic!("expected a mention, got {:?}", other),
    }
}

#[test]
fn gpt_alias_routes_to_chatgpt() {
    let c = classify("!gpt summarize the log", "Commander", &tags(), &commands());
    match c {
        Classification::Mention { agent, prompt } => {
            assert_eq!(agent, "ChatGPT");
            assert_eq!(prompt, "summarize the log");
        }
        other => panic!("expected a mention, got {:?}", other),
    }
}

#[test]
fn command_wins_over_mention() {
    let c = classify("@chatgpt !audit now", "Commander", &tags(), &commands());
    match c {
        Classification::Command { index } => assert_eq!(index, 1),
        other => panic!("expected a command, got {:?}", other),
    }
}

#[test]
fn first_command_in_list_order_wins() {
    let c = classify("!audit and !brief", "Commander", &tags(), &commands());
    match c {
        Classification::Command { index } => assert_eq!(index, 0),
        other => panic!("expected a command, got {:?}", other),
    }
}

#[test]
fn extract_prompt_takes_text_after_trigger() {
    assert_eq!(extract_prompt("hey @ChatGPT  write a poem ", "@chatgpt"), "write a poem");
    assert_eq!(extract_prompt("no tag here", "@chatgpt"), "no tag here");
    assert_eq!(extract_prompt("  padded  ", "@ollama"), "padded");
}
