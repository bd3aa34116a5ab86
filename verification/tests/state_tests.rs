use bridge_core::classify::{AgentTag, Classification};
use bridge_core::models::Message;
use bridge_core::orchestrator::{max_message_id, process_message};
use bridge_core::state::{StateActor, StateCommand, StateReply};

fn tags() -> Vec<AgentTag> {
    vec![
        AgentTag { agent: "ChatGPT".to_string(), tag: "@chatgpt".to_string() },
        AgentTag { agent: "Ollama".to_string(), tag: "@ollama".to_string() },
    ]
}

fn commands() -> Vec<String> {
    vec!["!audit".to_string()]
}

#[test]
fn replaying_message_seven_dispatches_once() {
    let mut state = StateActor::new(Vec::new());
    let msg = Message {
        id: Some(7),
        sender: "Commander".to_string(),
        message: "@chatgpt run the numbers".to_string(),
        timestamp: None,
    };
    let mut driver_invocations = 0;
    for _ in 0..2 {
        if let Some(Classification::Mention { .. }) =
            process_message(&mut state, &msg, &tags(), &commands())
        {
            driver_invocations += 1;
        }
    }
    assert_eq!(driver_invocations, 1);
}

#[test]
fn dedup_survives_restart_from_persisted_ids() {
    // first process: id 9 is dispatched and persisted
    let mut state = StateActor::new(Vec::new());
    let msg = Message {
        id: Some(9),
        sender: "Commander".to_string(),
        message: "@ollama hello".to_string(),
        timestamp: None,
    };
    let r = process_message(&mut state, &msg, &tags(), &commands());
    assert!(matches!(r, Some(Classification::Mention { .. })));

    // restart: the persisted set is handed to the new state authority
    let mut restarted = StateActor::new(vec![9]);
    let r2 = process_message(&mut restarted, &msg, &tags(), &commands());
    assert!(r2.is_none());
}

#[test]
fn try_set_busy_is_atomic_check_then_set() {
    let mut state = StateActor::new(Vec::new());
    assert!(!state.is_busy("ChatGPT"));
    assert!(state.try_set_busy("ChatGPT"));
    assert!(state.is_busy("ChatGPT"));
    // the second acquisition fails while the first is in flight
    assert!(!state.try_set_busy("ChatGPT"));
    // an unrelated agent is unaffected
    assert!(!state.is_busy("Ollama"));
    state.set_idle("ChatGPT");
    assert!(!state.is_busy("ChatGPT"));
    assert!(state.try_set_busy("ChatGPT"));
}

#[test]
fn check_and_mark_is_atomic() {
    let mut state = StateActor::new(Vec::new());
    assert!(!state.check_and_mark_processed(4));
    assert!(state.check_and_mark_processed(4));
    assert!(state.check_processed(4));
}

#[test]
fn last_seen_id_is_monotonic() {
    let mut state = StateActor::new(Vec::new());
    state.set_last_message_id(10);
    assert_eq!(state.get_last_message_id(), 10);
    state.set_last_message_id(3);
    assert_eq!(state.get_last_message_id(), 10);
    state.set_last_message_id(11);
    assert_eq!(state.get_last_message_id(), 11);
}

#[test]
fn handle_command_serializes_the_operations() {
    let mut state = StateActor::new(Vec::new());
    let r = state.handle_command(StateCommand::TrySetBusy { agent: "ChatGPT".to_string() });
    assert_eq!(r, StateReply::Flag(true));
    let r = state.handle_command(StateCommand::TrySetBusy { agent: "ChatGPT".to_string() });
    assert_eq!(r, StateReply::Flag(false));
    let r = state.handle_command(StateCommand::IsBusy { agent: "ChatGPT".to_string() });
    assert_eq!(r, StateReply::Flag(true));
    let r = state.handle_command(StateCommand::SetBusy {
        agent: "ChatGPT".to_string(),
        busy: false,
    });
    assert_eq!(r, StateReply::Done);
    let r = state.handle_command(StateCommand::IsBusy { agent: "ChatGPT".to_string() });
    assert_eq!(r, StateReply::Flag(false));
    let r = state.handle_command(StateCommand::CheckAndMarkProcessed { id: 5 });
    assert_eq!(r, StateReply::Flag(false));
    let r = state.handle_command(StateCommand::CheckProcessed { id: 5 });
    assert_eq!(r, StateReply::Flag(true));
    let r = state.handle_command(StateCommand::SetLastMessageId { id: 12 });
    assert_eq!(r, StateReply::Done);
    let r = state.handle_command(StateCommand::GetLastMessageId);
    assert_eq!(r, StateReply::Id(12));
    let r = state.handle_command(StateCommand::SaveProcessed { id: 6 });
    assert_eq!(r, StateReply::Done);
    assert!(state.check_processed(6));
}

#[test]
fn watermark_advances_even_for_unmatched_messages() {
    let mut state = StateActor::new(Vec::new());
    let msg = Message {
        id: Some(42),
        sender: "Commander".to_string(),
        message: "just chatting".to_string(),
        timestamp: None,
    };
    let r = process_message(&mut state, &msg, &tags(), &commands());
    assert!(matches!(r, Some(Classification::Unmatched)));
    assert_eq!(state.get_last_message_id(), 42);
    assert!(!state.check_processed(42));
}

#[test]
fn messages_without_id_are_skipped() {
    let mut state = StateActor::new(Vec::new());
    let msg = Message {
        id: None,
        sender: "Commander".to_string(),
        message: "@chatgpt hi".to_string(),
        timestamp: None,
    };
    assert!(process_message(&mut state, &msg, &tags(), &commands()).is_none());
}

#[test]
fn max_message_id_finds_the_watermark() {
    let msgs = vec![
        Message { id: Some(3), sender: "a".to_string(), message: "x".to_string(), timestamp: None },
        Message { id: None, sender: "b".to_string(), message: "y".to_string(), timestamp: None },
        Message { id: Some(17), sender: "c".to_string(), message: "z".to_string(), timestamp: None },
        Message { id: Some(5), sender: "d".to_string(), message: "w".to_string(), timestamp: None },
    ];
    assert_eq!(max_message_id(&msgs), 17);
    assert_eq!(max_message_id(&Vec::new()), 0);
}
