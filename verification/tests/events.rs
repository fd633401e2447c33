use rig_budget_guard::event::{cap_events, truncate_preview, BudgetEvent};
use rig_budget_guard::message::{estimate_tokens, extract_text, Content, Message};

fn event(id: String, total_spent: u128) -> BudgetEvent {
    BudgetEvent {
        id,
        timestamp: "2026-01-01T00:00:00Z".into(),
        model_name: "test".into(),
        tokens_consumed: 10,
        total_spent,
        budget_limit: 10000,
        phase: "Stable".into(),
        event_type: "prompt".into(),
        prompt_preview: None,
    }
}

// Prompt truncation

#[test]
fn test_short_prompt_not_truncated() {
    let short = String::from("Hello");
    let result = truncate_preview(short.clone());
    assert_eq!(result, "Hello");
}

#[test]
fn test_long_prompt_truncated() {
    let long = "x".repeat(200);
    let result = truncate_preview(long);
    assert_eq!(result.len(), 103);
    assert!(result.ends_with("..."));
}

#[test]
fn prompts_are_cut_between_characters() {
    assert_eq!(truncate_preview("x".repeat(100)), "x".repeat(100));
    assert_eq!(
        truncate_preview("x".repeat(101)),
        format!("{}...", "x".repeat(100))
    );
    assert_eq!(truncate_preview("\u{e9}".repeat(60)), "\u{e9}".repeat(60));
    assert_eq!(
        truncate_preview("\u{4e2d}".repeat(150)),
        format!("{}...", "\u{4e2d}".repeat(100))
    );
    assert_eq!(truncate_preview(String::new()), "");
}

// Estimate tokens

#[test]
fn test_estimate_tokens_short() {
    assert_eq!(estimate_tokens("abcd"), 1);
}

#[test]
fn test_estimate_tokens_longer() {
    let s = "a".repeat(100);
    assert_eq!(estimate_tokens(&s), 25);
}

#[test]
fn test_estimate_tokens_empty() {
    assert_eq!(estimate_tokens(""), 1);
}

#[test]
fn tokens_are_estimated_from_bytes() {
    assert_eq!(estimate_tokens("abcdefg"), 1);
    assert_eq!(estimate_tokens("abcdefgh"), 2);
    assert_eq!(estimate_tokens(&"\u{4e2d}".repeat(8)), 6);
}

// Events capping

#[test]
fn test_events_capped_at_1000() {
    let mut events: Vec<BudgetEvent> = (0..1500u128)
        .map(|i| event(format!("evt-{}", i), i * 10))
        .collect();
    cap_events(&mut events);
    assert_eq!(events.len(), 1000);
    assert_eq!(events[0].id, "evt-500");
}

#[test]
fn short_logs_are_left_alone() {
    let mut events: Vec<BudgetEvent> = (0..1000u128)
        .map(|i| event(format!("evt-{}", i), i))
        .collect();
    cap_events(&mut events);
    assert_eq!(events.len(), 1000);
    assert_eq!(events[0].id, "evt-0");
    assert_eq!(events[999].id, "evt-999");
    let mut none: Vec<BudgetEvent> = vec![];
    cap_events(&mut none);
    assert!(none.is_empty());
}

#[test]
fn events_clone_field_by_field() {
    let mut original = event("evt-1".into(), 1500);
    original.prompt_preview = Some("Hello".into());
    let copy = original.clone();
    assert_eq!(copy.id, "evt-1");
    assert_eq!(copy.timestamp, "2026-01-01T00:00:00Z");
    assert_eq!(copy.model_name, "test");
    assert_eq!(copy.tokens_consumed, 10);
    assert_eq!(copy.total_spent, 1500);
    assert_eq!(copy.budget_limit, 10000);
    assert_eq!(copy.phase, "Stable");
    assert_eq!(copy.event_type, "prompt");
    assert_eq!(copy.prompt_preview, Some("Hello".to_string()));
}

// Extract text from Message

#[test]
fn test_extract_text_system_message() {
    let msg = Message::System {
        content: String::from("system msg"),
    };
    let text = extract_text(&msg);
    assert_eq!(text, String::from("system msg"));
}

#[test]
fn test_extract_text_empty_message() {
    let msg = Message::System {
        content: String::new(),
    };
    let text = extract_text(&msg);
    assert_eq!(text, String::new());
}

#[test]
fn the_first_plain_text_is_extracted() {
    let user = Message::User {
        content: vec![
            Content::Other,
            Content::Text("first".into()),
            Content::Text("second".into()),
        ],
    };
    assert_eq!(extract_text(&user), "first");
    let assistant = Message::Assistant {
        content: vec![Content::Text("answer".into()), Content::Other],
    };
    assert_eq!(extract_text(&assistant), "answer");
    let silent = Message::Assistant {
        content: vec![Content::Other],
    };
    assert_eq!(extract_text(&silent), "");
}
