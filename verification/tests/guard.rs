use conservation_checker::{ConservationChecker, Phase as Detected};
use rig_budget_guard::{
    AlertLevel, BudgetEvent, BudgetSnapshot, BudgetWarning, CallKind, ModelBudget, Phase,
    PhaseConfig, Ratio, RigBudgetGuard, SharedState,
};
use rig_budget_guard::warning::{budget_header, warning_message};

fn assert_send_sync<T: Send + Sync>() {}

fn guarded(max_tokens: u64) -> (RigBudgetGuard<&'static str>, SharedState) {
    let mut state = SharedState::new();
    let guard = RigBudgetGuard::new("agent").with_budget(&mut state, "gpt-4", max_tokens);
    (guard, state)
}

fn is_uuid(id: &str) -> bool {
    id.len() == 36
        && id.chars().enumerate().all(|(i, c)| {
            if i == 8 || i == 13 || i == 18 || i == 23 {
                c == '-'
            } else {
                c.is_ascii_digit() || ('a'..='f').contains(&c)
            }
        })
        && id.as_bytes()[14] == b'4'
        && b"89ab".contains(&id.as_bytes()[19])
}

fn has_form(text: &str, form: &str) -> bool {
    text.len() == form.len()
        && text
            .chars()
            .zip(form.chars())
            .all(|(c, f)| if f == '#' { c.is_ascii_digit() } else { c == f })
}

fn is_time(text: &str) -> bool {
    ["", ".###", ".######", ".#########"]
        .iter()
        .any(|fraction| has_form(text, &format!("####-##-##T##:##:##{fraction}+00:00")))
}

#[test]
fn test_snapshot_is_thread_safe() {
    assert_send_sync::<BudgetSnapshot>();
    assert_send_sync::<ModelBudget>();
    assert_send_sync::<BudgetEvent>();
    assert_send_sync::<PhaseConfig>();
    assert_send_sync::<BudgetWarning>();
    assert_send_sync::<SharedState>();
}

#[test]
fn test_warning_message_formatting() {
    let w = BudgetWarning {
        model: "gpt-4".into(),
        message: "CRITICAL: Token budget at 90.0% for model gpt-4".into(),
        usage_ratio: Ratio::new(9, 10),
        phase: "Transitioning".into(),
    };
    assert!(w.message.contains("CRITICAL"));
    assert!(w.message.contains("gpt-4"));
}

// Construction

#[test]
fn a_new_guard_charges_the_default_model_and_knows_no_budget() {
    let guard = RigBudgetGuard::new(7u8);
    let state = SharedState::new();
    assert_eq!(guard.model_name, "default");
    assert_eq!(*guard.inner(), 7);
    assert!(state.budget("default").is_none());
    assert_eq!(guard.phase(&state, "default"), None);
    assert!(guard.check_warnings(&state).is_empty());
    assert!(guard.header(&state).is_none());
    assert!(state.events().is_empty());
    assert_eq!(guard.into_inner(), 7);
}

#[test]
fn builders_can_be_chained() {
    let mut state = SharedState::new();
    let guard = RigBudgetGuard::new("agent")
        .named("production-chatbot".to_string())
        .with_budget(&mut state, "gpt-4", 100_000)
        .with_budgets(&mut state, &[("gpt-4", 100_000), ("gpt-3.5-turbo", 500_000)])
        .with_warn_threshold(Ratio::new(85, 100))
        .with_phase_config(PhaseConfig {
            pret_transition_threshold: Ratio::new(1, 2),
            transitioning_threshold: Ratio::new(3, 4),
        });
    assert_eq!(guard.model_name, "gpt-3.5-turbo");
    assert_eq!(state.budget("gpt-4").unwrap().max_tokens, 100_000);
    assert_eq!(state.budget("gpt-3.5-turbo").unwrap().max_tokens, 500_000);
    assert_eq!(
        *state.model_names(),
        vec!["gpt-4".to_string(), "gpt-3.5-turbo".to_string()]
    );
    let copy = guard.clone();
    assert_eq!(copy.model_name, guard.model_name);
    assert_eq!(copy.inner(), guard.inner());
}

#[test]
fn an_empty_bulk_changes_nothing() {
    let (guard, mut state) = guarded(10);
    let guard = guard.with_budgets(&mut state, &[]);
    assert_eq!(guard.model_name, "gpt-4");
    assert_eq!(state.model_names().len(), 1);
}

#[test]
fn a_new_budget_starts_afresh() {
    let (guard, mut state) = guarded(1000);
    for _ in 0..3 {
        state.track_usage("gpt-4", 100, 100);
    }
    assert_eq!(guard.phase(&state, "gpt-4"), Some(Phase::Transitioning));
    let guard = guard.with_budget(&mut state, "gpt-4", 500);
    let budget = state.budget("gpt-4").unwrap();
    assert_eq!((budget.max_tokens, budget.spent_tokens), (500, 0));
    assert_eq!(guard.phase(&state, "gpt-4"), Some(Phase::Stable));
    assert_eq!(state.model_names().len(), 1);
}

// Tracking

#[test]
fn charges_are_per_model() {
    let (guard, mut state) = guarded(1000);
    let guard = guard.with_budget(&mut state, "other", 2000);
    state.track_usage("gpt-4", 30, 12);
    state.track_usage("other", 5, 0);
    state.track_usage("nobody", 999, 0);
    assert_eq!(state.budget("gpt-4").unwrap().spent_tokens, 42);
    assert_eq!(state.budget("other").unwrap().spent_tokens, 5);
    assert!(state.budget("nobody").is_none());
    assert_eq!(guard.phase(&state, "nobody"), None);
}

#[test]
fn the_order_of_charges_does_not_matter() {
    let (_, mut one) = guarded(1000);
    let (_, mut two) = guarded(1000);
    one.track_usage("gpt-4", 10, 0);
    one.track_usage("gpt-4", 0, 500);
    two.track_usage("gpt-4", 0, 500);
    two.track_usage("gpt-4", 10, 0);
    assert_eq!(one.budget("gpt-4").unwrap().spent_tokens, 510);
    assert_eq!(two.budget("gpt-4").unwrap().spent_tokens, 510);
}

#[test]
fn phases_follow_the_checker() {
    // A steep fall beyond the tolerance of 50 tokens.
    let (guard, mut state) = guarded(1000);
    assert_eq!(guard.phase(&state, "gpt-4"), Some(Phase::Stable));
    state.track_usage("gpt-4", 100, 0);
    assert_eq!(guard.phase(&state, "gpt-4"), Some(Phase::Stable));
    state.track_usage("gpt-4", 100, 0);
    assert_eq!(guard.phase(&state, "gpt-4"), Some(Phase::Transitioning));
    // Usage of another model leaves this one where it is.
    state.track_usage("nobody", 100, 0);
    assert_eq!(guard.phase(&state, "gpt-4"), Some(Phase::Stable));

    // An accelerating fall within the tolerance of 500 tokens.
    let (guard, mut state) = guarded(10_000);
    state.track_usage("gpt-4", 100, 0);
    state.track_usage("gpt-4", 300, 0);
    assert_eq!(guard.phase(&state, "gpt-4"), Some(Phase::PreTransition));
}

#[test]
fn the_tolerance_is_five_percent() {
    // 105 of 110 are left, and the tolerance is 5.5.
    let (guard, mut state) = guarded(110);
    state.track_usage("gpt-4", 1, 0);
    state.track_usage("gpt-4", 4, 0);
    assert_eq!(guard.phase(&state, "gpt-4"), Some(Phase::PreTransition));
    let (guard, mut state) = guarded(110);
    state.track_usage("gpt-4", 1, 0);
    state.track_usage("gpt-4", 5, 0);
    assert_eq!(guard.phase(&state, "gpt-4"), Some(Phase::Transitioning));
    // Exactly 95% left: still conserved.
    let (guard, mut state) = guarded(100);
    state.track_usage("gpt-4", 1, 0);
    state.track_usage("gpt-4", 4, 0);
    assert_eq!(guard.phase(&state, "gpt-4"), Some(Phase::PreTransition));
    // A tolerance of half a token.
    let (guard, mut state) = guarded(10);
    state.track_usage("gpt-4", 0, 0);
    state.track_usage("gpt-4", 1, 0);
    assert_eq!(guard.phase(&state, "gpt-4"), Some(Phase::Transitioning));
}

#[test]
fn large_budgets_are_watched_in_double_precision() {
    // 5% of the limit are 225179981368524.9, which leaves 4278419646001973.1. The double nearest to
    // the difference is 4278419646001973, which counts as conserved.
    let (guard, mut state) = guarded(4503599627370498);
    state.track_usage("gpt-4", 0, 0);
    state.track_usage("gpt-4", 225179981368525, 0);
    assert_eq!(state.budget("gpt-4").unwrap().remaining(), 4278419646001973);
    assert_eq!(guard.phase(&state, "gpt-4"), Some(Phase::PreTransition));
    // Next to a boundless budget a few tokens are nothing.
    let (guard, mut state) = guarded(u64::MAX);
    state.track_usage("gpt-4", 0, 0);
    state.track_usage("gpt-4", 1000, 0);
    assert_eq!(guard.phase(&state, "gpt-4"), Some(Phase::Stable));
    state.track_usage("gpt-4", u64::MAX / 2, 0);
    assert_eq!(guard.phase(&state, "gpt-4"), Some(Phase::Transitioning));
}

#[test]
fn only_changes_above_the_noise_count() {
    // A hundredth of the tolerance is exactly 3 tokens.
    let (guard, mut state) = guarded(6000);
    state.track_usage("gpt-4", 0, 0);
    state.track_usage("gpt-4", 3, 0);
    assert_eq!(guard.phase(&state, "gpt-4"), Some(Phase::Stable));
    state.track_usage("gpt-4", 4, 0);
    assert_eq!(guard.phase(&state, "gpt-4"), Some(Phase::PreTransition));
    // Two records earlier 3 tokens were taken, and now no more than that stands out.
    state.track_usage("gpt-4", 4, 0);
    assert_eq!(guard.phase(&state, "gpt-4"), Some(Phase::PreTransition));
    state.track_usage("gpt-4", 4, 0);
    assert_eq!(guard.phase(&state, "gpt-4"), Some(Phase::Stable));
}

#[test]
fn phases_agree_with_a_checker_on_its_own() {
    let charges: [u64; 12] = [0, 1, 2, 3, 1, 7, 0, 20, 19, 40, 200, 2];
    for limit in (0u64..400).chain([1000, 1999, 2000, 2001, 4000, 99_999, 100_000, 123_457]) {
        let (guard, mut state) = guarded(limit);
        let mut checker = ConservationChecker::new();
        checker.register("gpt-4", limit as f64, limit as f64 * 0.05);
        let mut spent: u64 = 0;
        for tokens in charges {
            state.track_usage("gpt-4", tokens, 0);
            spent += tokens;
            checker.update("gpt-4", (limit as f64 - spent as f64).max(0.0));
            checker.snapshot();
            let expected = match checker.phase("gpt-4") {
                Detected::Stable => Phase::Stable,
                Detected::PreTransition => Phase::PreTransition,
                Detected::Transitioning => Phase::Transitioning,
                Detected::Resolving => Phase::Resolving,
            };
            assert_eq!(guard.phase(&state, "gpt-4"), Some(expected));
        }
    }
}

// Events

#[test]
fn events_record_the_state_they_were_logged_in() {
    let (_, mut state) = guarded(1000);
    state.track_usage("gpt-4", 40, 2);
    state.record_event_at(
        "evt-1".to_string(),
        "2026-01-01T00:00:00Z".to_string(),
        "gpt-4",
        42,
        "prompt",
        Some("y".repeat(150)),
    );
    state.record_event_at(
        "evt-2".to_string(),
        "2026-01-01T00:00:01Z".to_string(),
        "nobody",
        7,
        "chat",
        None,
    );
    let first = &state.events()[0];
    assert_eq!(first.id, "evt-1");
    assert_eq!(first.timestamp, "2026-01-01T00:00:00Z");
    assert_eq!(first.model_name, "gpt-4");
    assert_eq!(first.tokens_consumed, 42);
    assert_eq!(first.total_spent, 42);
    assert_eq!(first.budget_limit, 1000);
    assert_eq!(first.phase, "Stable");
    assert_eq!(first.event_type, "prompt");
    assert_eq!(
        first.prompt_preview,
        Some(format!("{}...", "y".repeat(100)))
    );
    let second = &state.events()[1];
    assert_eq!(second.id, "evt-2");
    assert_eq!(second.model_name, "nobody");
    assert_eq!(second.total_spent, 0);
    assert_eq!(second.budget_limit, 0);
    assert_eq!(second.phase, "Unknown");
    assert_eq!(second.prompt_preview, None);
}

#[test]
fn events_get_fresh_identifiers_and_the_current_time() {
    let (_, mut state) = guarded(1000);
    state.record_event("gpt-4", 1, "prompt", None);
    state.record_event("gpt-4", 2, "prompt", None);
    let events = state.events();
    assert!(is_uuid(&events[0].id));
    assert!(is_uuid(&events[1].id));
    assert_ne!(events[0].id, events[1].id);
    assert!(is_time(&events[0].timestamp));
}

#[test]
fn the_log_keeps_the_latest_thousand() {
    let (_, mut state) = guarded(1000);
    for i in 0..1005u64 {
        state.record_event_at(
            format!("evt-{}", i),
            "2026-01-01T00:00:00Z".to_string(),
            "gpt-4",
            i,
            "prompt",
            None,
        );
    }
    assert_eq!(state.events().len(), 1000);
    assert_eq!(state.events()[0].id, "evt-5");
    assert_eq!(state.events()[999].id, "evt-1004");
}

// Calls

#[test]
fn an_answered_prompt_is_charged_and_logged() {
    let (guard, mut state) = guarded(1000);
    let reply = guard.finish_prompt(
        &mut state,
        "What is it?".to_string(),
        Some("It is a test.".to_string()),
    );
    assert_eq!(reply, Some("It is a test.".to_string()));
    assert_eq!(state.budget("gpt-4").unwrap().spent_tokens, 5);
    let event = &state.events()[0];
    assert_eq!(event.event_type, "prompt");
    assert_eq!(event.tokens_consumed, 5);
    assert_eq!(event.total_spent, 5);
    assert_eq!(event.model_name, "gpt-4");
    assert_eq!(event.prompt_preview, Some("What is it?".to_string()));
    assert!(is_uuid(&event.id));
}

#[test]
fn a_failed_call_is_logged_and_free() {
    let (guard, mut state) = guarded(1000);
    assert!(guard
        .finish_prompt(&mut state, "p".to_string(), None)
        .is_none());
    assert!(guard
        .finish_chat(&mut state, "c".to_string(), None)
        .is_none());
    guard.finish_completion(&mut state, "b".to_string(), false);
    assert_eq!(state.budget("gpt-4").unwrap().spent_tokens, 0);
    let types: Vec<String> = state
        .events()
        .iter()
        .map(|e| e.event_type.clone())
        .collect();
    assert_eq!(
        types,
        vec![
            "prompt_error".to_string(),
            "chat_error".to_string(),
            "completion_error".to_string()
        ]
    );
    assert!(state.events().iter().all(|e| e.tokens_consumed == 0));
}

#[test]
fn a_chat_turn_is_charged_like_a_prompt() {
    let (guard, mut state) = guarded(1000);
    let reply = guard.finish_chat(&mut state, "a".repeat(40), Some("b".repeat(80)));
    assert_eq!(reply, Some("b".repeat(80)));
    assert_eq!(state.budget("gpt-4").unwrap().spent_tokens, 30);
    assert_eq!(state.events()[0].event_type, "chat");
    assert_eq!(state.events()[0].tokens_consumed, 30);
}

#[test]
fn a_completion_request_is_charged_for_its_prompt_alone() {
    let (guard, mut state) = guarded(10);
    guard.finish_completion(&mut state, "a".repeat(40), true);
    assert_eq!(state.budget("gpt-4").unwrap().spent_tokens, 10);
    assert_eq!(state.events()[0].event_type, "completion");
    assert_eq!(state.events()[0].tokens_consumed, 10);
}

#[test]
fn calls_of_an_unbudgeted_model_are_only_logged() {
    let guard = RigBudgetGuard::new("agent");
    let mut state = SharedState::new();
    let reply = guard.finish_prompt(&mut state, "Hello".to_string(), Some("Hi".to_string()));
    assert_eq!(reply, Some("Hi".to_string()));
    let event = &state.events()[0];
    assert_eq!(event.model_name, "default");
    assert_eq!(event.tokens_consumed, 2);
    assert_eq!(event.budget_limit, 0);
    assert_eq!(event.phase, "Unknown");
}

#[test]
fn call_kinds_have_labels() {
    assert_eq!(CallKind::Prompt.success_label(), "prompt");
    assert_eq!(CallKind::Chat.success_label(), "chat");
    assert_eq!(CallKind::Completion.success_label(), "completion");
    assert_eq!(CallKind::Prompt.failure_label(), "prompt_error");
    assert_eq!(CallKind::Chat.failure_label(), "chat_error");
    assert_eq!(CallKind::Completion.failure_label(), "completion_error");
}

// Headers

#[test]
fn replies_get_a_header_above_the_threshold() {
    let (guard, mut state) = guarded(100);
    let below = guard.finish_prompt(&mut state, "a".repeat(280), Some("b".repeat(36)));
    assert_eq!(below, Some("b".repeat(36)));
    assert_eq!(state.budget("gpt-4").unwrap().spent_tokens, 79);
    let above = guard.finish_prompt(
        &mut state,
        String::new(),
        Some("Paris.".to_string()),
    );
    assert_eq!(
        above,
        Some("[Budget: 81% used \u{2022} Phase: Transitioning]\nParis.".to_string())
    );
    let turn = guard.finish_chat(&mut state, "a".repeat(16), Some("ok".to_string()));
    assert_eq!(
        turn,
        Some("[Budget: 86% used \u{2022} Phase: Transitioning]\nok".to_string())
    );
}

#[test]
fn usage_at_the_threshold_does_not_exceed_it() {
    let mut state = SharedState::new();
    let guard = RigBudgetGuard::new("agent")
        .with_budget(&mut state, "m", 10)
        .with_warn_threshold(Ratio::new(8, 10));
    let reply = guard.finish_prompt(&mut state, "a".repeat(16), Some("b".repeat(16)));
    assert_eq!(state.budget("m").unwrap().spent_tokens, 8);
    assert_eq!(reply, Some("b".repeat(16)));
    assert!(guard.header(&state).is_none());
    assert!(guard.snapshot(&state).warnings_active.is_empty());
    state.track_usage("m", 1, 0);
    assert_eq!(
        guard.header(&state),
        Some("[Budget: 90% used \u{2022} Phase: Transitioning]\n".to_string())
    );
    assert_eq!(guard.snapshot(&state).warnings_active, vec!["m".to_string()]);
    // Once exceeded, it stays exceeded.
    state.track_usage("m", 0, 0);
    assert!(guard.header(&state).is_some());
}

#[test]
fn a_used_up_budget_is_announced_below_a_threshold_of_one() {
    let (guard, mut state) = guarded(100);
    let guard = guard.with_warn_threshold(Ratio::new(99, 100));
    state.track_usage("gpt-4", 99, 0);
    assert!(guard.header(&state).is_none());
    state.track_usage("gpt-4", 1, 0);
    assert!(guard.header(&state).is_some());
    let silent = guard.clone().with_warn_threshold(Ratio::new(5, 1));
    assert!(silent.header(&state).is_none());
    let boundless = guard.with_warn_threshold(Ratio::new(1, 0));
    assert!(boundless.header(&state).is_none());
    let (guard, state) = guarded(0);
    assert!(guard.header(&state).is_some());
}

#[test]
fn the_documented_header_reads_as_documented() {
    assert_eq!(
        budget_header(Ratio::new(86, 100), Phase::PreTransition),
        "[Budget: 86% used \u{2022} Phase: PreTransition]\n"
    );
}

// Warnings

#[test]
fn budgets_are_warned_of_by_their_usage() {
    let (guard, mut state) = guarded(100);
    let guard = guard.with_budgets(&mut state, &[("b", 100), ("c", 100), ("d", 0)]);
    state.track_usage("gpt-4", 59, 0);
    state.track_usage("b", 60, 0);
    state.track_usage("c", 85, 0);
    let warnings = guard.check_warnings(&state);
    assert_eq!(warnings.len(), 3);
    assert_eq!(warnings[0].model, "b");
    assert_eq!(
        warnings[0].message,
        "WARNING: Token budget at 60.0% for model 'b'"
    );
    assert_eq!((warnings[0].usage_ratio.numer, warnings[0].usage_ratio.denom), (60, 100));
    assert_eq!(warnings[0].phase, "Stable");
    assert_eq!(warnings[1].model, "c");
    assert_eq!(
        warnings[1].message,
        "CRITICAL: Token budget at 85.0% for model 'c'"
    );
    assert_eq!(warnings[1].phase, "Transitioning");
    assert_eq!(warnings[2].model, "d");
    assert_eq!(
        warnings[2].message,
        "CRITICAL: Token budget at 100.0% for model 'd'"
    );
}

#[test]
fn custom_thresholds_apply() {
    let (guard, mut state) = guarded(100);
    let guard = guard.with_phase_config(PhaseConfig {
        pret_transition_threshold: Ratio::new(1, 2),
        transitioning_threshold: Ratio::new(3, 4),
    });
    state.track_usage("gpt-4", 49, 0);
    assert!(guard.check_warnings(&state).is_empty());
    state.track_usage("gpt-4", 1, 0);
    assert!(guard.check_warnings(&state)[0].message.starts_with("WARNING"));
    state.track_usage("gpt-4", 25, 0);
    assert!(guard.check_warnings(&state)[0].message.starts_with("CRITICAL"));
}

#[test]
fn warnings_are_put_into_words() {
    assert_eq!(
        warning_message(AlertLevel::Critical, Ratio::new(9, 10), "gpt-4"),
        "CRITICAL: Token budget at 90.0% for model 'gpt-4'"
    );
    assert_eq!(
        warning_message(AlertLevel::Warning, Ratio::new(2, 3), "m"),
        "WARNING: Token budget at 66.7% for model 'm'"
    );
    let w = BudgetWarning::new(
        "m".to_string(),
        "text".to_string(),
        Ratio::new(2, 3),
        &Phase::Resolving,
    );
    assert_eq!((w.model.as_str(), w.message.as_str()), ("m", "text"));
    assert_eq!(w.phase, "Resolving");
    assert_eq!((w.usage_ratio.numer, w.usage_ratio.denom), (2, 3));
}

// Snapshots

#[test]
fn snapshots_show_everything() {
    let (guard, mut state) = guarded(100);
    let guard = guard.with_budget(&mut state, "b", 200);
    state.track_usage("gpt-4", 90, 0);
    state.record_event("gpt-4", 90, "prompt", Some("Hello".to_string()));
    let snapshot = guard.snapshot_at(
        &state,
        "snap-1".to_string(),
        "2026-06-01T12:00:00Z".to_string(),
    );
    assert_eq!(snapshot.snapshot_id, "snap-1");
    assert_eq!(snapshot.timestamp, "2026-06-01T12:00:00Z");
    assert_eq!(snapshot.budgets.len(), 2);
    assert_eq!(snapshot.budgets[0].0, "gpt-4");
    assert_eq!(snapshot.budgets[0].1.spent_tokens, 90);
    assert_eq!(snapshot.budgets[1].0, "b");
    assert_eq!(snapshot.budgets[1].1.max_tokens, 200);
    assert_eq!(
        snapshot.phases,
        vec![
            ("gpt-4".to_string(), "Stable".to_string()),
            ("b".to_string(), "Stable".to_string())
        ]
    );
    assert_eq!(snapshot.events.len(), 1);
    assert_eq!(snapshot.events[0].prompt_preview, Some("Hello".to_string()));
    assert_eq!(snapshot.warnings_active, vec!["gpt-4".to_string()]);
}

#[test]
fn snapshots_get_fresh_identifiers_and_the_current_time() {
    let (guard, state) = guarded(100);
    let one = guard.snapshot(&state);
    let two = guard.snapshot(&state);
    assert!(is_uuid(&one.snapshot_id));
    assert_ne!(one.snapshot_id, two.snapshot_id);
    assert!(is_time(&one.timestamp));
    assert!(one.warnings_active.is_empty());
}

#[test]
fn a_snapshot_of_nothing_is_empty() {
    let guard = RigBudgetGuard::new("agent");
    let snapshot = guard.snapshot(&SharedState::new());
    assert!(snapshot.budgets.is_empty());
    assert!(snapshot.phases.is_empty());
    assert!(snapshot.events.is_empty());
    assert!(snapshot.warnings_active.is_empty());
}

#[test]
fn snapshots_and_warnings_clone_field_by_field() {
    let (guard, mut state) = guarded(100);
    guard.finish_prompt(&mut state, "a".repeat(360), Some("b".to_string()));
    let snapshot = guard.snapshot(&state);
    let copy = snapshot.clone();
    assert_eq!(copy.snapshot_id, snapshot.snapshot_id);
    assert_eq!(copy.timestamp, snapshot.timestamp);
    assert_eq!(copy.budgets.len(), 1);
    assert_eq!(copy.budgets[0].0, "gpt-4");
    assert_eq!(copy.budgets[0].1.spent_tokens, 91);
    assert_eq!(copy.phases, snapshot.phases);
    assert_eq!(copy.events[0].id, snapshot.events[0].id);
    assert_eq!(copy.warnings_active, vec!["gpt-4".to_string()]);
    let warning = guard.check_warnings(&state)[0].clone();
    assert_eq!(
        warning.message,
        "CRITICAL: Token budget at 91.0% for model 'gpt-4'"
    );
}

// Laws on concrete values

#[test]
fn bulk_budgets_may_be_split() {
    let list = [("a", 10), ("b", 20), ("a", 30)];
    let mut whole = SharedState::new();
    let guard = RigBudgetGuard::new("agent").with_budgets(&mut whole, &list);
    let mut parts = SharedState::new();
    let split = RigBudgetGuard::new("agent")
        .with_budgets(&mut parts, &list[..1])
        .with_budgets(&mut parts, &list[1..]);
    assert_eq!(guard.model_name, "a");
    assert_eq!(split.model_name, "a");
    assert_eq!(whole.model_names(), parts.model_names());
    for state in [&whole, &parts] {
        assert_eq!(state.budget("a").unwrap().max_tokens, 30);
        assert_eq!(state.budget("b").unwrap().max_tokens, 20);
    }
}

#[test]
fn default_warnings_match_the_classification() {
    for spent in 0..=110u64 {
        let (guard, mut state) = guarded(100);
        state.track_usage("gpt-4", spent, 0);
        let usage = state.budget("gpt-4").unwrap().usage_ratio();
        let warnings = guard.check_warnings(&state);
        let word = warnings
            .first()
            .map(|w| w.message.split(':').next().unwrap().to_string());
        let expected = match rig_budget_guard::classify_phase(usage) {
            Phase::Transitioning => Some("CRITICAL".to_string()),
            Phase::PreTransition => Some("WARNING".to_string()),
            Phase::Stable | Phase::Resolving => None,
        };
        assert_eq!(word, expected);
    }
}

#[test]
fn budgets_add_up_a_run_of_charges() {
    let (guard, mut state) = guarded(10_000);
    let _ = guard.with_budget(&mut state, "b", 10_000);
    let charges = [("gpt-4", 7), ("b", 11), ("gpt-4", 13), ("nobody", 17), ("b", 19)];
    for (model, tokens) in charges {
        state.track_usage(model, tokens, 0);
    }
    assert_eq!(state.budget("gpt-4").unwrap().spent_tokens, 20);
    assert_eq!(state.budget("b").unwrap().spent_tokens, 30);
}

#[test]
fn no_phase_ever_resolves() {
    let (guard, mut state) = guarded(1000);
    for tokens in [1, 100, 0, 3, 500, 0, 0, 1000, 5] {
        state.track_usage("gpt-4", tokens, 0);
        assert_ne!(guard.phase(&state, "gpt-4"), Some(Phase::Resolving));
    }
}

#[test]
fn answered_calls_use_up_the_budget_and_charge_the_named_model() {
    let (mut guard, mut state) = guarded(5);
    for left in [3, 1, 0, 0] {
        guard.finish_prompt(&mut state, String::new(), Some(String::new()));
        assert_eq!(state.budget("gpt-4").unwrap().remaining(), left);
    }
    guard.model_name = "other".to_string();
    guard.finish_prompt(&mut state, String::new(), Some(String::new()));
    assert_eq!(state.budget("gpt-4").unwrap().spent_tokens, 8);
    assert_eq!(state.events()[4].model_name, "other");
}
