//! What holds of a guard's state as a whole, whatever calls it has seen.

use vstd::prelude::*;

use crate::guard::CallKind;
use crate::phase::{Phase, PhaseConfig};
use crate::ratio::Ratio;
use crate::state::StateView;
use crate::warning::{AlertLevel, WarningView};

verus! {

/// Giving a model a budget keeps the state in order.
pub proof fn law_budgeting_keeps_the_invariant(state: StateView, model: Seq<char>, max_tokens: u64)
    requires
        state.inv(),
    ensures
        state.budgeted(model, max_tokens).inv(),
{
    let after = state.budgeted(model, max_tokens);
    assert forall|other: Seq<char>|
        #![trigger after.models.contains(other)]
        #![trigger after.budgets.contains_key(other)]
        after.models.contains(other) <==> after.budgets.contains_key(other) by {
        assert(state.models.contains(other) <==> state.budgets.contains_key(other));
        if !state.budgets.contains_key(model) {
            assert(after.models[state.models.len() as int] == model);
            if state.models.contains(other) {
                let i = choose|i: int| 0 <= i < state.models.len() && state.models[i] == other;
                assert(after.models[i] == other);
            }
        }
    }
}

/// Charging tokens to a model keeps the state in order.
pub proof fn law_charging_keeps_the_invariant(state: StateView, model: Seq<char>, tokens: nat)
    requires
        state.inv(),
    ensures
        state.charged(model, tokens).inv(),
{
    let after = state.charged(model, tokens);
    assert forall|other: Seq<char>| #[trigger] after.budgets.contains_key(other) implies
        crate::state::follows(after.quantities[other], after.budgets[other]) by {
        assert(state.budgets.contains_key(other));
        assert(crate::state::follows(state.quantities[other], state.budgets[other]));
        assert(state.quantities.contains_key(other));
        if other == model {
            let budget = state.budgets[model];
            crate::budget::law_spending_is_one_sided(budget, tokens);
            crate::double::law_rounding_is_monotone(
                budget.spend(tokens).left() as nat,
                budget.left() as nat,
                1,
            );
        }
    }
}

/// Closing a call, whether it went through or failed, keeps the state in order.
pub proof fn law_closing_a_call_keeps_the_invariant(
    state: StateView,
    kind: CallKind,
    model: Seq<char>,
    prompt: Seq<char>,
    tokens: nat,
    id: Seq<char>,
    timestamp: Seq<char>,
)
    requires
        state.inv(),
    ensures
        state.succeeded(kind, model, prompt, tokens, id, timestamp).inv(),
        state.failed(kind, model, prompt, id, timestamp).inv(),
{
    law_charging_keeps_the_invariant(state, model, tokens);
}

/// A new budget starts unspent, whatever the model had before, and leaves every other model as it
/// was.
pub proof fn law_budgeting_starts_afresh(
    state: StateView,
    model: Seq<char>,
    max_tokens: u64,
    other: Seq<char>,
)
    ensures
        state.budgeted(model, max_tokens).budgets[model].spent_tokens == 0,
        state.budgeted(model, max_tokens).budgets[model].left() == max_tokens,
        state.budgeted(model, max_tokens).quantities[model].history == seq![
            crate::double::double_of(max_tokens as nat),
        ],
        state.budgeted(model, max_tokens).events == state.events,
        other != model ==> state.budgeted(model, max_tokens).budgets.contains_key(other)
            == state.budgets.contains_key(other),
        other != model ==> state.budgeted(model, max_tokens).budgets[other]
            == state.budgets[other],
        other != model ==> state.budgeted(model, max_tokens).quantities[other]
            == state.quantities[other],
{
}

/// Setting budgets in bulk is setting them one after the other: a list may be split anywhere.
pub proof fn law_bulk_budgets_split(
    state: StateView,
    first: Seq<(&str, u64)>,
    second: Seq<(&str, u64)>,
)
    ensures
        state.budgeted_all(first + second) == state.budgeted_all(first).budgeted_all(second),
    decreases second.len(),
{
    if second.len() == 0 {
        assert(first + second =~= first);
    } else {
        law_bulk_budgets_split(state, first, second.drop_last());
        assert((first + second).drop_last() =~= first + second.drop_last());
        assert((first + second).last() == second.last());
    }
}

/// Budgets are per model: a charge to one model leaves the budget of every other as it was, and a
/// charge to a model without a budget changes no budget at all. Neither touches the log.
pub proof fn law_charges_are_per_model(
    state: StateView,
    model: Seq<char>,
    tokens: nat,
    other: Seq<char>,
)
    ensures
        state.charged(model, tokens).budgets.dom() == state.budgets.dom(),
        state.charged(model, tokens).models == state.models,
        state.charged(model, tokens).events == state.events,
        other != model ==> state.charged(model, tokens).budgets[other] == state.budgets[other],
        !state.budgets.contains_key(model) ==> state.charged(model, tokens).budgets
            == state.budgets,
{
    assert(state.charged(model, tokens).budgets.dom() =~= state.budgets.dom());
}

/// The budgets do not depend on the order in which charges come in.
pub proof fn law_charges_commute(
    state: StateView,
    model: Seq<char>,
    tokens: nat,
    other: Seq<char>,
    others: nat,
)
    ensures
        state.charged(model, tokens).charged(other, others).budgets == state.charged(
            other,
            others,
        ).charged(model, tokens).budgets,
{
    let one = state.charged(model, tokens).charged(other, others).budgets;
    let two = state.charged(other, others).charged(model, tokens).budgets;
    if state.budgets.contains_key(model) {
        crate::budget::law_spending_adds_up(state.budgets[model], tokens, others);
    }
    assert(one =~= two);
}

/// The state after a run of charges, each to the model that it names.
pub open spec fn charged_all(state: StateView, charges: Seq<(Seq<char>, nat)>) -> StateView
    decreases charges.len(),
{
    if charges.len() == 0 {
        state
    } else {
        charged_all(state, charges.drop_last()).charged(charges.last().0, charges.last().1)
    }
}

/// What a run of charges comes to for one model.
pub open spec fn total_for(charges: Seq<(Seq<char>, nat)>, model: Seq<char>) -> nat
    decreases charges.len(),
{
    if charges.len() == 0 {
        0
    } else {
        total_for(charges.drop_last(), model) + if charges.last().0 == model {
            charges.last().1
        } else {
            0
        }
    }
}

/// A budget shows what its model has consumed: after any run of charges it is spent from by the
/// total of those that named the model.
pub proof fn law_budgets_add_up_the_charges(
    state: StateView,
    charges: Seq<(Seq<char>, nat)>,
    model: Seq<char>,
)
    requires
        state.budgets.contains_key(model),
    ensures
        charged_all(state, charges).budgets.contains_key(model),
        charged_all(state, charges).budgets[model] == state.budgets[model].spend(
            total_for(charges, model),
        ),
    decreases charges.len(),
{
    if charges.len() > 0 {
        let earlier = charges.drop_last();
        law_budgets_add_up_the_charges(state, earlier, model);
        law_charges_are_per_model(
            charged_all(state, earlier),
            charges.last().0,
            charges.last().1,
            model,
        );
        crate::budget::law_spending_adds_up(
            state.budgets[model],
            total_for(earlier, model),
            charges.last().1,
        );
    }
}

/// The checker never sees a budget recover.
pub proof fn law_budgets_never_resolve(state: StateView, model: Seq<char>)
    requires
        state.inv(),
    ensures
        state.phase_of(model) != Some(Phase::Resolving),
{
    if state.quantities.contains_key(model) {
        assert(state.budgets.contains_key(model));
        crate::double::law_small_numbers_are_doubles(0);
    }
}

/// The phase of a budget of up to `2^48` tokens, in exact numbers. It is stable until usage was
/// tracked twice, and where the usage tracked last, of whichever model, took nothing from it or no
/// more than a two-thousandth of its limit. Otherwise it is transitioning once more than 5% of the
/// limit are spent. Before that it is about to, unless no less was taken two records earlier.
pub proof fn law_phases_follow_the_budget(state: StateView, model: Seq<char>)
    requires
        state.inv(),
        state.budgets.contains_key(model),
        state.budgets[model].max_tokens <= 0x1_0000_0000_0000,
    ensures
        ({
            let budget = state.budgets[model];
            let records = state.quantities[model].history;
            let count = records.len() as int;
            let cost = records[count - 2] - records[count - 1];
            let earlier = records[count - 4] - records[count - 3];
            state.phase_of(model) == Some(
                if count < 3 || 2000 * cost <= budget.max_tokens || 2000 * cost <= 20 {
                    Phase::Stable
                } else if 20 * budget.left() < 19 * budget.max_tokens {
                    Phase::Transitioning
                } else if count < 4 || cost > earlier {
                    Phase::PreTransition
                } else {
                    Phase::Stable
                },
            )
        }),
{
    let budget = state.budgets[model];
    let quantity = state.quantities[model];
    let records = quantity.history;
    let count = records.len() as int;
    assert(crate::state::follows(quantity, budget));
    crate::budget::law_left_and_spent(budget);
    crate::double::law_small_numbers_are_doubles(budget.max_tokens as nat);
    crate::double::law_small_numbers_are_doubles(budget.left() as nat);
    crate::checker::law_tolerance_decides_exactly(quantity, budget.max_tokens as nat);
    if count >= 3 {
        assert(records[0] >= records[count - 2] >= records[count - 1]);
        let cost = (records[count - 2] - records[count - 1]) as nat;
        assert(quantity.change(0) == -cost);
        crate::double::law_small_numbers_are_doubles(cost);
        if count >= 4 {
            assert(records[0] >= records[count - 3]);
            assert(records[count - 4] >= records[count - 3]);
            assert(records[0] >= records[count - 4]);
            let earlier = (records[count - 4] - records[count - 3]) as nat;
            assert(quantity.change(2) == -earlier);
            crate::double::law_small_numbers_are_doubles(earlier);
        }
    }
}

/// A failed call costs nothing: it is logged with no tokens, and budgets and checker stay as they
/// were.
pub proof fn law_failed_calls_are_free(
    state: StateView,
    kind: CallKind,
    model: Seq<char>,
    prompt: Seq<char>,
    id: Seq<char>,
    timestamp: Seq<char>,
)
    ensures
        state.failed(kind, model, prompt, id, timestamp).budgets == state.budgets,
        state.failed(kind, model, prompt, id, timestamp).quantities == state.quantities,
        state.failed(kind, model, prompt, id, timestamp).models == state.models,
        state.failed(kind, model, prompt, id, timestamp).events.last().tokens_consumed == 0,
        state.failed(kind, model, prompt, id, timestamp).events.last().event_type
            == kind.failure_text(),
{
}

/// A call that went through is charged to its model and logged with what it cost, next to the
/// budget as the call left it.
pub proof fn law_answered_calls_are_charged(
    state: StateView,
    kind: CallKind,
    model: Seq<char>,
    prompt: Seq<char>,
    tokens: nat,
    id: Seq<char>,
    timestamp: Seq<char>,
)
    requires
        tokens <= u64::MAX,
    ensures
        ({
            let after = state.succeeded(kind, model, prompt, tokens, id, timestamp);
            let event = after.events.last();
            &&& after.budgets == state.charged(model, tokens).budgets
            &&& event.tokens_consumed == tokens
            &&& event.model_name == model
            &&& event.event_type == kind.success_text()
            &&& event.phase == after.phase_text(model)
            &&& state.budgets.contains_key(model) ==> after.budgets[model]
                == state.budgets[model].spend(tokens)
            &&& state.budgets.contains_key(model) ==> event.total_spent
                == after.budgets[model].spent_tokens
            &&& state.budgets.contains_key(model) ==> event.budget_limit
                == state.budgets[model].max_tokens
        }),
{
}

/// Every answered call uses up budget: its prompt and its response cost at least a token each, so
/// that what is left shrinks until nothing is.
pub proof fn law_answered_calls_use_up_the_budget(
    state: StateView,
    model: Seq<char>,
    prompt: Seq<char>,
    response: Seq<char>,
)
    requires
        state.budgets.contains_key(model),
    ensures
        ({
            let tokens = crate::message::token_estimate(prompt) + crate::message::token_estimate(
                response,
            );
            let before = state.budgets[model];
            let after = state.charged(model, tokens).budgets[model];
            &&& tokens >= 2
            &&& before.left() > 0 ==> after.left() < before.left()
            &&& before.left() == 0 ==> after.left() == 0
        }),
{
    crate::message::law_every_text_costs(prompt);
    crate::message::law_every_text_costs(response);
}

/// Calls of a model without a budget are logged all the same, with neither a limit nor a phase, and
/// their replies get no header.
pub proof fn law_unbudgeted_models_are_only_logged(
    state: StateView,
    kind: CallKind,
    model: Seq<char>,
    prompt: Seq<char>,
    tokens: nat,
    id: Seq<char>,
    timestamp: Seq<char>,
    threshold: Ratio,
)
    requires
        state.inv(),
        !state.budgets.contains_key(model),
    ensures
        ({
            let after = state.succeeded(kind, model, prompt, tokens, id, timestamp);
            &&& after.budgets == state.budgets
            &&& after.events.last().total_spent == 0
            &&& after.events.last().budget_limit == 0
            &&& after.events.last().phase == "Unknown"@
            &&& after.header_for(threshold, model) is None
        }),
{
    assert(!state.quantities.contains_key(model));
}

/// The log holds the latest events: a call appends one, and only the oldest is dropped for it, once
/// the log is full.
pub proof fn law_calls_append_one_event(
    state: StateView,
    kind: CallKind,
    model: Seq<char>,
    prompt: Seq<char>,
    tokens: nat,
    id: Seq<char>,
    timestamp: Seq<char>,
)
    requires
        state.inv(),
    ensures
        ({
            let after = state.succeeded(kind, model, prompt, tokens, id, timestamp);
            &&& after.events.last().id == id
            &&& after.events.last().timestamp == timestamp
            &&& state.events.len() < crate::event::MAX_EVENTS ==> after.events.drop_last()
                == state.events
            &&& state.events.len() == crate::event::MAX_EVENTS ==> after.events.drop_last()
                == state.events.skip(1)
        }),
        ({
            let after = state.failed(kind, model, prompt, id, timestamp);
            &&& after.events.last().id == id
            &&& after.events.last().timestamp == timestamp
            &&& state.events.len() < crate::event::MAX_EVENTS ==> after.events.drop_last()
                == state.events
            &&& state.events.len() == crate::event::MAX_EVENTS ==> after.events.drop_last()
                == state.events.skip(1)
        }),
{
    let spent = state.charged(model, tokens);
    let good = state.succeeded(kind, model, prompt, tokens, id, timestamp);
    let bad = state.failed(kind, model, prompt, id, timestamp);
    crate::event::law_log_keeps_the_latest(
        state.events,
        spent.event(id, timestamp, model, tokens as u64, kind.success_text(), Some(prompt)),
        crate::event::MAX_EVENTS as nat,
    );
    crate::event::law_log_keeps_the_latest(
        state.events,
        state.event(id, timestamp, model, 0, kind.failure_text(), Some(prompt)),
        crate::event::MAX_EVENTS as nat,
    );
    if state.events.len() < crate::event::MAX_EVENTS {
        assert(good.events.drop_last() =~= state.events);
        assert(bad.events.drop_last() =~= state.events);
    } else {
        assert(good.events.drop_last() =~= state.events.skip(1));
        assert(bad.events.drop_last() =~= state.events.skip(1));
    }
}

/// A threshold once reached stays reached, and one once exceeded stays exceeded: no charge brings a
/// model back under it.
pub proof fn law_reached_thresholds_stay_reached(
    state: StateView,
    model: Seq<char>,
    tokens: nat,
    watched: Seq<char>,
    threshold: Ratio,
)
    ensures
        state.reached(watched, threshold) ==> state.charged(model, tokens).reached(
            watched,
            threshold,
        ),
        state.over(watched, threshold) ==> state.charged(model, tokens).over(watched, threshold),
{
    let before = state.budgets[watched];
    let after = before.spend(tokens);
    if model == watched {
        crate::budget::law_spending_is_one_sided(before, tokens);
        crate::budget::law_usage_is_between_zero_and_one(before);
        crate::budget::law_usage_is_between_zero_and_one(after);
        if state.reached(watched, threshold) {
            crate::ratio::law_reaching_is_transitive(after.usage(), before.usage(), threshold);
        }
        if state.over(watched, threshold) {
            crate::ratio::law_exceeding_is_transitive(after.usage(), before.usage(), threshold);
        }
    }
}

/// Once a budget is used up, its replies carry a header, where the guard's warning threshold is
/// below one. A threshold of one or more, which no usage exceeds, turns headers off.
pub proof fn law_used_up_budgets_are_announced(
    state: StateView,
    model: Seq<char>,
    threshold: Ratio,
)
    ensures
        Ratio::one().exceeds(threshold) && state.budgets.contains_key(model)
            && state.budgets[model].left() == 0 ==> state.header_for(
            threshold.capped(),
            model,
        ) is Some,
        threshold.reaches(Ratio::one()) ==> state.header_for(threshold.capped(), model) is None,
{
    let usage = state.budgets[model].usage();
    crate::budget::law_usage_is_between_zero_and_one(state.budgets[model]);
    crate::ratio::law_capped_is_at_most_one(threshold);
    if Ratio::one().exceeds(threshold) && state.budgets[model].left() == 0 {
        crate::ratio::law_exceeding_is_transitive(usage, Ratio::one(), threshold);
    }
    if threshold.reaches(Ratio::one()) {
        let capped = threshold.capped();
        assert(usage.numer * capped.denom <= capped.numer * usage.denom) by (nonlinear_arith)
            requires
                usage.numer <= usage.denom,
                capped.denom <= capped.numer,
        ;
    }
}

/// A reply gets a header exactly where its model has a budget whose usage exceeds the warning
/// threshold. The header tells that usage and the model's phase, and the response follows it
/// unchanged; without a header the reply is the response itself.
pub proof fn law_headers_tell_the_usage(
    state: StateView,
    model: Seq<char>,
    threshold: Ratio,
    response: Seq<char>,
)
    ensures
        state.header_for(threshold, model) is Some <==> state.budgets.contains_key(model)
            && state.budgets[model].usage().exceeds(threshold),
        state.header_for(threshold, model) matches Some(header) ==> header
            == crate::warning::header_text(
            state.budgets[model].usage(),
            state.phase_or_stable(model),
        ),
        state.header_for(threshold, model) matches Some(header) ==> state.reply(
            threshold,
            model,
            response,
        ).take(header.len() as int) == header,
        state.header_for(threshold, model) matches Some(header) ==> state.reply(
            threshold,
            model,
            response,
        ).skip(header.len() as int) == response,
        state.header_for(threshold, model) is None ==> state.reply(threshold, model, response)
            == response,
{
    if let Some(header) = state.header_for(threshold, model) {
        assert((header + response).take(header.len() as int) =~= header);
        assert((header + response).skip(header.len() as int) =~= response);
    }
}

/// Every warning is that of a listed model, and every listed model that gives rise to a warning has
/// it among them.
pub proof fn law_warnings_are_complete(
    state: StateView,
    config: PhaseConfig,
    models: Seq<Seq<char>>,
    warning: WarningView,
)
    ensures
        state.warnings(config, models).contains(warning) <==> models.contains(warning.model)
            && state.warning_for(config, warning.model) == Some(warning),
        state.warnings(config, models).len() <= models.len(),
    decreases models.len(),
{
    let warnings = state.warnings(config, models);
    if models.len() > 0 {
        let earlier = state.warnings(config, models.drop_last());
        law_warnings_are_complete(state, config, models.drop_last(), warning);
        assert(models =~= models.drop_last().push(models.last()));
        if models.contains(warning.model) {
            let i = choose|i: int| 0 <= i < models.len() && models[i] == warning.model;
            if i < models.len() - 1 {
                assert(models.drop_last()[i] == warning.model);
            }
        }
        if models.drop_last().contains(warning.model) {
            let i = choose|i: int|
                0 <= i < models.drop_last().len() && models.drop_last()[i] == warning.model;
            assert(models[i] == warning.model);
        }
        if let Some(last) = state.warning_for(config, models.last()) {
            assert(warnings == earlier.push(last));
            assert(warnings[warnings.len() - 1] == last);
            if earlier.contains(warning) {
                let k = choose|k: int| 0 <= k < earlier.len() && earlier[k] == warning;
                assert(warnings[k] == warning);
            }
            if warnings.contains(warning) {
                let k = choose|k: int| 0 <= k < warnings.len() && warnings[k] == warning;
                if k < earlier.len() {
                    assert(earlier[k] == warning);
                }
            }
        }
    }
}

/// No model is warned of twice.
pub proof fn law_warnings_name_each_model_once(
    state: StateView,
    config: PhaseConfig,
    models: Seq<Seq<char>>,
)
    requires
        models.no_duplicates(),
    ensures
        forall|i: int, j: int|
            0 <= i < j < state.warnings(config, models).len() ==> (#[trigger] state.warnings(
                config,
                models,
            )[i]).model != (#[trigger] state.warnings(config, models)[j]).model,
    decreases models.len(),
{
    let warnings = state.warnings(config, models);
    if models.len() > 0 {
        let rest = models.drop_last();
        let earlier = state.warnings(config, rest);
        assert(rest.no_duplicates());
        law_warnings_name_each_model_once(state, config, rest);
        if let Some(last) = state.warning_for(config, models.last()) {
            assert(warnings == earlier.push(last));
            assert forall|i: int| 0 <= i < earlier.len() implies (#[trigger] earlier[i]).model
                != last.model by {
                law_warnings_are_complete(state, config, rest, earlier[i]);
                assert(earlier.contains(earlier[i]));
                let k = choose|k: int| 0 <= k < rest.len() && rest[k] == earlier[i].model;
                assert(models[k] == earlier[i].model);
            }
            assert forall|i: int, j: int| 0 <= i < j < warnings.len() implies (
            #[trigger] warnings[i]).model != (#[trigger] warnings[j]).model by {
                assert(warnings[i] == earlier[i]);
                if j < earlier.len() {
                    assert(warnings[j] == earlier[j]);
                }
            }
        }
    }
}

/// With the default thresholds, the warnings agree with the classification of usage ratios:
/// critical where it says transitioning, a warning where it says pre-transition, and none below.
pub proof fn law_default_warnings_match_the_classification(state: StateView, model: Seq<char>)
    requires
        state.budgets.contains_key(model),
    ensures
        state.level_for(PhaseConfig::standard(), model) == (match Phase::of_usage(
            state.budgets[model].usage(),
        ) {
            Phase::Transitioning => Some(AlertLevel::Critical),
            Phase::PreTransition => Some(AlertLevel::Warning),
            _ => None,
        }),
{
}

/// A snapshot lists the budget and the phase of each budgeted model, each model once, and no phase
/// is unknown.
pub proof fn law_snapshots_show_each_model_once(
    state: StateView,
    threshold: Ratio,
    id: Seq<char>,
    timestamp: Seq<char>,
    model: Seq<char>,
)
    requires
        state.inv(),
    ensures
        ({
            let snapshot = state.snapshot(threshold, id, timestamp);
            &&& snapshot.events == state.events
            &&& snapshot.budgets.no_duplicates()
            &&& snapshot.phases.no_duplicates()
            &&& snapshot.budgets.len() == snapshot.phases.len()
            &&& forall|i: int|
                0 <= i < snapshot.budgets.len() ==> {
                    &&& (#[trigger] snapshot.budgets[i]).0 == snapshot.phases[i].0
                    &&& state.budgets.contains_key(snapshot.budgets[i].0)
                    &&& snapshot.budgets[i].1 == state.budgets[snapshot.budgets[i].0]
                    &&& snapshot.phases[i].1
                        == state.quantities[snapshot.phases[i].0].phase().text()
                }
            &&& state.budgets.contains_key(model) ==> snapshot.budgets.contains(
                (model, state.budgets[model]),
            )
        }),
{
    let snapshot = state.snapshot(threshold, id, timestamp);
    assert forall|i: int, j: int|
        0 <= i < snapshot.budgets.len() && 0 <= j < snapshot.budgets.len() && i
            != j implies snapshot.budgets[i] != snapshot.budgets[j] by {
        assert(state.models[i] != state.models[j]);
    }
    assert forall|i: int, j: int|
        0 <= i < snapshot.phases.len() && 0 <= j < snapshot.phases.len() && i
            != j implies snapshot.phases[i] != snapshot.phases[j] by {
        assert(state.models[i] != state.models[j]);
    }
    assert forall|i: int| 0 <= i < snapshot.budgets.len() implies {
        &&& (#[trigger] snapshot.budgets[i]).0 == snapshot.phases[i].0
        &&& state.budgets.contains_key(snapshot.budgets[i].0)
        &&& snapshot.budgets[i].1 == state.budgets[snapshot.budgets[i].0]
        &&& snapshot.phases[i].1 == state.quantities[snapshot.phases[i].0].phase().text()
    } by {
        assert(state.models.contains(state.models[i]));
        assert(state.budgets.contains_key(state.models[i]));
    }
    if state.budgets.contains_key(model) {
        assert(state.models.contains(model));
        let i = choose|i: int| 0 <= i < state.models.len() && state.models[i] == model;
        assert(snapshot.budgets[i] == (model, state.budgets[model]));
    }
}

/// The active warnings of a snapshot are exactly the budgeted models whose usage exceeds the warning
/// threshold, each named once.
pub proof fn law_active_warnings_are_exact(
    state: StateView,
    threshold: Ratio,
    id: Seq<char>,
    timestamp: Seq<char>,
    model: Seq<char>,
)
    requires
        state.inv(),
    ensures
        state.snapshot(threshold, id, timestamp).warnings_active.contains(model) <==> state.over(
            model,
            threshold,
        ),
        state.snapshot(threshold, id, timestamp).warnings_active.no_duplicates(),
{
    let over = |listed: Seq<char>| state.over(listed, threshold);
    let active = state.models.filter(over);
    assert(active == state.snapshot(threshold, id, timestamp).warnings_active);
    lemma_filter_keeps(state.models, over, model);
    lemma_filter_is_free_of_duplicates(state.models, over);
}

/// Filtering keeps exactly the entries that pass.
proof fn lemma_filter_keeps<T>(list: Seq<T>, keep: spec_fn(T) -> bool, entry: T)
    ensures
        list.filter(keep).contains(entry) <==> list.contains(entry) && keep(entry),
{
    if list.filter(keep).contains(entry) {
        list.lemma_filter_contains_rev(keep, entry);
        let i = choose|i: int| 0 <= i < list.filter(keep).len() && list.filter(keep)[i] == entry;
        list.lemma_filter_pred(keep, i);
    }
    if list.contains(entry) && keep(entry) {
        let i = choose|i: int| 0 <= i < list.len() && list[i] == entry;
        list.lemma_filter_contains(keep, i);
    }
}

/// Filtering brings no duplicates in.
proof fn lemma_filter_is_free_of_duplicates<T>(list: Seq<T>, keep: spec_fn(T) -> bool)
    requires
        list.no_duplicates(),
    ensures
        list.filter(keep).no_duplicates(),
    decreases list.len(),
{
    reveal(Seq::filter);
    if list.len() > 0 {
        let rest = list.drop_last();
        lemma_filter_is_free_of_duplicates(rest, keep);
        lemma_filter_keeps(rest, keep, list.last());
        assert(!rest.contains(list.last()));
    }
}

/// A model that gets a budget is listed last, unless it is listed already, and the checker watches
/// it from its limit on, with a tolerance of five hundredths of that. Every other model stays as it
/// was.
pub proof fn law_budgets_are_registered(
    state: StateView,
    model: Seq<char>,
    max_tokens: u64,
    other: Seq<char>,
)
    ensures
        ({
            let after = state.budgeted(model, max_tokens);
            let quantity = after.quantities[model];
            &&& after.budgets.contains_key(model)
            &&& after.quantities.contains_key(model)
            &&& after.budgets[model].max_tokens == max_tokens
            &&& after.budgets[model].spent_tokens == 0
            &&& state.budgets.contains_key(model) ==> after.models == state.models
            &&& !state.budgets.contains_key(model) ==> after.models == state.models.push(model)
            &&& quantity.initial == crate::double::double_of(max_tokens as nat)
            &&& quantity.current == crate::double::double_of(max_tokens as nat)
            &&& quantity.history == seq![crate::double::double_of(max_tokens as nat)]
            &&& quantity.tolerance == crate::double::rounded(
                5 * max_tokens as nat * 0x800_0000_0000_0000,
                100,
            )
            &&& other != model ==> (after.budgets.contains_key(other)
                <==> state.budgets.contains_key(other))
            &&& other != model ==> (after.quantities.contains_key(other)
                <==> state.quantities.contains_key(other))
            &&& other != model ==> after.quantities[other] == state.quantities[other]
            &&& after.events == state.events
        }),
{
}

/// A charge is recorded for every watched model: for the charged one with what is left of its
/// budget, and for each other one with what was left before. Nothing else that the checker keeps
/// changes.
pub proof fn law_charges_are_recorded(
    state: StateView,
    model: Seq<char>,
    tokens: nat,
    other: Seq<char>,
)
    requires
        state.inv(),
        state.budgets.contains_key(other),
    ensures
        ({
            let after = state.charged(model, tokens);
            let before = state.quantities[other];
            let quantity = after.quantities[other];
            let left = crate::double::double_of(after.budgets[other].left() as nat);
            &&& after.quantities.contains_key(other)
            &&& quantity.initial == before.initial
            &&& quantity.tolerance == before.tolerance
            &&& quantity.current == left
            &&& quantity.history == before.history.push(left)
            &&& after.budgets[other].max_tokens == state.budgets[other].max_tokens
            &&& other != model ==> after.budgets[other].spent_tokens
                == state.budgets[other].spent_tokens
            &&& other == model && state.budgets[other].spent_tokens + tokens <= u128::MAX
                ==> after.budgets[other].spent_tokens == state.budgets[other].spent_tokens + tokens
        }),
{
    assert(state.quantities.contains_key(other));
    assert(crate::state::follows(state.quantities[other], state.budgets[other]));
}

/// The phase of a watched model is the one that its records show, a model that is not watched has an
/// unknown one, and counts as stable.
pub proof fn law_watched_models_have_a_phase(state: StateView, model: Seq<char>)
    ensures
        state.quantities.contains_key(model) ==> state.phase_of(model) == Some(
            state.quantities[model].phase(),
        ) && state.phase_text(model) == state.quantities[model].phase().text()
            && state.phase_or_stable(model) == state.quantities[model].phase(),
        !state.quantities.contains_key(model) ==> state.phase_of(model) is None
            && state.phase_text(model) == "Unknown"@ && state.phase_or_stable(model)
            == Phase::Stable,
{
}

/// An event tells what it is about, the budget of its model as it stands, and no more than a preview
/// of the prompt; without a budget, both of its numbers are zero.
pub proof fn law_events_tell_the_state(
    state: StateView,
    id: Seq<char>,
    timestamp: Seq<char>,
    model: Seq<char>,
    tokens: u64,
    event_type: Seq<char>,
    prompt: Option<Seq<char>>,
)
    ensures
        ({
            let event = state.event(id, timestamp, model, tokens, event_type, prompt);
            &&& event.id == id
            &&& event.timestamp == timestamp
            &&& event.model_name == model
            &&& event.tokens_consumed == tokens
            &&& event.event_type == event_type
            &&& event.phase == state.phase_text(model)
            &&& state.budgets.contains_key(model) ==> event.total_spent
                == state.budgets[model].spent_tokens
            &&& state.budgets.contains_key(model) ==> event.budget_limit
                == state.budgets[model].max_tokens
            &&& !state.budgets.contains_key(model) ==> event.total_spent == 0
            &&& !state.budgets.contains_key(model) ==> event.budget_limit == 0
            &&& prompt matches Some(text) ==> event.prompt_preview == Some(
                crate::event::preview_of(text),
            )
            &&& prompt is None ==> event.prompt_preview is None
        }),
{
}

/// Logging an event appends it, drops the oldest ones above a thousand, and changes nothing else.
pub proof fn law_logging_only_appends(state: StateView, event: crate::event::EventView, back: int)
    ensures
        state.logged(event).budgets == state.budgets,
        state.logged(event).models == state.models,
        state.logged(event).quantities == state.quantities,
        state.logged(event).events.last() == event,
        state.events.len() < 1000 ==> state.logged(event).events.len() == state.events.len() + 1,
        state.events.len() >= 1000 ==> state.logged(event).events.len() == 1000,
        0 < back < state.logged(event).events.len() ==> state.logged(event).events[
        state.logged(event).events.len() - 1 - back] == state.events[state.events.len() - back],
{
    crate::event::law_capped_logs_end_alike(state.events.push(event), 1000, back + 1);
    crate::event::law_capped_logs_end_alike(state.events.push(event), 1000, 1);
}

/// A closed call is one charge, none where it failed, and one event that tells the outcome and a
/// preview of the prompt.
pub proof fn law_closed_calls_are_charged_and_told(
    state: StateView,
    kind: CallKind,
    model: Seq<char>,
    prompt: Seq<char>,
    tokens: nat,
    id: Seq<char>,
    timestamp: Seq<char>,
)
    requires
        tokens <= u64::MAX,
    ensures
        ({
            let spent = state.charged(model, tokens);
            let after = state.succeeded(kind, model, prompt, tokens, id, timestamp);
            let event = after.events.last();
            &&& after.budgets == spent.budgets
            &&& after.quantities == spent.quantities
            &&& after.models == state.models
            &&& event.id == id
            &&& event.timestamp == timestamp
            &&& event.model_name == model
            &&& event.tokens_consumed == tokens
            &&& event.phase == spent.phase_text(model)
            &&& event.prompt_preview == Some(crate::event::preview_of(prompt))
            &&& kind is Prompt ==> event.event_type == "prompt"@
            &&& kind is Chat ==> event.event_type == "chat"@
            &&& kind is Completion ==> event.event_type == "completion"@
        }),
        ({
            let after = state.failed(kind, model, prompt, id, timestamp);
            let event = after.events.last();
            &&& after.budgets == state.budgets
            &&& after.quantities == state.quantities
            &&& after.models == state.models
            &&& event.id == id
            &&& event.timestamp == timestamp
            &&& event.model_name == model
            &&& event.tokens_consumed == 0
            &&& event.phase == state.phase_text(model)
            &&& state.budgets.contains_key(model) ==> event.total_spent
                == state.budgets[model].spent_tokens
            &&& state.budgets.contains_key(model) ==> event.budget_limit
                == state.budgets[model].max_tokens
            &&& event.prompt_preview == Some(crate::event::preview_of(prompt))
            &&& kind is Prompt ==> event.event_type == "prompt_error"@
            &&& kind is Chat ==> event.event_type == "chat_error"@
            &&& kind is Completion ==> event.event_type == "completion_error"@
        }),
{
}

/// Bulk budgets begin and end as single ones do: none change nothing, and the last one is set after
/// all the others.
pub proof fn law_bulk_budgets_are_single_ones(
    state: StateView,
    budgets: Seq<(&str, u64)>,
    model: &str,
    max_tokens: u64,
)
    ensures
        state.budgeted_all(seq![]) == state,
        state.budgeted_all(budgets.push((model, max_tokens))) == state.budgeted_all(
            budgets,
        ).budgeted(model@, max_tokens),
{
    assert(budgets.push((model, max_tokens)).drop_last() =~= budgets);
}

/// The level of a budgeted model goes by the share of its budget that is spent, for every
/// configuration: critical from the critical threshold on, otherwise a warning from the early
/// threshold on, otherwise none. A used-up or empty budget counts as spent in full.
pub proof fn law_levels_go_by_usage(state: StateView, config: PhaseConfig, model: Seq<char>)
    ensures
        ({
            let budget = state.budgets[model];
            let (used, whole): (int, int) = if budget.spent_tokens >= budget.max_tokens {
                (1, 1)
            } else {
                (budget.spent_tokens as int, budget.max_tokens as int)
            };
            let critical = config.transitioning_threshold;
            let early = config.pret_transition_threshold;
            let level = state.level_for(config, model);
            &&& level == Some(AlertLevel::Critical) <==> state.budgets.contains_key(model) && used
                * critical.denom >= critical.numer * whole
            &&& level == Some(AlertLevel::Warning) <==> state.budgets.contains_key(model) && used
                * critical.denom < critical.numer * whole && used * early.denom >= early.numer
                * whole
        }),
{
    let budget = state.budgets[model];
    lemma_usage_compares(budget, config.transitioning_threshold);
    lemma_usage_compares(budget, config.pret_transition_threshold);
}

/// The warnings before a call tell of a budgeted model by the share of its budget that is spent, for
/// every configuration: one that says critical from the critical threshold on, otherwise one that
/// says warning from the early threshold on, otherwise none. It tells the percentage, the model, the
/// share and the phase.
pub proof fn law_warnings_go_by_usage(state: StateView, config: PhaseConfig, model: Seq<char>)
    requires
        state.inv(),
        state.budgets.contains_key(model),
    ensures
        ({
            let budget = state.budgets[model];
            let (used, whole): (int, int) = if budget.spent_tokens >= budget.max_tokens {
                (1, 1)
            } else {
                (budget.spent_tokens as int, budget.max_tokens as int)
            };
            let critical = config.transitioning_threshold;
            let early = config.pret_transition_threshold;
            let is_critical = used * critical.denom >= critical.numer * whole;
            let is_early = used * early.denom >= early.numer * whole;
            let warnings = state.warnings(config, state.models);
            let rest = crate::percent::tenths_text(budget.usage()) + "% for model '"@ + model
                + "'"@;
            &&& is_critical || is_early ==> exists|i: int|
                {
                    &&& 0 <= i < warnings.len()
                    &&& (#[trigger] warnings[i]).model == model
                    &&& warnings[i].usage_ratio.numer * whole == used
                        * warnings[i].usage_ratio.denom
                    &&& warnings[i].phase == state.quantities[model].phase().text()
                    &&& is_critical ==> warnings[i].message == "CRITICAL: Token budget at "@ + rest
                    &&& !is_critical ==> warnings[i].message == "WARNING: Token budget at "@ + rest
                }
            &&& !is_critical && !is_early ==> forall|i: int|
                0 <= i < warnings.len() ==> (#[trigger] warnings[i]).model != model
            &&& forall|i: int, j: int|
                0 <= i < j < warnings.len() ==> (#[trigger] warnings[i]).model != (
                #[trigger] warnings[j]).model
        }),
{
    let budget = state.budgets[model];
    let warnings = state.warnings(config, state.models);
    law_levels_go_by_usage(state, config, model);
    law_warnings_name_each_model_once(state, config, state.models);
    crate::warning::law_warnings_read_in_full(budget.usage(), model);
    crate::budget::law_usage_is_spent_over_maximum(budget);
    assert(state.quantities.contains_key(model));
    assert(state.models.contains(model));
    match state.warning_for(config, model) {
        Some(warning) => {
            law_warnings_are_complete(state, config, state.models, warning);
            let i = choose|i: int| 0 <= i < warnings.len() && warnings[i] == warning;
            assert(warnings[i].model == model);
            let tail = crate::percent::tenths_text(budget.usage()) + "% for model '"@ + model
                + "'"@;
            let level = state.level_for(config, model);
            if level == Some(AlertLevel::Critical) {
                assert(warning.message =~= "CRITICAL: Token budget at "@ + tail);
            } else {
                assert(warning.message =~= "WARNING: Token budget at "@ + tail);
            }
            if budget.spent_tokens >= budget.max_tokens {
                assert(warning.usage_ratio.numer * 1 == 1 * warning.usage_ratio.denom);
            }
        },
        None => {
            assert forall|i: int| 0 <= i < warnings.len() implies (#[trigger] warnings[i]).model
                != model by {
                law_warnings_are_complete(state, config, state.models, warnings[i]);
                assert(warnings.contains(warnings[i]));
            }
        },
    }
}

/// A reply carries a header exactly where more than the threshold's share of its model's budget is
/// spent; a used-up or empty budget counts as spent in full. The header tells the whole percentage
/// and the phase, and the response follows it.
pub proof fn law_headers_go_by_usage(
    state: StateView,
    model: Seq<char>,
    threshold: Ratio,
    response: Seq<char>,
)
    requires
        state.inv(),
    ensures
        ({
            let budget = state.budgets[model];
            let (used, whole): (int, int) = if budget.spent_tokens >= budget.max_tokens {
                (1, 1)
            } else {
                (budget.spent_tokens as int, budget.max_tokens as int)
            };
            let exceeded = state.budgets.contains_key(model) && used * threshold.denom
                > threshold.numer * whole;
            &&& exceeded ==> state.reply(threshold, model, response) == "[Budget: "@
                + crate::percent::whole_text(budget.usage()) + "% used • Phase: "@
                + state.quantities[model].phase().text() + "]\n"@ + response
            &&& !exceeded ==> state.reply(threshold, model, response) == response
            &&& exceeded <==> state.header_for(threshold, model) is Some
        }),
{
    let budget = state.budgets[model];
    lemma_usage_compares(budget, threshold);
    if state.budgets.contains_key(model) {
        assert(state.quantities.contains_key(model));
    }
}

/// A model is among the active warnings of a snapshot exactly where more than the threshold's share
/// of its budget is spent, which is exactly where its replies carry a header.
pub proof fn law_active_warnings_go_by_usage(
    state: StateView,
    threshold: Ratio,
    id: Seq<char>,
    timestamp: Seq<char>,
    model: Seq<char>,
)
    requires
        state.inv(),
    ensures
        ({
            let budget = state.budgets[model];
            let (used, whole): (int, int) = if budget.spent_tokens >= budget.max_tokens {
                (1, 1)
            } else {
                (budget.spent_tokens as int, budget.max_tokens as int)
            };
            let snapshot = state.snapshot(threshold, id, timestamp);
            &&& snapshot.snapshot_id == id
            &&& snapshot.timestamp == timestamp
            &&& snapshot.warnings_active.contains(model) <==> state.budgets.contains_key(model)
                && used * threshold.denom > threshold.numer * whole
            &&& snapshot.warnings_active.contains(model) <==> state.header_for(
                threshold,
                model,
            ) is Some
        }),
{
    law_active_warnings_are_exact(state, threshold, id, timestamp, model);
    lemma_usage_compares(state.budgets[model], threshold);
}

/// Comparing the usage ratio with a threshold is comparing what is spent with the maximum.
proof fn lemma_usage_compares(budget: crate::budget::ModelBudget, threshold: Ratio)
    ensures
        ({
            let (used, whole): (int, int) = if budget.spent_tokens >= budget.max_tokens {
                (1, 1)
            } else {
                (budget.spent_tokens as int, budget.max_tokens as int)
            };
            &&& budget.usage().reaches(threshold) <==> used * threshold.denom >= threshold.numer
                * whole
            &&& budget.usage().exceeds(threshold) <==> used * threshold.denom > threshold.numer
                * whole
        }),
{
    let usage = budget.usage();
    crate::budget::law_usage_is_spent_over_maximum(budget);
    if budget.spent_tokens >= budget.max_tokens {
        let (n, d, tn, td) = (
            usage.numer as int,
            usage.denom as int,
            threshold.numer as int,
            threshold.denom as int,
        );
        assert((n * td >= tn * d <==> td >= tn) && (n * td > tn * d <==> td > tn))
            by (nonlinear_arith)
            requires
                n == d,
                d > 0,
        ;
        assert(1 * td == td && tn * 1 == tn);
    } else {
        assert(usage.numer == budget.spent_tokens);
    }
}

} // verus!
