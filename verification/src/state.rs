//! The mutable state of a guard: budgets, the conservation checker, and the event log.

use conservation_checker::ConservationChecker;
use vstd::hash_map::StringHashMap;
use vstd::prelude::*;

use crate::budget::ModelBudget;
use crate::checker::Quantity;
use crate::event::{BudgetEvent, EventView, MAX_EVENTS};
use crate::phase::Phase;

verus! {

/// The state behind one or more guards.
///
/// A guard and its clones share one state. It takes no lock of its own: whoever shares it hands it
/// out under one.
pub struct SharedState {
    budgets: StringHashMap<ModelBudget>,
    model_names: Vec<String>,
    checker: ConservationChecker,
    events: Vec<BudgetEvent>,
}

/// What a [`SharedState`] holds.
#[verifier::ext_equal]
pub struct StateView {
    /// The budget of each model that has one.
    pub budgets: Map<Seq<char>, ModelBudget>,
    /// The models that have a budget, in the order in which they first got one.
    pub models: Seq<Seq<char>>,
    /// What the conservation checker holds.
    pub quantities: Map<Seq<char>, Quantity>,
    /// The event log, the oldest event first.
    pub events: Seq<EventView>,
}

/// The characters of each text of a list.
pub open spec fn texts(list: Seq<String>) -> Seq<Seq<char>> {
    list.map_values(|text: String| text@)
}

impl View for SharedState {
    type V = StateView;

    closed spec fn view(&self) -> StateView {
        StateView {
            budgets: self.budgets@,
            models: texts(self.model_names@),
            quantities: crate::checker::quantities(self.checker),
            events: crate::event::event_views(self.events@),
        }
    }
}

/// Whether the checker's quantity follows a budget, in the nearest doubles: it started at the limit
/// with a tolerance of 5%, stands at what is left, and was never seen to rise.
pub open spec fn follows(quantity: Quantity, budget: ModelBudget) -> bool {
    &&& quantity.initial == crate::double::double_of(budget.max_tokens as nat)
    &&& quantity.tolerance == crate::checker::tolerance_of(5 * budget.max_tokens as nat)
    &&& quantity.current == crate::double::double_of(budget.left() as nat)
    &&& quantity.history.len() >= 1
    &&& quantity.history[0] == quantity.initial
    &&& quantity.history.last() == quantity.current
    &&& forall|i: int, j: int|
        0 <= i < j < quantity.history.len() ==> quantity.history[i] >= quantity.history[j]
}

impl StateView {
    /// No budgets and no events.
    pub open spec fn empty() -> StateView {
        StateView {
            budgets: Map::empty(),
            models: seq![],
            quantities: Map::empty(),
            events: seq![],
        }
    }

    /// What every state keeps: the model list names each budgeted model once, the checker watches
    /// exactly the budgeted models and follows their budgets, and the log stays within its cap.
    pub open spec fn inv(self) -> bool {
        &&& self.models.no_duplicates()
        &&& forall|model: Seq<char>|
            #![trigger self.models.contains(model)]
            #![trigger self.budgets.contains_key(model)]
            self.models.contains(model) <==> self.budgets.contains_key(model)
        &&& forall|model: Seq<char>|
            #![trigger self.quantities.contains_key(model)]
            #![trigger self.budgets.contains_key(model)]
            self.quantities.contains_key(model) <==> self.budgets.contains_key(model)
        &&& forall|model: Seq<char>| #[trigger]
            self.budgets.contains_key(model) ==> follows(
                self.quantities[model],
                self.budgets[model],
            )
        &&& self.events.len() <= MAX_EVENTS
    }

    /// The state after `model` was given a new budget of `max_tokens`.
    pub open spec fn budgeted(self, model: Seq<char>, max_tokens: u64) -> StateView {
        StateView {
            budgets: self.budgets.insert(model, ModelBudget::fresh(max_tokens)),
            models: if self.budgets.contains_key(model) {
                self.models
            } else {
                self.models.push(model)
            },
            quantities: self.quantities.insert(
                model,
                Quantity::registered(
                    crate::double::double_of(max_tokens as nat),
                    crate::checker::tolerance_of(5 * max_tokens as nat),
                ),
            ),
            ..self
        }
    }

    /// The state after `tokens` were charged to `model`: its budget, if it has one, is spent from,
    /// the checker is told what is left of it, and the checker records every model.
    pub open spec fn charged(self, model: Seq<char>, tokens: nat) -> StateView {
        if self.budgets.contains_key(model) {
            let budget = self.budgets[model].spend(tokens);
            StateView {
                budgets: self.budgets.insert(model, budget),
                quantities: (if self.quantities.contains_key(model) {
                    self.quantities.insert(
                        model,
                        self.quantities[model].updated(
                            crate::double::double_of(budget.left() as nat),
                        ),
                    )
                } else {
                    self.quantities
                }).map_values(|quantity: Quantity| quantity.recorded()),
                ..self
            }
        } else {
            StateView {
                quantities: self.quantities.map_values(|quantity: Quantity| quantity.recorded()),
                ..self
            }
        }
    }

    /// The phase that the checker detects for `model`, if it watches it.
    pub open spec fn phase_of(self, model: Seq<char>) -> Option<Phase> {
        if self.quantities.contains_key(model) {
            Some(self.quantities[model].phase())
        } else {
            None
        }
    }

    /// The phase of `model` in words.
    pub open spec fn phase_text(self, model: Seq<char>) -> Seq<char> {
        match self.phase_of(model) {
            Some(phase) => phase.text(),
            None => "Unknown"@,
        }
    }

    /// The event that is logged for `model` in this state.
    pub open spec fn event(
        self,
        id: Seq<char>,
        timestamp: Seq<char>,
        model: Seq<char>,
        tokens_consumed: u64,
        event_type: Seq<char>,
        prompt: Option<Seq<char>>,
    ) -> EventView {
        EventView {
            id,
            timestamp,
            model_name: model,
            tokens_consumed,
            total_spent: if self.budgets.contains_key(model) {
                self.budgets[model].spent_tokens
            } else {
                0
            },
            budget_limit: if self.budgets.contains_key(model) {
                self.budgets[model].max_tokens
            } else {
                0
            },
            phase: self.phase_text(model),
            event_type,
            prompt_preview: match prompt {
                Some(text) => Some(crate::event::preview_of(text)),
                None => None,
            },
        }
    }

    /// The state with `event` appended to the log, which keeps the latest [`MAX_EVENTS`].
    pub open spec fn logged(self, event: EventView) -> StateView {
        StateView {
            events: crate::event::latest(self.events.push(event), MAX_EVENTS as nat),
            ..self
        }
    }
}

impl SharedState {
    /// Whether the state is in order, see [`StateView::inv`].
    pub open spec fn wf(&self) -> bool {
        self@.inv()
    }

    /// A state without budgets and events.
    pub fn new() -> (state: SharedState)
        ensures
            state.wf(),
            state@ == StateView::empty(),
    {
        let state = SharedState {
            budgets: StringHashMap::new(),
            model_names: Vec::new(),
            checker: crate::checker::new_checker(),
            events: Vec::new(),
        };
        assert(state@ =~= StateView::empty());
        state
    }

    /// Gives `model_name` a new budget, in place of any it had, and registers what is left of it
    /// with the checker, with a tolerance of 5% of the limit.
    pub fn add_budget(&mut self, model_name: &str, max_tokens: u64)
        requires
            old(self).wf(),
        ensures
            final(self).wf(),
            final(self)@ == old(self)@.budgeted(model_name@, max_tokens),
    {
        let ghost before = self@;
        if !self.budgets.contains_key(model_name) {
            self.model_names.push(model_name.to_string());
        }
        self.budgets.insert(model_name.to_string(), ModelBudget::new(max_tokens));
        crate::checker::register(&mut self.checker, model_name, max_tokens, 5 * max_tokens as u128);
        proof {
            assert(self@ =~= before.budgeted(model_name@, max_tokens));
            crate::laws::law_budgeting_keeps_the_invariant(before, model_name@, max_tokens);
        }
    }

    /// The budget of a model, if it has one.
    pub fn budget(&self, model_name: &str) -> (budget: Option<ModelBudget>)
        ensures
            budget == (if self@.budgets.contains_key(model_name@) {
                Some(self@.budgets[model_name@])
            } else {
                None
            }),
    {
        match self.budgets.get(model_name) {
            Some(budget) => Some(*budget),
            None => None,
        }
    }

    /// The models that have a budget, in the order in which they first got one.
    pub fn model_names(&self) -> (names: &Vec<String>)
        ensures
            texts(names@) == self@.models,
    {
        &self.model_names
    }

    /// The event log, the oldest event first.
    pub fn events(&self) -> (events: &Vec<BudgetEvent>)
        ensures
            crate::event::event_views(events@) == self@.events,
    {
        &self.events
    }

    /// The current conservation phase of a model.
    ///
    /// Returns `None` if the model has no registered budget. A budget is stable until usage was
    /// tracked twice since it was set, and as what is left of it never rises, it never resolves. See
    /// [`law_phases_follow_the_budget`](crate::laws::law_phases_follow_the_budget) for what it
    /// comes to in tokens.
    pub fn phase(&self, model_name: &str) -> (phase: Option<Phase>)
        requires
            self.wf(),
        ensures
            phase == self@.phase_of(model_name@),
            phase is Some <==> self@.budgets.contains_key(model_name@),
            phase is Some && self@.quantities[model_name@].history.len() < 3 ==> phase == Some(
                Phase::Stable,
            ),
            phase != Some(Phase::Resolving),
    {
        if crate::checker::is_registered(&self.checker, model_name) {
            proof {
                assert(self@.budgets.contains_key(model_name@));
                crate::laws::law_budgets_never_resolve(self@, model_name@);
            }
            Some(crate::checker::phase(&self.checker, model_name))
        } else {
            None
        }
    }

    /// Update budgets and the checker after a completion.
    pub fn track_usage(&mut self, model_name: &str, input_tokens: u64, output_tokens: u64)
        requires
            old(self).wf(),
            input_tokens + output_tokens <= u64::MAX,
        ensures
            final(self).wf(),
            final(self)@ == old(self)@.charged(
                model_name@,
                (input_tokens + output_tokens) as nat,
            ),
    {
        let ghost before = self@;
        let total = input_tokens + output_tokens;
        let is_registered = crate::checker::is_registered(&self.checker, model_name);
        let found = match self.budgets.get(model_name) {
            Some(budget) => Some(*budget),
            None => None,
        };
        if let Some(old_budget) = found {
            let mut budget = old_budget;
            budget.charge(total);
            self.budgets.insert(model_name.to_string(), budget);
            if is_registered {
                crate::checker::update(&mut self.checker, model_name, budget.remaining());
            }
        }
        crate::checker::record_all(&mut self.checker);
        proof {
            assert(self@ =~= before.charged(model_name@, total as nat));
            crate::laws::law_charging_keeps_the_invariant(before, model_name@, total as nat);
        }
    }

    /// Logs an event that bears the given identifier and timestamp.
    pub fn record_event_at(
        &mut self,
        id: String,
        timestamp: String,
        model_name: &str,
        tokens_consumed: u64,
        event_type: &str,
        prompt_preview: Option<String>,
    )
        requires
            old(self).wf(),
        ensures
            final(self).wf(),
            final(self)@ == old(self)@.logged(
                old(self)@.event(
                    id@,
                    timestamp@,
                    model_name@,
                    tokens_consumed,
                    event_type@,
                    crate::event::optional_text(prompt_preview),
                ),
            ),
    {
        let ghost before = self@;
        let (total_spent, budget_limit) = match self.budgets.get(model_name) {
            Some(budget) => (budget.spent_tokens, budget.max_tokens),
            None => (0, 0),
        };
        let phase = if crate::checker::is_registered(&self.checker, model_name) {
            crate::checker::phase(&self.checker, model_name).label()
        } else {
            "Unknown".to_string()
        };
        let event = BudgetEvent {
            id,
            timestamp,
            model_name: model_name.to_string(),
            tokens_consumed,
            total_spent,
            budget_limit,
            phase,
            event_type: event_type.to_string(),
            prompt_preview: match prompt_preview {
                Some(prompt) => Some(crate::event::truncate_preview(prompt)),
                None => None,
            },
        };
        let ghost logged = event@;
        let ghost log = self.events@;
        self.events.push(event);
        crate::event::cap_events(&mut self.events);
        proof {
            assert(crate::event::event_views(log.push(event)) =~= crate::event::event_views(
                log,
            ).push(logged));
            assert(self@ =~= before.logged(logged));
        }
    }

    /// Logs an event under a fresh identifier and the current time.
    pub fn record_event(
        &mut self,
        model_name: &str,
        tokens_consumed: u64,
        event_type: &str,
        prompt_preview: Option<String>,
    )
        requires
            old(self).wf(),
        ensures
            final(self).wf(),
            final(self)@.events.len() > 0,
            crate::stamp::is_random_uuid(final(self)@.events.last().id),
            crate::stamp::is_utc_time(final(self)@.events.last().timestamp),
            final(self)@ == old(self)@.logged(
                old(self)@.event(
                    final(self)@.events.last().id,
                    final(self)@.events.last().timestamp,
                    model_name@,
                    tokens_consumed,
                    event_type@,
                    crate::event::optional_text(prompt_preview),
                ),
            ),
    {
        let id = crate::stamp::fresh_id();
        let timestamp = crate::stamp::current_time();
        self.record_event_at(id, timestamp, model_name, tokens_consumed, event_type, prompt_preview);
    }
}

/// What is said of a list of texts is said of each text, and a new state holds nothing.
pub proof fn law_lists_show_their_texts(list: Seq<String>, place: int)
    ensures
        texts(list).len() == list.len(),
        0 <= place < list.len() ==> texts(list)[place] == list[place]@,
        StateView::empty().models.len() == 0,
        StateView::empty().events.len() == 0,
        StateView::empty().budgets.dom() == Set::<Seq<char>>::empty(),
        StateView::empty().quantities.dom() == Set::<Seq<char>>::empty(),
{
}

} // verus!
