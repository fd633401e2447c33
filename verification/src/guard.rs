//! The guard: its configuration, and what it decides around each call of an agent.

use vstd::prelude::*;
use vstd::string::StringExecFns;

use crate::budget::ModelBudget;
use crate::phase::{Phase, PhaseConfig};
use crate::ratio::Ratio;
use crate::snapshot::{BudgetSnapshot, SnapshotView};
use crate::state::{SharedState, StateView};
use crate::warning::{AlertLevel, BudgetWarning, WarningView};

verus! {

/// The calls of an agent that a guard watches.
#[derive(Debug, Clone, Copy, PartialEq, Eq, Structural)]
pub enum CallKind {
    /// A one-off prompt.
    Prompt,
    /// A prompt with chat history.
    Chat,
    /// A completion request that the caller sends on their own.
    Completion,
}

impl CallKind {
    /// The event type of a call that went through.
    pub open spec fn success_text(self) -> Seq<char> {
        match self {
            CallKind::Prompt => "prompt"@,
            CallKind::Chat => "chat"@,
            CallKind::Completion => "completion"@,
        }
    }

    /// The event type of a call that failed.
    pub open spec fn failure_text(self) -> Seq<char> {
        match self {
            CallKind::Prompt => "prompt_error"@,
            CallKind::Chat => "chat_error"@,
            CallKind::Completion => "completion_error"@,
        }
    }

    /// The event type of a call that went through.
    pub fn success_label(&self) -> (label: &'static str)
        ensures
            label@ == self.success_text(),
    {
        match self {
            CallKind::Prompt => "prompt",
            CallKind::Chat => "chat",
            CallKind::Completion => "completion",
        }
    }

    /// The event type of a call that failed.
    pub fn failure_label(&self) -> (label: &'static str)
        ensures
            label@ == self.failure_text(),
    {
        match self {
            CallKind::Prompt => "prompt_error",
            CallKind::Chat => "chat_error",
            CallKind::Completion => "completion_error",
        }
    }
}

impl StateView {
    /// The phase of a model, taken as stable where the checker does not watch it.
    pub open spec fn phase_or_stable(self, model: Seq<char>) -> Phase {
        match self.phase_of(model) {
            Some(phase) => phase,
            None => Phase::Stable,
        }
    }

    /// Whether a model has a budget of which at least `threshold` is used.
    pub open spec fn reached(self, model: Seq<char>, threshold: Ratio) -> bool {
        self.budgets.contains_key(model) && self.budgets[model].usage().reaches(threshold)
    }

    /// Whether a model has a budget of which more than `threshold` is used.
    pub open spec fn over(self, model: Seq<char>, threshold: Ratio) -> bool {
        self.budgets.contains_key(model) && self.budgets[model].usage().exceeds(threshold)
    }

    /// The threshold that the usage of a budgeted model has reached, if any.
    pub open spec fn level_for(self, config: PhaseConfig, model: Seq<char>) -> Option<AlertLevel> {
        if self.reached(model, config.transitioning_threshold) {
            Some(AlertLevel::Critical)
        } else if self.reached(model, config.pret_transition_threshold) {
            Some(AlertLevel::Warning)
        } else {
            None
        }
    }

    /// The warning that a model gives rise to, if any.
    pub open spec fn warning_for(self, config: PhaseConfig, model: Seq<char>) -> Option<
        WarningView,
    > {
        match self.level_for(config, model) {
            Some(level) => {
                let usage = self.budgets[model].usage();
                Some(
                    WarningView {
                        model,
                        message: crate::warning::message_text(level, usage, model),
                        usage_ratio: usage,
                        phase: self.phase_or_stable(model).text(),
                    },
                )
            },
            None => None,
        }
    }

    /// The warnings that the listed models give rise to, in their order.
    pub open spec fn warnings(self, config: PhaseConfig, models: Seq<Seq<char>>) -> Seq<WarningView>
        decreases models.len(),
    {
        if models.len() == 0 {
            seq![]
        } else {
            let earlier = self.warnings(config, models.drop_last());
            match self.warning_for(config, models.last()) {
                Some(warning) => earlier.push(warning),
                None => earlier,
            }
        }
    }

    /// The header that a reply of `model` gets, if any.
    pub open spec fn header_for(self, threshold: Ratio, model: Seq<char>) -> Option<Seq<char>> {
        if self.over(model, threshold) {
            Some(
                crate::warning::header_text(
                    self.budgets[model].usage(),
                    self.phase_or_stable(model),
                ),
            )
        } else {
            None
        }
    }

    /// The reply that users of `model` see: the response, with a header where one is due.
    pub open spec fn reply(
        self,
        threshold: Ratio,
        model: Seq<char>,
        response: Seq<char>,
    ) -> Seq<char> {
        match self.header_for(threshold, model) {
            Some(header) => header + response,
            None => response,
        }
    }

    /// The state after a call that consumed `tokens` was charged and logged.
    pub open spec fn succeeded(
        self,
        kind: CallKind,
        model: Seq<char>,
        prompt: Seq<char>,
        tokens: nat,
        id: Seq<char>,
        timestamp: Seq<char>,
    ) -> StateView {
        let spent = self.charged(model, tokens);
        spent.logged(
            spent.event(id, timestamp, model, tokens as u64, kind.success_text(), Some(prompt)),
        )
    }

    /// The state after a failed call was logged.
    pub open spec fn failed(
        self,
        kind: CallKind,
        model: Seq<char>,
        prompt: Seq<char>,
        id: Seq<char>,
        timestamp: Seq<char>,
    ) -> StateView {
        self.logged(self.event(id, timestamp, model, 0, kind.failure_text(), Some(prompt)))
    }

    /// The snapshot of the state, for a given warning threshold.
    pub open spec fn snapshot(
        self,
        threshold: Ratio,
        snapshot_id: Seq<char>,
        timestamp: Seq<char>,
    ) -> SnapshotView {
        SnapshotView {
            snapshot_id,
            timestamp,
            budgets: self.models.map_values(|model: Seq<char>| (model, self.budgets[model])),
            phases: self.models.map_values(|model: Seq<char>| (model, self.phase_text(model))),
            events: self.events,
            warnings_active: self.models.filter(|model: Seq<char>| self.over(model, threshold)),
        }
    }

    /// The state after each of the listed models was given a new budget, in order.
    pub open spec fn budgeted_all(self, budgets: Seq<(&str, u64)>) -> StateView
        decreases budgets.len(),
    {
        if budgets.len() == 0 {
            self
        } else {
            self.budgeted_all(budgets.drop_last()).budgeted(budgets.last().0@, budgets.last().1)
        }
    }
}

/// What the warnings of a list say.
pub open spec fn warning_views(warnings: Seq<BudgetWarning>) -> Seq<WarningView> {
    warnings.map_values(|warning: BudgetWarning| warning@)
}

/// Token budget enforcement for an agent of any kind.
///
/// The guard holds the agent and its own configuration. Budgets, checker and events live in a
/// [`SharedState`], which its methods take as an argument: clones of a guard work on one state.
pub struct RigBudgetGuard<A> {
    inner: A,
    warn_threshold: Ratio,
    phase_config: PhaseConfig,
    name: String,
    /// The model that calls through this guard are charged to.
    pub model_name: String,
}

/// What a [`RigBudgetGuard`] holds.
pub struct GuardView<A> {
    /// The agent.
    pub inner: A,
    /// Usage ratio above which replies get a header.
    pub warn_threshold: Ratio,
    /// Thresholds of the warnings before a call.
    pub phase_config: PhaseConfig,
    /// Name of the guard instance.
    pub name: Seq<char>,
    /// The model that calls are charged to.
    pub model_name: Seq<char>,
}

impl<A> View for RigBudgetGuard<A> {
    type V = GuardView<A>;

    closed spec fn view(&self) -> GuardView<A> {
        GuardView {
            inner: self.inner,
            warn_threshold: self.warn_threshold,
            phase_config: self.phase_config,
            name: self.name@,
            model_name: self.model_name@,
        }
    }
}

impl<A: Clone> Clone for RigBudgetGuard<A> {
    fn clone(&self) -> (copy: RigBudgetGuard<A>)
        ensures
            cloned(self@.inner, copy@.inner),
            copy@ == (GuardView { inner: copy@.inner, ..self@ }),
    {
        RigBudgetGuard {
            inner: self.inner.clone(),
            warn_threshold: self.warn_threshold,
            phase_config: self.phase_config,
            name: self.name.clone(),
            model_name: self.model_name.clone(),
        }
    }
}

impl<A> RigBudgetGuard<A> {
    /// Create a new budget guard wrapping an existing agent.
    ///
    /// No budgets are configured by it; use [`with_budget`](Self::with_budget) or
    /// [`with_budgets`](Self::with_budgets) to add them to a state.
    pub fn new(agent: A) -> (guard: RigBudgetGuard<A>)
        ensures
            guard@ == (GuardView {
                inner: agent,
                warn_threshold: Ratio { numer: 80, denom: 100 },
                phase_config: PhaseConfig::standard(),
                name: "rig-budget-guard"@,
                model_name: "default"@,
            }),
    {
        RigBudgetGuard {
            inner: agent,
            warn_threshold: Ratio::new(80, 100),
            phase_config: PhaseConfig::default(),
            name: "rig-budget-guard".to_string(),
            model_name: "default".to_string(),
        }
    }

    /// Assign a name to this guard instance (useful when running multiple guards).
    pub fn named(self, name: String) -> (guard: RigBudgetGuard<A>)
        ensures
            guard@ == (GuardView { name: name@, ..self@ }),
    {
        RigBudgetGuard { name, ..self }
    }

    /// Add a budget for a specific model identified by string name, and charge calls through this
    /// guard to that model from now on.
    pub fn with_budget(self, state: &mut SharedState, model_name: &str, max_tokens: u64) -> (guard:
        RigBudgetGuard<A>)
        requires
            old(state).wf(),
        ensures
            final(state).wf(),
            final(state)@ == old(state)@.budgeted(model_name@, max_tokens),
            guard@ == (GuardView { model_name: model_name@, ..self@ }),
    {
        state.add_budget(model_name, max_tokens);
        RigBudgetGuard { model_name: model_name.to_string(), ..self }
    }

    /// Set budgets for multiple models at once. The last one is the one that calls are charged to.
    pub fn with_budgets(self, state: &mut SharedState, budgets: &[(&str, u64)]) -> (guard:
        RigBudgetGuard<A>)
        requires
            old(state).wf(),
        ensures
            final(state).wf(),
            final(state)@ == old(state)@.budgeted_all(budgets@),
            guard@ == (GuardView {
                model_name: if budgets@.len() == 0 {
                    self@.model_name
                } else {
                    budgets@.last().0@
                },
                ..self@
            }),
    {
        let ghost before = state@;
        let ghost given = self@;
        let mut guard = self;
        let mut i: usize = 0;
        while i < budgets.len()
            invariant
                i <= budgets@.len(),
                state.wf(),
                state@ == before.budgeted_all(budgets@.take(i as int)),
                guard@ == (GuardView {
                    model_name: if i == 0 {
                        given.model_name
                    } else {
                        budgets@[i - 1].0@
                    },
                    ..given
                }),
            decreases budgets@.len() - i,
        {
            assert(budgets@.take(i + 1).drop_last() =~= budgets@.take(i as int));
            guard = guard.with_budget(state, budgets[i].0, budgets[i].1);
            i = i + 1;
        }
        assert(budgets@.take(i as int) =~= budgets@);
        guard
    }

    /// Set the warning threshold, brought into the range from zero to one. Default: `80/100`.
    ///
    /// When the usage ratio exceeds this value, replies get a `[Budget: ...% used • Phase: ...]`
    /// header prepended.
    pub fn with_warn_threshold(self, threshold: Ratio) -> (guard: RigBudgetGuard<A>)
        ensures
            guard@ == (GuardView { warn_threshold: threshold.capped(), ..self@ }),
    {
        RigBudgetGuard { warn_threshold: threshold.clamp_to_one(), ..self }
    }

    /// Override the default phase configuration.
    pub fn with_phase_config(self, config: PhaseConfig) -> (guard: RigBudgetGuard<A>)
        ensures
            guard@ == (GuardView { phase_config: config, ..self@ }),
    {
        RigBudgetGuard { phase_config: config, ..self }
    }

    /// Return the inner agent by reference.
    pub fn inner(&self) -> (agent: &A)
        ensures
            *agent == self@.inner,
    {
        &self.inner
    }

    /// Consume the guard and return the inner agent.
    pub fn into_inner(self) -> (agent: A)
        ensures
            agent == self@.inner,
    {
        self.inner
    }

    /// Get the current conservation phase for a model.
    ///
    /// Returns `None` if the model has no registered budget. See [`SharedState::phase`].
    pub fn phase(&self, state: &SharedState, model_name: &str) -> (phase: Option<Phase>)
        requires
            state.wf(),
        ensures
            phase == state@.phase_of(model_name@),
            phase is Some <==> state@.budgets.contains_key(model_name@),
            phase is Some && state@.quantities[model_name@].history.len() < 3 ==> phase == Some(
                Phase::Stable,
            ),
            phase != Some(Phase::Resolving),
    {
        state.phase(model_name)
    }

    /// Classify a usage ratio into a phase label based on thresholds alone (no history required,
    /// but less nuanced than the conservation checker).
    pub fn phase_from_ratio(ratio: Ratio) -> (phase: Phase)
        ensures
            phase == Phase::of_usage(ratio),
    {
        crate::phase::classify_phase(ratio)
    }

    /// A warning for each model whose budget has reached one of the configured thresholds.
    pub fn check_warnings(&self, state: &SharedState) -> (warnings: Vec<BudgetWarning>)
        requires
            state.wf(),
        ensures
            warning_views(warnings@) == state@.warnings(self@.phase_config, state@.models),
    {
        let names = state.model_names();
        let mut warnings: Vec<BudgetWarning> = Vec::new();
        let ghost models = state@.models;
        let mut i: usize = 0;
        assert(warning_views(warnings@) =~= state@.warnings(self@.phase_config, models.take(0)));
        while i < names.len()
            invariant
                i <= names@.len(),
                models == state@.models,
                models == crate::state::texts(names@),
                state.wf(),
                warning_views(warnings@) == state@.warnings(
                    self@.phase_config,
                    models.take(i as int),
                ),
            decreases names@.len() - i,
        {
            let ghost shown = warning_views(warnings@);
            let name = names[i].as_str();
            proof {
                assert(models[i as int] == name@);
                assert(models.contains(name@));
                assert(models.take(i + 1).drop_last() =~= models.take(i as int));
                assert(models.take(i + 1).last() == name@);
            }
            if let Some(budget) = state.budget(name) {
                proof {
                    crate::budget::law_usage_is_between_zero_and_one(budget);
                }
                let ratio = budget.usage_ratio();
                let phase = match state.phase(name) {
                    Some(phase) => phase,
                    None => Phase::Stable,
                };
                let level = if ratio.at_least(&self.phase_config.transitioning_threshold) {
                    Some(AlertLevel::Critical)
                } else if ratio.at_least(&self.phase_config.pret_transition_threshold) {
                    Some(AlertLevel::Warning)
                } else {
                    None
                };
                if let Some(reached) = level {
                    let message = crate::warning::warning_message(reached, ratio, name);
                    let warning = BudgetWarning::new(name.to_string(), message, ratio, &phase);
                    warnings.push(warning);
                    assert(warning_views(warnings@) =~= shown.push(warning@));
                }
            }
            i = i + 1;
        }
        assert(models.take(i as int) =~= models);
        warnings
    }

    /// The header that a reply gets now, if the guard's model exceeds the warning threshold.
    pub fn header(&self, state: &SharedState) -> (header: Option<String>)
        requires
            state.wf(),
        ensures
            crate::event::optional_text(header) == state@.header_for(
                self@.warn_threshold,
                self@.model_name,
            ),
    {
        let budget = match state.budget(self.model_name.as_str()) {
            Some(budget) => budget,
            None => return None,
        };
        let usage = budget.usage_ratio();
        if !usage.more_than(&self.warn_threshold) {
            return None;
        }
        let phase = match state.phase(self.model_name.as_str()) {
            Some(phase) => phase,
            None => Phase::Stable,
        };
        proof {
            crate::budget::law_usage_is_between_zero_and_one(budget);
        }
        Some(crate::warning::budget_header(usage, phase))
    }

    /// Closes a call that was answered: charges prompt and response to the guard's model, logs the
    /// call, and puts a header in front of the response where one is due.
    fn finish_answered(
        &self,
        state: &mut SharedState,
        kind: CallKind,
        prompt: String,
        response: String,
    ) -> (reply: String)
        requires
            old(state).wf(),
        ensures
            final(state).wf(),
            final(state)@.events.len() > 0,
            crate::stamp::is_random_uuid(final(state)@.events.last().id),
            crate::stamp::is_utc_time(final(state)@.events.last().timestamp),
            final(state)@ == old(state)@.succeeded(
                kind,
                self@.model_name,
                prompt@,
                crate::message::token_estimate(prompt@) + crate::message::token_estimate(response@),
                final(state)@.events.last().id,
                final(state)@.events.last().timestamp,
            ),
            reply@ == final(state)@.reply(self@.warn_threshold, self@.model_name, response@),
    {
        let input_est = crate::message::estimate_tokens(prompt.as_str());
        let output_est = crate::message::estimate_tokens(response.as_str());
        let total = input_est + output_est;
        state.track_usage(self.model_name.as_str(), input_est, output_est);
        state.record_event(self.model_name.as_str(), total, kind.success_label(), Some(prompt));
        match self.header(state) {
            Some(header) => header.concat(response.as_str()),
            None => response,
        }
    }

    /// Closes a call that failed: logs it and charges nothing.
    fn finish_failed(&self, state: &mut SharedState, kind: CallKind, prompt: String)
        requires
            old(state).wf(),
        ensures
            final(state).wf(),
            final(state)@.events.len() > 0,
            crate::stamp::is_random_uuid(final(state)@.events.last().id),
            crate::stamp::is_utc_time(final(state)@.events.last().timestamp),
            final(state)@ == old(state)@.failed(
                kind,
                self@.model_name,
                prompt@,
                final(state)@.events.last().id,
                final(state)@.events.last().timestamp,
            ),
    {
        state.record_event(self.model_name.as_str(), 0, kind.failure_label(), Some(prompt));
    }

    /// Closes a prompt. `prompt` is the text of the message that was sent, `response` what the
    /// agent answered, or `None` where it failed. Returns the reply that the user gets to see.
    pub fn finish_prompt(
        &self,
        state: &mut SharedState,
        prompt: String,
        response: Option<String>,
    ) -> (reply: Option<String>)
        requires
            old(state).wf(),
        ensures
            final(state).wf(),
            final(state)@.events.len() > 0,
            crate::stamp::is_random_uuid(final(state)@.events.last().id),
            crate::stamp::is_utc_time(final(state)@.events.last().timestamp),
            response matches Some(text) ==> final(state)@ == old(state)@.succeeded(
                CallKind::Prompt,
                self@.model_name,
                prompt@,
                crate::message::token_estimate(prompt@) + crate::message::token_estimate(text@),
                final(state)@.events.last().id,
                final(state)@.events.last().timestamp,
            ),
            response matches Some(text) ==> crate::event::optional_text(reply) == Some(
                final(state)@.reply(self@.warn_threshold, self@.model_name, text@),
            ),
            response is None ==> final(state)@ == old(state)@.failed(
                CallKind::Prompt,
                self@.model_name,
                prompt@,
                final(state)@.events.last().id,
                final(state)@.events.last().timestamp,
            ),
            response is None ==> reply is None,
    {
        match response {
            Some(text) => Some(self.finish_answered(state, CallKind::Prompt, prompt, text)),
            None => {
                self.finish_failed(state, CallKind::Prompt, prompt);
                None
            },
        }
    }

    /// Closes a chat turn. `prompt` is the text of the message that was sent, `response` what
    /// the agent answered, or `None` where it failed. Returns the reply that the user gets to see.
    pub fn finish_chat(
        &self,
        state: &mut SharedState,
        prompt: String,
        response: Option<String>,
    ) -> (reply: Option<String>)
        requires
            old(state).wf(),
        ensures
            final(state).wf(),
            final(state)@.events.len() > 0,
            crate::stamp::is_random_uuid(final(state)@.events.last().id),
            crate::stamp::is_utc_time(final(state)@.events.last().timestamp),
            response matches Some(text) ==> final(state)@ == old(state)@.succeeded(
                CallKind::Chat,
                self@.model_name,
                prompt@,
                crate::message::token_estimate(prompt@) + crate::message::token_estimate(text@),
                final(state)@.events.last().id,
                final(state)@.events.last().timestamp,
            ),
            response matches Some(text) ==> crate::event::optional_text(reply) == Some(
                final(state)@.reply(self@.warn_threshold, self@.model_name, text@),
            ),
            response is None ==> final(state)@ == old(state)@.failed(
                CallKind::Chat,
                self@.model_name,
                prompt@,
                final(state)@.events.last().id,
                final(state)@.events.last().timestamp,
            ),
            response is None ==> reply is None,
    {
        match response {
            Some(text) => Some(self.finish_answered(state, CallKind::Chat, prompt, text)),
            None => {
                self.finish_failed(state, CallKind::Chat, prompt);
                None
            },
        }
    }

    /// Closes the building of a completion request. `prompt` is the text of the message that the
    /// request holds, `built` whether the agent built it. Only the prompt is charged: the guard
    /// never sees the reply.
    pub fn finish_completion(&self, state: &mut SharedState, prompt: String, built: bool)
        requires
            old(state).wf(),
        ensures
            final(state).wf(),
            final(state)@.events.len() > 0,
            crate::stamp::is_random_uuid(final(state)@.events.last().id),
            crate::stamp::is_utc_time(final(state)@.events.last().timestamp),
            built ==> final(state)@ == old(state)@.succeeded(
                CallKind::Completion,
                self@.model_name,
                prompt@,
                crate::message::token_estimate(prompt@),
                final(state)@.events.last().id,
                final(state)@.events.last().timestamp,
            ),
            !built ==> final(state)@ == old(state)@.failed(
                CallKind::Completion,
                self@.model_name,
                prompt@,
                final(state)@.events.last().id,
                final(state)@.events.last().timestamp,
            ),
    {
        let kind = CallKind::Completion;
        if built {
            let input_est = crate::message::estimate_tokens(prompt.as_str());
            state.track_usage(self.model_name.as_str(), input_est, 0);
            state.record_event(
                self.model_name.as_str(),
                input_est,
                kind.success_label(),
                Some(prompt),
            );
        } else {
            self.finish_failed(state, kind, prompt);
        }
    }

    /// Snapshot the current budget state under a fresh identifier and the current time.
    pub fn snapshot(&self, state: &SharedState) -> (snapshot: BudgetSnapshot)
        requires
            state.wf(),
        ensures
            crate::stamp::is_random_uuid(snapshot.snapshot_id@),
            crate::stamp::is_utc_time(snapshot.timestamp@),
            snapshot@ == state@.snapshot(
                self@.warn_threshold,
                snapshot.snapshot_id@,
                snapshot.timestamp@,
            ),
    {
        self.snapshot_at(state, crate::stamp::fresh_id(), crate::stamp::current_time())
    }

    /// Snapshot the current budget state under the given identifier and timestamp.
    pub fn snapshot_at(
        &self,
        state: &SharedState,
        snapshot_id: String,
        timestamp: String,
    ) -> (snapshot: BudgetSnapshot)
        requires
            state.wf(),
        ensures
            snapshot@ == state@.snapshot(self@.warn_threshold, snapshot_id@, timestamp@),
    {
        let names = state.model_names();
        let mut budgets: Vec<(String, ModelBudget)> = Vec::new();
        let mut phases: Vec<(String, String)> = Vec::new();
        let mut warnings_active: Vec<String> = Vec::new();
        let ghost models = state@.models;
        let ghost over = |model: Seq<char>| state@.over(model, self@.warn_threshold);
        let mut i: usize = 0;
        proof {
            reveal(Seq::filter);
            assert(crate::state::texts(warnings_active@) =~= models.take(0).filter(over));
        }
        while i < names.len()
            invariant
                i <= names@.len(),
                models == state@.models,
                models == crate::state::texts(names@),
                state.wf(),
                over == (|model: Seq<char>| state@.over(model, self@.warn_threshold)),
                budgets@.len() == i,
                forall|k: int|
                    0 <= k < i ==> (#[trigger] budgets@[k]).0@ == models[k] && budgets@[k].1
                        == state@.budgets[models[k]],
                phases@.len() == i,
                forall|k: int|
                    0 <= k < i ==> (#[trigger] phases@[k]).0@ == models[k] && phases@[k].1@
                        == state@.phase_text(models[k]),
                crate::state::texts(warnings_active@) == models.take(i as int).filter(over),
            decreases names@.len() - i,
        {
            let ghost active = crate::state::texts(warnings_active@);
            let name = names[i].as_str();
            proof {
                assert(models[i as int] == name@);
                assert(models.contains(name@));
                assert(models.take(i + 1).drop_last() =~= models.take(i as int));
                assert(models.take(i + 1).last() == name@);
                reveal(Seq::filter);
            }
            let phase = match state.phase(name) {
                Some(phase) => phase.label(),
                None => "Unknown".to_string(),
            };
            phases.push((name.to_string(), phase));
            if let Some(budget) = state.budget(name) {
                budgets.push((name.to_string(), budget));
                if budget.usage_ratio().more_than(&self.warn_threshold) {
                    warnings_active.push(name.to_string());
                    assert(crate::state::texts(warnings_active@) =~= active.push(name@));
                }
            }
            i = i + 1;
        }
        let snapshot = BudgetSnapshot {
            snapshot_id,
            timestamp,
            budgets,
            phases,
            events: crate::event::copy_events(state.events()),
            warnings_active,
        };
        proof {
            assert(models.take(i as int) =~= models);
            let shown = state@.snapshot(self@.warn_threshold, snapshot_id@, timestamp@);
            assert(snapshot@.budgets =~= shown.budgets);
            assert(snapshot@.phases =~= shown.phases);
            assert(snapshot@ =~= shown);
        }
        snapshot
    }
}

/// What is said of a list of warnings is said of each warning.
pub proof fn law_lists_show_their_warnings(warnings: Seq<BudgetWarning>, place: int)
    ensures
        warning_views(warnings).len() == warnings.len(),
        0 <= place < warnings.len() ==> warning_views(warnings)[place] == warnings[place]@,
{
}

/// Each kind of call is logged under a name of its own, and under another one where it failed.
pub proof fn law_calls_are_logged_by_name(kind: CallKind)
    ensures
        kind is Prompt ==> kind.success_text() == "prompt"@ && kind.failure_text()
            == "prompt_error"@,
        kind is Chat ==> kind.success_text() == "chat"@ && kind.failure_text() == "chat_error"@,
        kind is Completion ==> kind.success_text() == "completion"@ && kind.failure_text()
            == "completion_error"@,
{
}

} // verus!
