//! Spending phases and the thresholds that separate them.

use vstd::prelude::*;

use crate::ratio::Ratio;

verus! {

/// A phase of spending.
#[derive(Debug, Clone, Copy, PartialEq, Eq, Structural)]
pub enum Phase {
    /// Spending is well within budget.
    Stable,
    /// Spending is accelerating: an early warning.
    PreTransition,
    /// Critically close to the limit.
    Transitioning,
    /// Approaching the watch zone, or recovering from a decline.
    Resolving,
}

impl Phase {
    /// The name of the phase.
    pub open spec fn text(self) -> Seq<char> {
        match self {
            Phase::Stable => "Stable"@,
            Phase::PreTransition => "PreTransition"@,
            Phase::Transitioning => "Transitioning"@,
            Phase::Resolving => "Resolving"@,
        }
    }

    /// How close a classified usage is to the limit.
    pub open spec fn severity(self) -> nat {
        match self {
            Phase::Stable => 0,
            Phase::Resolving => 1,
            Phase::PreTransition => 2,
            Phase::Transitioning => 3,
        }
    }

    /// The phase that a usage ratio falls into.
    pub open spec fn of_usage(ratio: Ratio) -> Phase {
        if ratio.reaches(Ratio { numer: 85, denom: 100 }) {
            Phase::Transitioning
        } else if ratio.reaches(Ratio { numer: 60, denom: 100 }) {
            Phase::PreTransition
        } else if ratio.reaches(Ratio { numer: 40, denom: 100 }) {
            Phase::Resolving
        } else {
            Phase::Stable
        }
    }

    /// The name of the phase, as snapshots, events and headers show it.
    pub fn label(&self) -> (label: String)
        ensures
            label@ == self.text(),
    {
        match self {
            Phase::Stable => "Stable".to_string(),
            Phase::PreTransition => "PreTransition".to_string(),
            Phase::Transitioning => "Transitioning".to_string(),
            Phase::Resolving => "Resolving".to_string(),
        }
    }
}

/// Configuration for token-spending phase thresholds.
///
/// | Phase | Meaning | Default threshold |
/// |---|---|---|
/// | PreTransition | Spending is accelerating: early warning | usage of 60% |
/// | Transitioning | Critically close to limit | usage of 85% |
#[derive(Debug, Clone, Copy)]
pub struct PhaseConfig {
    /// Usage ratio threshold for PreTransition warning (default: 60/100).
    pub pret_transition_threshold: Ratio,
    /// Usage ratio threshold for Transitioning/critical (default: 85/100).
    pub transitioning_threshold: Ratio,
}

impl PhaseConfig {
    /// The default thresholds.
    pub open spec fn standard() -> PhaseConfig {
        PhaseConfig {
            pret_transition_threshold: Ratio { numer: 60, denom: 100 },
            transitioning_threshold: Ratio { numer: 85, denom: 100 },
        }
    }
}

impl Default for PhaseConfig {
    fn default() -> (config: PhaseConfig)
        ensures
            config == PhaseConfig::standard(),
    {
        PhaseConfig {
            pret_transition_threshold: Ratio::new(60, 100),
            transitioning_threshold: Ratio::new(85, 100),
        }
    }
}

/// Classify a usage ratio into a phase label using threshold-based detection.
///
/// - below 40% it is [`Stable`](Phase::Stable)
/// - from 40% on [`Resolving`](Phase::Resolving)
/// - from 60% on [`PreTransition`](Phase::PreTransition)
/// - from 85% on [`Transitioning`](Phase::Transitioning)
pub fn classify_phase(ratio: Ratio) -> (phase: Phase)
    ensures
        phase == Phase::of_usage(ratio),
{
    if ratio.at_least(&Ratio::new(85, 100)) {
        Phase::Transitioning
    } else if ratio.at_least(&Ratio::new(60, 100)) {
        Phase::PreTransition
    } else if ratio.at_least(&Ratio::new(40, 100)) {
        Phase::Resolving
    } else {
        Phase::Stable
    }
}

/// The bands of the classification, in percent of the budget.
pub proof fn law_phase_bands(ratio: Ratio)
    ensures
        Phase::of_usage(ratio) == Phase::Stable <==> 100 * ratio.numer < 40 * ratio.denom,
        Phase::of_usage(ratio) == Phase::Resolving <==> 40 * ratio.denom <= 100 * ratio.numer
            < 60 * ratio.denom,
        Phase::of_usage(ratio) == Phase::PreTransition <==> 60 * ratio.denom <= 100 * ratio.numer
            < 85 * ratio.denom,
        Phase::of_usage(ratio) == Phase::Transitioning <==> 85 * ratio.denom <= 100 * ratio.numer,
{
}

/// More usage never classifies as a milder phase.
pub proof fn law_classification_is_monotone(more: Ratio, less: Ratio)
    requires
        less.denom > 0,
        more.reaches(less),
    ensures
        Phase::of_usage(more).severity() >= Phase::of_usage(less).severity(),
{
    let steps = seq![
        Ratio { numer: 85, denom: 100 },
        Ratio { numer: 60, denom: 100 },
        Ratio { numer: 40, denom: 100 },
    ];
    assert forall|i: int| 0 <= i < 3 && less.reaches(#[trigger] steps[i]) implies more.reaches(
        steps[i],
    ) by {
        crate::ratio::law_reaching_is_transitive(more, less, steps[i]);
    }
    assert(steps[0] == (Ratio { numer: 85, denom: 100 }));
    assert(steps[1] == (Ratio { numer: 60, denom: 100 }));
    assert(steps[2] == (Ratio { numer: 40, denom: 100 }));
}

/// Each phase goes by its own name.
pub proof fn law_phases_go_by_their_names(phase: Phase)
    ensures
        phase is Stable ==> phase.text() == "Stable"@,
        phase is PreTransition ==> phase.text() == "PreTransition"@,
        phase is Transitioning ==> phase.text() == "Transitioning"@,
        phase is Resolving ==> phase.text() == "Resolving"@,
{
}

/// The default thresholds are those at which the classification changes: a ratio reaches the early
/// one from 60% on, and the critical one from 85% on.
pub proof fn law_default_thresholds_in_percent(ratio: Ratio)
    ensures
        ratio.reaches(PhaseConfig::standard().pret_transition_threshold) <==> 100 * ratio.numer
            >= 60 * ratio.denom,
        ratio.reaches(PhaseConfig::standard().transitioning_threshold) <==> 100 * ratio.numer >= 85
            * ratio.denom,
{
}

} // verus!
