//! Snapshots of a guard for audit trails.

use vstd::prelude::*;

use crate::budget::ModelBudget;
use crate::event::{BudgetEvent, EventView};

verus! {

/// Budget guard snapshot for audit trails. Its lists name each budgeted model once, in the order in
/// which the models first got a budget.
#[derive(Debug)]
pub struct BudgetSnapshot {
    /// Snapshot identifier.
    pub snapshot_id: String,
    /// ISO-8601 timestamp.
    pub timestamp: String,
    /// Per-model budgets.
    pub budgets: Vec<(String, ModelBudget)>,
    /// Phase for each model.
    pub phases: Vec<(String, String)>,
    /// Recent events.
    pub events: Vec<BudgetEvent>,
    /// Models exceeding the warning threshold.
    pub warnings_active: Vec<String>,
}

/// What a [`BudgetSnapshot`] says.
#[verifier::ext_equal]
pub struct SnapshotView {
    /// See [`BudgetSnapshot::snapshot_id`].
    pub snapshot_id: Seq<char>,
    /// See [`BudgetSnapshot::timestamp`].
    pub timestamp: Seq<char>,
    /// See [`BudgetSnapshot::budgets`].
    pub budgets: Seq<(Seq<char>, ModelBudget)>,
    /// See [`BudgetSnapshot::phases`].
    pub phases: Seq<(Seq<char>, Seq<char>)>,
    /// See [`BudgetSnapshot::events`].
    pub events: Seq<EventView>,
    /// See [`BudgetSnapshot::warnings_active`].
    pub warnings_active: Seq<Seq<char>>,
}

impl View for BudgetSnapshot {
    type V = SnapshotView;

    open spec fn view(&self) -> SnapshotView {
        SnapshotView {
            snapshot_id: self.snapshot_id@,
            timestamp: self.timestamp@,
            budgets: self.budgets@.map_values(
                |entry: (String, ModelBudget)| (entry.0@, entry.1),
            ),
            phases: self.phases@.map_values(|entry: (String, String)| (entry.0@, entry.1@)),
            events: crate::event::event_views(self.events@),
            warnings_active: crate::state::texts(self.warnings_active@),
        }
    }
}

impl Clone for BudgetSnapshot {
    fn clone(&self) -> (copy: BudgetSnapshot)
        ensures
            copy@ == self@,
    {
        let mut budgets: Vec<(String, ModelBudget)> = Vec::new();
        let mut i: usize = 0;
        while i < self.budgets.len()
            invariant
                i <= self.budgets@.len(),
                budgets@.len() == i,
                forall|k: int| 0 <= k < i ==> #[trigger] budgets@[k] == self.budgets@[k],
            decreases self.budgets@.len() - i,
        {
            budgets.push((self.budgets[i].0.clone(), self.budgets[i].1));
            i = i + 1;
        }
        let mut phases: Vec<(String, String)> = Vec::new();
        let mut j: usize = 0;
        while j < self.phases.len()
            invariant
                j <= self.phases@.len(),
                phases@.len() == j,
                forall|k: int| 0 <= k < j ==> #[trigger] phases@[k] == self.phases@[k],
            decreases self.phases@.len() - j,
        {
            phases.push((self.phases[j].0.clone(), self.phases[j].1.clone()));
            j = j + 1;
        }
        let copy = BudgetSnapshot {
            snapshot_id: self.snapshot_id.clone(),
            timestamp: self.timestamp.clone(),
            budgets,
            phases,
            events: crate::event::copy_events(&self.events),
            warnings_active: self.warnings_active.clone(),
        };
        assert(copy@.budgets =~= self@.budgets);
        assert(copy@.phases =~= self@.phases);
        assert(copy@.warnings_active =~= self@.warnings_active);
        copy
    }
}

/// What is said of a snapshot are its fields, entry by entry.
pub proof fn law_snapshots_show_their_fields(snapshot: BudgetSnapshot, place: int)
    ensures
        snapshot@.snapshot_id == snapshot.snapshot_id@,
        snapshot@.timestamp == snapshot.timestamp@,
        snapshot@.budgets.len() == snapshot.budgets@.len(),
        0 <= place < snapshot.budgets@.len() ==> snapshot@.budgets[place].0
            == snapshot.budgets@[place].0@ && snapshot@.budgets[place].1
            == snapshot.budgets@[place].1,
        snapshot@.phases.len() == snapshot.phases@.len(),
        0 <= place < snapshot.phases@.len() ==> snapshot@.phases[place].0
            == snapshot.phases@[place].0@ && snapshot@.phases[place].1
            == snapshot.phases@[place].1@,
        snapshot@.events.len() == snapshot.events@.len(),
        0 <= place < snapshot.events@.len() ==> snapshot@.events[place]
            == snapshot.events@[place]@,
        snapshot@.warnings_active.len() == snapshot.warnings_active@.len(),
        0 <= place < snapshot.warnings_active@.len() ==> snapshot@.warnings_active[place]
            == snapshot.warnings_active@[place]@,
{
}

} // verus!
