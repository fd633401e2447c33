//! A token budget for one model.

use vstd::prelude::*;

use crate::ratio::Ratio;

verus! {

/// Per-model budget configuration.
#[derive(Debug, Clone, Copy)]
pub struct ModelBudget {
    /// Maximum total tokens (input + output) budgeted for this model.
    pub max_tokens: u64,
    /// Current budget spent so far. It may run past the maximum.
    pub spent_tokens: u128,
}

impl ModelBudget {
    /// The budget of `max_tokens` tokens with nothing spent.
    pub open spec fn fresh(max_tokens: u64) -> ModelBudget {
        ModelBudget { max_tokens, spent_tokens: 0 }
    }

    /// Tokens that are left: none once the maximum is spent.
    pub open spec fn left(self) -> u64 {
        if self.spent_tokens >= self.max_tokens {
            0
        } else {
            (self.max_tokens - self.spent_tokens) as u64
        }
    }

    /// Fraction of the budget that is used: all of it where the budget is empty or overspent.
    pub open spec fn usage(self) -> Ratio {
        if self.max_tokens == 0 {
            Ratio::one()
        } else {
            Ratio { numer: (self.max_tokens - self.left()) as u64, denom: self.max_tokens }
        }
    }

    /// The budget after `tokens` more were spent. The running total stops at the largest `u128`.
    pub open spec fn spend(self, tokens: nat) -> ModelBudget {
        let total = self.spent_tokens + tokens;
        ModelBudget {
            spent_tokens: if total <= u128::MAX {
                total as u128
            } else {
                u128::MAX
            },
            ..self
        }
    }

    /// Create a new budget with a max token limit.
    pub fn new(max_tokens: u64) -> (budget: ModelBudget)
        ensures
            budget == ModelBudget::fresh(max_tokens),
    {
        ModelBudget { max_tokens, spent_tokens: 0 }
    }

    /// Remaining tokens in this budget.
    pub fn remaining(&self) -> (tokens: u64)
        ensures
            tokens == self.left(),
    {
        if self.spent_tokens >= self.max_tokens as u128 {
            0
        } else {
            self.max_tokens - self.spent_tokens as u64
        }
    }

    /// Fraction of budget consumed (zero = none, one = exhausted).
    pub fn usage_ratio(&self) -> (ratio: Ratio)
        ensures
            ratio == self.usage(),
    {
        if self.max_tokens == 0 {
            return Ratio::new(1, 1);
        }
        Ratio::new(self.max_tokens - self.remaining(), self.max_tokens)
    }

    /// Charges `tokens` to this budget.
    pub fn charge(&mut self, tokens: u64)
        ensures
            *final(self) == old(self).spend(tokens as nat),
    {
        let room = u128::MAX - self.spent_tokens;
        if tokens as u128 <= room {
            self.spent_tokens = self.spent_tokens + tokens as u128;
        } else {
            self.spent_tokens = u128::MAX;
        }
    }
}

/// What is left never exceeds the maximum; until the budget is used up, what is left and what is
/// spent add up to it, and from then on nothing is left.
pub proof fn law_left_and_spent(budget: ModelBudget)
    ensures
        budget.left() <= budget.max_tokens,
        budget.spent_tokens <= budget.max_tokens ==> budget.left() + budget.spent_tokens
            == budget.max_tokens,
        budget.spent_tokens >= budget.max_tokens <==> budget.left() == 0,
{
}

/// The usage ratio is a proper fraction between zero and one. It is zero only where nothing of a
/// real budget is spent, and one exactly where nothing is left.
pub proof fn law_usage_is_between_zero_and_one(budget: ModelBudget)
    ensures
        budget.usage().denom > 0,
        budget.usage().numer <= budget.usage().denom,
        Ratio::one().reaches(budget.usage()),
        budget.usage().numer == 0 <==> budget.max_tokens > 0 && budget.spent_tokens == 0,
        budget.usage().reaches(Ratio::one()) <==> budget.left() == 0,
{
}

/// Spending is one-sided: it never gives tokens back and never lowers the usage ratio.
pub proof fn law_spending_is_one_sided(budget: ModelBudget, tokens: nat)
    ensures
        budget.spend(tokens).max_tokens == budget.max_tokens,
        budget.spend(tokens).spent_tokens >= budget.spent_tokens,
        budget.spend(tokens).left() <= budget.left(),
        budget.spend(tokens).usage().reaches(budget.usage()),
{
    let before = budget.usage();
    let after = budget.spend(tokens).usage();
    assert(after.numer * before.denom >= before.numer * after.denom) by (nonlinear_arith)
        requires
            after.numer >= before.numer,
            after.denom == before.denom,
    ;
}

/// Two charges are one charge of their sum, in either order.
pub proof fn law_spending_adds_up(budget: ModelBudget, first: nat, second: nat)
    ensures
        budget.spend(first).spend(second) == budget.spend(first + second),
        budget.spend(first).spend(second) == budget.spend(second).spend(first),
{
}

/// The usage ratio is what is spent over the maximum, until all of it is spent; from then on, and
/// for an empty budget, it is one.
pub proof fn law_usage_is_spent_over_maximum(budget: ModelBudget)
    ensures
        budget.max_tokens > 0 && budget.spent_tokens <= budget.max_tokens
            ==> budget.usage().numer * budget.max_tokens == budget.spent_tokens
            * budget.usage().denom,
        budget.max_tokens > 0 ==> budget.usage().denom == budget.max_tokens,
        budget.spent_tokens >= budget.max_tokens ==> budget.usage().numer == budget.usage().denom,
        budget.usage().denom > 0,
{
    if budget.max_tokens > 0 && budget.spent_tokens <= budget.max_tokens {
        assert(budget.usage().numer == budget.spent_tokens);
    }
}

/// A charge adds every one of its tokens to what is spent, unless the running total runs out of
/// numbers, and leaves the maximum alone. A new budget has nothing spent.
pub proof fn law_spending_counts_every_token(budget: ModelBudget, tokens: nat, max_tokens: u64)
    ensures
        budget.spent_tokens + tokens <= u128::MAX ==> budget.spend(tokens).spent_tokens
            == budget.spent_tokens + tokens,
        budget.spent_tokens + tokens > u128::MAX ==> budget.spend(tokens).spent_tokens
            == u128::MAX,
        budget.spend(tokens).max_tokens == budget.max_tokens,
        ModelBudget::fresh(max_tokens).max_tokens == max_tokens,
        ModelBudget::fresh(max_tokens).spent_tokens == 0,
{
}

/// A charge takes its tokens from what is left, as long as there are that many.
pub proof fn law_spending_takes_from_what_is_left(budget: ModelBudget, tokens: nat)
    ensures
        tokens <= budget.left() ==> budget.spend(tokens).left() + tokens == budget.left(),
        tokens >= budget.left() ==> budget.spend(tokens).left() == 0,
{
}

} // verus!
