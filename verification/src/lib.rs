//! # rig-budget-guard
//!
//! Token budget enforcement for LLM agents, verified.
//!
//! A [`RigBudgetGuard`] wraps an agent and accounts for every call that goes through it: it charges
//! an estimate of the tokens to the budget of a model, lets a conservation checker watch how fast
//! the rest of the budget falls, logs the call, and says when users are to be warned. It makes no
//! calls of its own. Whoever makes them asks [`check_warnings`](RigBudgetGuard::check_warnings)
//! before, and reports the outcome to [`finish_prompt`](RigBudgetGuard::finish_prompt),
//! [`finish_chat`](RigBudgetGuard::finish_chat) or
//! [`finish_completion`](RigBudgetGuard::finish_completion) after.
//!
//! Tokens are whole numbers and usage ratios are exact fractions, so that budgets, thresholds and
//! warnings do not depend on rounding. Phases do: the checker detects them in double precision.
//!
//! - [`budget`]: one model's budget
//! - [`ratio`], [`percent`], [`phase`]: usage ratios, how they read, and the phases they are
//!   classified into
//! - [`message`], [`event`]: what is sent, what it costs, and how it is logged
//! - [`double`]: how double-precision arithmetic rounds
//! - [`checker`], [`stamp`]: what other crates contribute, and what is taken on trust of them
//! - [`state`]: all budgets, the checker and the log, with the invariant that ties them together
//! - [`guard`], [`warning`], [`snapshot`]: the decisions around a call, and what users get to see
//! - [`laws`]: what holds of the whole

pub mod budget;
pub mod checker;
pub mod double;
pub mod event;
pub mod guard;
pub mod laws;
pub mod message;
pub mod percent;
pub mod phase;
pub mod ratio;
pub mod snapshot;
pub mod stamp;
pub mod state;
pub mod warning;

pub use budget::ModelBudget;
pub use event::BudgetEvent;
pub use guard::{CallKind, RigBudgetGuard};
pub use message::{estimate_tokens, extract_text, Content, Message};
pub use phase::{classify_phase, Phase, PhaseConfig};
pub use ratio::Ratio;
pub use snapshot::BudgetSnapshot;
pub use state::SharedState;
pub use warning::{AlertLevel, BudgetWarning};
