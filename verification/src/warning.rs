//! What a guard tells its users: warnings before a call and a header on the reply.

use vstd::prelude::*;
use vstd::string::StringExecFns;

use crate::phase::Phase;
use crate::ratio::Ratio;

verus! {

/// How urgent a warning is.
#[derive(Debug, Clone, Copy, PartialEq, Eq, Structural)]
pub enum AlertLevel {
    /// The usage ratio has reached the early threshold.
    Warning,
    /// The usage ratio has reached the critical threshold.
    Critical,
}

impl AlertLevel {
    /// The word that a message starts with.
    pub open spec fn text(self) -> Seq<char> {
        match self {
            AlertLevel::Warning => "WARNING"@,
            AlertLevel::Critical => "CRITICAL"@,
        }
    }

    /// The word that a message starts with.
    pub fn label(&self) -> (label: String)
        ensures
            label@ == self.text(),
    {
        match self {
            AlertLevel::Warning => "WARNING".to_string(),
            AlertLevel::Critical => "CRITICAL".to_string(),
        }
    }
}

/// Warnings emitted by the budget guard.
#[derive(Debug)]
pub struct BudgetWarning {
    /// The model this warning applies to.
    pub model: String,
    /// Human-readable message.
    pub message: String,
    /// Current usage ratio.
    pub usage_ratio: Ratio,
    /// Detected phase, by its name.
    pub phase: String,
}

/// What a [`BudgetWarning`] says.
#[verifier::ext_equal]
pub struct WarningView {
    /// See [`BudgetWarning::model`].
    pub model: Seq<char>,
    /// See [`BudgetWarning::message`].
    pub message: Seq<char>,
    /// See [`BudgetWarning::usage_ratio`].
    pub usage_ratio: Ratio,
    /// See [`BudgetWarning::phase`].
    pub phase: Seq<char>,
}

impl View for BudgetWarning {
    type V = WarningView;

    open spec fn view(&self) -> WarningView {
        WarningView {
            model: self.model@,
            message: self.message@,
            usage_ratio: self.usage_ratio,
            phase: self.phase@,
        }
    }
}

impl Clone for BudgetWarning {
    fn clone(&self) -> (copy: BudgetWarning)
        ensures
            copy@ == self@,
    {
        BudgetWarning {
            model: self.model.clone(),
            message: self.message.clone(),
            usage_ratio: self.usage_ratio,
            phase: self.phase.clone(),
        }
    }
}

impl BudgetWarning {
    /// A warning with the given message.
    pub fn new(model: String, message: String, usage_ratio: Ratio, phase: &Phase) -> (warning:
        BudgetWarning)
        ensures
            warning@ == (WarningView {
                model: model@,
                message: message@,
                usage_ratio,
                phase: phase.text(),
            }),
    {
        BudgetWarning { model, message, usage_ratio, phase: phase.label() }
    }
}

/// The message of a warning: how much of which model's budget is used.
pub open spec fn message_text(level: AlertLevel, usage: Ratio, model: Seq<char>) -> Seq<char> {
    level.text() + ": Token budget at "@ + crate::percent::tenths_text(usage) + "% for model '"@
        + model + "'"@
}

/// The header of a reply: how much of the budget is used, and in which phase it is.
pub open spec fn header_text(usage: Ratio, phase: Phase) -> Seq<char> {
    "[Budget: "@ + crate::percent::whole_text(usage) + "% used • Phase: "@ + phase.text() + "]\n"@
}

/// Words a warning.
pub fn warning_message(level: AlertLevel, usage: Ratio, model: &str) -> (message: String)
    requires
        0 < usage.denom,
        usage.numer <= usage.denom,
    ensures
        message@ == message_text(level, usage, model@),
{
    let mut message = level.label();
    message.append(": Token budget at ");
    message.append(crate::percent::percent_with_tenths(usage).as_str());
    message.append("% for model '");
    message.append(model);
    message.append("'");
    message
}

/// Words the header of a reply.
pub fn budget_header(usage: Ratio, phase: Phase) -> (header: String)
    requires
        0 < usage.denom,
        usage.numer <= usage.denom,
    ensures
        header@ == header_text(usage, phase),
{
    let mut header = "[Budget: ".to_string();
    header.append(crate::percent::whole_percent(usage).as_str());
    header.append("% used • Phase: ");
    header.append(phase.label().as_str());
    header.append("]\n");
    header
}

/// A warning reads its urgency, the percentage that is used with one decimal place, and the model.
pub proof fn law_warnings_read_in_full(usage: Ratio, model: Seq<char>)
    ensures
        message_text(AlertLevel::Critical, usage, model) == "CRITICAL: Token budget at "@
            + crate::percent::tenths_text(usage) + "% for model '"@ + model + "'"@,
        message_text(AlertLevel::Warning, usage, model) == "WARNING: Token budget at "@
            + crate::percent::tenths_text(usage) + "% for model '"@ + model + "'"@,
{
    reveal_strlit("CRITICAL");
    reveal_strlit("WARNING");
    reveal_strlit(": Token budget at ");
    reveal_strlit("CRITICAL: Token budget at ");
    reveal_strlit("WARNING: Token budget at ");
    assert("CRITICAL: Token budget at "@ =~= "CRITICAL"@ + ": Token budget at "@);
    assert("WARNING: Token budget at "@ =~= "WARNING"@ + ": Token budget at "@);
}

/// A header reads the whole percentage that is used and the phase, on a line of its own.
pub proof fn law_headers_read_in_full(usage: Ratio, phase: Phase)
    ensures
        header_text(usage, phase) == "[Budget: "@ + crate::percent::whole_text(usage)
            + "% used • Phase: "@ + phase.text() + "]\n"@,
        header_text(usage, phase).last() == '\n',
{
    reveal_strlit("]\n");
}

/// What is said of a warning are its fields.
pub proof fn law_warnings_show_their_fields(warning: BudgetWarning)
    ensures
        warning@.model == warning.model@,
        warning@.message == warning.message@,
        warning@.usage_ratio == warning.usage_ratio,
        warning@.phase == warning.phase@,
{
}

/// Each level goes by its own word.
pub proof fn law_levels_go_by_their_words(level: AlertLevel)
    ensures
        level is Warning ==> level.text() == "WARNING"@,
        level is Critical ==> level.text() == "CRITICAL"@,
{
}

} // verus!
