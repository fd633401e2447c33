//! Audit events and the log that keeps the latest of them.

use vstd::prelude::*;
use vstd::string::{StrSliceExecFns, StringExecFns};

verus! {

/// The log keeps this many events, to prevent unbounded memory growth.
pub const MAX_EVENTS: usize = 1000;

/// A prompt preview shows this many characters.
pub const PREVIEW_CHARS: usize = 100;

/// A single recorded audit event.
#[derive(Debug)]
pub struct BudgetEvent {
    /// Unique event identifier.
    pub id: String,
    /// ISO-8601 timestamp.
    pub timestamp: String,
    /// Model name this event relates to.
    pub model_name: String,
    /// Tokens consumed in this event.
    pub tokens_consumed: u64,
    /// Total spent so far.
    pub total_spent: u128,
    /// Budget limit for this model.
    pub budget_limit: u64,
    /// Phase at the time of the event.
    pub phase: String,
    /// Event type label.
    pub event_type: String,
    /// Optional prompt snippet (truncated to 100 chars).
    pub prompt_preview: Option<String>,
}

/// What a [`BudgetEvent`] says.
#[verifier::ext_equal]
pub struct EventView {
    /// See [`BudgetEvent::id`].
    pub id: Seq<char>,
    /// See [`BudgetEvent::timestamp`].
    pub timestamp: Seq<char>,
    /// See [`BudgetEvent::model_name`].
    pub model_name: Seq<char>,
    /// See [`BudgetEvent::tokens_consumed`].
    pub tokens_consumed: u64,
    /// See [`BudgetEvent::total_spent`].
    pub total_spent: u128,
    /// See [`BudgetEvent::budget_limit`].
    pub budget_limit: u64,
    /// See [`BudgetEvent::phase`].
    pub phase: Seq<char>,
    /// See [`BudgetEvent::event_type`].
    pub event_type: Seq<char>,
    /// See [`BudgetEvent::prompt_preview`].
    pub prompt_preview: Option<Seq<char>>,
}

impl View for BudgetEvent {
    type V = EventView;

    open spec fn view(&self) -> EventView {
        EventView {
            id: self.id@,
            timestamp: self.timestamp@,
            model_name: self.model_name@,
            tokens_consumed: self.tokens_consumed,
            total_spent: self.total_spent,
            budget_limit: self.budget_limit,
            phase: self.phase@,
            event_type: self.event_type@,
            prompt_preview: optional_text(self.prompt_preview),
        }
    }
}

impl Clone for BudgetEvent {
    fn clone(&self) -> (copy: BudgetEvent)
        ensures
            copy@ == self@,
    {
        BudgetEvent {
            id: self.id.clone(),
            timestamp: self.timestamp.clone(),
            model_name: self.model_name.clone(),
            tokens_consumed: self.tokens_consumed,
            total_spent: self.total_spent,
            budget_limit: self.budget_limit,
            phase: self.phase.clone(),
            event_type: self.event_type.clone(),
            prompt_preview: match &self.prompt_preview {
                Some(preview) => Some(preview.clone()),
                None => None,
            },
        }
    }
}

/// The characters of a text that may be missing.
pub open spec fn optional_text(text: Option<String>) -> Option<Seq<char>> {
    match text {
        Some(present) => Some(present@),
        None => None,
    }
}

/// What the events of a log say, the oldest first.
pub open spec fn event_views(events: Seq<BudgetEvent>) -> Seq<EventView> {
    events.map_values(|event: BudgetEvent| event@)
}

/// The latest `cap` entries of a log, in their order.
pub open spec fn latest<T>(log: Seq<T>, cap: nat) -> Seq<T> {
    if log.len() > cap {
        log.skip(log.len() - cap)
    } else {
        log
    }
}

/// A text as events show it: its first hundred characters, with dots where more followed.
pub open spec fn preview_of(text: Seq<char>) -> Seq<char> {
    if text.len() > PREVIEW_CHARS {
        text.take(PREVIEW_CHARS as int) + "..."@
    } else {
        text
    }
}

/// Shortens a prompt for display: a prompt of more than [`PREVIEW_CHARS`] characters is cut there
/// and followed by three dots.
pub fn truncate_preview(prompt: String) -> (preview: String)
    ensures
        preview@ == preview_of(prompt@),
{
    if prompt.as_str().unicode_len() > PREVIEW_CHARS {
        let head = prompt.as_str().substring_char(0, PREVIEW_CHARS);
        let mut preview = head.to_string();
        preview.append("...");
        preview
    } else {
        prompt
    }
}

/// Drops the oldest events until at most [`MAX_EVENTS`] are left.
pub fn cap_events(events: &mut Vec<BudgetEvent>)
    ensures
        final(events)@ == latest(old(events)@, MAX_EVENTS as nat),
{
    if events.len() > MAX_EVENTS {
        let drain_to = events.len() - MAX_EVENTS;
        let kept = events.split_off(drain_to);
        *events = kept;
    }
}

/// Copies a log.
pub(crate) fn copy_events(events: &Vec<BudgetEvent>) -> (copy: Vec<BudgetEvent>)
    ensures
        event_views(copy@) == event_views(events@),
{
    let mut copy: Vec<BudgetEvent> = Vec::new();
    let mut i: usize = 0;
    while i < events.len()
        invariant
            i <= events@.len(),
            copy@.len() == i,
            forall|k: int| 0 <= k < i ==> (#[trigger] copy@[k])@ == events@[k]@,
        decreases events@.len() - i,
    {
        copy.push(events[i].clone());
        i = i + 1;
    }
    assert(event_views(copy@) =~= event_views(events@));
    copy
}

/// A capped log holds at most `cap` entries, in order, and always the newest of them.
pub proof fn law_log_keeps_the_latest<T>(log: Seq<T>, entry: T, cap: nat)
    requires
        cap > 0,
    ensures
        latest(log.push(entry), cap).len() <= cap,
        latest(log.push(entry), cap).last() == entry,
        log.len() < cap ==> latest(log.push(entry), cap) == log.push(entry),
        log.len() == cap ==> latest(log.push(entry), cap) == log.skip(1).push(entry),
        latest(log.push(entry), cap).is_suffix_of(log.push(entry)),
{
    let grown = log.push(entry);
    if log.len() == cap {
        assert(latest(grown, cap) =~= log.skip(1).push(entry));
    }
    assert(latest(grown, cap) =~= grown.subrange(
        grown.len() - latest(grown, cap).len(),
        grown.len() as int,
    ));
}

/// A preview never runs longer than a hundred characters and the dots, starts as the text does, and
/// is the text itself wherever that is short enough.
pub proof fn law_preview_is_short(text: Seq<char>)
    ensures
        preview_of(text).len() <= PREVIEW_CHARS + 3,
        text.len() <= PREVIEW_CHARS ==> preview_of(text) == text,
        text.len() > PREVIEW_CHARS ==> preview_of(text).take(PREVIEW_CHARS as int) == text.take(
            PREVIEW_CHARS as int,
        ),
        text.len() > PREVIEW_CHARS ==> preview_of(text).skip(PREVIEW_CHARS as int) == seq![
            '.',
            '.',
            '.',
        ],
{
    reveal_strlit("...");
    if text.len() > PREVIEW_CHARS {
        assert(preview_of(text).take(PREVIEW_CHARS as int) =~= text.take(PREVIEW_CHARS as int));
        assert(preview_of(text).skip(PREVIEW_CHARS as int) =~= seq!['.', '.', '.']);
    }
}

/// A capped log holds all entries while they are few enough, otherwise as many as it may, and its
/// entries are the last ones of the log, in their order.
pub proof fn law_capped_logs_end_alike<T>(log: Seq<T>, cap: nat, back: int)
    ensures
        log.len() <= cap ==> latest(log, cap).len() == log.len(),
        log.len() > cap ==> latest(log, cap).len() == cap,
        0 < back <= latest(log, cap).len() ==> latest(log, cap)[latest(log, cap).len() - back]
            == log[log.len() - back],
{
}

/// A preview shows the first hundred characters of a text, one by one, and three dots in place of
/// all that follow. The log has room for a thousand events.
pub proof fn law_previews_show_a_hundred_characters(text: Seq<char>, place: int)
    ensures
        text.len() <= 100 ==> preview_of(text).len() == text.len(),
        text.len() > 100 ==> preview_of(text).len() == 103,
        0 <= place < text.len() && place < 100 ==> preview_of(text)[place] == text[place],
        text.len() > 100 && 100 <= place < 103 ==> preview_of(text)[place] == '.',
        MAX_EVENTS == 1000,
{
    reveal_strlit("...");
}

/// What is said of an event are its fields, and what is said of a log is said of each event.
pub proof fn law_events_show_their_fields(event: BudgetEvent, events: Seq<BudgetEvent>, place: int)
    ensures
        event@.id == event.id@,
        event@.timestamp == event.timestamp@,
        event@.model_name == event.model_name@,
        event@.tokens_consumed == event.tokens_consumed,
        event@.total_spent == event.total_spent,
        event@.budget_limit == event.budget_limit,
        event@.phase == event.phase@,
        event@.event_type == event.event_type@,
        event.prompt_preview matches Some(preview) ==> event@.prompt_preview == Some(preview@),
        event.prompt_preview is None ==> event@.prompt_preview is None,
        event_views(events).len() == events.len(),
        0 <= place < events.len() ==> event_views(events)[place] == events[place]@,
{
}

/// A text that may be missing is said where it is there.
pub proof fn law_optional_texts_show_what_is_there(text: Option<String>)
    ensures
        text matches Some(present) ==> optional_text(text) == Some(present@),
        text is None ==> optional_text(text) is None,
{
}

} // verus!
