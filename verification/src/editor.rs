use vstd::prelude::*;

verus! {

/// What the editor window reports to the editor's state: its widgets' events
/// and the periodic poll. The gain slider's new position stays with the caller.
pub enum EditorEvent {
    /// The window asks for fresh meter readings before it redraws.
    Poll,
    /// The increment button was pressed.
    Increment,
    /// The decrement button was pressed.
    Decrement,
    /// The gain slider was moved.
    GainChanged,
}

/// What the caller has to do after an event, besides keeping the new counter.
pub enum EditorAction {
    /// Nothing more.
    Nothing,
    /// Read the peak meter that the audio thread shares and show it in dB.
    RefreshPeakMeter,
    /// Hand the slider's new position to the host as the gain parameter's
    /// normalized value, inside a begin/end pair of parameter changes.
    SetGain,
}

/// Whether the counter can take `event` without leaving the range of `i64`.
pub open spec fn editor_accepts(value: i64, event: EditorEvent) -> bool {
    match event {
        EditorEvent::Increment => value < i64::MAX,
        EditorEvent::Decrement => value > i64::MIN,
        _ => true,
    }
}

/// The editor's counter after `event`.
pub open spec fn next_value(value: i64, event: EditorEvent) -> int {
    match event {
        EditorEvent::Increment => value + 1,
        EditorEvent::Decrement => value - 1,
        _ => value as int,
    }
}

/// The editor's reaction to one event: the buttons move the counter by one,
/// the poll asks for the peak meter to be refreshed, and a slider move asks for
/// the gain parameter to be set.
pub fn editor_update(value: i64, event: EditorEvent) -> (r: (i64, EditorAction))
    requires
        editor_accepts(value, event),
    ensures
        r.0 == next_value(value, event),
        event is Increment ==> r.0 == value + 1,
        event is Decrement ==> r.0 == value - 1,
        event is Poll ==> r.0 == value,
        event is GainChanged ==> r.0 == value,
        r.1 == (match event {
            EditorEvent::Poll => EditorAction::RefreshPeakMeter,
            EditorEvent::GainChanged => EditorAction::SetGain,
            _ => EditorAction::Nothing,
        }),
{
    match event {
        EditorEvent::Poll => (value, EditorAction::RefreshPeakMeter),
        EditorEvent::Increment => (value + 1, EditorAction::Nothing),
        EditorEvent::Decrement => (value - 1, EditorAction::Nothing),
        EditorEvent::GainChanged => (value, EditorAction::SetGain),
    }
}

/// An increment undoes a decrement and the other way round: after one of the
/// two steps, the other is always accepted and gives the counter back.
pub proof fn lemma_increment_decrement_cancel(value: i64)
    ensures
        editor_accepts(value, EditorEvent::Increment) ==> {
            let up = next_value(value, EditorEvent::Increment) as i64;
            &&& editor_accepts(up, EditorEvent::Decrement)
            &&& next_value(up, EditorEvent::Decrement) == value
        },
        editor_accepts(value, EditorEvent::Decrement) ==> {
            let down = next_value(value, EditorEvent::Decrement) as i64;
            &&& editor_accepts(down, EditorEvent::Increment)
            &&& next_value(down, EditorEvent::Increment) == value
        },
{
}

/// What each event does to the counter: the increment button adds one, the
/// decrement button takes one away, and the poll and the gain slider leave it
/// exactly as it was, for every counter value.
pub proof fn lemma_event_effect_on_counter(value: i64)
    ensures
        next_value(value, EditorEvent::Increment) == value + 1,
        next_value(value, EditorEvent::Decrement) == value - 1,
        next_value(value, EditorEvent::Poll) == value,
        next_value(value, EditorEvent::GainChanged) == value,
        editor_accepts(value, EditorEvent::Poll),
        editor_accepts(value, EditorEvent::GainChanged),
{
}

} // verus!
