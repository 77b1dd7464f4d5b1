//! The decisions of a column divider: when a drag starts, when it reports
//! its movement, when it ends, and when the divider is drawn highlighted.
//! The positions themselves, and the offsets computed from them, stay with
//! the widget that feeds these decisions its events.
use vstd::prelude::*;

verus! {

/// Whether the divider is being dragged.
#[derive(Clone, Copy, Debug, PartialEq, Eq, Structural)]
pub enum DragState {
    /// No drag is in progress.
    Idle,
    /// The left button was pressed on the divider and not yet released.
    Dragging,
}

/// A mouse event, as the divider sees it.
#[derive(Clone, Copy, Debug, PartialEq, Eq, Structural)]
pub enum DividerEvent {
    /// The left button was pressed; `over` tells whether on the divider.
    Pressed { over: bool },
    /// The cursor moved.
    Moved,
    /// The left button was released.
    Released,
}

/// What the divider does in answer to an event.
#[derive(Clone, Copy, Debug, PartialEq, Eq, Structural)]
pub enum DividerAction {
    /// Nothing.
    Ignore,
    /// Remember where the drag started and capture the event.
    StartDrag,
    /// Emit the drag message with the offset from where the drag started.
    EmitDrag,
    /// Emit the release message and capture the event.
    EmitRelease,
}

/// The state after an event and the action it calls for: a press on the
/// divider starts a drag, a move while dragging reports the drag, and a
/// release ends a drag; everything else is ignored.
pub open spec fn step_of(state: DragState, event: DividerEvent) -> (DragState, DividerAction) {
    match (state, event) {
        (DragState::Idle, DividerEvent::Pressed { over: true }) => (DragState::Dragging, DividerAction::StartDrag),
        (DragState::Dragging, DividerEvent::Moved) => (DragState::Dragging, DividerAction::EmitDrag),
        (DragState::Dragging, DividerEvent::Released) => (DragState::Idle, DividerAction::EmitRelease),
        (s, _) => (s, DividerAction::Ignore),
    }
}

/// Answers an event of the divider.
pub fn step(state: DragState, event: DividerEvent) -> (r: (DragState, DividerAction))
    ensures
        r == step_of(state, event),
{
    match state {
        DragState::Idle => match event {
            DividerEvent::Pressed { over } => {
                if over {
                    (DragState::Dragging, DividerAction::StartDrag)
                } else {
                    (DragState::Idle, DividerAction::Ignore)
                }
            },
            _ => (DragState::Idle, DividerAction::Ignore),
        },
        DragState::Dragging => match event {
            DividerEvent::Moved => (DragState::Dragging, DividerAction::EmitDrag),
            DividerEvent::Released => (DragState::Idle, DividerAction::EmitRelease),
            DividerEvent::Pressed { .. } => (DragState::Dragging, DividerAction::Ignore),
        },
    }
}

/// Whether the divider is drawn hovered: while the cursor is over it or a
/// drag is in progress.
pub fn is_highlighted(state: DragState, cursor_over: bool) -> (r: bool)
    ensures
        r == (cursor_over || state == DragState::Dragging),
{
    match state {
        DragState::Dragging => true,
        DragState::Idle => cursor_over,
    }
}

/// The state after a sequence of events, from `state`.
pub open spec fn run_state(state: DragState, events: Seq<DividerEvent>) -> DragState
    decreases events.len(),
{
    if events.len() == 0 {
        state
    } else {
        step_of(run_state(state, events.drop_last()), events.last()).0
    }
}

/// The number of times the action `action` is taken along a sequence of
/// events, from `state`.
pub open spec fn count_actions(state: DragState, events: Seq<DividerEvent>, action: DividerAction) -> nat
    decreases events.len(),
{
    if events.len() == 0 {
        0
    } else {
        let prev = run_state(state, events.drop_last());
        count_actions(state, events.drop_last(), action) + if step_of(prev, events.last()).1
            == action {
            1nat
        } else {
            0nat
        }
    }
}

/// Drag and release messages are emitted only during a drag, and a drag
/// always ends in the idle state.
pub proof fn messages_only_while_dragging(state: DragState, event: DividerEvent)
    ensures
        step_of(state, event).1 == DividerAction::EmitDrag ==> state == DragState::Dragging,
        step_of(state, event).1 == DividerAction::EmitRelease ==> (state == DragState::Dragging
            && step_of(state, event).0 == DragState::Idle),
        step_of(state, event).1 == DividerAction::StartDrag ==> (state == DragState::Idle
            && step_of(state, event).0 == DragState::Dragging),
{
}

/// Starting from idle, drags started and releases emitted alternate: after
/// any sequence of events there have been as many releases as starts, or
/// one start more while a drag is still in progress.
pub proof fn starts_and_releases_alternate(events: Seq<DividerEvent>)
    ensures
        run_state(DragState::Idle, events) == DragState::Idle ==> count_actions(
            DragState::Idle,
            events,
            DividerAction::StartDrag,
        ) == count_actions(DragState::Idle, events, DividerAction::EmitRelease),
        run_state(DragState::Idle, events) == DragState::Dragging ==> count_actions(
            DragState::Idle,
            events,
            DividerAction::StartDrag,
        ) == count_actions(DragState::Idle, events, DividerAction::EmitRelease) + 1,
    decreases events.len(),
{
    if events.len() > 0 {
        starts_and_releases_alternate(events.drop_last());
    }
}

} // verus!
