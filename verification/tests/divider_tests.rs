use iced_table2::divider::{is_highlighted, step, DividerAction, DividerEvent, DragState};

#[test]
fn press_on_divider_starts_a_drag() {
    assert_eq!(
        step(DragState::Idle, DividerEvent::Pressed { over: true }),
        (DragState::Dragging, DividerAction::StartDrag)
    );
    assert_eq!(
        step(DragState::Idle, DividerEvent::Pressed { over: false }),
        (DragState::Idle, DividerAction::Ignore)
    );
}

#[test]
fn moves_report_only_while_dragging() {
    assert_eq!(step(DragState::Idle, DividerEvent::Moved), (DragState::Idle, DividerAction::Ignore));
    assert_eq!(
        step(DragState::Dragging, DividerEvent::Moved),
        (DragState::Dragging, DividerAction::EmitDrag)
    );
    assert_eq!(
        step(DragState::Dragging, DividerEvent::Pressed { over: true }),
        (DragState::Dragging, DividerAction::Ignore)
    );
}

#[test]
fn release_ends_a_drag() {
    assert_eq!(
        step(DragState::Dragging, DividerEvent::Released),
        (DragState::Idle, DividerAction::EmitRelease)
    );
    assert_eq!(step(DragState::Idle, DividerEvent::Released), (DragState::Idle, DividerAction::Ignore));
}

#[test]
fn highlighted_while_hovered_or_dragging() {
    assert!(!is_highlighted(DragState::Idle, false));
    assert!(is_highlighted(DragState::Idle, true));
    assert!(is_highlighted(DragState::Dragging, false));
    assert!(is_highlighted(DragState::Dragging, true));
}

#[test]
fn a_drag_sequence_starts_and_releases_once() {
    let events = [
        DividerEvent::Moved,
        DividerEvent::Pressed { over: true },
        DividerEvent::Moved,
        DividerEvent::Moved,
        DividerEvent::Released,
        DividerEvent::Released,
        DividerEvent::Pressed { over: false },
        DividerEvent::Moved,
    ];
    let mut state = DragState::Idle;
    let mut actions = Vec::new();
    for event in events {
        let (next, action) = step(state, event);
        state = next;
        actions.push(action);
    }
    assert_eq!(
        actions,
        vec![
            DividerAction::Ignore,
            DividerAction::StartDrag,
            DividerAction::EmitDrag,
            DividerAction::EmitDrag,
            DividerAction::EmitRelease,
            DividerAction::Ignore,
            DividerAction::Ignore,
            DividerAction::Ignore,
        ]
    );
    assert_eq!(state, DragState::Idle);
}
