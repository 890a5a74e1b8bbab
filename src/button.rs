//! The flag that the button's interrupt raises and the main loop consumes.
//!
//! The interrupt handler feeds `ButtonEvent::Edge`; the main loop, each time
//! it wakes, feeds `ButtonEvent::Poll` and performs the returned action.
//! Edges that arrive between two polls are reported once.
use vstd::prelude::*;

verus! {

/// What reaches the button flag.
#[derive(Clone, Copy, Debug, PartialEq, Eq, Structural)]
pub enum ButtonEvent {
    /// A rising edge on the button's line.
    Edge,
    /// The main loop looks at the flag.
    Poll,
}

/// What the main loop does after a poll.
#[derive(Clone, Copy, Debug, PartialEq, Eq, Structural)]
pub enum LoopAction {
    Idle,
    ReportPress,
}

/// The flag after an event, and what the loop is to do.
#[derive(Clone, Copy, Debug, PartialEq, Eq, Structural)]
pub struct ButtonStep {
    pub pressed: bool,
    pub action: LoopAction,
}

/// An edge raises the flag; a poll lowers it and reports a press if the
/// flag was raised.
pub open spec fn next(pressed: bool, event: ButtonEvent) -> ButtonStep {
    match event {
        ButtonEvent::Edge => ButtonStep { pressed: true, action: LoopAction::Idle },
        ButtonEvent::Poll => ButtonStep {
            pressed: false,
            action: if pressed { LoopAction::ReportPress } else { LoopAction::Idle },
        },
    }
}

/// The flag and the action that follow `event` when the flag is `pressed`.
pub fn button_step(pressed: bool, event: ButtonEvent) -> (r: ButtonStep)
    ensures
        r == next(pressed, event),
{
    match event {
        ButtonEvent::Edge => ButtonStep { pressed: true, action: LoopAction::Idle },
        ButtonEvent::Poll => ButtonStep {
            pressed: false,
            action: if pressed { LoopAction::ReportPress } else { LoopAction::Idle },
        },
    }
}

/// Whatever the flag held, any number of edges (at least one) followed by a
/// poll report one press, and a second poll reports none.
pub proof fn lemma_edges_reported_once(pressed: bool, edges: nat)
    requires
        edges >= 1,
    ensures
        next(edges_then(pressed, edges), ButtonEvent::Poll).action == LoopAction::ReportPress,
        next(next(edges_then(pressed, edges), ButtonEvent::Poll).pressed, ButtonEvent::Poll).action
            == LoopAction::Idle,
{
}

/// The flag after `edges` edges, starting from `pressed`.
pub open spec fn edges_then(pressed: bool, edges: nat) -> bool
    decreases edges,
{
    if edges == 0 {
        pressed
    } else {
        next(edges_then(pressed, (edges - 1) as nat), ButtonEvent::Edge).pressed
    }
}

} // verus!
