//! The render loop's two states, and the input that ends it.
//!
//! A loop runs until the user presses the exit key or asks for the window to
//! be closed. From then on it is closing, whatever else arrives.

use vstd::prelude::*;

verus! {

/// The code of the Escape key, as the windowing layer numbers its keys.
pub const KEY_ESCAPE: i32 = 256;

/// Whether the render loop goes on.
#[derive(Clone, Copy, Debug, PartialEq, Eq, Structural)]
pub enum LoopState {
    /// Frames are drawn.
    Running,
    /// The loop ends at its next check. No frame is drawn any more.
    Closing,
}

/// What happened to a key.
#[derive(Clone, Copy, Debug, PartialEq, Eq, Structural)]
pub enum KeyAction {
    Release,
    Press,
    Repeat,
}

/// One input event, as far as the loop reads it.
#[derive(Clone, Copy, Debug, PartialEq, Eq, Structural)]
pub enum InputEvent {
    /// Something happened to the key with this code.
    Key { code: i32, action: KeyAction },
    /// The user asked for the window to be closed.
    CloseRequested,
    /// Any other event.
    Other,
}

/// Whether an event ends the loop: a press of the exit key, or a request to
/// close the window.
pub open spec fn closes(exit_key: i32, event: InputEvent) -> bool {
    match event {
        InputEvent::Key { code, action } => code == exit_key && action == KeyAction::Press,
        InputEvent::CloseRequested => true,
        InputEvent::Other => false,
    }
}

/// The state of the loop after one event.
pub open spec fn after_event(state: LoopState, exit_key: i32, event: InputEvent) -> LoopState {
    if state == LoopState::Closing || closes(exit_key, event) {
        LoopState::Closing
    } else {
        LoopState::Running
    }
}

/// The state of the loop after a run of events, taken in their order.
pub open spec fn after_events(state: LoopState, exit_key: i32, events: Seq<InputEvent>) -> LoopState
    decreases events.len(),
{
    if events.len() == 0 {
        state
    } else {
        after_event(after_events(state, exit_key, events.drop_last()), exit_key, events.last())
    }
}

impl LoopState {
    /// The state after one event.
    pub fn on_event(self, exit_key: i32, event: InputEvent) -> (after: LoopState)
        ensures
            after == after_event(self, exit_key, event),
    {
        match self {
            LoopState::Closing => LoopState::Closing,
            LoopState::Running => match event {
                InputEvent::Key { code, action } => {
                    if code == exit_key && action == KeyAction::Press {
                        LoopState::Closing
                    } else {
                        LoopState::Running
                    }
                },
                InputEvent::CloseRequested => LoopState::Closing,
                InputEvent::Other => LoopState::Running,
            },
        }
    }

    /// Whether the loop draws another frame.
    pub fn is_running(self) -> (running: bool)
        ensures
            running == (self == LoopState::Running),
    {
        match self {
            LoopState::Running => true,
            LoopState::Closing => false,
        }
    }
}

/// The state of the loop after the events of one poll: closing if it was
/// closing before, or if one of the events ends the loop.
pub fn process_events(state: LoopState, exit_key: i32, events: &[InputEvent]) -> (after: LoopState)
    ensures
        after == after_events(state, exit_key, events@),
        after == LoopState::Closing <==> (state == LoopState::Closing || exists|i: int|
            0 <= i < events@.len() && closes(exit_key, #[trigger] events@[i])),
{
    let mut current = state;
    let mut i: usize = 0;
    while i < events.len()
        invariant
            i <= events@.len(),
            current == after_events(state, exit_key, events@.take(i as int)),
        decreases events@.len() - i,
    {
        proof {
            assert(events@.take(i + 1).drop_last() =~= events@.take(i as int));
        }
        current = current.on_event(exit_key, events[i]);
        i = i + 1;
    }
    proof {
        assert(events@.take(i as int) =~= events@);
        law_closing_iff_closed(state, exit_key, events@);
    }
    current
}

/// A press of the exit key ends a running loop, and so does a request to
/// close the window.
pub proof fn law_exit_key_closes(exit_key: i32)
    ensures
        after_event(
            LoopState::Running,
            exit_key,
            InputEvent::Key { code: exit_key, action: KeyAction::Press },
        ) == LoopState::Closing,
        after_event(LoopState::Running, exit_key, InputEvent::CloseRequested)
            == LoopState::Closing,
{
}

/// A loop that is closing stays so, whatever arrives.
pub proof fn law_closing_is_final(exit_key: i32, events: Seq<InputEvent>)
    ensures
        after_events(LoopState::Closing, exit_key, events) == LoopState::Closing,
    decreases events.len(),
{
    if events.len() > 0 {
        law_closing_is_final(exit_key, events.drop_last());
    }
}

/// After a run of events a loop is closing if and only if it was closing
/// before them or one of them ends the loop.
pub proof fn law_closing_iff_closed(state: LoopState, exit_key: i32, events: Seq<InputEvent>)
    ensures
        after_events(state, exit_key, events) == LoopState::Closing <==> (state
            == LoopState::Closing || exists|i: int|
            0 <= i < events.len() && closes(exit_key, #[trigger] events[i])),
    decreases events.len(),
{
    if events.len() > 0 {
        let front = events.drop_last();
        law_closing_iff_closed(state, exit_key, front);
        if exists|i: int| 0 <= i < front.len() && closes(exit_key, #[trigger] front[i]) {
            let i = choose|i: int| 0 <= i < front.len() && closes(exit_key, #[trigger] front[i]);
            assert(closes(exit_key, events[i]));
        }
        if closes(exit_key, events.last()) {
            assert(closes(exit_key, events[events.len() - 1]));
        }
        if exists|i: int| 0 <= i < events.len() && closes(exit_key, #[trigger] events[i]) {
            let i = choose|i: int| 0 <= i < events.len() && closes(exit_key, #[trigger] events[i]);
            if i < events.len() - 1 {
                assert(closes(exit_key, front[i]));
            }
        }
    }
}

} // verus!
