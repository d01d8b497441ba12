//! The life of the output stream, as a state machine.
//!
//! The device work itself (opening, waiting for a buffer, releasing) is done
//! by the caller; this module decides, for each thing that happened, what
//! state the stream is in afterwards and what the caller has to do next.

use crate::error::MediaError;
use vstd::prelude::*;

verus! {

/// Where an output stream is in its life.
#[derive(Clone, Copy, Debug, PartialEq, Eq, Structural)]
pub enum StreamState {
    /// No device has been opened yet.
    Uninitialized,
    /// The device is open and no frame has asked for a buffer yet.
    StreamOpen,
    /// A frame is due and no device buffer is in hand.
    WaitingForBuffer,
    /// The device handed out a buffer that can be written.
    BufferReady,
    /// The stream was shut down and the device released.
    Closed,
}

/// What happened to an output stream.
#[derive(Clone, Copy, Debug, PartialEq, Eq, Structural)]
pub enum StreamEvent {
    /// The device was opened with the format asked for.
    Opened,
    /// A rendered frame was completed and is to be relayed.
    FrameCompleted,
    /// The device handed out a writable buffer.
    BufferGranted,
    /// The wait for a buffer ran out.
    BufferTimedOut,
    /// The device reported an error while a buffer was awaited.
    StreamFailed,
    /// The stream is being dropped.
    Shutdown,
}

/// What the caller has to do after an event.
#[derive(Clone, Copy, Debug, PartialEq, Eq, Structural)]
pub enum StreamAction {
    /// Nothing: the event changes no obligation.
    Nothing,
    /// Ask the device for a writable buffer and wait, up to the timeout.
    AwaitBuffer,
    /// Copy the completed frame into the buffer in hand.
    WriteFrame,
    /// Leave this frame out, for the given transient reason.
    SkipFrame(MediaError),
    /// Release the device.
    Release,
}

/// The state after `event` happened in `state`. An event that has no
/// meaning in a state leaves the state as it is.
pub open spec fn next_state(state: StreamState, event: StreamEvent) -> StreamState {
    match (state, event) {
        (StreamState::Uninitialized, StreamEvent::Opened) => StreamState::StreamOpen,
        (StreamState::StreamOpen, StreamEvent::FrameCompleted) => StreamState::WaitingForBuffer,
        (StreamState::BufferReady, StreamEvent::FrameCompleted) => StreamState::WaitingForBuffer,
        (StreamState::WaitingForBuffer, StreamEvent::BufferGranted) => StreamState::BufferReady,
        (StreamState::StreamOpen, StreamEvent::Shutdown) => StreamState::Closed,
        (StreamState::WaitingForBuffer, StreamEvent::Shutdown) => StreamState::Closed,
        (StreamState::BufferReady, StreamEvent::Shutdown) => StreamState::Closed,
        _ => state,
    }
}

/// What the caller has to do when `event` happened in `state`.
pub open spec fn action_for(state: StreamState, event: StreamEvent) -> StreamAction {
    match (state, event) {
        (StreamState::StreamOpen, StreamEvent::FrameCompleted) => StreamAction::AwaitBuffer,
        (StreamState::WaitingForBuffer, StreamEvent::FrameCompleted) => StreamAction::AwaitBuffer,
        (StreamState::BufferReady, StreamEvent::FrameCompleted) => StreamAction::AwaitBuffer,
        (StreamState::WaitingForBuffer, StreamEvent::BufferGranted) => StreamAction::WriteFrame,
        (StreamState::WaitingForBuffer, StreamEvent::BufferTimedOut) => StreamAction::SkipFrame(
            MediaError::BufferTimeout,
        ),
        (StreamState::WaitingForBuffer, StreamEvent::StreamFailed) => StreamAction::SkipFrame(
            MediaError::StreamIoError,
        ),
        (StreamState::StreamOpen, StreamEvent::Shutdown) => StreamAction::Release,
        (StreamState::WaitingForBuffer, StreamEvent::Shutdown) => StreamAction::Release,
        (StreamState::BufferReady, StreamEvent::Shutdown) => StreamAction::Release,
        _ => StreamAction::Nothing,
    }
}

/// Whether the device is open in `state`.
pub open spec fn is_live(state: StreamState) -> bool {
    state == StreamState::StreamOpen || state == StreamState::WaitingForBuffer || state
        == StreamState::BufferReady
}

/// Takes one event and answers with the state the stream is in afterwards
/// and with what the caller has to do.
pub fn step(state: StreamState, event: StreamEvent) -> (taken: (StreamState, StreamAction))
    ensures
        taken.0 == next_state(state, event),
        taken.1 == action_for(state, event),
{
    let live = match state {
        StreamState::StreamOpen | StreamState::WaitingForBuffer | StreamState::BufferReady => true,
        _ => false,
    };
    let waiting = match state {
        StreamState::WaitingForBuffer => true,
        _ => false,
    };
    match event {
        StreamEvent::Opened => match state {
            StreamState::Uninitialized => (StreamState::StreamOpen, StreamAction::Nothing),
            _ => (state, StreamAction::Nothing),
        },
        StreamEvent::FrameCompleted => if live {
            (StreamState::WaitingForBuffer, StreamAction::AwaitBuffer)
        } else {
            (state, StreamAction::Nothing)
        },
        StreamEvent::BufferGranted => if waiting {
            (StreamState::BufferReady, StreamAction::WriteFrame)
        } else {
            (state, StreamAction::Nothing)
        },
        StreamEvent::BufferTimedOut => if waiting {
            (state, StreamAction::SkipFrame(MediaError::BufferTimeout))
        } else {
            (state, StreamAction::Nothing)
        },
        StreamEvent::StreamFailed => if waiting {
            (state, StreamAction::SkipFrame(MediaError::StreamIoError))
        } else {
            (state, StreamAction::Nothing)
        },
        StreamEvent::Shutdown => if live {
            (StreamState::Closed, StreamAction::Release)
        } else {
            (state, StreamAction::Nothing)
        },
    }
}

/// The state a stream is in after `events` happened one after another.
pub open spec fn after_events(state: StreamState, events: Seq<StreamEvent>) -> StreamState
    decreases events.len(),
{
    if events.len() == 0 {
        state
    } else {
        next_state(after_events(state, events.drop_last()), events.last())
    }
}

/// A stream closes only by being shut down while its device is open, and
/// that is also the only time the device is to be released.
pub proof fn lemma_closes_only_on_shutdown(state: StreamState, event: StreamEvent)
    ensures
        next_state(state, event) == StreamState::Closed <==> state == StreamState::Closed || (
        is_live(state) && event == StreamEvent::Shutdown),
        action_for(state, event) == StreamAction::Release <==> is_live(state) && event
            == StreamEvent::Shutdown,
{
}

/// A frame is written only into a buffer that was just granted to a stream
/// that waited for it.
pub proof fn lemma_writes_only_into_granted_buffer(state: StreamState, event: StreamEvent)
    ensures
        action_for(state, event) == StreamAction::WriteFrame <==> state
            == StreamState::WaitingForBuffer && event == StreamEvent::BufferGranted,
        action_for(state, event) == StreamAction::WriteFrame ==> next_state(state, event)
            == StreamState::BufferReady,
{
}

/// Running out of time or a device error while waiting skips the frame and
/// leaves the stream waiting: neither closes it.
pub proof fn lemma_skip_keeps_stream_waiting(state: StreamState, event: StreamEvent)
    requires
        action_for(state, event) is SkipFrame,
    ensures
        state == StreamState::WaitingForBuffer,
        next_state(state, event) == StreamState::WaitingForBuffer,
        action_for(state, event)->SkipFrame_0.spec_severity() == crate::error::Severity::Transient,
{
}

/// A closed stream stays closed whatever happens to it, and asks for
/// nothing.
pub proof fn lemma_closed_is_final(events: Seq<StreamEvent>)
    ensures
        after_events(StreamState::Closed, events) == StreamState::Closed,
        forall|event: StreamEvent| action_for(StreamState::Closed, event) == StreamAction::Nothing,
    decreases events.len(),
{
    if events.len() > 0 {
        lemma_closed_is_final(events.drop_last());
    }
}

} // verus!
