//! The decisions of the concurrent pump and of the dispatch loop, apart from
//! the tasks and queues that carry them out.
use vstd::prelude::*;

use crate::error::NmError;

verus! {

/// Bound of each queue between the blocking stream tasks and the dispatch loop:
/// a producer that gets this far ahead of its consumer waits.
pub const QUEUE_CAPACITY: usize = 32;

/// What the reader task does after one attempt to decode a frame from its input.
pub struct ReaderStep {
    /// The item to push onto the inbound queue.
    pub deliver: Result<String, NmError>,
    /// Whether to read another frame afterwards.
    pub keep_reading: bool,
}

/// The reader task forwards each message and goes on; a clean end of the input
/// is forwarded once as `Disconnected`, any other failure as itself, and both
/// end the task.
pub fn reader_step(read: Result<Option<String>, NmError>) -> (r: ReaderStep)
    ensures
        match read {
            Ok(Some(m)) => r.deliver == Ok::<String, NmError>(m) && r.keep_reading,
            Ok(None) => r.deliver == Err::<String, NmError>(NmError::Disconnected) && !r.keep_reading,
            Err(e) => r.deliver == Err::<String, NmError>(e) && !r.keep_reading,
        },
{
    match read {
        Ok(Some(m)) => ReaderStep { deliver: Ok(m), keep_reading: true },
        Ok(None) => ReaderStep { deliver: Err(NmError::Disconnected), keep_reading: false },
        Err(e) => ReaderStep { deliver: Err(e), keep_reading: false },
    }
}

/// The state of the dispatch loop.
#[derive(Debug, PartialEq, Eq)]
pub enum LoopState {
    /// Waiting for the next message, or for the handler of the last one.
    Running,
    /// Stopped for good, with the loop's result.
    Finished(Result<(), NmError>),
}

/// What the dispatch loop observes.
#[derive(Debug, PartialEq, Eq)]
pub enum LoopEvent {
    /// An item taken off the inbound queue.
    Inbound(Result<String, NmError>),
    /// The inbound queue closed with nothing more in it.
    InboundClosed,
    /// The handler of the last message returned.
    HandlerDone(Result<(), NmError>),
}

/// The state after `event` in `state`, and the message to hand to the handler
/// if there is one.
pub open spec fn loop_next(state: LoopState, event: LoopEvent) -> (LoopState, Option<String>) {
    match state {
        LoopState::Finished(res) => (LoopState::Finished(res), None),
        LoopState::Running => match event {
            LoopEvent::Inbound(Ok(m)) => (LoopState::Running, Some(m)),
            LoopEvent::Inbound(Err(NmError::Disconnected)) => (LoopState::Finished(Ok(())), None),
            LoopEvent::Inbound(Err(e)) => (LoopState::Finished(Err(e)), None),
            LoopEvent::InboundClosed => (LoopState::Finished(Ok(())), None),
            LoopEvent::HandlerDone(Ok(())) => (LoopState::Running, None),
            LoopEvent::HandlerDone(Err(e)) => (LoopState::Finished(Err(e)), None),
        },
    }
}

/// One step of the dispatch loop. A message is dispatched and the loop keeps
/// running; a disconnect ends it with `Ok`; a transport or handler failure ends
/// it with that failure; nothing is retried, and a finished loop stays finished.
pub fn loop_step(state: LoopState, event: LoopEvent) -> (r: (LoopState, Option<String>))
    ensures
        r == loop_next(state, event),
{
    match state {
        LoopState::Finished(res) => (LoopState::Finished(res), None),
        LoopState::Running => match event {
            LoopEvent::Inbound(Ok(m)) => (LoopState::Running, Some(m)),
            LoopEvent::Inbound(Err(NmError::Disconnected)) => (LoopState::Finished(Ok(())), None),
            LoopEvent::Inbound(Err(e)) => (LoopState::Finished(Err(e)), None),
            LoopEvent::InboundClosed => (LoopState::Finished(Ok(())), None),
            LoopEvent::HandlerDone(Ok(())) => (LoopState::Running, None),
            LoopEvent::HandlerDone(Err(e)) => (LoopState::Finished(Err(e)), None),
        },
    }
}

/// The state after a whole sequence of events.
pub open spec fn loop_run(state: LoopState, events: Seq<LoopEvent>) -> LoopState
    decreases events.len(),
{
    if events.len() == 0 {
        state
    } else {
        loop_run(loop_next(state, events[0]).0, events.drop_first())
    }
}

/// Termination is final: once the loop has finished, no later event changes its
/// result or dispatches another message.
pub proof fn lemma_finished_is_final(res: Result<(), NmError>, events: Seq<LoopEvent>)
    ensures
        loop_run(LoopState::Finished(res), events) == LoopState::Finished(res),
        forall|i: int|
            0 <= i < events.len() ==> (#[trigger] loop_next(LoopState::Finished(res), events[i])).1
                is None,
    decreases events.len(),
{
    if events.len() > 0 {
        lemma_finished_is_final(res, events.drop_first());
    }
}

/// What a handler's reply yields: a reply that could not be queued, because
/// the writer task has gone, is reported as `Disconnected`.
pub fn reply_outcome(queued: bool) -> (r: Result<(), NmError>)
    ensures
        queued ==> r == Ok::<(), NmError>(()),
        !queued ==> r == Err::<(), NmError>(NmError::Disconnected),
{
    if queued {
        Ok(())
    } else {
        Err(NmError::Disconnected)
    }
}

} // verus!
