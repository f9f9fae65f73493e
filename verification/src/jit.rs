use vstd::prelude::*;
use crate::packet::ScheduledPacket;
use crate::queue::TimeQueue;

verus! {

/// Longest wait for a stop notification between two looks at the queue, in
/// milliseconds. The wait paces the scheduler, and bounds how long a stop
/// goes unnoticed.
pub const JIT_POLL_MS: u64 = 10;

/// Where the scheduler stands. `Stopping` is final.
#[derive(Clone, Copy, Debug, PartialEq, Eq, Structural)]
pub enum JitState {
    Running,
    Stopping,
}

/// What the scheduler is told.
#[derive(Clone, Copy, Debug, PartialEq, Eq, Structural)]
pub enum JitEvent {
    /// A stop notification arrived during the wait.
    Stop,
    /// The wait ran out, and the concentrator's counter then read this tick.
    Tick(u32),
    /// The radio took the packet that was handed out last.
    Sent,
    /// The radio refused the packet that was handed out last.
    SendFailed,
}

/// What the scheduler wants done next.
#[derive(Clone, Debug, PartialEq, Eq)]
pub enum JitAction {
    /// Leave the loop.
    Exit,
    /// Nothing is due: wait for a stop notification again.
    Wait,
    /// Hand this packet to the radio, and report how that went.
    Transmit(ScheduledPacket),
    /// Put the transmission on record and count it, then wait again.
    Record,
    /// Report the failure, then wait again. The packet's slot is lost.
    Report,
}

/// One decision of the scheduler.
///
/// Once stopping, it only ever asks to leave, and keeps its hands off the
/// queue. While running, a stop notification makes it stop; a tick makes it
/// take the due packet out of the queue, if there is one, and hand it out;
/// the outcome of a transmission is put on record or reported, and in
/// neither case does a packet go back into the queue.
pub fn jit_step(state: JitState, queue: &mut TimeQueue, event: JitEvent) -> (r: (
    JitState,
    JitAction,
))
    ensures
        old(queue)@.wf() ==> final(queue)@.wf(),
        r.0 == (if state == JitState::Stopping || event == JitEvent::Stop {
            JitState::Stopping
        } else {
            JitState::Running
        }),
        r.0 == JitState::Stopping <==> r.1 == JitAction::Exit,
        final(queue)@ == (match (state, event) {
            (JitState::Running, JitEvent::Tick(now)) => old(queue)@.popped(now),
            _ => old(queue)@,
        }),
        match (state, event) {
            (JitState::Stopping, _) => r.1 == JitAction::Exit,
            (JitState::Running, JitEvent::Stop) => r.1 == JitAction::Exit,
            (JitState::Running, JitEvent::Tick(now)) => if old(queue)@.has_due(now) {
                r.1 matches JitAction::Transmit(packet) && packet@ == old(queue)@.entries[old(
                    queue,
                )@.earliest(now)]
            } else {
                r.1 == JitAction::Wait
            },
            (JitState::Running, JitEvent::Sent) => r.1 == JitAction::Record,
            (JitState::Running, JitEvent::SendFailed) => r.1 == JitAction::Report,
        },
{
    match state {
        JitState::Stopping => (JitState::Stopping, JitAction::Exit),
        JitState::Running => match event {
            JitEvent::Stop => (JitState::Stopping, JitAction::Exit),
            JitEvent::Tick(now) => match queue.pop(now) {
                Some(packet) => (JitState::Running, JitAction::Transmit(packet)),
                None => (JitState::Running, JitAction::Wait),
            },
            JitEvent::Sent => (JitState::Running, JitAction::Record),
            JitEvent::SendFailed => (JitState::Running, JitAction::Report),
        },
    }
}

} // verus!
