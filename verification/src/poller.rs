//! The poller: the background task's two-state machine.
//!
//! The task itself (a thread looping at host-callback rate) lives with the
//! embedding process; its every iteration feeds the pending stop-channel
//! event into [`poller_step`] and then either publishes a freshly built
//! snapshot or halts for good. The decision logic, and the guarantee that
//! a stop is permanent, are proved here.

use vstd::prelude::*;
use crate::cell::SharedCell;
use crate::cell::lemma_publish_keeps_whole;
use crate::cell::spec_publish;
use crate::snapshot::Snapshot;

verus! {

/// The message a controller sends down the stop channel to end polling.
#[derive(Clone, Copy, Debug, PartialEq, Eq, Structural)]
pub struct QuitMessage;

/// What the poller finds on its stop channel at the top of an iteration.
#[derive(Clone, Copy, Debug, PartialEq, Eq, Structural)]
pub enum PollSignal {
    /// A stop message was pending.
    Quit(QuitMessage),
    /// No sender remains on the channel.
    Disconnected,
    /// Nothing pending: keep polling.
    Empty,
}

/// The poller's state: it starts Running and, once Stopped, never runs
/// again within the same task instance.
#[derive(Clone, Copy, Debug, PartialEq, Eq, Structural)]
pub enum PollerState {
    Running,
    Stopped,
}

/// What an iteration does after looking at the signal.
#[derive(Clone, Copy, Debug, PartialEq, Eq, Structural)]
pub enum PollerAction {
    /// Build one snapshot and publish it into the shared cell.
    Publish,
    /// Publish nothing, now or ever again: the loop ends.
    Halt,
}

/// One decision of the poller: only a running poller that finds its stop
/// channel empty publishes; a stop message, a dead channel, or an already
/// stopped poller halts.
pub open spec fn spec_step(state: PollerState, signal: PollSignal) -> (PollerState, PollerAction) {
    match state {
        PollerState::Stopped => (PollerState::Stopped, PollerAction::Halt),
        PollerState::Running => match signal {
            PollSignal::Empty => (PollerState::Running, PollerAction::Publish),
            PollSignal::Quit(_) => (PollerState::Stopped, PollerAction::Halt),
            PollSignal::Disconnected => (PollerState::Stopped, PollerAction::Halt),
        },
    }
}

/// Decide one poller iteration from the current state and the pending
/// stop-channel event.
pub fn poller_step(state: PollerState, signal: PollSignal) -> (r: (PollerState, PollerAction))
    ensures
        r == spec_step(state, signal),
{
    match state {
        PollerState::Stopped => (PollerState::Stopped, PollerAction::Halt),
        PollerState::Running => match signal {
            PollSignal::Empty => (PollerState::Running, PollerAction::Publish),
            PollSignal::Quit(_) => (PollerState::Stopped, PollerAction::Halt),
            PollSignal::Disconnected => (PollerState::Stopped, PollerAction::Halt),
        },
    }
}

/// One whole iteration as it acts on the shared cell: a publishing step
/// replaces the cell's snapshot with the freshly built one; a halting
/// step leaves the cell exactly as it was.
pub open spec fn spec_cycle(
    state: PollerState,
    signal: PollSignal,
    cell: SharedCell,
    built: Snapshot,
) -> (PollerState, SharedCell) {
    let (next, action) = spec_step(state, signal);
    match action {
        PollerAction::Publish => (next, spec_publish(cell, built)),
        PollerAction::Halt => (next, cell),
    }
}

/// A whole run of iterations, fed one pending signal and one freshly
/// built snapshot per iteration.
pub open spec fn spec_run(
    state: PollerState,
    cell: SharedCell,
    signals: Seq<PollSignal>,
    built: Seq<Snapshot>,
) -> (PollerState, SharedCell)
    decreases signals.len(),
{
    if signals.len() == 0 || built.len() == 0 {
        (state, cell)
    } else {
        let (next, c) = spec_cycle(state, signals[0], cell, built[0]);
        spec_run(next, c, signals.drop_first(), built.drop_first())
    }
}

/// A running poller publishes exactly when its stop channel is empty; a
/// pending stop message or a dead channel moves it to Stopped with no
/// publish.
pub proof fn lemma_stop_signal_halts(signal: PollSignal)
    ensures
        spec_step(PollerState::Running, signal).1 == PollerAction::Publish <==> signal
            == PollSignal::Empty,
        signal != PollSignal::Empty ==> spec_step(PollerState::Running, signal) == (
            PollerState::Stopped,
            PollerAction::Halt,
        ),
{
}

/// A stopped poller never publishes again: every later decision halts and
/// leaves the state Stopped.
pub proof fn lemma_stopped_never_publishes(signal: PollSignal)
    ensures
        spec_step(PollerState::Stopped, signal) == (PollerState::Stopped, PollerAction::Halt),
{
}

/// Reads are never torn across poll cycles: after any run of
/// iterations, whatever it found on the channel, the cell holds either
/// the snapshot it started with or one of the snapshots the run built
/// and published, whole — never a value mixing fields of two cycles. A
/// reader, who gets the held snapshot ([`crate::cell::SharedCell::read`]),
/// therefore only ever sees a published value.
pub proof fn lemma_cell_holds_published_value(
    state: PollerState,
    cell: SharedCell,
    signals: Seq<PollSignal>,
    built: Seq<Snapshot>,
)
    ensures
        ({
            let (end_state, end_cell) = spec_run(state, cell, signals, built);
            end_cell.spec_current() == cell.spec_current() || exists|i: int|
                0 <= i < built.len() && end_cell.spec_current() == built[i]
        }),
    decreases signals.len(),
{
    if signals.len() == 0 || built.len() == 0 {
    } else {
        let (next, c) = spec_cycle(state, signals[0], cell, built[0]);
        lemma_publish_keeps_whole(cell, built[0]);
        lemma_cell_holds_published_value(next, c, signals.drop_first(), built.drop_first());
        let (end_state, end_cell) = spec_run(next, c, signals.drop_first(), built.drop_first());
        if end_cell.spec_current() == c.spec_current() {
            if c.spec_current() != cell.spec_current() {
                assert(c.spec_current() == built[0]);
            }
        } else {
            let j = choose|j: int|
                0 <= j < built.drop_first().len() && end_cell.spec_current() == built.drop_first()[j];
            assert(end_cell.spec_current() == built[j + 1]);
        }
    }
}

/// A stop is permanent: from the stopped state, no run of further
/// iterations, however long and whatever it finds on the channel or
/// builds, ever changes the shared cell — it retains its last-published
/// snapshot indefinitely.
pub proof fn lemma_stop_is_permanent(
    cell: SharedCell,
    signals: Seq<PollSignal>,
    built: Seq<Snapshot>,
)
    ensures
        spec_run(PollerState::Stopped, cell, signals, built) == (PollerState::Stopped, cell),
    decreases signals.len(),
{
    if signals.len() == 0 || built.len() == 0 {
    } else {
        lemma_stop_is_permanent(cell, signals.drop_first(), built.drop_first());
    }
}

} // verus!
