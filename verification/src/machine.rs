//! The renewal-loop state machine.
//!
//! The loop alternates between awaiting a fresh lease and sleeping until the
//! next renewal, racing each phase against a one-shot cancellation signal.
//! This module holds the decisions alone: a driver performs the awaited work
//! (the network call, the timer) and feeds the outcome back as an [`Event`];
//! the returned [`Action`] tells the driver what to start next.

use vstd::prelude::*;
use crate::client::ClientError;
use crate::envelope::KeepAliveTicket;

verus! {

/// The phase the renewal loop is in.
///
/// `ShuttingDown` is entered the moment the loop decides to stop; no remote
/// call is made from it, and the loop's next move is to `Stopped`, the
/// terminal phase.
#[derive(Debug, Clone, Copy, PartialEq, Eq, Structural)]
pub enum Phase {
    AwaitingLease,
    Sleeping,
    ShuttingDown,
    Stopped,
}

/// What resolved at the loop's current suspension point.
#[derive(Debug, Clone)]
pub enum Event {
    /// The cancellation signal fired.
    Cancelled,
    /// The renewal exchange completed with a fresh lease.
    LeaseGranted(KeepAliveTicket),
    /// The renewal exchange completed with a failure.
    LeaseFailed(ClientError),
    /// The sleep timer ran out.
    TimerElapsed,
}

/// What the loop's driver must do next.
#[derive(Debug, Clone, Copy, PartialEq, Eq, Structural)]
pub enum Action {
    /// Issue a renewal call, racing it against cancellation.
    StartRenewal,
    /// Sleep for the given number of seconds, racing it against cancellation.
    StartSleep { seconds: u64 },
    /// Stop: return from the loop without starting anything further.
    Exit,
}

/// The renewal loop's local state: its phase, the caller-configured nominal
/// lease lifetime, and the transient lease session (the currently active
/// ticket, held only while sleeping).
pub struct RenewalLoop {
    pub phase: Phase,
    pub ttl_seconds: u64,
    pub session: Option<KeepAliveTicket>,
}

/// One transition of the renewal loop.
///
/// - Cancellation wins the race in any live phase: the loop moves to
///   `ShuttingDown` and exits; the in-flight work is abandoned.
/// - A granted lease while awaiting one starts a sleep of half the
///   configured TTL; the ticket is kept as the session for that sleep.
/// - A failed renewal is fatal: the loop stops without retrying.
/// - An elapsed timer while sleeping discards the session and starts the
///   next renewal.
/// - An event that does not belong to the current phase is a protocol
///   violation by the driver and stops the loop.
/// - `ShuttingDown` and `Stopped` absorb every event: the loop only exits.
pub open spec fn step_spec(pre: RenewalLoop, event: Event) -> (RenewalLoop, Action) {
    let down = RenewalLoop { phase: Phase::ShuttingDown, session: None, ..pre };
    match pre.phase {
        Phase::AwaitingLease => match event {
            Event::Cancelled => (down, Action::Exit),
            Event::LeaseGranted(ticket) => (
                RenewalLoop { phase: Phase::Sleeping, session: Some(ticket), ..pre },
                Action::StartSleep { seconds: pre.ttl_seconds / 2 },
            ),
            Event::LeaseFailed(_) => (down, Action::Exit),
            Event::TimerElapsed => (down, Action::Exit),
        },
        Phase::Sleeping => match event {
            Event::Cancelled => (down, Action::Exit),
            Event::TimerElapsed => (
                RenewalLoop { phase: Phase::AwaitingLease, session: None, ..pre },
                Action::StartRenewal,
            ),
            Event::LeaseGranted(_) => (down, Action::Exit),
            Event::LeaseFailed(_) => (down, Action::Exit),
        },
        Phase::ShuttingDown => (RenewalLoop { phase: Phase::Stopped, session: None, ..pre }, Action::Exit),
        Phase::Stopped => (RenewalLoop { phase: Phase::Stopped, session: None, ..pre }, Action::Exit),
    }
}

/// The actions the loop hands its driver when, starting from `start`, the
/// events of `events` resolve one after another.
pub open spec fn actions_from(start: RenewalLoop, events: Seq<Event>) -> Seq<Action>
    decreases events.len(),
{
    if events.len() == 0 {
        Seq::empty()
    } else {
        seq![step_spec(start, events[0]).1] + actions_from(
            step_spec(start, events[0]).0,
            events.drop_first(),
        )
    }
}

/// The state the loop stands in after, starting from `start`, the events of
/// `events` resolve one after another.
pub open spec fn state_after(start: RenewalLoop, events: Seq<Event>) -> RenewalLoop
    decreases events.len(),
{
    if events.len() == 0 {
        start
    } else {
        state_after(step_spec(start, events[0]).0, events.drop_first())
    }
}

/// Every run hands the driver one action per event.
pub proof fn lemma_one_action_per_event(start: RenewalLoop, events: Seq<Event>)
    ensures
        actions_from(start, events).len() == events.len(),
    decreases events.len(),
{
    if events.len() > 0 {
        lemma_one_action_per_event(step_spec(start, events[0]).0, events.drop_first());
    }
}

/// Once the loop has decided to stop, it never comes back: whatever events
/// the driver still delivers, every further action is `Exit` — no renewal
/// call and no sleep ever starts again — and the loop never re-enters a
/// live phase.
pub proof fn lemma_shutdown_absorbs(start: RenewalLoop, events: Seq<Event>)
    requires
        start.phase is ShuttingDown || start.phase is Stopped,
    ensures
        actions_from(start, events).len() == events.len(),
        forall|i: int|
            0 <= i < events.len() ==> actions_from(start, events)[i] == Action::Exit,
        state_after(start, events).phase is ShuttingDown || state_after(
            start,
            events,
        ).phase is Stopped,
    decreases events.len(),
{
    if events.len() > 0 {
        lemma_shutdown_absorbs(step_spec(start, events[0]).0, events.drop_first());
    }
}

/// Teardown is bounded: wherever the loop currently stands, the
/// cancellation event makes it exit at once — the only wait teardown ever
/// has is the one in-flight suspension point that produced the event, and
/// the loop holds no live phase afterwards.
pub proof fn lemma_cancel_exits_immediately(pre: RenewalLoop)
    ensures
        step_spec(pre, Event::Cancelled).1 == Action::Exit,
        !(step_spec(pre, Event::Cancelled).0.phase is AwaitingLease),
        !(step_spec(pre, Event::Cancelled).0.phase is Sleeping),
{
}

/// Cancellation observed while awaiting a lease stops the loop: the
/// transition exits without starting anything, and whatever events the
/// driver still delivers, every later action is `Exit` — in particular no
/// subsequent renewal call starts.
pub proof fn lemma_cancel_while_awaiting(pre: RenewalLoop, later: Seq<Event>)
    requires
        pre.phase is AwaitingLease,
    ensures
        step_spec(pre, Event::Cancelled).1 == Action::Exit,
        step_spec(pre, Event::Cancelled).0.phase is ShuttingDown,
        forall|i: int|
            0 <= i < later.len() ==> actions_from(step_spec(pre, Event::Cancelled).0, later)[i]
                != Action::StartRenewal,
{
    lemma_shutdown_absorbs(step_spec(pre, Event::Cancelled).0, later);
}

/// Cancellation observed while sleeping stops the loop: the remaining
/// sleep is abandoned, and whatever events the driver still delivers, the
/// loop never stands in `AwaitingLease` again and never starts another
/// renewal call.
pub proof fn lemma_cancel_while_sleeping(pre: RenewalLoop, later: Seq<Event>)
    requires
        pre.phase is Sleeping,
    ensures
        step_spec(pre, Event::Cancelled).1 == Action::Exit,
        step_spec(pre, Event::Cancelled).0.phase is ShuttingDown,
        !(state_after(step_spec(pre, Event::Cancelled).0, later).phase is AwaitingLease),
        forall|i: int|
            0 <= i < later.len() ==> actions_from(step_spec(pre, Event::Cancelled).0, later)[i]
                != Action::StartRenewal,
{
    lemma_shutdown_absorbs(step_spec(pre, Event::Cancelled).0, later);
}

/// Ordering guarantee of the whole run: from the point a cancellation
/// event is delivered, no later action starts a renewal or a sleep.
pub proof fn lemma_no_renewal_after_cancel(start: RenewalLoop, events: Seq<Event>, k: int)
    requires
        0 <= k < events.len(),
        events[k] is Cancelled,
    ensures
        actions_from(start, events).len() == events.len(),
        forall|i: int|
            k < i < events.len() ==> actions_from(start, events)[i] == Action::Exit,
    decreases events.len(),
{
    lemma_one_action_per_event(start, events);
    let next = step_spec(start, events[0]).0;
    if k == 0 {
        lemma_shutdown_absorbs(next, events.drop_first());
        assert forall|i: int| k < i < events.len() implies actions_from(start, events)[i]
            == Action::Exit by {
            assert(actions_from(start, events)[i] == actions_from(next, events.drop_first())[
                i - 1
            ]);
        }
    } else {
        lemma_no_renewal_after_cancel(next, events.drop_first(), k - 1);
        assert forall|i: int| k < i < events.len() implies actions_from(start, events)[i]
            == Action::Exit by {
            assert(actions_from(start, events)[i] == actions_from(next, events.drop_first())[
                i - 1
            ]);
        }
    }
}

/// The renewal cadence: a granted lease puts the loop to sleep for exactly
/// half the configured TTL, and the very next elapsed timer starts the next
/// renewal call — the next attempt starts half a TTL after the success,
/// neither earlier nor later.
pub proof fn lemma_renewal_cadence(pre: RenewalLoop, ticket: KeepAliveTicket)
    requires
        pre.phase is AwaitingLease,
    ensures
        step_spec(pre, Event::LeaseGranted(ticket)).1 == (Action::StartSleep {
            seconds: pre.ttl_seconds / 2,
        }),
        step_spec(pre, Event::LeaseGranted(ticket)).0.phase is Sleeping,
        step_spec(pre, Event::LeaseGranted(ticket)).0.session == Some(ticket),
        step_spec(step_spec(pre, Event::LeaseGranted(ticket)).0, Event::TimerElapsed).1
            == Action::StartRenewal,
        step_spec(
            step_spec(pre, Event::LeaseGranted(ticket)).0,
            Event::TimerElapsed,
        ).0.session is None,
        step_spec(
            step_spec(pre, Event::LeaseGranted(ticket)).0,
            Event::TimerElapsed,
        ).0.phase is AwaitingLease,
{
}

impl RenewalLoop {
    /// A ticket is held exactly while the loop sleeps it off.
    pub open spec fn wf(self) -> bool {
        self.phase is Sleeping <==> self.session is Some
    }

    /// A fresh loop: awaiting its first lease, with no session yet.
    pub fn new(ttl_seconds: u64) -> (r: RenewalLoop)
        ensures
            r.phase == Phase::AwaitingLease,
            r.ttl_seconds == ttl_seconds,
            r.session is None,
            r.wf(),
    {
        RenewalLoop { phase: Phase::AwaitingLease, ttl_seconds, session: None }
    }

    /// The current phase.
    pub fn current_phase(&self) -> (r: Phase)
        ensures
            r == self.phase,
    {
        self.phase
    }

    /// Feed the outcome of the current suspension point to the loop and
    /// learn what to do next.  The transition is exactly [`step_spec`].
    pub fn step(&mut self, event: Event) -> (action: Action)
        ensures
            (*final(self), action) == step_spec(*old(self), event),
            old(self).wf() ==> final(self).wf(),
            final(self).ttl_seconds == old(self).ttl_seconds,
    {
        match self.phase {
            Phase::AwaitingLease => match event {
                Event::Cancelled => {
                    self.phase = Phase::ShuttingDown;
                    self.session = None;
                    Action::Exit
                },
                Event::LeaseGranted(ticket) => {
                    self.phase = Phase::Sleeping;
                    self.session = Some(ticket);
                    Action::StartSleep { seconds: self.ttl_seconds / 2 }
                },
                Event::LeaseFailed(_) => {
                    self.phase = Phase::ShuttingDown;
                    self.session = None;
                    Action::Exit
                },
                Event::TimerElapsed => {
                    self.phase = Phase::ShuttingDown;
                    self.session = None;
                    Action::Exit
                },
            },
            Phase::Sleeping => match event {
                Event::Cancelled => {
                    self.phase = Phase::ShuttingDown;
                    self.session = None;
                    Action::Exit
                },
                Event::TimerElapsed => {
                    self.phase = Phase::AwaitingLease;
                    self.session = None;
                    Action::StartRenewal
                },
                Event::LeaseGranted(_) => {
                    self.phase = Phase::ShuttingDown;
                    self.session = None;
                    Action::Exit
                },
                Event::LeaseFailed(_) => {
                    self.phase = Phase::ShuttingDown;
                    self.session = None;
                    Action::Exit
                },
            },
            Phase::ShuttingDown => {
                self.phase = Phase::Stopped;
                self.session = None;
                Action::Exit
            },
            Phase::Stopped => {
                self.phase = Phase::Stopped;
                self.session = None;
                Action::Exit
            },
        }
    }
}

} // verus!
