//! The reconnect-with-timeout polling loop, as a verified state machine.
//!
//! The bridge maintains a best-effort connection to the remote store and
//! emits one record per successful cycle, forever, until the sink detaches or
//! the host cancels it. All timing and transport is the host's: the host
//! drives [`Poller::step`] with what happened and performs the action it is
//! told, so every decision the loop takes is verified here while the waiting,
//! connecting and pushing stay outside.

use vstd::prelude::*;

verus! {

/// Where the polling loop stands between two happenings.
#[derive(Clone, Copy, Debug, PartialEq, Eq, Structural)]
pub enum PollerState {
    /// No connection attempt is in flight; the initial state.
    Idle,
    /// A connection attempt is in flight, bounded by the connect timeout.
    Connecting,
    /// A connection stands; one fetch-extract-push cycle is being performed.
    Connected,
    /// A cycle finished; the loop sleeps the inter-tick interval.
    Cooldown,
    /// The consumer detached or the host cancelled the loop: the normal end
    /// of the stream, after which nothing more happens.
    Terminated,
}

/// What the host reports back to the loop.
#[derive(Clone, Copy, Debug, PartialEq, Eq, Structural)]
pub enum PollerEvent {
    /// A new cycle begins.
    CycleStart,
    /// The connect timeout expired with no result.
    ConnectTimedOut,
    /// The connection attempt completed with a failure.
    ConnectFailed,
    /// The connection attempt completed successfully.
    ConnectEstablished,
    /// The sink accepted the pushed record.
    PushAccepted,
    /// The sink reported the consumer gone.
    PushRejected,
    /// The inter-tick sleep elapsed.
    CooldownElapsed,
    /// The host's cancellation signal, honored only between cycles.
    Cancelled,
}

/// What the loop tells the host to do next.
#[derive(Clone, Copy, Debug, PartialEq, Eq, Structural)]
pub enum PollerAction {
    /// Read the target address and attempt a connection, bounded by the
    /// connect timeout.
    AttemptConnect,
    /// Fetch the full table, extract the record, push it into the sink.
    EmitRecord,
    /// Sleep the fixed inter-tick interval.
    Sleep,
    /// Stop: the loop is over and nothing further may be done for it.
    Stop,
    /// Nothing to perform; report the next happening.
    Proceed,
}

/// Which events the host may report in which state: a connection attempt
/// resolves only while one is in flight, a push only while a cycle holds a
/// record, and cancellation is honored only at cycle boundaries — a running
/// cycle always completes first.
pub open spec fn event_permitted(s: PollerState, e: PollerEvent) -> bool {
    match s {
        PollerState::Idle => e is CycleStart || e is Cancelled,
        PollerState::Connecting => e is ConnectTimedOut || e is ConnectFailed
            || e is ConnectEstablished,
        PollerState::Connected => e is PushAccepted || e is PushRejected,
        PollerState::Cooldown => e is CooldownElapsed || e is Cancelled,
        PollerState::Terminated => true,
    }
}

/// The state after one happening.
pub open spec fn next_state(s: PollerState, e: PollerEvent) -> PollerState {
    match (s, e) {
        (PollerState::Idle, PollerEvent::CycleStart) => PollerState::Connecting,
        (PollerState::Idle, PollerEvent::Cancelled) => PollerState::Terminated,
        (PollerState::Connecting, PollerEvent::ConnectTimedOut) => PollerState::Idle,
        (PollerState::Connecting, PollerEvent::ConnectFailed) => PollerState::Cooldown,
        (PollerState::Connecting, PollerEvent::ConnectEstablished) => PollerState::Connected,
        (PollerState::Connected, PollerEvent::PushAccepted) => PollerState::Cooldown,
        (PollerState::Connected, PollerEvent::PushRejected) => PollerState::Terminated,
        (PollerState::Cooldown, PollerEvent::CooldownElapsed) => PollerState::Idle,
        (PollerState::Cooldown, PollerEvent::Cancelled) => PollerState::Terminated,
        (PollerState::Terminated, _) => PollerState::Terminated,
        (_, _) => s,
    }
}

/// The action owed after one happening. A timed-out attempt returns to Idle
/// with nothing in between — the loop retries immediately, without backoff —
/// while a completed cycle, successful or failed, earns the inter-tick sleep.
pub open spec fn action_of(s: PollerState, e: PollerEvent) -> PollerAction {
    match (s, e) {
        (PollerState::Idle, PollerEvent::CycleStart) => PollerAction::AttemptConnect,
        (PollerState::Idle, PollerEvent::Cancelled) => PollerAction::Stop,
        (PollerState::Connecting, PollerEvent::ConnectTimedOut) => PollerAction::Proceed,
        (PollerState::Connecting, PollerEvent::ConnectFailed) => PollerAction::Sleep,
        (PollerState::Connecting, PollerEvent::ConnectEstablished) => PollerAction::EmitRecord,
        (PollerState::Connected, PollerEvent::PushAccepted) => PollerAction::Sleep,
        (PollerState::Connected, PollerEvent::PushRejected) => PollerAction::Stop,
        (PollerState::Cooldown, PollerEvent::CooldownElapsed) => PollerAction::Proceed,
        (PollerState::Cooldown, PollerEvent::Cancelled) => PollerAction::Stop,
        (PollerState::Terminated, _) => PollerAction::Stop,
        (_, _) => PollerAction::Proceed,
    }
}

/// The polling loop's decision-taking half: holds the current state and, for
/// each reported happening, moves and says what to perform next.
pub struct Poller {
    state: PollerState,
}

impl View for Poller {
    type V = PollerState;

    closed spec fn view(&self) -> PollerState {
        self.state
    }
}

impl Poller {
    /// A fresh loop, idle, with no attempt in flight.
    pub fn new() -> (p: Poller)
        ensures
            p@ == PollerState::Idle,
    {
        Poller { state: PollerState::Idle }
    }

    /// Takes one reported happening and answers with the action the host owes
    /// next, moving exactly as [`next_state`] says.
    pub fn step(&mut self, event: PollerEvent) -> (a: PollerAction)
        requires
            event_permitted(old(self)@, event),
        ensures
            final(self)@ == next_state(old(self)@, event),
            a == action_of(old(self)@, event),
    {
        let (next, action) = match (self.state, event) {
            (PollerState::Idle, PollerEvent::CycleStart) => (
                PollerState::Connecting,
                PollerAction::AttemptConnect,
            ),
            (PollerState::Idle, PollerEvent::Cancelled) => (
                PollerState::Terminated,
                PollerAction::Stop,
            ),
            (PollerState::Connecting, PollerEvent::ConnectTimedOut) => (
                PollerState::Idle,
                PollerAction::Proceed,
            ),
            (PollerState::Connecting, PollerEvent::ConnectFailed) => (
                PollerState::Cooldown,
                PollerAction::Sleep,
            ),
            (PollerState::Connecting, PollerEvent::ConnectEstablished) => (
                PollerState::Connected,
                PollerAction::EmitRecord,
            ),
            (PollerState::Connected, PollerEvent::PushAccepted) => (
                PollerState::Cooldown,
                PollerAction::Sleep,
            ),
            (PollerState::Connected, PollerEvent::PushRejected) => (
                PollerState::Terminated,
                PollerAction::Stop,
            ),
            (PollerState::Cooldown, PollerEvent::CooldownElapsed) => (
                PollerState::Idle,
                PollerAction::Proceed,
            ),
            (PollerState::Cooldown, PollerEvent::Cancelled) => (
                PollerState::Terminated,
                PollerAction::Stop,
            ),
            (PollerState::Terminated, _) => (PollerState::Terminated, PollerAction::Stop),
            (s, _) => (s, PollerAction::Proceed),
        };
        self.state = next;
        action
    }

    /// Whether the loop has reached its terminal state.
    pub fn is_terminated(&self) -> (r: bool)
        ensures
            r == (self@ is Terminated),
    {
        matches!(self.state, PollerState::Terminated)
    }
}

/// The state after a whole run of happenings.
pub open spec fn run_state(s: PollerState, evs: Seq<PollerEvent>) -> PollerState
    decreases evs.len(),
{
    if evs.len() == 0 {
        s
    } else {
        run_state(next_state(s, evs[0]), evs.drop_first())
    }
}

/// Whether every happening of a run is permitted in the state it meets.
pub open spec fn run_permitted(s: PollerState, evs: Seq<PollerEvent>) -> bool
    decreases evs.len(),
{
    evs.len() == 0 || (event_permitted(s, evs[0]) && run_permitted(
        next_state(s, evs[0]),
        evs.drop_first(),
    ))
}

/// How many records a run pushes into the sink.
pub open spec fn run_pushes(s: PollerState, evs: Seq<PollerEvent>) -> nat
    decreases evs.len(),
{
    if evs.len() == 0 {
        0
    } else {
        (if action_of(s, evs[0]) is EmitRecord {
            1nat
        } else {
            0nat
        }) + run_pushes(next_state(s, evs[0]), evs.drop_first())
    }
}

/// How many connection attempts a run makes.
pub open spec fn run_connects(s: PollerState, evs: Seq<PollerEvent>) -> nat
    decreases evs.len(),
{
    if evs.len() == 0 {
        0
    } else {
        (if action_of(s, evs[0]) is AttemptConnect {
            1nat
        } else {
            0nat
        }) + run_connects(next_state(s, evs[0]), evs.drop_first())
    }
}

/// Law: the terminal state is final. Once the loop has terminated, no run of
/// further happenings leaves it, attempts a connection, or pushes a record.
pub proof fn lemma_terminated_is_final(evs: Seq<PollerEvent>)
    ensures
        run_state(PollerState::Terminated, evs) == PollerState::Terminated,
        run_pushes(PollerState::Terminated, evs) == 0,
        run_connects(PollerState::Terminated, evs) == 0,
    decreases evs.len(),
{
    if evs.len() > 0 {
        lemma_terminated_is_final(evs.drop_first());
    }
}

/// Law: with a sink whose pushes always fail, any run pushes at most once
/// before the loop terminates — and a run that has already pushed, or starts
/// mid-cycle or terminated, pushes nothing more.
pub proof fn lemma_failing_sink_pushes_at_most_once(s: PollerState, evs: Seq<PollerEvent>)
    requires
        run_permitted(s, evs),
        forall|i: int| 0 <= i < evs.len() ==> !(#[trigger] evs[i] is PushAccepted),
    ensures
        run_pushes(s, evs) <= 1,
        (s is Connected || s is Terminated) ==> run_pushes(s, evs) == 0,
    decreases evs.len(),
{
    if evs.len() > 0 {
        lemma_failing_sink_pushes_at_most_once(next_state(s, evs[0]), evs.drop_first());
    }
}

/// How many connections a run of happenings establishes.
pub open spec fn count_establishes(evs: Seq<PollerEvent>) -> nat
    decreases evs.len(),
{
    if evs.len() == 0 {
        0
    } else {
        (if evs[0] is ConnectEstablished {
            1nat
        } else {
            0nat
        }) + count_establishes(evs.drop_first())
    }
}

/// Law: every record pushed corresponds to exactly one successful connection,
/// and conversely — the loop never emits without a fresh session and never
/// runs two fetch cycles for one. Stated of runs that have not terminated;
/// the terminal state is absorbing, so that excludes exactly the runs with
/// happenings after the end of the stream.
pub proof fn lemma_one_push_per_connection(s: PollerState, evs: Seq<PollerEvent>)
    requires
        run_permitted(s, evs),
        !(run_state(s, evs) is Terminated),
    ensures
        run_pushes(s, evs) == count_establishes(evs),
    decreases evs.len(),
{
    lemma_terminated_is_final(evs);
    if evs.len() > 0 {
        lemma_terminated_is_final(evs.drop_first());
        lemma_one_push_per_connection(next_state(s, evs[0]), evs.drop_first());
    }
}

/// How many cycles a run of happenings begins.
pub open spec fn count_cycle_starts(evs: Seq<PollerEvent>) -> nat
    decreases evs.len(),
{
    if evs.len() == 0 {
        0
    } else {
        (if evs[0] is CycleStart {
            1nat
        } else {
            0nat
        }) + count_cycle_starts(evs.drop_first())
    }
}

/// Law: while the store only times out, the loop never terminates and never
/// pushes; it keeps retrying, one connection attempt per cycle started, at
/// the cadence the host drives it with.
pub proof fn lemma_timeouts_keep_retrying(s: PollerState, evs: Seq<PollerEvent>)
    requires
        s is Idle || s is Connecting,
        run_permitted(s, evs),
        forall|i: int| 0 <= i < evs.len()
            ==> (#[trigger] evs[i]) is CycleStart || evs[i] is ConnectTimedOut,
    ensures
        run_state(s, evs) is Idle || run_state(s, evs) is Connecting,
        run_pushes(s, evs) == 0,
        run_connects(s, evs) == count_cycle_starts(evs),
    decreases evs.len(),
{
    if evs.len() > 0 {
        lemma_timeouts_keep_retrying(next_state(s, evs[0]), evs.drop_first());
    }
}

} // verus!
