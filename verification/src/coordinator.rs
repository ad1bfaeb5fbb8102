//! The repeating discovery cycle: issue an inquiry, wait until the
//! controller reports its end, pace, and start over.

use vstd::prelude::*;

verus! {

/// Duration code of an inquiry: eight units of 1.28 seconds.
pub const INQUIRY_DURATION: u8 = 0x08;

/// Response limit that stands for "no limit".
pub const UNLIMITED_RESPONSES: u8 = 0x00;

/// Pause between the end of one inquiry and the start of the next, in
/// milliseconds.
pub const PACING_DELAY_MS: u64 = 100;

/// The parameters of one inquiry.
#[derive(Clone, Copy, Debug)]
pub struct InquiryCycle {
    /// Access code that scopes the inquiry.
    pub lap: [u8; 3],
    /// Duration code.
    pub duration: u8,
    /// Most responses wanted, or `UNLIMITED_RESPONSES`.
    pub max_responses: u8,
}

impl InquiryCycle {
    /// An inquiry for every device in range: the general access code, the
    /// usual duration, no limit on the responses.
    pub fn general() -> (r: Self)
        ensures
            r.lap@ == seq![0x9eu8, 0x8bu8, 0x33u8],
            r.duration == INQUIRY_DURATION,
            r.max_responses == UNLIMITED_RESPONSES,
    {
        let r = InquiryCycle {
            lap: [0x9e, 0x8b, 0x33],
            duration: INQUIRY_DURATION,
            max_responses: UNLIMITED_RESPONSES,
        };
        assert(r.lap@ =~= seq![0x9eu8, 0x8bu8, 0x33u8]);
        r
    }
}

/// Whether a completion is waiting to be observed.
pub struct SignalModel {
    pub pending: bool,
}

impl SignalModel {
    /// The signal after a completion was delivered, and whether the signal
    /// took it: a completion that arrives while another is pending is
    /// dropped.
    pub open spec fn notify(self) -> (SignalModel, bool) {
        (SignalModel { pending: true }, !self.pending)
    }

    /// The signal after a wait looked at it, and whether the wait observed a
    /// completion.
    pub open spec fn take(self) -> (SignalModel, bool) {
        (SignalModel { pending: false }, self.pending)
    }

    /// The signal after `n` completions were delivered in a row.
    pub open spec fn notify_times(self, n: nat) -> SignalModel
        decreases n,
    {
        if n == 0 {
            self
        } else {
            self.notify().0.notify_times((n - 1) as nat)
        }
    }
}

/// A completion that is delivered before the wait begins is observed by the
/// very next wait.
pub proof fn lemma_early_signal_is_observed(signal: SignalModel)
    ensures
        signal.notify().0.take().1,
{
}

/// A completion that is delivered while one is pending is dropped: however
/// many are delivered in a row, the next wait observes one and the wait
/// after that observes none.
pub proof fn lemma_second_signal_is_dropped(signal: SignalModel, n: nat)
    requires
        n >= 1,
    ensures
        signal.notify().0.notify().1 == false,
        signal.notify_times(n).take().1,
        !signal.notify_times(n).take().0.take().1,
    decreases n,
{
    reveal_with_fuel(SignalModel::notify_times, 2);
    if n > 1 {
        lemma_second_signal_is_dropped(signal.notify().0, (n - 1) as nat);
    }
}

/// The single slot through which the end of an inquiry reaches the
/// coordinator.
pub struct CompletionSignal {
    pending: bool,
}

impl View for CompletionSignal {
    type V = SignalModel;

    closed spec fn view(&self) -> SignalModel {
        SignalModel { pending: self.pending }
    }
}

impl CompletionSignal {
    /// A signal with nothing pending.
    pub fn new() -> (r: Self)
        ensures
            r@ == (SignalModel { pending: false }),
    {
        CompletionSignal { pending: false }
    }

    /// Whether a completion is pending.
    pub fn is_pending(&self) -> (r: bool)
        ensures
            r == self@.pending,
    {
        self.pending
    }

    /// Delivers a completion. Returns whether the slot took it; it is
    /// dropped where a completion is pending already.
    pub fn notify(&mut self) -> (accepted: bool)
        ensures
            (final(self)@, accepted) == old(self)@.notify(),
    {
        let accepted = !self.pending;
        self.pending = true;
        accepted
    }

    /// Observes the pending completion, if there is one, and empties the
    /// slot.
    pub fn take(&mut self) -> (observed: bool)
        ensures
            (final(self)@, observed) == old(self)@.take(),
    {
        let observed = self.pending;
        self.pending = false;
        observed
    }
}

/// Where the coordinator stands in the cycle.
#[derive(Clone, Copy, Debug, PartialEq, Eq, Structural)]
pub enum CoordinatorState {
    /// Between two inquiries.
    Idle,
    /// The inquiry command is on its way to the controller.
    Running,
    /// The inquiry runs; its end has not been observed.
    AwaitingCompletion,
    /// The inquiry command failed. Nothing leads out of this state.
    Failed,
}

/// What happened since the last step.
#[derive(Clone, Copy, Debug, PartialEq, Eq, Structural)]
pub enum CoordinatorEvent {
    /// The next cycle is due.
    Begin,
    /// The transport wrote the inquiry command.
    CommandAccepted,
    /// The transport failed to write the inquiry command.
    CommandFailed,
    /// The completion signal held a completion.
    CompletionObserved,
}

/// What is to be done next.
#[derive(Clone, Copy, Debug)]
pub enum CoordinatorAction {
    /// Write the inquiry command with these parameters.
    IssueInquiry(InquiryCycle),
    /// Wait on the completion signal.
    AwaitCompletion,
    /// Wait this long, then begin the next cycle.
    Pace { delay_ms: u64 },
    /// Give the command error to the caller and stop.
    Abort,
    /// The event does not concern the state: nothing.
    Nothing,
}

/// The state after `event` in `state`.
pub open spec fn next_state(state: CoordinatorState, event: CoordinatorEvent) -> CoordinatorState {
    match (state, event) {
        (CoordinatorState::Idle, CoordinatorEvent::Begin) => CoordinatorState::Running,
        (CoordinatorState::Running, CoordinatorEvent::CommandAccepted) => {
            CoordinatorState::AwaitingCompletion
        },
        (CoordinatorState::Running, CoordinatorEvent::CommandFailed) => CoordinatorState::Failed,
        (CoordinatorState::AwaitingCompletion, CoordinatorEvent::CompletionObserved) => {
            CoordinatorState::Idle
        },
        _ => state,
    }
}

/// The action that `event` in `state` calls for.
pub open spec fn next_action(
    state: CoordinatorState,
    event: CoordinatorEvent,
    cycle: InquiryCycle,
    pacing_ms: u64,
) -> CoordinatorAction {
    match (state, event) {
        (CoordinatorState::Idle, CoordinatorEvent::Begin) => CoordinatorAction::IssueInquiry(cycle),
        (CoordinatorState::Running, CoordinatorEvent::CommandAccepted) => {
            CoordinatorAction::AwaitCompletion
        },
        (CoordinatorState::Running, CoordinatorEvent::CommandFailed) => CoordinatorAction::Abort,
        (CoordinatorState::AwaitingCompletion, CoordinatorEvent::CompletionObserved) => {
            CoordinatorAction::Pace { delay_ms: pacing_ms }
        },
        _ => CoordinatorAction::Nothing,
    }
}

/// The state after the events, taken one after the other.
pub open spec fn state_after(state: CoordinatorState, events: Seq<CoordinatorEvent>) -> CoordinatorState
    decreases events.len(),
{
    if events.len() == 0 {
        state
    } else {
        state_after(next_state(state, events[0]), events.drop_first())
    }
}

/// One cycle leads from idle through running and waiting back to idle.
pub proof fn lemma_cycle_returns_to_idle()
    ensures
        state_after(
            CoordinatorState::Idle,
            seq![
                CoordinatorEvent::Begin,
                CoordinatorEvent::CommandAccepted,
                CoordinatorEvent::CompletionObserved,
            ],
        ) == CoordinatorState::Idle,
{
    let events = seq![
        CoordinatorEvent::Begin,
        CoordinatorEvent::CommandAccepted,
        CoordinatorEvent::CompletionObserved,
    ];
    reveal_with_fuel(state_after, 4);
    assert(events.drop_first().drop_first().drop_first().len() == 0);
}

/// The failed state is entered only by a failed command while running.
pub proof fn lemma_failure_needs_failed_command(state: CoordinatorState, event: CoordinatorEvent)
    requires
        state != CoordinatorState::Failed,
    ensures
        next_state(state, event) == CoordinatorState::Failed <==> state
            == CoordinatorState::Running && event == CoordinatorEvent::CommandFailed,
{
}

/// Nothing leads out of the failed state.
pub proof fn lemma_failure_is_terminal(events: Seq<CoordinatorEvent>)
    ensures
        state_after(CoordinatorState::Failed, events) == CoordinatorState::Failed,
    decreases events.len(),
{
    if events.len() > 0 {
        lemma_failure_is_terminal(events.drop_first());
    }
}

/// Drives the discovery cycle. It decides; whoever runs it writes the
/// command, waits and sleeps, and reports back what happened.
pub struct InquiryCoordinator {
    state: CoordinatorState,
    cycle: InquiryCycle,
    pacing_ms: u64,
}

impl InquiryCoordinator {
    /// The state the coordinator is in.
    pub closed spec fn spec_state(&self) -> CoordinatorState {
        self.state
    }

    /// The inquiry that every cycle issues.
    pub closed spec fn spec_cycle(&self) -> InquiryCycle {
        self.cycle
    }

    /// The pause between two cycles, in milliseconds.
    pub closed spec fn spec_pacing_ms(&self) -> u64 {
        self.pacing_ms
    }

    /// An idle coordinator that issues `cycle` and pauses `pacing_ms`
    /// milliseconds between two cycles.
    pub fn new(cycle: InquiryCycle, pacing_ms: u64) -> (r: Self)
        ensures
            r.spec_state() == CoordinatorState::Idle,
            r.spec_cycle() == cycle,
            r.spec_pacing_ms() == pacing_ms,
    {
        InquiryCoordinator { state: CoordinatorState::Idle, cycle, pacing_ms }
    }

    /// The state the coordinator is in.
    pub fn state(&self) -> (r: CoordinatorState)
        ensures
            r == self.spec_state(),
    {
        self.state
    }

    /// Takes one event and tells what to do next.
    pub fn step(&mut self, event: CoordinatorEvent) -> (action: CoordinatorAction)
        ensures
            final(self).spec_state() == next_state(old(self).spec_state(), event),
            action == next_action(
                old(self).spec_state(),
                event,
                old(self).spec_cycle(),
                old(self).spec_pacing_ms(),
            ),
            final(self).spec_cycle() == old(self).spec_cycle(),
            final(self).spec_pacing_ms() == old(self).spec_pacing_ms(),
    {
        let (state, action) = match (self.state, event) {
            (CoordinatorState::Idle, CoordinatorEvent::Begin) => (
                CoordinatorState::Running,
                CoordinatorAction::IssueInquiry(self.cycle),
            ),
            (CoordinatorState::Running, CoordinatorEvent::CommandAccepted) => (
                CoordinatorState::AwaitingCompletion,
                CoordinatorAction::AwaitCompletion,
            ),
            (CoordinatorState::Running, CoordinatorEvent::CommandFailed) => (
                CoordinatorState::Failed,
                CoordinatorAction::Abort,
            ),
            (CoordinatorState::AwaitingCompletion, CoordinatorEvent::CompletionObserved) => (
                CoordinatorState::Idle,
                CoordinatorAction::Pace { delay_ms: self.pacing_ms },
            ),
            (state, _) => (state, CoordinatorAction::Nothing),
        };
        self.state = state;
        action
    }

    /// Looks at the completion signal while the end of the inquiry is
    /// awaited. A pending completion is consumed and ends the wait; without
    /// one the coordinator goes on waiting. In any other state the signal is
    /// left alone, so that an early completion is kept for the wait to come.
    pub fn poll(&mut self, signal: &mut CompletionSignal) -> (action: CoordinatorAction)
        ensures
            final(self).spec_cycle() == old(self).spec_cycle(),
            final(self).spec_pacing_ms() == old(self).spec_pacing_ms(),
            old(self).spec_state() != CoordinatorState::AwaitingCompletion ==> {
                &&& final(self).spec_state() == old(self).spec_state()
                &&& final(signal)@ == old(signal)@
                &&& action is Nothing
            },
            old(self).spec_state() == CoordinatorState::AwaitingCompletion && old(signal)@.pending
                ==> {
                &&& final(self).spec_state() == CoordinatorState::Idle
                &&& final(signal)@ == old(signal)@.take().0
                &&& action == (CoordinatorAction::Pace { delay_ms: old(self).spec_pacing_ms() })
            },
            old(self).spec_state() == CoordinatorState::AwaitingCompletion && !old(signal)@.pending
                ==> {
                &&& final(self).spec_state() == CoordinatorState::AwaitingCompletion
                &&& final(signal)@ == old(signal)@
                &&& action is AwaitCompletion
            },
    {
        match self.state {
            CoordinatorState::AwaitingCompletion => {
                if signal.take() {
                    self.step(CoordinatorEvent::CompletionObserved)
                } else {
                    CoordinatorAction::AwaitCompletion
                }
            },
            _ => CoordinatorAction::Nothing,
        }
    }
}

} // verus!
