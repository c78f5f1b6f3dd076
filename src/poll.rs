//! The per-frame poll protocol that requests frame captures and picks them
//! up once ready, without ever waiting on the worker.

use vstd::prelude::*;

verus! {

/// Whether a capture is outstanding.
#[derive(Clone, Copy, Debug, PartialEq, Eq, Structural)]
pub enum PollState {
    Idle,
    AwaitingFrame,
}

/// What a non-blocking look at the outstanding result cell found. A cell
/// whose lock is contended counts as `NotReady`.
#[derive(Clone, Copy, Debug, PartialEq, Eq, Structural)]
pub enum CellObservation {
    Ready,
    NotReady,
}

/// What the host does this frame.
#[derive(Clone, Copy, Debug, PartialEq, Eq, Structural)]
pub enum PollAction {
    /// Issue a capture request.
    RequestFrame,
    /// Take the ready buffer, hand it to the display, and issue a new request.
    DisplayAndRequest,
    /// Nothing this frame.
    Wait,
}

pub open spec fn spec_action(s: PollState, o: CellObservation) -> PollAction {
    match s {
        PollState::Idle => PollAction::RequestFrame,
        PollState::AwaitingFrame => match o {
            CellObservation::Ready => PollAction::DisplayAndRequest,
            CellObservation::NotReady => PollAction::Wait,
        },
    }
}

/// After a step a capture is always outstanding: a fresh one from `Idle`,
/// a re-armed one after a display, or the same one while waiting.
pub open spec fn spec_next(s: PollState, o: CellObservation) -> PollState {
    PollState::AwaitingFrame
}

/// Capture requests an action issues.
pub open spec fn issued(a: PollAction) -> int {
    match a {
        PollAction::Wait => 0,
        _ => 1,
    }
}

/// Results an action claims.
pub open spec fn claimed(a: PollAction) -> int {
    match a {
        PollAction::DisplayAndRequest => 1,
        _ => 0,
    }
}

/// Outstanding requests that a state stands for.
pub open spec fn in_flight(s: PollState) -> int {
    match s {
        PollState::Idle => 0,
        PollState::AwaitingFrame => 1,
    }
}

/// The state after polling on `obs` in turn from `Idle`, and the number of
/// requests issued and not yet claimed.
pub open spec fn run(obs: Seq<CellObservation>) -> (PollState, int)
    decreases obs.len(),
{
    if obs.len() == 0 {
        (PollState::Idle, 0)
    } else {
        let (s, n) = run(obs.drop_last());
        let a = spec_action(s, obs.last());
        (spec_next(s, obs.last()), n + issued(a) - claimed(a))
    }
}

/// Whatever the cells are found to hold, frame after frame, an instance never
/// has more than one unclaimed capture request, and it has one exactly when
/// it is awaiting a frame.
pub proof fn lemma_at_most_one_in_flight(obs: Seq<CellObservation>)
    ensures
        run(obs).1 == in_flight(run(obs).0),
        0 <= run(obs).1 <= 1,
    decreases obs.len(),
{
    if obs.len() > 0 {
        lemma_at_most_one_in_flight(obs.drop_last());
    }
}

/// The poll state of one host-side instance, with a count of the capture
/// requests it has issued and of the results it has claimed.
#[derive(Clone, Copy)]
pub struct FramePoll {
    state: PollState,
    requested: Ghost<nat>,
    taken: Ghost<nat>,
}

impl FramePoll {
    pub closed spec fn spec_state(&self) -> PollState {
        self.state
    }

    pub closed spec fn requested(&self) -> nat {
        self.requested@
    }

    pub closed spec fn taken(&self) -> nat {
        self.taken@
    }

    /// Requests issued and not yet claimed.
    pub open spec fn outstanding(&self) -> int {
        self.requested() - self.taken()
    }

    /// The counts agree with the state: one request is outstanding exactly
    /// when a frame is awaited.
    pub open spec fn wf(&self) -> bool {
        self.outstanding() == in_flight(self.spec_state())
    }

    /// An instance with no capture requested.
    pub fn new() -> (r: FramePoll)
        ensures
            r.wf(),
            r.spec_state() == PollState::Idle,
            r.requested() == 0,
            r.taken() == 0,
    {
        FramePoll { state: PollState::Idle, requested: Ghost(0), taken: Ghost(0) }
    }

    pub fn state(&self) -> (r: PollState)
        ensures
            r == self.spec_state(),
    {
        self.state
    }

    /// One frame's step: decides what to do given what the outstanding cell
    /// was found to hold (ignored when `Idle`), and moves to the next state.
    pub fn step(&mut self, obs: CellObservation) -> (r: PollAction)
        requires
            old(self).wf(),
        ensures
            r == spec_action(old(self).spec_state(), obs),
            final(self).spec_state() == spec_next(old(self).spec_state(), obs),
            final(self).requested() == old(self).requested() + issued(r),
            final(self).taken() == old(self).taken() + claimed(r),
            final(self).wf(),
            0 <= final(self).outstanding() <= 1,
    {
        let action = match self.state {
            PollState::Idle => PollAction::RequestFrame,
            PollState::AwaitingFrame => match obs {
                CellObservation::Ready => PollAction::DisplayAndRequest,
                CellObservation::NotReady => PollAction::Wait,
            },
        };
        proof {
            self.requested = Ghost((self.requested@ + issued(action)) as nat);
            self.taken = Ghost((self.taken@ + claimed(action)) as nat);
        }
        self.state = PollState::AwaitingFrame;
        action
    }
}

impl PollAction {
    /// The action issues a capture request.
    pub fn requests_frame(&self) -> (r: bool)
        ensures
            r == (issued(*self) == 1),
    {
        !matches!(self, PollAction::Wait)
    }

    /// The action hands a ready buffer to the display.
    pub fn displays_frame(&self) -> (r: bool)
        ensures
            r == (claimed(*self) == 1),
    {
        matches!(self, PollAction::DisplayAndRequest)
    }
}

} // verus!
