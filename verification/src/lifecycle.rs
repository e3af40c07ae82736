//! The lifetime of a publisher: one `Start`, then a `Tick` for every wait
//! that ran its full period, then one `End`.

use vstd::prelude::*;
use crate::envelope::MessagePayload;

verus! {

/// Where a publisher stands in its lifetime.
#[derive(Clone, Copy, Debug, PartialEq, Eq, Structural)]
pub enum Stage {
    /// Nothing was sent yet.
    Idle,
    /// `Start` was sent, `End` was not.
    Running,
    /// `End` was sent.
    Done,
}

/// What a publisher's host reports to it.
#[derive(Clone, Copy, Debug, PartialEq, Eq, Structural)]
pub enum Signal {
    /// The process is up and the channel is bound.
    Launch,
    /// A wait ran its full period.
    Tick,
    /// The process was told to stop.
    Stop,
}

/// The stage that follows `stage` on `signal`.
pub open spec fn next_stage(stage: Stage, signal: Signal) -> Stage {
    match (stage, signal) {
        (Stage::Idle, Signal::Launch) => Stage::Running,
        (Stage::Running, Signal::Stop) => Stage::Done,
        _ => stage,
    }
}

/// The payload that a publisher in `stage` sends on `signal`, if any.
pub open spec fn payload_on(stage: Stage, signal: Signal) -> Option<MessagePayload> {
    match (stage, signal) {
        (Stage::Idle, Signal::Launch) => Some(MessagePayload::Start),
        (Stage::Running, Signal::Tick) => Some(MessagePayload::Tick),
        (Stage::Running, Signal::Stop) => Some(MessagePayload::End),
        _ => None,
    }
}

/// The stage after a run of signals.
pub open spec fn stage_after(stage: Stage, signals: Seq<Signal>) -> Stage
    decreases signals.len(),
{
    if signals.len() == 0 {
        stage
    } else {
        next_stage(stage_after(stage, signals.drop_last()), signals.last())
    }
}

/// The payloads sent over a run of signals, in order.
pub open spec fn stream(stage: Stage, signals: Seq<Signal>) -> Seq<MessagePayload>
    decreases signals.len(),
{
    if signals.len() == 0 {
        Seq::empty()
    } else {
        let before = stream(stage, signals.drop_last());
        match payload_on(stage_after(stage, signals.drop_last()), signals.last()) {
            Some(p) => before.push(p),
            None => before,
        }
    }
}

/// Whether `sent` is what a publisher that stands in `stage` has sent since
/// it was made: nothing while idle; `Start` and then only `Tick` while
/// running; `Start`, any number of `Tick`, and `End` when done.
pub open spec fn shaped(stage: Stage, sent: Seq<MessagePayload>) -> bool {
    match stage {
        Stage::Idle => sent.len() == 0,
        Stage::Running => {
            &&& sent.len() >= 1
            &&& sent[0] == MessagePayload::Start
            &&& forall|i: int| 1 <= i < sent.len() ==> sent[i] == MessagePayload::Tick
        },
        Stage::Done => {
            &&& sent.len() >= 2
            &&& sent[0] == MessagePayload::Start
            &&& sent.last() == MessagePayload::End
            &&& forall|i: int| 1 <= i < sent.len() - 1 ==> sent[i] == MessagePayload::Tick
        },
    }
}

/// One step keeps the shape: what was sent plus what the step sends has the
/// shape of the stage that the step leads to.
pub proof fn lemma_step_keeps_shape(stage: Stage, sent: Seq<MessagePayload>, signal: Signal)
    requires
        shaped(stage, sent),
    ensures
        shaped(
            next_stage(stage, signal),
            match payload_on(stage, signal) {
                Some(p) => sent.push(p),
                None => sent,
            },
        ),
{
}

/// Whatever signals reach a publisher from its making, what it sends has the
/// shape of its stage. For a lifetime that came to its end this reads: the
/// stream is exactly `Start`, then zero or more `Tick`, then `End`.
pub proof fn lemma_lifetime_stream(signals: Seq<Signal>)
    ensures
        shaped(stage_after(Stage::Idle, signals), stream(Stage::Idle, signals)),
    decreases signals.len(),
{
    if signals.len() > 0 {
        lemma_lifetime_stream(signals.drop_last());
        lemma_step_keeps_shape(
            stage_after(Stage::Idle, signals.drop_last()),
            stream(Stage::Idle, signals.drop_last()),
            signals.last(),
        );
    }
}

/// Decides one step of a publisher: the stage that follows and the payload to
/// send, if any.
pub fn step(stage: Stage, signal: Signal) -> (r: (Stage, Option<MessagePayload>))
    ensures
        r.0 == next_stage(stage, signal),
        r.1 == payload_on(stage, signal),
{
    match stage {
        Stage::Idle => match signal {
            Signal::Launch => (Stage::Running, Some(MessagePayload::Start)),
            _ => (stage, None),
        },
        Stage::Running => match signal {
            Signal::Tick => (Stage::Running, Some(MessagePayload::Tick)),
            Signal::Stop => (Stage::Done, Some(MessagePayload::End)),
            Signal::Launch => (stage, None),
        },
        Stage::Done => (stage, None),
    }
}

/// The lifetime of one publisher as it unfolds: the stage it has reached
/// and, for the proofs only, the payloads it has sent on the way.
pub struct Lifecycle {
    stage: Stage,
    streamed: Ghost<Seq<MessagePayload>>,
}

impl Lifecycle {
    #[verifier::type_invariant]
    closed spec fn inv(self) -> bool {
        shaped(self.stage, self.streamed@)
    }

    /// The stage reached.
    pub closed spec fn stage(self) -> Stage {
        self.stage
    }

    /// The payloads sent so far, oldest first.
    pub closed spec fn streamed(self) -> Seq<MessagePayload> {
        self.streamed@
    }

    /// A lifetime that has not begun.
    pub fn new() -> (r: Lifecycle)
        ensures
            r.stage() == Stage::Idle,
            r.streamed() == Seq::<MessagePayload>::empty(),
    {
        Lifecycle { stage: Stage::Idle, streamed: Ghost(Seq::empty()) }
    }

    /// The stage reached. What was sent on the way has the shape of that
    /// stage: at the end of a lifetime it is `Start`, then zero or more
    /// `Tick`, then `End`.
    pub fn current(&self) -> (r: Stage)
        ensures
            r == self.stage(),
            shaped(self.stage(), self.streamed()),
    {
        proof {
            use_type_invariant(self);
        }
        self.stage
    }

    /// The payload to send on `signal`, if any. Nothing moves, and what was
    /// sent so far has the shape of the stage reached.
    pub fn due(&self, signal: Signal) -> (r: Option<MessagePayload>)
        ensures
            r == payload_on(self.stage(), signal),
            shaped(self.stage(), self.streamed()),
    {
        proof {
            use_type_invariant(self);
        }
        step(self.stage, signal).1
    }

    /// Moves on by one signal, once what was due on it has been sent.
    pub fn advance(&mut self, signal: Signal) -> (r: Option<MessagePayload>)
        ensures
            r == payload_on(old(self).stage(), signal),
            final(self).stage() == next_stage(old(self).stage(), signal),
            final(self).streamed() == (match r {
                Some(payload) => old(self).streamed().push(payload),
                None => old(self).streamed(),
            }),
            shaped(final(self).stage(), final(self).streamed()),
    {
        proof {
            use_type_invariant(&*self);
            lemma_step_keeps_shape(self.stage, self.streamed@, signal);
        }
        let (next, due) = step(self.stage, signal);
        *self = Lifecycle {
            stage: next,
            streamed: Ghost(
                match due {
                    Some(payload) => self.streamed@.push(payload),
                    None => self.streamed@,
                },
            ),
        };
        due
    }
}

impl Signal {
    /// What the end of a wait means to a publisher: a tick where the wait ran
    /// its full period, a stop where it was cut short.
    pub fn after_wait(full: bool) -> (r: Signal)
        ensures
            r == (if full {
                Signal::Tick
            } else {
                Signal::Stop
            }),
    {
        if full {
            Signal::Tick
        } else {
            Signal::Stop
        }
    }
}

} // verus!
