//! The orchestrator: one subscriber per agent, visited in a fixed round,
//! until it is told to stop.
//!
//! The orchestrator does not loop by itself. Its host calls [`Orchestrator::step`]
//! again and again, each time with the cancellation flag as it stands, and may
//! yield between two calls. One step is one visit of one subscriber, or the end
//! of the run.

use vstd::prelude::*;
use vstd::string::*;
use crate::channel::{valid_channel_name, TransportError};
use crate::subscriber::{s, subscriber};
use crate::text::{decimal, decimal_text, lemma_decimal_injective, lemma_decimal_of_word};
use crate::tracker::{visited, Drain, SequenceTracker};
use crate::transport::IpcNode;

verus! {

/// The name of the channel of the agent with this index: the word `testing`
/// and the index in decimal.
pub open spec fn agent_name_spec(index: nat) -> Seq<char> {
    "testing"@ + decimal(index)
}

/// The name of the channel of the agent with this index.
pub fn agent_name(index: usize) -> (r: String)
    ensures
        r@ == agent_name_spec(index as nat),
{
    let mut name = String::from_str("testing");
    let digits = decimal_text(index);
    name.append(digits.as_str());
    name
}

/// Every agent's name can be the name of a channel.
pub proof fn lemma_agent_name_valid(index: nat)
    requires
        index <= usize::MAX,
    ensures
        valid_channel_name(agent_name_spec(index)),
{
    let name = agent_name_spec(index);
    reveal_strlit("testing");
    reveal_strlit("iox2://");
    lemma_decimal_of_word(index);
    assert("iox2://"@[0] == 'i');
    assert forall|i: int| 0 <= i < name.len() implies '\0' <= #[trigger] name[i] <= '\u{7f}' by {}
    vstd::utf8::is_ascii_chars_encode_utf8(name);
}

/// Two agents with the same name are the same agent: no two agents share a
/// channel.
pub proof fn lemma_agent_names_distinct(a: nat, b: nat)
    requires
        agent_name_spec(a) == agent_name_spec(b),
    ensures
        a == b,
{
    let head = "testing"@;
    let x = agent_name_spec(a);
    let y = agent_name_spec(b);
    assert(decimal(a) =~= x.subrange(head.len() as int, x.len() as int));
    assert(decimal(b) =~= y.subrange(head.len() as int, y.len() as int));
    lemma_decimal_injective(a, b);
}

/// The states of an orchestrator. They follow one another in this order and
/// none comes again.
#[derive(Clone, Copy, Debug, PartialEq, Eq, Structural)]
pub enum Phase {
    /// The agents are being launched; no subscriber is open.
    Starting,
    /// The subscribers are visited round after round.
    Running,
    /// Cancellation was seen; the round under way is brought to its end.
    Cancelling,
    /// The run is over; the counts are final.
    Finished,
}

/// The place of a phase in the order of the phases.
pub open spec fn rank(phase: Phase) -> nat {
    match phase {
        Phase::Starting => 0,
        Phase::Running => 1,
        Phase::Cancelling => 2,
        Phase::Finished => 3,
    }
}

/// Whether subscribers are visited in this phase.
pub open spec fn polling(phase: Phase) -> bool {
    phase is Running || phase is Cancelling
}

/// Whether the step taken at this point ends the run: the orchestrator stands
/// at the top of a round and cancellation is raised, now or since an earlier
/// step.
pub open spec fn ends(phase: Phase, cursor: nat, cancelled: bool) -> bool {
    polling(phase) && cursor == 0 && (cancelled || phase is Cancelling)
}

/// Whether the step taken at this point visits a subscriber.
pub open spec fn visits(phase: Phase, cursor: nat, agents: nat, cancelled: bool) -> bool {
    polling(phase) && !ends(phase, cursor, cancelled) && agents > 0
}

/// The phase after one step.
pub open spec fn next_phase(phase: Phase, cursor: nat, cancelled: bool) -> Phase {
    if ends(phase, cursor, cancelled) {
        Phase::Finished
    } else if polling(phase) && cancelled {
        Phase::Cancelling
    } else {
        phase
    }
}

/// The subscriber that is next in the round after one step.
pub open spec fn next_cursor(phase: Phase, cursor: nat, agents: nat, cancelled: bool) -> nat {
    if visits(phase, cursor, agents, cancelled) {
        if cursor + 1 == agents {
            0
        } else {
            cursor + 1
        }
    } else {
        cursor
    }
}

/// The phase and the cursor after `steps` steps that all see cancellation
/// raised.
pub open spec fn after_cancel(phase: Phase, cursor: nat, agents: nat, steps: nat) -> (Phase, nat)
    decreases steps,
{
    if steps == 0 {
        (phase, cursor)
    } else {
        after_cancel(
            next_phase(phase, cursor, true),
            next_cursor(phase, cursor, agents, true),
            agents,
            (steps - 1) as nat,
        )
    }
}

/// The steps that a polling orchestrator still takes once cancellation is
/// raised: the visits that bring the round under way to its end, and the step
/// that ends the run.
pub open spec fn steps_to_finish(cursor: nat, agents: nat) -> nat {
    if cursor == 0 {
        1
    } else {
        (agents - cursor + 1) as nat
    }
}

/// No step leads back: the phase after a step is the same or a later one, and
/// a finished run stays finished.
pub proof fn lemma_phases_in_order(phase: Phase, cursor: nat, cancelled: bool)
    ensures
        rank(next_phase(phase, cursor, cancelled)) >= rank(phase),
        phase is Finished ==> next_phase(phase, cursor, cancelled) is Finished,
        !cancelled && phase is Running ==> next_phase(phase, cursor, cancelled) is Running,
{
}

/// Once cancellation is raised, a polling orchestrator finishes within one
/// round: it takes no more steps than it has agents (one step where it has
/// none), visits on the way only the subscribers that the round under way
/// had not reached yet, each once and in order, and starts no new round.
pub proof fn lemma_cancel_ends_within_a_round(phase: Phase, cursor: nat, agents: nat)
    requires
        polling(phase),
        cursor == 0 || cursor < agents,
    ensures
        after_cancel(phase, cursor, agents, steps_to_finish(cursor, agents)).0 is Finished,
        steps_to_finish(cursor, agents) <= agents || steps_to_finish(cursor, agents) == 1,
        forall|k: nat|
            k < steps_to_finish(cursor, agents) ==> polling(
                (#[trigger] after_cancel(phase, cursor, agents, k)).0,
            ),
        forall|k: nat|
            k + 1 < steps_to_finish(cursor, agents) ==> (#[trigger] after_cancel(
                phase,
                cursor,
                agents,
                k,
            )).1 == cursor + k,
    decreases steps_to_finish(cursor, agents),
{
    reveal_with_fuel(after_cancel, 3);
    if cursor > 0 {
        let later_phase = next_phase(phase, cursor, true);
        let later_cursor = next_cursor(phase, cursor, agents, true);
        if cursor + 1 < agents {
            lemma_cancel_ends_within_a_round(later_phase, later_cursor, agents);
            assert forall|k: nat| k < steps_to_finish(cursor, agents) implies polling(
                (#[trigger] after_cancel(phase, cursor, agents, k)).0,
            ) by {
                if k > 0 {
                    let j = (k - 1) as nat;
                    assert(after_cancel(phase, cursor, agents, k) == after_cancel(
                        later_phase,
                        later_cursor,
                        agents,
                        j,
                    ));
                }
            }
            assert forall|k: nat| k + 1 < steps_to_finish(cursor, agents) implies (
            #[trigger] after_cancel(phase, cursor, agents, k)).1 == cursor + k by {
                if k > 0 {
                    let j = (k - 1) as nat;
                    assert(after_cancel(phase, cursor, agents, k) == after_cancel(
                        later_phase,
                        later_cursor,
                        agents,
                        j,
                    ));
                }
            }
        } else {
            assert forall|k: nat| k < steps_to_finish(cursor, agents) implies polling(
                (#[trigger] after_cancel(phase, cursor, agents, k)).0,
            ) by {}
        }
    }
}

/// What one step did.
#[derive(Debug)]
pub enum Step {
    /// Nothing: the orchestrator is not running yet, or it has no agents.
    Idle,
    /// One subscriber was visited: which one, and what the visit gave.
    Visited { agent: usize, outcome: Result<Drain, TransportError> },
    /// The run is over.
    Finished,
}

/// The orchestrator's state: the names of its agents, one subscriber for each
/// once it runs, the subscriber that is next in the round, and the phase.
pub struct Orchestrator {
    names: Vec<String>,
    subscribers: Vec<s>,
    cursor: usize,
    phase: Phase,
}

impl Orchestrator {
    /// The names of the agents' channels, by index.
    pub closed spec fn names(&self) -> Seq<Seq<char>> {
        Seq::new(self.names@.len(), |i: int| self.names@[i]@)
    }

    /// The number of agents.
    pub open spec fn agents(&self) -> nat {
        self.names().len()
    }

    /// The phase.
    pub closed spec fn phase(&self) -> Phase {
        self.phase
    }

    /// The index of the subscriber that the next visit goes to.
    pub closed spec fn cursor(&self) -> nat {
        self.cursor as nat
    }

    /// The trackers of the open subscribers, by index.
    pub closed spec fn trackers(&self) -> Seq<SequenceTracker> {
        Seq::new(self.subscribers@.len(), |i: int| self.subscribers@[i].tracker())
    }

    /// The count kept for each agent, by index: the last sequence number seen
    /// on its channel, and zero where none was seen.
    pub open spec fn counts(&self) -> Seq<usize> {
        Seq::new(
            self.agents(),
            |i: int|
                if i < self.trackers().len() {
                    self.trackers()[i].count()
                } else {
                    0usize
                },
        )
    }

    /// The state is sound: the agents bear their names, each open subscriber
    /// is bound to the channel of its agent, there is none before the run and
    /// one for each agent from then on, and the cursor points at one of them.
    pub closed spec fn wf(&self) -> bool {
        &&& forall|i: int|
            0 <= i < self.names@.len() ==> (#[trigger] self.names@[i])@ == agent_name_spec(i as nat)
        &&& (self.phase is Starting ==> self.subscribers@.len() == 0)
        &&& (!(self.phase is Starting) ==> self.subscribers@.len() == self.names@.len())
        &&& forall|i: int|
            0 <= i < self.subscribers@.len() ==> (#[trigger] self.subscribers@[i]).name()
                == self.names@[i]@
        &&& (self.cursor == 0 || self.cursor < self.subscribers@.len())
    }

    /// What a sound state means for the numbers that contracts speak of.
    pub proof fn lemma_sound(&self)
        requires
            self.wf(),
        ensures
            forall|i: int| 0 <= i < self.agents() ==> #[trigger] self.names()[i] == agent_name_spec(
                i as nat,
            ),
            self.trackers().len() == (if self.phase() is Starting {
                0
            } else {
                self.agents()
            }),
            self.cursor() == 0 || self.cursor() < self.agents(),
    {
        assert forall|i: int| 0 <= i < self.agents() implies #[trigger] self.names()[i]
            == agent_name_spec(i as nat) by {}
    }

    /// An orchestrator for `agents` agents, before the run. The agents are
    /// named by their index.
    pub fn new(agents: usize) -> (r: Orchestrator)
        ensures
            r.wf(),
            r.phase() is Starting,
            r.cursor() == 0,
            r.agents() == agents,
            r.trackers().len() == 0,
            forall|i: int| 0 <= i < agents ==> #[trigger] r.names()[i] == agent_name_spec(i as nat),
    {
        let mut names: Vec<String> = Vec::new();
        let mut i: usize = 0;
        while i < agents
            invariant
                i <= agents,
                names@.len() == i,
                forall|j: int| 0 <= j < i ==> (#[trigger] names@[j])@ == agent_name_spec(j as nat),
            decreases agents - i,
        {
            names.push(agent_name(i));
            i = i + 1;
        }
        let r = Orchestrator { names, subscribers: Vec::new(), cursor: 0, phase: Phase::Starting };
        proof {
            r.lemma_sound();
        }
        r
    }

    /// The names of the agents' channels, by index.
    pub fn agent_names(&self) -> (r: &Vec<String>)
        ensures
            r@.len() == self.agents(),
            forall|i: int| 0 <= i < r@.len() ==> (#[trigger] r@[i])@ == self.names()[i],
    {
        &self.names
    }

    /// The phase.
    pub fn current_phase(&self) -> (r: Phase)
        ensures
            r == self.phase(),
    {
        self.phase
    }

    /// Opens one subscriber for each agent, in the order of the agents, and
    /// begins the run. The first subscriber that cannot be opened ends the
    /// attempt: the orchestrator then stays as it was, with no subscriber.
    /// Outside the starting phase nothing is done.
    pub fn open(&mut self, node: &IpcNode) -> (r: Result<(), TransportError>)
        requires
            old(self).wf(),
        ensures
            final(self).wf(),
            final(self).names() == old(self).names(),
            final(self).cursor() == old(self).cursor(),
            !(old(self).phase() is Starting) ==> {
                &&& r is Ok
                &&& final(self).phase() == old(self).phase()
                &&& final(self).trackers() == old(self).trackers()
            },
            old(self).phase() is Starting && r is Ok ==> {
                &&& final(self).phase() is Running
                &&& final(self).trackers().len() == final(self).agents()
                &&& forall|i: int|
                    0 <= i < final(self).agents() ==> (#[trigger] final(self).trackers()[i]).last_seen()
                        is None
            },
            old(self).phase() is Starting && r is Err ==> {
                &&& final(self).phase() is Starting
                &&& final(self).trackers() == old(self).trackers()
            },
            r matches Err(e) ==> e is Channel || e is SubscriberAttach,
    {
        if self.phase != Phase::Starting {
            return Ok(());
        }
        let mut opened: Vec<s> = Vec::new();
        let mut i: usize = 0;
        while i < self.names.len()
            invariant
                *self == *old(self),
                self.wf(),
                self.phase is Starting,
                i <= self.names@.len(),
                opened@.len() == i,
                forall|j: int| 0 <= j < i ==> (#[trigger] opened@[j]).name() == self.names@[j]@,
                forall|j: int| 0 <= j < i ==> (#[trigger] opened@[j]).tracker().last_seen() is None,
            decreases self.names@.len() - i,
        {
            proof {
                lemma_agent_name_valid(i as nat);
            }
            match subscriber(self.names[i].clone(), node) {
                Ok(port) => {
                    opened.push(port);
                },
                Err(e) => {
                    return Err(e);
                },
            }
            i = i + 1;
        }
        self.subscribers = opened;
        self.phase = Phase::Running;
        Ok(())
    }

    /// One step of the run, with the cancellation flag as the host sees it now.
    ///
    /// At the top of a round, raised cancellation ends the run. Anywhere else
    /// the step visits the subscriber whose turn it is: drains its channel,
    /// judges the sequence, and moves the cursor on by one, back to the first
    /// after the last. Cancellation raised in the middle of a round is kept in
    /// mind and leaves the round to be finished. A failed drain changes
    /// nothing but the cursor: the subscriber gets its next turn like the
    /// others. No visit touches the tracker of another subscriber.
    pub fn step(&mut self, cancelled: bool) -> (r: Step)
        requires
            old(self).wf(),
        ensures
            final(self).wf(),
            final(self).names() == old(self).names(),
            final(self).phase() == next_phase(old(self).phase(), old(self).cursor(), cancelled),
            final(self).cursor() == next_cursor(
                old(self).phase(),
                old(self).cursor(),
                old(self).agents(),
                cancelled,
            ),
            final(self).trackers().len() == old(self).trackers().len(),
            r is Finished <==> final(self).phase() is Finished,
            r is Visited <==> visits(
                old(self).phase(),
                old(self).cursor(),
                old(self).agents(),
                cancelled,
            ),
            match r {
                Step::Visited { agent, outcome } => {
                    &&& agent == old(self).cursor()
                    &&& agent < old(self).trackers().len()
                    &&& visited(
                        old(self).trackers()[agent as int],
                        outcome,
                        final(self).trackers()[agent as int],
                    )
                    &&& forall|j: int|
                        0 <= j < old(self).trackers().len() && j != agent ==> final(self).trackers()[j] == old(self).trackers()[j]
                },
                _ => final(self).trackers() == old(self).trackers(),
            },
    {
        match self.phase {
            Phase::Starting => {
                return Step::Idle;
            },
            Phase::Finished => {
                return Step::Finished;
            },
            _ => {},
        }
        let raised: bool = cancelled || self.phase == Phase::Cancelling;
        if self.cursor == 0 && raised {
            self.phase = Phase::Finished;
            return Step::Finished;
        }
        if raised {
            self.phase = Phase::Cancelling;
        }
        if self.subscribers.len() == 0 {
            return Step::Idle;
        }
        let agent: usize = self.cursor;
        let outcome = self.subscribers[agent].poll();
        self.cursor = if agent + 1 == self.subscribers.len() {
            0
        } else {
            agent + 1
        };
        Step::Visited { agent, outcome }
    }

    /// The counts as they stand, one entry for each agent in the order of the
    /// agents: the name of its channel and the last sequence number seen on
    /// it, zero where none was seen. After a finished run these are the final
    /// counts.
    pub fn summary(&self) -> (r: Vec<(String, usize)>)
        requires
            self.wf(),
        ensures
            r@.len() == self.agents(),
            forall|i: int|
                0 <= i < r@.len() ==> (#[trigger] r@[i]).0@ == self.names()[i] && r@[i].1
                    == self.counts()[i],
    {
        let mut out: Vec<(String, usize)> = Vec::new();
        let mut i: usize = 0;
        while i < self.names.len()
            invariant
                self.wf(),
                i <= self.names@.len(),
                out@.len() == i,
                forall|j: int|
                    0 <= j < i ==> (#[trigger] out@[j]).0@ == self.names()[j] && out@[j].1
                        == self.counts()[j],
            decreases self.names@.len() - i,
        {
            let count: usize = if i < self.subscribers.len() {
                self.subscribers[i].progress().last_count()
            } else {
                0
            };
            out.push((self.names[i].clone(), count));
            i = i + 1;
        }
        out
    }
}

} // verus!
