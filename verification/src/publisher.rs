//! The publisher: a sending port on one channel with its own sequence
//! counter, and the agent that sends a lifetime's stream through it.

use vstd::prelude::*;
use iceoryx2::port::SendError;
use crate::channel::{service, valid_channel_name, TransportError};
use crate::envelope::{MessagePayload, Msg};
use crate::lifecycle::{next_stage, payload_on, shaped, Lifecycle, Signal, Stage};
use crate::tracker::{gapless, numbers};
use crate::transport::{attach_publisher, send_frame, Channel, IpcNode, PublisherPort};
use crate::wire::encode;

verus! {

/// The sequence counter of one publisher. It starts at zero, goes up by one
/// for each envelope that the channel took, and is never set back. Beside the
/// counter it keeps, for the proofs only, the envelopes that it numbered.
pub struct Sequencer {
    next: usize,
    issued: Ghost<Seq<Msg>>,
}

impl Sequencer {
    #[verifier::type_invariant]
    closed spec fn inv(self) -> bool {
        &&& self.issued@.len() == self.next
        &&& gapless(0, numbers(self.issued@))
    }

    /// The envelopes that were numbered, oldest first.
    pub closed spec fn issued(self) -> Seq<Msg> {
        self.issued@
    }

    /// A counter at zero.
    pub fn new() -> (r: Sequencer)
        ensures
            r.issued() == Seq::<Msg>::empty(),
    {
        Sequencer { next: 0, issued: Ghost(Seq::empty()) }
    }

    /// The number that the next envelope gets. It is the count of the
    /// envelopes numbered so far, and those count up from zero without a gap.
    pub fn current(&self) -> (r: usize)
        ensures
            r == self.issued().len(),
            gapless(0, numbers(self.issued())),
    {
        proof {
            use_type_invariant(self);
        }
        self.next
    }

    /// Counts one envelope that bears the current number.
    pub(crate) fn advance(&mut self, message: &Msg)
        requires
            message.seq == old(self).issued().len(),
            old(self).issued().len() < usize::MAX,
        ensures
            final(self).issued() == old(self).issued().push(*message),
    {
        proof {
            use_type_invariant(&*self);
            let grown = self.issued@.push(*message);
            assert forall|i: int| 0 <= i < numbers(grown).len() implies #[trigger] numbers(
                grown,
            )[i] == 0 + i by {
                if i < self.issued@.len() {
                    assert(numbers(self.issued@)[i] == 0 + i);
                }
            }
        }
        *self = Sequencer { next: self.next + 1, issued: Ghost(self.issued@.push(*message)) };
    }
}

/// A publisher bound to one channel.
#[allow(non_camel_case_types)]
pub struct p {
    counter: Sequencer,
    publisher: PublisherPort,
}

impl p {
    /// The envelopes that the channel took from this publisher, oldest first.
    pub closed spec fn sent(&self) -> Seq<Msg> {
        self.counter.issued()
    }

    /// The value of the sequence counter: how many envelopes the channel
    /// took.
    pub open spec fn sequence(&self) -> nat {
        self.sent().len()
    }

    /// Attaches a publisher to an open channel. Its counter stands at zero.
    /// Whether the channel admits one more lies with the transport.
    pub fn new(service: Channel) -> (r: Result<p, TransportError>)
        ensures
            r matches Ok(port) ==> port.sent() == Seq::<Msg>::empty(),
            r matches Err(e) ==> e is PublisherAttach,
    {
        match attach_publisher(&service) {
            Ok(publisher) => Ok(p { counter: Sequencer::new(), publisher }),
            Err(e) => Err(TransportError::PublisherAttach(e)),
        }
    }

    /// The value of the sequence counter. The envelopes sent so far bear the
    /// numbers zero, one, two and so on, in the order in which they were sent.
    pub fn seq(&self) -> (r: usize)
        ensures
            r == self.sequence(),
            gapless(0, numbers(self.sent())),
    {
        self.counter.current()
    }

    /// Sends one envelope: stamps it with the current time and the current
    /// value of the counter, writes it into the channel, and counts it. The
    /// counter moves if and only if the channel took the envelope. A slow
    /// subscriber never makes a send fail; only the transport can.
    pub fn send(&mut self, payload: MessagePayload) -> (r: Result<(), TransportError>)
        requires
            old(self).sequence() < usize::MAX,
        ensures
            r is Ok ==> final(self).sent().len() == old(self).sent().len() + 1
                && final(self).sent().drop_last() == old(self).sent()
                && final(self).sent().last().seq == old(self).sequence()
                && final(self).sent().last().payload == payload,
            r is Err ==> final(self).sent() == old(self).sent(),
            r matches Err(e) ==> e is Send,
            gapless(0, numbers(final(self).sent())),
    {
        let message = Msg::new(self.counter.current(), payload);
        let frame = encode(&message);
        let outcome = send_frame(&self.publisher, frame);
        let r = self.settle(&message, outcome);
        proof {
            use_type_invariant(&self.counter);
        }
        r
    }

    /// Draws the consequence of one write into the channel: counts the
    /// envelope if and only if the channel took it.
    pub(crate) fn settle(&mut self, message: &Msg, outcome: Result<usize, SendError>) -> (r:
        Result<(), TransportError>)
        requires
            message.seq == old(self).sequence(),
            old(self).sequence() < usize::MAX,
        ensures
            r is Ok <==> outcome is Ok,
            r is Ok ==> final(self).sent() == old(self).sent().push(*message),
            r is Err ==> final(self).sent() == old(self).sent(),
            r matches Err(e) ==> e is Send,
    {
        match outcome {
            Ok(_) => {
                self.counter.advance(message);
                Ok(())
            },
            Err(e) => Err(TransportError::Send(e)),
        }
    }
}

/// Opens or creates the channel `name` and binds a publisher to it. The
/// publisher's counter stands at zero. An invalid name is refused; beyond
/// that, whether the channel can be had and admits one more publisher lies
/// with the transport.
pub fn publisher(name: String, node: &IpcNode) -> (r: Result<p, TransportError>)
    ensures
        r matches Ok(port) ==> port.sent() == Seq::<Msg>::empty() && valid_channel_name(name@),
        !valid_channel_name(name@) <==> r matches Err(TransportError::InvalidName(_)),
        r matches Err(e) ==> e is InvalidName || e is Channel || e is PublisherAttach,
{
    match service(name, node) {
        Ok(channel) => p::new(channel),
        Err(e) => Err(e),
    }
}

/// A publisher together with its place in its lifetime. Everything that goes
/// out through an agent goes out in the order of a lifetime: `Start` first,
/// then `Tick`s, then `End`.
pub struct Agent {
    port: p,
    life: Lifecycle,
}

impl Agent {
    /// Where the agent stands in its lifetime.
    pub closed spec fn stage(self) -> Stage {
        self.life.stage()
    }

    /// The payloads that the channel took from this agent, oldest first.
    pub closed spec fn streamed(self) -> Seq<MessagePayload> {
        self.life.streamed()
    }

    /// The envelopes that the channel took from the agent's publisher, those
    /// from before it became an agent's included.
    pub closed spec fn sent(self) -> Seq<Msg> {
        self.port.sent()
    }

    /// An agent at the start of its lifetime.
    pub fn new(port: p) -> (r: Agent)
        ensures
            r.stage() == Stage::Idle,
            r.streamed() == Seq::<MessagePayload>::empty(),
            r.sent() == port.sent(),
    {
        Agent { port, life: Lifecycle::new() }
    }

    /// Where the agent stands. What it has sent so far has the shape of that
    /// stage.
    pub fn current_stage(&self) -> (r: Stage)
        ensures
            r == self.stage(),
            shaped(self.stage(), self.streamed()),
    {
        self.life.current()
    }

    /// The value of the publisher's sequence counter.
    pub fn seq(&self) -> (r: usize)
        ensures
            r == self.sent().len(),
            gapless(0, numbers(self.sent())),
    {
        self.port.seq()
    }

    /// Takes one signal: sends what the lifetime asks for at this point, if
    /// anything, and moves on. Where the send fails the agent stays where it
    /// was and nothing counts as sent.
    pub fn handle(&mut self, signal: Signal) -> (r: Result<Option<MessagePayload>, TransportError>)
        requires
            old(self).sent().len() < usize::MAX,
        ensures
            r matches Ok(sent) ==> {
                &&& sent == payload_on(old(self).stage(), signal)
                &&& final(self).stage() == next_stage(old(self).stage(), signal)
            },
            r matches Ok(Some(payload)) ==> {
                &&& final(self).streamed() == old(self).streamed().push(payload)
                &&& final(self).sent().len() == old(self).sent().len() + 1
                &&& final(self).sent().drop_last() == old(self).sent()
                &&& final(self).sent().last().payload == payload
                &&& final(self).sent().last().seq == old(self).sent().len()
            },
            r matches Ok(None) ==> {
                &&& final(self).streamed() == old(self).streamed()
                &&& final(self).sent() == old(self).sent()
            },
            r matches Err(e) ==> {
                &&& e is Send
                &&& payload_on(old(self).stage(), signal) is Some
                &&& final(self).stage() == old(self).stage()
                &&& final(self).streamed() == old(self).streamed()
                &&& final(self).sent() == old(self).sent()
            },
            shaped(final(self).stage(), final(self).streamed()),
    {
        match self.life.due(signal) {
            Some(payload) => {
                match self.port.send(payload) {
                    Ok(()) => {
                        self.life.advance(signal);
                        Ok(Some(payload))
                    },
                    Err(e) => Err(e),
                }
            },
            None => {
                self.life.advance(signal);
                Ok(None)
            },
        }
    }
}

} // verus!
