//! The subscriber: a receiving port on one channel, with the tracker of the
//! sequence numbers that come through it.

use vstd::prelude::*;
use crate::channel::{service, valid_channel_name, TransportError};
use crate::envelope::Msg;
use crate::tracker::{absorbed, visited, Drain, SequenceTracker};
use crate::transport::{attach_subscriber, receive_frame, Channel, Frame, IpcNode, SubscriberPort};
use crate::wire::{decode, holds, well_formed};

verus! {

/// Reads the envelopes out of a run of frames. One frame that is no frame of
/// any envelope spoils the run.
pub fn decode_all(frames: &Vec<Frame>) -> (r: Result<Vec<Msg>, TransportError>)
    ensures
        r is Ok <==> forall|i: int| 0 <= i < frames@.len() ==> well_formed(#[trigger] frames@[i]@),
        r matches Ok(msgs) ==> msgs@.len() == frames@.len() && forall|i: int|
            0 <= i < msgs@.len() ==> holds(frames@[i]@, #[trigger] msgs@[i]) && msgs@[i].ts.wf(),
        r matches Err(e) ==> e is MalformedFrame,
{
    let mut msgs: Vec<Msg> = Vec::new();
    let mut i: usize = 0;
    while i < frames.len()
        invariant
            i <= frames.len(),
            msgs@.len() == i,
            forall|j: int| 0 <= j < i ==> well_formed(#[trigger] frames@[j]@),
            forall|j: int|
                0 <= j < i ==> holds(frames@[j]@, #[trigger] msgs@[j]) && msgs@[j].ts.wf(),
        decreases frames.len() - i,
    {
        match decode(&frames[i]) {
            Some(m) => {
                msgs.push(m);
            },
            None => {
                return Err(TransportError::MalformedFrame);
            },
        }
        i = i + 1;
    }
    Ok(msgs)
}

/// A subscriber bound to one channel.
#[allow(non_camel_case_types)]
pub struct s {
    /// The name that the subscriber goes by: that of its channel, where
    /// [`subscriber`] made it.
    pub id: String,
    tracker: SequenceTracker,
    subscriber: SubscriberPort,
}

impl s {
    /// The tracker of the sequence numbers seen on this channel.
    pub closed spec fn tracker(&self) -> SequenceTracker {
        self.tracker
    }

    /// The name that the subscriber goes by, as text.
    pub closed spec fn name(&self) -> Seq<char> {
        self.id@
    }

    /// The name that the subscriber goes by.
    pub fn channel_name(&self) -> (r: &String)
        ensures
            r@ == self.name(),
    {
        &self.id
    }

    /// Attaches a subscriber to an open channel, under the name `id`. It
    /// expects sequence number zero. Whether the channel admits one more lies
    /// with the transport.
    pub fn new(id: String, service: Channel) -> (r: Result<s, TransportError>)
        ensures
            r matches Ok(port) ==> port.name() == id@ && port.tracker().expected() == 0
                && port.tracker().last_seen() is None,
            r matches Err(e) ==> e is SubscriberAttach,
    {
        match attach_subscriber(&service) {
            Ok(subscriber) => Ok(s { id, tracker: SequenceTracker::new(), subscriber }),
            Err(e) => Err(TransportError::SubscriberAttach(e)),
        }
    }

    /// What this subscriber has come to know of its channel's sequence.
    pub fn progress(&self) -> (r: SequenceTracker)
        ensures
            r == self.tracker(),
    {
        self.tracker
    }

    /// Drains the channel: takes every envelope that is there now, in the
    /// order in which the channel gives them, and comes back without waiting
    /// for more. An empty channel gives an empty run, not an error. The
    /// tracker is not touched: a drain does not judge the sequence.
    pub fn recv(&mut self) -> (r: Result<Vec<Msg>, TransportError>)
        ensures
            final(self).name() == old(self).name(),
            final(self).tracker() == old(self).tracker(),
            r matches Ok(msgs) ==> forall|i: int|
                0 <= i < msgs@.len() ==> (#[trigger] msgs@[i]).ts.wf(),
            r matches Err(e) ==> e is Receive || e is MalformedFrame,
    {
        let mut frames: Vec<Frame> = Vec::new();
        while frames.len() < usize::MAX
            invariant
                *self == *old(self),
            decreases usize::MAX - frames.len(),
        {
            match heed(frames, receive_frame(&self.subscriber)) {
                Draining::More(run) => {
                    frames = run;
                },
                Draining::Done(result) => {
                    return result;
                },
            }
        }
        decode_all(&frames)
    }

    /// Judges a drained run against the tracker and moves the tracker on.
    pub fn absorb(&mut self, outcome: Result<Vec<Msg>, TransportError>) -> (r: Result<
        Drain,
        TransportError,
    >)
        ensures
            final(self).name() == old(self).name(),
            absorbed(old(self).tracker(), outcome, final(self).tracker(), r),
    {
        self.tracker.absorb(outcome)
    }

    /// One visit of the orchestrator: drains the channel and judges what came.
    /// On a failure of the transport the tracker stays as it was, and the
    /// next visit tries again.
    pub fn poll(&mut self) -> (r: Result<Drain, TransportError>)
        ensures
            final(self).name() == old(self).name(),
            visited(old(self).tracker(), r, final(self).tracker()),
            r matches Ok(drain) ==> forall|i: int|
                0 <= i < drain.envelopes@.len() ==> (#[trigger] drain.envelopes@[i]).ts.wf(),
            r matches Err(e) ==> e is Receive || e is MalformedFrame,
    {
        let outcome = self.recv();
        self.absorb(outcome)
    }
}

/// Opens or creates the channel `name` and binds a subscriber to it. The
/// subscriber bears the channel's name and expects sequence number zero. An
/// invalid name is refused; beyond that, whether the channel can be had and
/// admits one more subscriber lies with the transport.
pub fn subscriber(name: String, node: &IpcNode) -> (r: Result<s, TransportError>)
    ensures
        r matches Ok(port) ==> port.name() == name@ && port.tracker().expected() == 0
            && port.tracker().last_seen() is None && valid_channel_name(name@),
        !valid_channel_name(name@) <==> r matches Err(TransportError::InvalidName(_)),
        r matches Err(e) ==> e is InvalidName || e is Channel || e is SubscriberAttach,
{
    let id = name.clone();
    match service(name, node) {
        Ok(channel) => s::new(id, channel),
        Err(e) => Err(e),
    }
}

/// How a drain stands after one report of its port.
#[derive(Debug)]
pub enum Draining {
    /// The port handed out a frame: the drain goes on, with the run grown by
    /// that frame.
    More(Vec<Frame>),
    /// The drain is over, with this result.
    Done(Result<Vec<Msg>, TransportError>),
}

/// Takes one report of the port into a drain under way, of which `frames`
/// came so far. A frame joins the run at its end. "Nothing is waiting" ends
/// the drain with the envelopes of the run, or with `MalformedFrame` where
/// one of its frames holds no envelope. A failure of the port ends the drain
/// with that failure, whatever came before.
pub fn heed(frames: Vec<Frame>, report: Result<Option<Frame>, iceoryx2::port::ReceiveError>) -> (r:
    Draining)
    ensures
        match report {
            Ok(Some(frame)) => r matches Draining::More(run) && run@ == frames@.push(frame),
            Ok(None) => {
                &&& r matches Draining::Done(result)
                &&& result is Ok <==> forall|i: int|
                    0 <= i < frames@.len() ==> well_formed(#[trigger] frames@[i]@)
                &&& result matches Ok(msgs) ==> msgs@.len() == frames@.len() && forall|i: int|
                    0 <= i < msgs@.len() ==> holds(frames@[i]@, #[trigger] msgs@[i])
                        && msgs@[i].ts.wf()
                &&& result matches Err(e) ==> e is MalformedFrame
            },
            Err(e) => r == Draining::Done(Err(TransportError::Receive(e))),
        },
{
    match report {
        Ok(Some(frame)) => {
            let mut run = frames;
            run.push(frame);
            Draining::More(run)
        },
        Ok(None) => Draining::Done(decode_all(&frames)),
        Err(e) => Draining::Done(Err(TransportError::Receive(e))),
    }
}

} // verus!
