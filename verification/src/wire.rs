//! The frame: how an envelope lies in a channel. A frame is four 64-bit
//! words: the seconds counted from the first second of the calendar, the
//! nanoseconds, the sequence number, and a tag for the payload.

use vstd::prelude::*;
use crate::clock::{valid_instant, MAX_SECONDS, MIN_SECONDS};
use crate::envelope::{MessagePayload, Msg, Timestamp};
use crate::transport::Frame;

verus! {

/// The tag that stands for a payload in a frame.
pub open spec fn tag_of(payload: MessagePayload) -> u64 {
    match payload {
        MessagePayload::Start => 0,
        MessagePayload::Tick => 1,
        MessagePayload::End => 2,
    }
}

/// The four words of an envelope.
pub open spec fn frame_of(m: Msg) -> Seq<u64> {
    seq![
        (m.ts.seconds() - MIN_SECONDS) as u64,
        m.ts.subsec_nanos() as u64,
        m.seq as u64,
        tag_of(m.payload),
    ]
}

/// Whether four words are the frame of some envelope.
pub open spec fn well_formed(f: Seq<u64>) -> bool {
    &&& f.len() == 4
    &&& valid_instant(f[0] + MIN_SECONDS, f[1] as int)
    &&& f[2] <= usize::MAX
    &&& f[3] <= 2
}

/// Whether `m` is the envelope that the frame `f` holds.
pub open spec fn holds(f: Seq<u64>, m: Msg) -> bool {
    &&& f.len() == 4
    &&& m.ts.seconds() == f[0] + MIN_SECONDS
    &&& m.ts.subsec_nanos() == f[1]
    &&& m.seq == f[2]
    &&& tag_of(m.payload) == f[3]
}

/// Lays an envelope out as a frame.
pub fn encode(m: &Msg) -> (f: Frame)
    ensures
        f@ == frame_of(*m),
        well_formed(f@),
        holds(f@, *m),
{
    let secs: i64 = m.ts.secs();
    let nanos: u32 = m.ts.nanos();
    let tag: u64 = match m.payload {
        MessagePayload::Start => 0,
        MessagePayload::Tick => 1,
        MessagePayload::End => 2,
    };
    [(secs - MIN_SECONDS) as u64, nanos as u64, m.seq as u64, tag]
}

/// Reads an envelope out of a frame; `None` where the words are no frame of
/// any envelope.
pub fn decode(f: &Frame) -> (r: Option<Msg>)
    ensures
        r is Some <==> well_formed(f@),
        r matches Some(m) ==> holds(f@, m) && frame_of(m) == f@,
{
    let span: u64 = (MAX_SECONDS - MIN_SECONDS) as u64;
    if f[0] > span || f[1] > 0xffff_ffff || f[2] > usize::MAX as u64 || f[3] > 2 {
        return None;
    }
    let secs: i64 = f[0] as i64 + MIN_SECONDS;
    let nanos: u32 = f[1] as u32;
    let payload = if f[3] == 0 {
        MessagePayload::Start
    } else if f[3] == 1 {
        MessagePayload::Tick
    } else {
        MessagePayload::End
    };
    match Timestamp::new(secs, nanos) {
        Some(ts) => Some(Msg { ts, seq: f[2] as usize, payload }),
        None => None,
    }
}

/// The envelope that a frame holds is the only one: two envelopes in one
/// frame are the same envelope.
pub proof fn lemma_frame_holds_one(f: Seq<u64>, a: Msg, b: Msg)
    requires
        holds(f, a),
        holds(f, b),
    ensures
        a == b,
{
    Timestamp::lemma_same_numbers_same_instant(a.ts, b.ts);
}

/// A frame written from an envelope reads back as that envelope, and as no
/// other: encoding loses nothing.
pub proof fn lemma_round_trip(m: Msg)
    requires
        m.ts.wf(),
    ensures
        well_formed(frame_of(m)),
        holds(frame_of(m), m),
        forall|other: Msg| holds(frame_of(m), other) ==> other == m,
{
    assert forall|other: Msg| holds(frame_of(m), other) implies other == m by {
        lemma_frame_holds_one(frame_of(m), other, m);
    }
}

} // verus!
