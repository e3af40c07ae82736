//! The envelope: the unit of transfer between a publisher and its subscribers.

use vstd::prelude::*;
use vstd::string::*;
use crate::clock::{rfc3339, rfc3339_text, utc_now, valid_instant, MAX_SECONDS, MIN_SECONDS};
use crate::text::{decimal, decimal_text};

verus! {

/// What an envelope carries: the marks of a publisher's lifetime.
#[derive(Clone, Copy, Debug, PartialEq, Eq, Structural)]
pub enum MessagePayload {
    /// Sent once, first.
    Start,
    /// The periodic heartbeat.
    Tick,
    /// Sent once, last.
    End,
}

impl MessagePayload {
    /// The variant's name.
    pub open spec fn label(self) -> Seq<char> {
        match self {
            MessagePayload::Start => "Start"@,
            MessagePayload::Tick => "Tick"@,
            MessagePayload::End => "End"@,
        }
    }

    /// The variant's name, as it appears in an envelope's text.
    pub fn name(&self) -> (r: &'static str)
        ensures
            r@ == self.label(),
    {
        match self {
            MessagePayload::Start => "Start",
            MessagePayload::Tick => "Tick",
            MessagePayload::End => "End",
        }
    }
}

/// An instant of UTC wall-clock time: seconds since the Unix epoch and the
/// nanoseconds within that second. Every value is an instant of the calendar.
#[derive(Clone, Copy, Debug, PartialEq, Eq, Structural)]
pub struct Timestamp {
    secs: i64,
    nanos: u32,
}

impl Timestamp {
    /// Seconds since the Unix epoch.
    pub closed spec fn seconds(self) -> i64 {
        self.secs
    }

    /// Nanoseconds since the last full second.
    pub closed spec fn subsec_nanos(self) -> u32 {
        self.nanos
    }

    /// The two numbers name an instant of the calendar.
    pub open spec fn wf(self) -> bool {
        valid_instant(self.seconds() as int, self.subsec_nanos() as int)
    }

    #[verifier::type_invariant]
    closed spec fn inv(self) -> bool {
        self.wf()
    }

    /// Two timestamps with the same seconds and nanoseconds are the same.
    pub proof fn lemma_same_numbers_same_instant(a: Timestamp, b: Timestamp)
        requires
            a.seconds() == b.seconds(),
            a.subsec_nanos() == b.subsec_nanos(),
        ensures
            a == b,
    {
    }

    /// The timestamp with these two numbers, where they name an instant.
    pub fn new(secs: i64, nanos: u32) -> (r: Option<Timestamp>)
        ensures
            r is Some <==> valid_instant(secs as int, nanos as int),
            r matches Some(t) ==> t.seconds() == secs && t.subsec_nanos() == nanos,
    {
        if secs < MIN_SECONDS || secs > MAX_SECONDS || nanos >= 2_000_000_000 {
            return None;
        }
        if nanos >= 1_000_000_000 {
            let since_first: i64 = secs - MIN_SECONDS;
            if since_first % 60 != 59 {
                return None;
            }
        }
        Some(Timestamp { secs, nanos })
    }

    /// The current time, as the system clock has it.
    pub fn now() -> (r: Timestamp)
        ensures
            r.wf(),
    {
        let (secs, nanos) = utc_now();
        Timestamp { secs, nanos }
    }

    /// Seconds since the Unix epoch.
    pub fn secs(&self) -> (r: i64)
        ensures
            r == self.seconds(),
            self.wf(),
    {
        proof {
            use_type_invariant(self);
        }
        self.secs
    }

    /// Nanoseconds since the last full second.
    pub fn nanos(&self) -> (r: u32)
        ensures
            r == self.subsec_nanos(),
            self.wf(),
    {
        proof {
            use_type_invariant(self);
        }
        self.nanos
    }

    /// The RFC 3339 text of the instant.
    pub fn to_rfc3339(&self) -> (r: String)
        ensures
            r@ == rfc3339_text(self.seconds(), self.subsec_nanos()),
    {
        proof {
            use_type_invariant(self);
        }
        rfc3339(self.secs, self.nanos)
    }
}

/// One envelope: when it was made, its place in its publisher's stream, and
/// what it carries.
#[derive(Clone, Copy, Debug, PartialEq, Eq, Structural)]
pub struct Msg {
    pub ts: Timestamp,
    pub seq: usize,
    pub payload: MessagePayload,
}

impl Msg {
    /// An envelope stamped with the current time.
    pub fn new(seq: usize, payload: MessagePayload) -> (m: Msg)
        ensures
            m.seq == seq,
            m.payload == payload,
            m.ts.wf(),
    {
        Msg { ts: Timestamp::now(), seq, payload }
    }

    /// The text of an envelope: its time, its sequence number and the name of
    /// its payload, each in square brackets.
    pub open spec fn text(self) -> Seq<char> {
        "["@ + rfc3339_text(self.ts.seconds(), self.ts.subsec_nanos()) + "] [Seq="@ + decimal(
            self.seq as nat,
        ) + "] ["@ + self.payload.label() + "]"@
    }

    /// Renders the envelope for a log line.
    pub fn to_text(&self) -> (r: String)
        ensures
            r@ == self.text(),
    {
        let mut out = String::from_str("[");
        let stamp = self.ts.to_rfc3339();
        out.append(stamp.as_str());
        out.append("] [Seq=");
        let number = decimal_text(self.seq);
        out.append(number.as_str());
        out.append("] [");
        out.append(self.payload.name());
        out.append("]");
        out
    }
}

} // verus!
