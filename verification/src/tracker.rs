//! The sequence tracker: what a subscriber expects next, and what it reports
//! when a drained envelope carries another number.

use vstd::prelude::*;
use crate::channel::TransportError;
use crate::envelope::Msg;

verus! {

/// A detected break in the sequence: the number that was due and the number
/// that came. `expected` is `None` where the number due lies beyond the
/// largest sequence number, so that none can match it.
#[derive(Clone, Copy, Debug, PartialEq, Eq, Structural)]
pub struct Anomaly {
    pub expected: Option<usize>,
    pub observed: usize,
}

impl Anomaly {
    /// The number that was due.
    pub open spec fn due(self) -> int {
        match self.expected {
            Some(e) => e as int,
            None => usize::MAX + 1,
        }
    }
}

/// The number due at position `i` of a drained run, for a tracker that
/// expected `start` before the run: `start` at the head, afterwards one more
/// than the number before.
pub open spec fn due_at(start: int, seqs: Seq<usize>, i: int) -> int {
    if i == 0 {
        start
    } else {
        seqs[i - 1] + 1
    }
}

/// What a tracker expects after a run: one more than the last number of the
/// run, and `start` after an empty run.
pub open spec fn due_after(start: int, seqs: Seq<usize>) -> int {
    due_at(start, seqs, seqs.len() as int)
}

/// The breaks of a run, in the order of the run: one entry for each position
/// whose number is not the one due there, as the pair of the number due and
/// the number seen.
pub open spec fn breaks(start: int, seqs: Seq<usize>) -> Seq<(int, usize)>
    decreases seqs.len(),
{
    if seqs.len() == 0 {
        Seq::empty()
    } else {
        let before = breaks(start, seqs.drop_last());
        let due = due_at(start, seqs, seqs.len() - 1);
        if seqs.last() == due {
            before
        } else {
            before.push((due, seqs.last()))
        }
    }
}

/// The sequence numbers of a run of envelopes.
pub open spec fn numbers(msgs: Seq<Msg>) -> Seq<usize> {
    Seq::new(msgs.len(), |i: int| msgs[i].seq)
}

/// The reports of a run of anomalies as pairs of the number due and the
/// number seen.
pub open spec fn pairs(found: Seq<Anomaly>) -> Seq<(int, usize)> {
    Seq::new(found.len(), |i: int| (found[i].due(), found[i].observed))
}

/// The tracker of one subscriber. It remembers the last sequence number it
/// saw; what it expects next is one more, and zero before it has seen any.
#[derive(Clone, Copy, Debug, PartialEq, Eq, Structural)]
pub struct SequenceTracker {
    last: Option<usize>,
}

impl SequenceTracker {
    /// The last sequence number seen, if any.
    pub closed spec fn last_seen(self) -> Option<usize> {
        self.last
    }

    /// The sequence number expected next.
    pub open spec fn expected(self) -> int {
        match self.last_seen() {
            Some(n) => n + 1,
            None => 0,
        }
    }

    /// The count that the orchestrator keeps for an agent: the last sequence
    /// number seen, and zero before any was seen.
    pub open spec fn count(self) -> usize {
        match self.last_seen() {
            Some(n) => n,
            None => 0,
        }
    }

    /// A tracker that has seen nothing: it expects zero.
    pub fn new() -> (r: SequenceTracker)
        ensures
            r.last_seen() is None,
            r.expected() == 0,
    {
        SequenceTracker { last: None }
    }

    /// The last sequence number seen, if any.
    pub fn last_observed(&self) -> (r: Option<usize>)
        ensures
            r == self.last_seen(),
    {
        self.last
    }

    /// The number expected next; `None` where it lies beyond the largest
    /// sequence number.
    pub fn expected_next(&self) -> (r: Option<usize>)
        ensures
            r matches Some(e) ==> e == self.expected(),
            r is None <==> self.expected() > usize::MAX,
    {
        match self.last {
            Some(n) => if n < usize::MAX {
                Some(n + 1)
            } else {
                None
            },
            None => Some(0),
        }
    }

    /// The last sequence number seen, zero before any was seen.
    pub fn last_count(&self) -> (r: usize)
        ensures
            r == self.count(),
    {
        match self.last {
            Some(n) => n,
            None => 0,
        }
    }

    /// Takes one sequence number. Reports an anomaly if and only if it is not
    /// the number expected; either way the tracker then expects the number
    /// after it.
    pub fn observe(&mut self, seq: usize) -> (r: Option<Anomaly>)
        ensures
            final(self).last_seen() == Some(seq),
            final(self).expected() == seq + 1,
            r is None <==> seq == old(self).expected(),
            r matches Some(a) ==> a.observed == seq && a.due() == old(self).expected(),
    {
        let due = self.expected_next();
        self.last = Some(seq);
        match due {
            Some(e) => if e == seq {
                None
            } else {
                Some(Anomaly { expected: due, observed: seq })
            },
            None => Some(Anomaly { expected: None, observed: seq }),
        }
    }

    /// Takes a drained run of envelopes in order and reports its breaks.
    pub fn observe_all(&mut self, msgs: &Vec<Msg>) -> (found: Vec<Anomaly>)
        ensures
            pairs(found@) == breaks(old(self).expected(), numbers(msgs@)),
            final(self).expected() == due_after(old(self).expected(), numbers(msgs@)),
            msgs@.len() > 0 ==> final(self).last_seen() == Some(msgs@.last().seq),
            msgs@.len() == 0 ==> *final(self) == *old(self),
    {
        let ghost start = self.expected();
        let ghost all = numbers(msgs@);
        let mut found: Vec<Anomaly> = Vec::new();
        let mut i: usize = 0;
        while i < msgs.len()
            invariant
                i <= msgs.len(),
                all == numbers(msgs@),
                start == old(self).expected(),
                pairs(found@) == breaks(start, all.take(i as int)),
                self.expected() == due_at(start, all, i as int),
                i > 0 ==> self.last_seen() == Some(msgs@[i - 1].seq),
                i == 0 ==> *self == *old(self),
            decreases msgs.len() - i,
        {
            let report = self.observe(msgs[i].seq);
            assert(all.take(i + 1).drop_last() =~= all.take(i as int));
            if let Some(anomaly) = report {
                found.push(anomaly);
            }
            i = i + 1;
        }
        assert(all.take(i as int) =~= all);
        found
    }
}

/// A run has no break if and only if every number in it is the one due at its
/// place.
pub proof fn lemma_no_break_iff_all_due(start: int, seqs: Seq<usize>)
    ensures
        breaks(start, seqs).len() == 0 <==> forall|i: int|
            0 <= i < seqs.len() ==> seqs[i] == #[trigger] due_at(start, seqs, i),
    decreases seqs.len(),
{
    if seqs.len() > 0 {
        let init = seqs.drop_last();
        lemma_no_break_iff_all_due(start, init);
        assert forall|i: int| 0 <= i < init.len() implies due_at(start, init, i) == due_at(
            start,
            seqs,
            i,
        ) by {}
        if breaks(start, seqs).len() == 0 {
            assert forall|i: int| 0 <= i < seqs.len() implies seqs[i] == #[trigger] due_at(
                start,
                seqs,
                i,
            ) by {}
        }
        if forall|i: int| 0 <= i < seqs.len() ==> seqs[i] == #[trigger] due_at(start, seqs, i) {
            assert forall|i: int| 0 <= i < init.len() implies init[i] == #[trigger] due_at(
                start,
                init,
                i,
            ) by {}
        }
    }
}

/// Whether a run counts up from `start` without a gap: `start`, `start + 1`,
/// `start + 2`, and so on.
pub open spec fn gapless(start: int, seqs: Seq<usize>) -> bool {
    forall|i: int| 0 <= i < seqs.len() ==> #[trigger] seqs[i] == start + i
}

/// A run that counts up without a gap from what the tracker expects is taken
/// without any anomaly, and any other run gives at least one. After a gapless
/// run the tracker expects the number after the run.
pub proof fn lemma_gapless_iff_no_anomaly(start: int, seqs: Seq<usize>)
    ensures
        gapless(start, seqs) <==> breaks(start, seqs).len() == 0,
        gapless(start, seqs) ==> due_after(start, seqs) == start + seqs.len(),
{
    lemma_no_break_iff_all_due(start, seqs);
    if gapless(start, seqs) {
        assert forall|i: int| 0 <= i < seqs.len() implies seqs[i] == #[trigger] due_at(
            start,
            seqs,
            i,
        ) by {}
    }
    if breaks(start, seqs).len() == 0 {
        lemma_all_due_counts_up(start, seqs, seqs.len() as int);
    }
}

/// Where every number of a run is the one due at its place, the first `k`
/// numbers count up from `start`.
proof fn lemma_all_due_counts_up(start: int, seqs: Seq<usize>, k: int)
    requires
        0 <= k <= seqs.len(),
        forall|i: int| 0 <= i < seqs.len() ==> seqs[i] == #[trigger] due_at(start, seqs, i),
    ensures
        forall|i: int| 0 <= i < k ==> #[trigger] seqs[i] == start + i,
    decreases k,
{
    if k > 0 {
        lemma_all_due_counts_up(start, seqs, k - 1);
        assert(seqs[k - 1] == due_at(start, seqs, k - 1));
    }
}

/// Where a run is drained in two parts, the breaks are those of the first
/// part followed by those of the second, judged from where the first part
/// left the tracker: how a stream is cut into drains changes nothing.
pub proof fn lemma_breaks_compose(start: int, first: Seq<usize>, second: Seq<usize>)
    ensures
        breaks(start, first + second) == breaks(start, first) + breaks(
            due_after(start, first),
            second,
        ),
        due_after(start, first + second) == due_after(due_after(start, first), second),
    decreases second.len(),
{
    if second.len() > 0 {
        let init = second.drop_last();
        lemma_breaks_compose(start, first, init);
        assert((first + second).drop_last() =~= first + init);
    }
}

/// A subscriber that sees, in order and whole, what a publisher has sent from
/// its first envelope on reports no anomaly and then expects the number that
/// the publisher gives out next.
pub proof fn lemma_whole_stream_has_no_anomaly(sent: Seq<Msg>)
    requires
        gapless(0, numbers(sent)),
    ensures
        breaks(0, numbers(sent)).len() == 0,
        due_after(0, numbers(sent)) == sent.len(),
{
    lemma_gapless_iff_no_anomaly(0, numbers(sent));
}

/// Every break is reported with the number that came, and the tracker then
/// goes on from that number: a run with a break at its end leaves the tracker
/// expecting the number after the one that broke the sequence.
pub proof fn lemma_resumes_after_break(start: int, seqs: Seq<usize>)
    requires
        seqs.len() > 0,
    ensures
        due_after(start, seqs) == seqs.last() + 1,
        seqs.last() != due_at(start, seqs, seqs.len() - 1) ==> breaks(start, seqs).len() > 0
            && breaks(start, seqs).last() == (
            due_at(start, seqs, seqs.len() - 1),
            seqs.last(),
        ),
{
}

/// After how many envelopes of an agent a progress note is due.
pub const PROGRESS_EVERY: usize = 1000;

/// Whether a drain that moved a tracker's expectation from `before` to
/// `after` took it past a multiple of [`PROGRESS_EVERY`].
pub open spec fn progress_due(before: int, after: int) -> bool {
    after / (PROGRESS_EVERY as int) > before / (PROGRESS_EVERY as int)
}

/// What one successful drain gave: the envelopes in the order of the channel,
/// the breaks of the sequence among them, and whether a progress note is due.
#[derive(Debug)]
pub struct Drain {
    pub envelopes: Vec<Msg>,
    pub anomalies: Vec<Anomaly>,
    pub progress: bool,
}

/// How a tracker takes the outcome of a drain. A failed drain leaves the
/// tracker as it was and is handed on. A drained run is judged envelope by
/// envelope: the report holds the run itself, its breaks, and whether the
/// expectation went past a multiple of [`PROGRESS_EVERY`]; the tracker then
/// expects the number after the last of the run.
pub open spec fn absorbed(
    before: SequenceTracker,
    outcome: Result<Vec<Msg>, TransportError>,
    after: SequenceTracker,
    report: Result<Drain, TransportError>,
) -> bool {
    match outcome {
        Ok(msgs) => {
            &&& report matches Ok(drain)
            &&& drain.envelopes == msgs
            &&& pairs(drain.anomalies@) == breaks(before.expected(), numbers(msgs@))
            &&& drain.progress == progress_due(before.expected(), after.expected())
            &&& after.expected() == due_after(before.expected(), numbers(msgs@))
            &&& after.last_seen() == (if msgs@.len() > 0 {
                Some(msgs@.last().seq)
            } else {
                before.last_seen()
            })
        },
        Err(e) => {
            &&& report == Err::<Drain, TransportError>(e)
            &&& after == before
        },
    }
}

/// What one visit of a subscriber does to its tracker, given the report of
/// the visit: a drained run is taken as [`absorbed`] says, and after a failed
/// drain the tracker is as before.
pub open spec fn visited(
    before: SequenceTracker,
    report: Result<Drain, TransportError>,
    after: SequenceTracker,
) -> bool {
    match report {
        Ok(drain) => absorbed(
            before,
            Ok::<Vec<Msg>, TransportError>(drain.envelopes),
            after,
            report,
        ),
        Err(_) => after == before,
    }
}

impl SequenceTracker {
    /// How many times [`PROGRESS_EVERY`] goes into the number expected next.
    pub fn rounds(&self) -> (r: usize)
        ensures
            r == self.expected() / (PROGRESS_EVERY as int),
    {
        match self.last {
            Some(n) => {
                let whole: usize = n / PROGRESS_EVERY;
                if n % PROGRESS_EVERY == PROGRESS_EVERY - 1 {
                    whole + 1
                } else {
                    whole
                }
            },
            None => 0,
        }
    }

    /// Takes the outcome of a drain, as [`absorbed`] says.
    pub fn absorb(&mut self, outcome: Result<Vec<Msg>, TransportError>) -> (r: Result<
        Drain,
        TransportError,
    >)
        ensures
            absorbed(*old(self), outcome, *final(self), r),
    {
        match outcome {
            Ok(envelopes) => {
                let before: usize = self.rounds();
                let anomalies = self.observe_all(&envelopes);
                let after: usize = self.rounds();
                Ok(Drain { envelopes, anomalies, progress: after > before })
            },
            Err(e) => Err(e),
        }
    }
}

} // verus!
