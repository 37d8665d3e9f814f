//! The merge point of a child process's two output streams.
//!
//! Two reader threads (outside this crate) each turn one captured stream into
//! line events; the merge point receives whichever event becomes available
//! first and appends it to a single ordered history. [`StreamMux`] is that
//! history: the delivered records in arrival order, the decode failures
//! reported out of band, and whether the closed sentinel has arrived.

use vstd::prelude::*;

use crate::Origin;

verus! {

/// One delivered line of child output: its text and the stream it came from.
#[derive(Debug, Clone)]
pub struct OutputRecord {
    /// One line of output, without its terminator.
    pub text: String,
    /// The stream the line was read from.
    pub origin: Origin,
}

/// One event observed at the merge point.
#[derive(Debug)]
pub enum MuxEvent {
    /// A line that decoded as text.
    Line(OutputRecord),
    /// A line of the given stream that failed to decode; reported out of
    /// band, never mixed into the record sequence.
    DecodeFailure(Origin),
    /// Both readers have finished: the stream of records is over.
    Closed,
}

/// What the consumer loop should do with one event.
#[derive(Debug)]
pub enum LoopAction {
    /// Show the line, marking it when it came from the secondary stream.
    Print { line: String, mark_secondary: bool },
    /// Report a decode failure on the given stream and keep going.
    Report { origin: Origin },
    /// The stream is over; stop consuming and join the child.
    Stop,
}

/// The records of `s` that came from stream `o`, in order.
pub open spec fn of_origin(s: Seq<OutputRecord>, o: Origin) -> Seq<OutputRecord>
    decreases s.len(),
{
    if s.len() == 0 {
        Seq::<OutputRecord>::empty()
    } else {
        of_origin(s.drop_last(), o) + if s.last().origin == o {
            seq![s.last()]
        } else {
            Seq::<OutputRecord>::empty()
        }
    }
}

/// `m` is a shuffle of `p` and `s`: it can be split, in order, into the two.
pub open spec fn is_interleaving(
    m: Seq<OutputRecord>,
    p: Seq<OutputRecord>,
    s: Seq<OutputRecord>,
) -> bool
    decreases m.len(),
{
    if m.len() == 0 {
        p.len() == 0 && s.len() == 0
    } else {
        (p.len() > 0 && m.last() == p.last() && is_interleaving(m.drop_last(), p.drop_last(), s))
            || (s.len() > 0 && m.last() == s.last() && is_interleaving(m.drop_last(), p, s.drop_last()))
    }
}

/// Any merged record sequence is a valid interleaving of its two per-stream
/// projections: each stream's internal order survives the merge.
pub proof fn lemma_merge_is_interleaving(m: Seq<OutputRecord>)
    ensures
        is_interleaving(m, of_origin(m, Origin::Primary), of_origin(m, Origin::Secondary)),
    decreases m.len(),
{
    if m.len() > 0 {
        lemma_merge_is_interleaving(m.drop_last());
        let p = of_origin(m, Origin::Primary);
        let s = of_origin(m, Origin::Secondary);
        match m.last().origin {
            Origin::Primary => {
                assert(p =~= of_origin(m.drop_last(), Origin::Primary).push(m.last()));
                assert(s =~= of_origin(m.drop_last(), Origin::Secondary));
                assert(p.drop_last() =~= of_origin(m.drop_last(), Origin::Primary));
            },
            Origin::Secondary => {
                assert(s =~= of_origin(m.drop_last(), Origin::Secondary).push(m.last()));
                assert(p =~= of_origin(m.drop_last(), Origin::Primary));
                assert(s.drop_last() =~= of_origin(m.drop_last(), Origin::Secondary));
            },
        }
    }
}

/// The records delivered by an event sequence: the lines, in arrival order.
pub open spec fn delivered(evs: Seq<MuxEvent>) -> Seq<OutputRecord>
    decreases evs.len(),
{
    if evs.len() == 0 {
        Seq::<OutputRecord>::empty()
    } else {
        delivered(evs.drop_last()) + match evs.last() {
            MuxEvent::Line(r) => seq![r],
            _ => Seq::<OutputRecord>::empty(),
        }
    }
}

/// The decode failures reported by an event sequence, in arrival order.
pub open spec fn reported(evs: Seq<MuxEvent>) -> Seq<Origin>
    decreases evs.len(),
{
    if evs.len() == 0 {
        Seq::<Origin>::empty()
    } else {
        reported(evs.drop_last()) + match evs.last() {
            MuxEvent::DecodeFailure(o) => seq![o],
            _ => Seq::<Origin>::empty(),
        }
    }
}

/// A decode failure is transparent to delivery: the records delivered around
/// it are exactly those delivered without it, so no later valid line is lost.
pub proof fn lemma_failure_transparent(pre: Seq<MuxEvent>, o: Origin, post: Seq<MuxEvent>)
    ensures
        delivered(pre + seq![MuxEvent::DecodeFailure(o)] + post) == delivered(pre + post),
    decreases post.len(),
{
    if post.len() == 0 {
        assert(pre + seq![MuxEvent::DecodeFailure(o)] + post =~= pre.push(
            MuxEvent::DecodeFailure(o),
        ));
        assert(pre + post =~= pre);
        assert(pre.push(MuxEvent::DecodeFailure(o)).drop_last() =~= pre);
    } else {
        lemma_failure_transparent(pre, o, post.drop_last());
        let with = pre + seq![MuxEvent::DecodeFailure(o)] + post;
        let without = pre + post;
        assert(with.drop_last() =~= pre + seq![MuxEvent::DecodeFailure(o)] + post.drop_last());
        assert(without.drop_last() =~= pre + post.drop_last());
        assert(with.last() == post.last());
        assert(without.last() == post.last());
    }
}

/// The valid lines stream `o` produced, in production order; decode
/// failures and the other stream's lines left out.
pub open spec fn stream_lines(evs: Seq<MuxEvent>, o: Origin) -> Seq<OutputRecord>
    decreases evs.len(),
{
    if evs.len() == 0 {
        Seq::<OutputRecord>::empty()
    } else {
        stream_lines(evs.drop_last(), o) + match evs.last() {
            MuxEvent::Line(r) => if r.origin == o {
                seq![r]
            } else {
                Seq::<OutputRecord>::empty()
            },
            _ => Seq::<OutputRecord>::empty(),
        }
    }
}

/// What each stream sees of the merged output is exactly what it produced:
/// the delivered records of stream `o` are `o`'s own valid lines, in order,
/// however the two streams interleaved and wherever decode failures fell.
pub proof fn lemma_per_stream_delivery(evs: Seq<MuxEvent>, o: Origin)
    ensures
        of_origin(delivered(evs), o) == stream_lines(evs, o),
    decreases evs.len(),
{
    if evs.len() > 0 {
        lemma_per_stream_delivery(evs.drop_last(), o);
        match evs.last() {
            MuxEvent::Line(r) => {
                assert(delivered(evs) =~= delivered(evs.drop_last()).push(r));
                assert(delivered(evs).drop_last() =~= delivered(evs.drop_last()));
            },
            _ => {
                assert(delivered(evs) =~= delivered(evs.drop_last()));
            },
        }
    }
}

/// The merged output of a run is a valid interleaving of the two streams'
/// own valid lines.
pub proof fn lemma_merged_events_interleave(evs: Seq<MuxEvent>)
    ensures
        is_interleaving(
            delivered(evs),
            stream_lines(evs, Origin::Primary),
            stream_lines(evs, Origin::Secondary),
        ),
{
    lemma_merge_is_interleaving(delivered(evs));
    lemma_per_stream_delivery(evs, Origin::Primary);
    lemma_per_stream_delivery(evs, Origin::Secondary);
}

/// The merge point's observed history.
#[derive(Debug)]
pub struct StreamMux {
    /// Every delivered record, in arrival order.
    pub records: Vec<OutputRecord>,
    /// Every decode failure, in arrival order, out of band.
    pub failures: Vec<Origin>,
    /// Whether the closed sentinel has arrived.
    pub closed: bool,
}

impl StreamMux {
    /// An empty history: nothing delivered, nothing failed, still open.
    pub fn new() -> (m: StreamMux)
        ensures
            m.records@ == Seq::<OutputRecord>::empty(),
            m.failures@ == Seq::<Origin>::empty(),
            !m.closed,
    {
        StreamMux { records: Vec::new(), failures: Vec::new(), closed: false }
    }

    /// Folds one event into the history and says what the consumer should do
    /// with it.
    ///
    /// A line is appended to the record history and shown, marked when it is
    /// secondary; a decode failure is recorded out of band and leaves the
    /// record history untouched, so later valid lines from either stream are
    /// still delivered; the closed sentinel ends the stream.
    pub fn accept(&mut self, ev: MuxEvent) -> (a: LoopAction)
        requires
            !old(self).closed,
        ensures
            match ev {
                MuxEvent::Line(r) => {
                    &&& final(self).records@ == old(self).records@.push(r)
                    &&& final(self).failures@ == old(self).failures@
                    &&& !final(self).closed
                    &&& a matches LoopAction::Print { line, mark_secondary }
                        && line == r.text && mark_secondary == (r.origin == Origin::Secondary)
                },
                MuxEvent::DecodeFailure(o) => {
                    &&& final(self).records@ == old(self).records@
                    &&& final(self).failures@ == old(self).failures@.push(o)
                    &&& !final(self).closed
                    &&& a matches LoopAction::Report { origin } && origin == o
                },
                MuxEvent::Closed => {
                    &&& final(self).records@ == old(self).records@
                    &&& final(self).failures@ == old(self).failures@
                    &&& final(self).closed
                    &&& a matches LoopAction::Stop
                },
            },
    {
        match ev {
            MuxEvent::Line(r) => {
                let mark = match r.origin {
                    Origin::Secondary => true,
                    Origin::Primary => false,
                };
                let line = r.text.clone();
                self.records.push(r);
                LoopAction::Print { line, mark_secondary: mark }
            },
            MuxEvent::DecodeFailure(o) => {
                self.failures.push(o);
                LoopAction::Report { origin: o }
            },
            MuxEvent::Closed => {
                self.closed = true;
                LoopAction::Stop
            },
        }
    }
}

} // verus!
