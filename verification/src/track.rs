//! Track and segment descriptors.
//!
//! A track is an ordered list of segments: an optional intro at index 0,
//! followed by the loop body — a non-empty run of segments that repeats
//! forever once entered.  Durations are exact milliseconds; the very same
//! values drive both the scheduling math and source preparation, since an
//! estimate that drifts from the decoded audio causes audible seams.

use vstd::prelude::*;

verus! {

/// The part a segment plays within its track.
#[derive(Clone, Copy, Debug, PartialEq, Eq, Structural)]
pub enum LoopRole {
    /// Played once, at index 0, before the loop body is entered.
    Intro,
    /// Part of the contiguous run that repeats forever.
    LoopBody,
}

/// One playable unit of a track.
#[derive(Debug)]
pub struct Segment {
    /// Where the audio for this segment can be found (a path or other
    /// locator, opaque to the scheduler).
    pub source: String,
    /// Exact playable duration in milliseconds.
    pub duration_ms: u64,
    pub role: LoopRole,
}

/// Sum of the durations of `segs`, in milliseconds.
pub open spec fn total_duration(segs: Seq<Segment>) -> int
    decreases segs.len(),
{
    if segs.len() == 0 {
        0
    } else {
        total_duration(segs.drop_last()) + segs.last().duration_ms
    }
}

/// A prefix of a segment list never lasts longer than the whole list.
proof fn lemma_total_duration_take(segs: Seq<Segment>, j: int)
    requires
        0 <= j <= segs.len(),
    ensures
        total_duration(segs.take(j)) <= total_duration(segs),
    decreases segs.len() - j,
{
    if j == segs.len() {
        assert(segs.take(j) =~= segs);
    } else {
        lemma_total_duration_take(segs, j + 1);
        assert(segs.take(j + 1).drop_last() =~= segs.take(j));
        assert(segs.take(j + 1).last() == segs[j]);
    }
}

/// Index of the first loop-body segment in `segs`.
pub open spec fn seq_loop_start(segs: Seq<Segment>) -> int {
    if segs.len() > 0 && segs[0].role == LoopRole::Intro {
        1
    } else {
        0
    }
}

/// The shape a segment list must have to form a track: at least one segment,
/// an intro only at index 0, at least one loop-body segment, and a loop body
/// that is neither zero-length nor too long to measure in 64-bit
/// milliseconds.
pub open spec fn valid_segments(segs: Seq<Segment>) -> bool {
    &&& segs.len() >= 1
    &&& forall|i: int| 0 <= i < segs.len() && (#[trigger] segs[i]).role == LoopRole::Intro ==> i == 0
    &&& segs.len() > seq_loop_start(segs)
    &&& 1 <= total_duration(segs.skip(seq_loop_start(segs))) <= u64::MAX
}

/// A complete track: its segments plus the two durations the scheduler
/// needs, computed once from the very same segment data.
#[derive(Debug)]
pub struct Track {
    pub segments: Vec<Segment>,
    /// Duration of the intro segment, or 0 when the track has none.
    pub intro_ms: u64,
    /// Total duration of one pass over the loop body.
    pub loop_ms: u64,
}

impl Track {
    /// Whether the track opens with a non-looping intro segment.
    pub open spec fn has_intro(self) -> bool {
        self.segments@.len() > 0 && self.segments@[0].role == LoopRole::Intro
    }

    /// Index of the first loop-body segment.
    pub open spec fn loop_start(self) -> int {
        seq_loop_start(self.segments@)
    }

    /// The contiguous run of segments that repeats forever.
    pub open spec fn loop_segments(self) -> Seq<Segment> {
        self.segments@.skip(self.loop_start())
    }

    /// Well-formedness: the segment list is valid and the cached durations
    /// agree with it exactly.
    pub open spec fn wf(self) -> bool {
        &&& valid_segments(self.segments@)
        &&& self.intro_ms == (if self.has_intro() {
            self.segments@[0].duration_ms as int
        } else {
            0
        })
        &&& self.loop_ms == total_duration(self.loop_segments())
    }

    /// Builds a track from a segment list, validating the track invariant
    /// and deriving the intro and loop durations from the same data.
    /// Returns `None` exactly when the list cannot form a track.
    pub fn new(segments: Vec<Segment>) -> (r: Option<Track>)
        ensures
            r is Some <==> valid_segments(segments@),
            r matches Some(t) ==> t.wf() && t.segments@ == segments@,
    {
        if segments.len() == 0 {
            return None;
        }
        let has_intro = matches!(segments[0].role, LoopRole::Intro);
        let loop_start: usize = if has_intro {
            1
        } else {
            0
        };
        let mut i: usize = loop_start;
        while i < segments.len()
            invariant
                loop_start <= i <= segments@.len(),
                segments@.len() >= 1,
                loop_start == seq_loop_start(segments@),
                forall|j: int|
                    loop_start <= j < i ==> (#[trigger] segments@[j]).role != LoopRole::Intro,
            decreases segments@.len() - i,
        {
            if matches!(segments[i].role, LoopRole::Intro) {
                return None;
            }
            i = i + 1;
        }
        if segments.len() <= loop_start {
            return None;
        }
        let intro_ms: u64 = if has_intro {
            segments[0].duration_ms
        } else {
            0
        };
        let ghost body = segments@.skip(loop_start as int);
        let mut sum: u64 = 0;
        let mut k: usize = loop_start;
        while k < segments.len()
            invariant
                loop_start <= k <= segments@.len(),
                loop_start == seq_loop_start(segments@),
                body == segments@.skip(loop_start as int),
                sum == total_duration(body.take(k - loop_start)),
            decreases segments@.len() - k,
        {
            let d = segments[k].duration_ms;
            proof {
                let j = k - loop_start;
                assert(body.take(j + 1).drop_last() =~= body.take(j));
                assert(body.take(j + 1).last() == body[j]);
                assert(body[j] == segments@[k as int]);
                if sum > u64::MAX - d {
                    lemma_total_duration_take(body, j + 1);
                }
            }
            if sum > u64::MAX - d {
                // The loop body cannot be measured in 64-bit milliseconds.
                return None;
            }
            sum = sum + d;
            k = k + 1;
        }
        proof {
            assert(body.take(segments@.len() - loop_start) =~= body);
        }
        if sum == 0 {
            return None;
        }
        Some(Track { segments, intro_ms, loop_ms: sum })
    }

    /// Duration of the intro in milliseconds (0 when there is none).
    pub fn intro_duration_ms(&self) -> (r: u64)
        ensures
            r == self.intro_ms,
    {
        self.intro_ms
    }

    /// Duration of one pass over the loop body, in milliseconds.
    pub fn loop_duration_ms(&self) -> (r: u64)
        ensures
            r == self.loop_ms,
    {
        self.loop_ms
    }
}

} // verus!
