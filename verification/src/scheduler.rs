//! The loop scheduler: a state machine that decides, from one shared time
//! origin, which lane plays which segment and when the next loop pass must be
//! pre-enqueued on the idle lane so playback stays gapless.
//!
//! The scheduler itself never touches a clock, a file or an audio device.
//! Its caller runs the command channel, reads a monotonic clock, and carries
//! out the [`Directive`]s the scheduler returns; the scheduler only computes.
//! All instants are milliseconds on that monotonic clock.

use vstd::prelude::*;

use crate::fire_times::{fire_offset, fire_offset_running_sum, lemma_fire_offset_closed_form,
checked_fire_time, wide_fire_time};
use crate::track::{LoopRole, Track};
use crate::time_base::TimeBase;
use crate::util::Action;

verus! {

/// Lead time before a fire time at which the next loop pass is pre-enqueued
/// on the idle lane, sized to exceed worst-case enqueue latency while staying
/// imperceptible.
pub const LOOKAHEAD_MARGIN_MS: u64 = 50;

/// One of the two alternating audio output lanes.
#[derive(Clone, Copy, Debug, PartialEq, Eq, Structural)]
pub enum LaneId {
    A,
    B,
}

/// State of one lane, as the scheduler models it.  Offsets are milliseconds
/// from the session origin, so shifting the origin on resume moves every
/// lane's timeline together.
#[derive(Clone, Copy, Debug, PartialEq, Eq, Structural)]
pub enum LaneState {
    Idle,
    /// The lane holds audio: `segment` indexes the track's segment list and
    /// `start_offset_ms` is the origin-relative instant its sound begins
    /// (possibly still ahead, for a pre-enqueued lane).
    Playing { segment: usize, start_offset_ms: u64 },
    /// Paused with its content intact.  Together with the scheduler's frozen
    /// elapsed value, `start_offset_ms` determines how much of the segment
    /// had sounded when the pause hit.
    Paused { segment: usize, start_offset_ms: u64 },
}

/// Where playback picks up again after a pause.
#[derive(Clone, Copy, Debug, PartialEq, Eq, Structural)]
pub enum ResumePoint {
    Intro,
    Loop { n: u64 },
}

/// The scheduler's state machine states.
#[derive(Clone, Copy, Debug, PartialEq, Eq, Structural)]
pub enum SchedState {
    Stopped,
    /// The intro phase: loop iteration 0 has not fired yet.
    PlayingIntro,
    /// Loop iteration `n` (counted from 0) is sounding.
    PlayingLoop { n: u64 },
    /// Both lanes are held; `frozen_elapsed_ms` is the elapsed-since-origin
    /// value captured when the pause hit.
    Paused { resume: ResumePoint, frozen_elapsed_ms: u64 },
}

/// Why a session could not start.  Either error is fatal to the session:
/// the scheduler returns to `Stopped` and a fresh user-initiated start is
/// required.
#[derive(Clone, Copy, Debug, PartialEq, Eq, Structural)]
pub enum PlayerError {
    /// No output device was available at session start.
    DeviceUnavailable,
    /// A segment's source could not be opened or decoded.
    SourceUnreadable,
}

/// An instruction to the caller, to be carried out against the real lanes.
#[derive(Clone, Copy, Debug, PartialEq, Eq, Structural)]
pub enum Directive {
    /// Append the intro segment to `lane`; its sound begins immediately.
    EnqueueIntro { lane: LaneId, fire_at_ms: u64 },
    /// Append one whole pass over the loop body to `lane`, primed so that
    /// its sound begins exactly at `fire_at_ms` regardless of when the
    /// enqueue itself happens.
    EnqueueLoop { lane: LaneId, iteration: u64, fire_at_ms: u64 },
    /// Resume output on both lanes without touching their queued content.
    PlayLanes,
    /// Halt output on both lanes without touching their queued content.
    PauseLanes,
    /// Discard everything queued on both lanes, leaving them as good as new.
    ClearLanes,
}

/// What kind of work a scheduled event stands for.
pub enum EventKind {
    /// Pre-enqueue the next loop pass on the idle lane.
    LookAhead,
    /// The instant a loop pass begins sounding and the lanes swap roles.
    Fire,
}

/// A not-yet-consumed scheduled event, as the scheduler's model sees it:
/// created when a segment is scheduled, consumed exactly once, never edited
/// — stopping invalidates outstanding events instead.
pub struct EventModel {
    pub kind: EventKind,
    pub lane: LaneId,
    pub iteration: int,
    pub fire_at_ms: int,
}

/// Lane that sounds loop iteration `n`: iterations alternate, starting on
/// lane B while lane A carries the intro.
pub open spec fn lane_for(n: int) -> LaneId {
    if n % 2 == 0 {
        LaneId::B
    } else {
        LaneId::A
    }
}

/// How a pause leaves one lane: output halts, queued content stays.
pub open spec fn pause_lane(l: LaneState) -> LaneState {
    match l {
        LaneState::Playing { segment, start_offset_ms } => LaneState::Paused {
            segment,
            start_offset_ms,
        },
        _ => l,
    }
}

/// How a resume leaves one lane: the exact inverse of [`pause_lane`].
pub open spec fn resume_lane(l: LaneState) -> LaneState {
    match l {
        LaneState::Paused { segment, start_offset_ms } => LaneState::Playing {
            segment,
            start_offset_ms,
        },
        _ => l,
    }
}

/// The resume point recorded when pausing in `st`.
pub open spec fn resume_point(st: SchedState) -> ResumePoint {
    match st {
        SchedState::PlayingLoop { n } => ResumePoint::Loop { n },
        _ => ResumePoint::Intro,
    }
}

/// The playing state that a resume point stands for.
pub open spec fn playing_state(rp: ResumePoint) -> SchedState {
    match rp {
        ResumePoint::Intro => SchedState::PlayingIntro,
        ResumePoint::Loop { n } => SchedState::PlayingLoop { n },
    }
}

/// The loop scheduler.  It owns the time base and both lane states for the
/// lifetime of one playback session; everything it decides is a pure
/// function of its fields and the instants its caller hands it.
#[verifier::ext_equal]
pub struct Scheduler {
    pub track: Track,
    pub state: SchedState,
    /// The session's time base: captured by the start that opened the
    /// session, shifted forward by every completed pause.
    pub time_base: TimeBase,
    pub lane_a: LaneState,
    pub lane_b: LaneState,
    /// Whether the pre-enqueue for the next pending iteration has happened.
    pub lookahead_done: bool,
    /// Session counter, bumped on every start; deferred work belonging to an
    /// older generation is thereby invalidated.
    pub generation: u64,
    /// History of loop iterations that have fired: `(iteration, absolute
    /// fire time)`.  Recorded instants are frozen and never rewritten.
    pub fired: Ghost<Seq<(int, int)>>,
}

impl Scheduler {
    /// Whether playback is running (neither stopped nor paused).
    pub open spec fn is_playing(self) -> bool {
        self.state is PlayingIntro || self.state is PlayingLoop
    }

    /// The loop iteration whose fire event is pending next.
    pub open spec fn next_iteration(self) -> int {
        match self.state {
            SchedState::PlayingIntro => 0,
            SchedState::PlayingLoop { n } => n + 1,
            SchedState::Paused { resume: ResumePoint::Intro, .. } => 0,
            SchedState::Paused { resume: ResumePoint::Loop { n }, .. } => n + 1,
            SchedState::Stopped => 0,
        }
    }

    /// Absolute fire time of loop iteration `n`, always recomputed from the
    /// origin — `origin + intro + n * loop` — never accumulated.
    pub open spec fn fire_time(self, n: int) -> int {
        self.time_base.origin_ms + fire_offset(self.track.intro_ms as int, self.track.loop_ms as int, n)
    }

    /// The instant at which iteration `n`'s pre-enqueue is due: one margin
    /// ahead of its fire time, but never before the session origin.
    pub open spec fn lookahead_target(self, n: int) -> int {
        if self.fire_time(n) - LOOKAHEAD_MARGIN_MS >= self.time_base.origin_ms {
            self.fire_time(n) - LOOKAHEAD_MARGIN_MS
        } else {
            self.time_base.origin_ms as int
        }
    }

    /// The outstanding scheduled events: at most a look-ahead and a fire for
    /// the next iteration.  While paused they persist untouched; when
    /// stopped there are none.
    pub open spec fn pending_events(self) -> Seq<EventModel> {
        if self.state is Stopped {
            Seq::empty()
        } else {
            let n = self.next_iteration();
            let fire = EventModel {
                kind: EventKind::Fire,
                lane: lane_for(n),
                iteration: n,
                fire_at_ms: self.fire_time(n),
            };
            if self.lookahead_done {
                seq![fire]
            } else {
                seq![
                    EventModel {
                        kind: EventKind::LookAhead,
                        lane: lane_for(n),
                        iteration: n,
                        fire_at_ms: self.lookahead_target(n),
                    },
                    fire,
                ]
            }
        }
    }

    /// Well-formedness, established by [`Scheduler::new`] and preserved by
    /// every transition.
    pub open spec fn wf(self) -> bool {
        &&& self.track.wf()
        &&& (self.state is Stopped ==> self.lane_a == LaneState::Idle && self.lane_b
            == LaneState::Idle && !self.lookahead_done)
        &&& (self.is_playing() ==> !(self.lane_a is Paused) && !(self.lane_b is Paused))
        &&& (self.state is Paused ==> !(self.lane_a is Playing) && !(self.lane_b is Playing))
        &&& (match self.state {
            SchedState::PlayingLoop { n } => n < u64::MAX,
            SchedState::Paused { resume: ResumePoint::Loop { n }, .. } => n < u64::MAX,
            _ => true,
        })
    }

    /// A fresh scheduler for `track`: stopped, both lanes idle, nothing
    /// scheduled.
    pub fn new(track: Track) -> (s: Scheduler)
        requires
            track.wf(),
        ensures
            s.wf(),
            s.track == track,
            s.state == SchedState::Stopped,
            s.time_base.origin_ms == 0,
            s.lane_a == LaneState::Idle,
            s.lane_b == LaneState::Idle,
            !s.lookahead_done,
            s.generation == 0,
            s.fired@ == Seq::<(int, int)>::empty(),
            s.pending_events() == Seq::<EventModel>::empty(),
    {
        Scheduler {
            track,
            state: SchedState::Stopped,
            time_base: TimeBase::capture(0),
            lane_a: LaneState::Idle,
            lane_b: LaneState::Idle,
            lookahead_done: false,
            generation: 0,
            fired: Ghost(Seq::empty()),
        }
    }
}

/// How a start leaves the scheduler.  On a failed preparation the scheduler
/// is stopped with clean lanes and the error is handed back; otherwise a new
/// session opens at `now_ms`: the intro (if any) is enqueued on lane A at
/// once and both of iteration 0's events are scheduled.
pub open spec fn start_rel(
    pre: Scheduler,
    post: Scheduler,
    now_ms: u64,
    preparation: Result<(), PlayerError>,
    ds: Seq<Directive>,
    r: Result<(), PlayerError>,
) -> bool {
    &&& post.track == pre.track
    &&& post.generation == pre.generation + 1
    &&& post.fired@ == Seq::<(int, int)>::empty()
    &&& !post.lookahead_done
    &&& match preparation {
        Result::Err(e) => {
            &&& r == Result::<(), PlayerError>::Err(e)
            &&& post.state == SchedState::Stopped
            &&& post.lane_a == LaneState::Idle
            &&& post.lane_b == LaneState::Idle
            &&& ds == seq![Directive::ClearLanes]
        },
        Result::Ok(_) => {
            &&& r == Result::<(), PlayerError>::Ok(())
            &&& post.state == SchedState::PlayingIntro
            &&& post.time_base.origin_ms == now_ms
            &&& post.lane_b == LaneState::Idle
            &&& if pre.track.has_intro() {
                &&& post.lane_a == (LaneState::Playing { segment: 0, start_offset_ms: 0 })
                &&& ds == seq![
                    Directive::ClearLanes,
                    (Directive::EnqueueIntro { lane: LaneId::A, fire_at_ms: now_ms }),
                ]
            } else {
                &&& post.lane_a == LaneState::Idle
                &&& ds == seq![Directive::ClearLanes]
            }
        },
    }
}

/// How a pause leaves the scheduler.  From a playing state the elapsed value
/// is captured and frozen, both lanes are held, and the pending events stay
/// exactly as they were; anywhere else it is a no-op.
pub open spec fn pause_rel(pre: Scheduler, post: Scheduler, now_ms: u64, ds: Seq<
    Directive,
>) -> bool {
    &&& post.track == pre.track
    &&& post.time_base.origin_ms == pre.time_base.origin_ms
    &&& post.generation == pre.generation
    &&& post.fired == pre.fired
    &&& if pre.is_playing() {
        &&& post.state == (SchedState::Paused {
            resume: resume_point(pre.state),
            frozen_elapsed_ms: (now_ms - pre.time_base.origin_ms) as u64,
        })
        &&& post.lane_a == pause_lane(pre.lane_a)
        &&& post.lane_b == pause_lane(pre.lane_b)
        &&& post.lookahead_done == pre.lookahead_done
        &&& ds == seq![Directive::PauseLanes]
    } else {
        post == pre && ds == Seq::<Directive>::empty()
    }
}

/// How a resume leaves the scheduler.  From a paused state the origin moves
/// forward so that the frozen elapsed value still holds at `now_ms` — future
/// fire times shift with it while every recorded past instant stays put —
/// and both lanes pick up where they stopped; anywhere else it is a no-op.
pub open spec fn play_rel(pre: Scheduler, post: Scheduler, now_ms: u64, ds: Seq<
    Directive,
>) -> bool {
    &&& post.track == pre.track
    &&& post.generation == pre.generation
    &&& post.fired == pre.fired
    &&& match pre.state {
        SchedState::Paused { resume, frozen_elapsed_ms } => {
            &&& post.state == playing_state(resume)
            &&& post.time_base.origin_ms == now_ms - frozen_elapsed_ms
            &&& post.lane_a == resume_lane(pre.lane_a)
            &&& post.lane_b == resume_lane(pre.lane_b)
            &&& post.lookahead_done == pre.lookahead_done
            &&& ds == seq![Directive::PlayLanes]
        },
        _ => post == pre && ds == Seq::<Directive>::empty(),
    }
}

/// How a stop leaves the scheduler, whatever went before: stopped, both
/// lanes as good as new, and every outstanding event discarded.
pub open spec fn stop_rel(pre: Scheduler, post: Scheduler, ds: Seq<Directive>) -> bool {
    &&& post.track == pre.track
    &&& post.time_base.origin_ms == pre.time_base.origin_ms
    &&& post.generation == pre.generation
    &&& post.fired == pre.fired
    &&& post.state == SchedState::Stopped
    &&& post.lane_a == LaneState::Idle
    &&& post.lane_b == LaneState::Idle
    &&& !post.lookahead_done
    &&& ds == seq![Directive::ClearLanes]
}

/// The lane state of a lane just primed with loop iteration `n`: it holds
/// the first loop-body segment, due to begin sounding at `n`'s fire time.
pub open spec fn primed_lane(pre: Scheduler, n: int) -> LaneState {
    LaneState::Playing {
        segment: pre.track.loop_start() as usize,
        start_offset_ms: (pre.fire_time(n) - pre.time_base.origin_ms) as u64,
    }
}

/// What never changes across a tick.
pub open spec fn tick_frame(pre: Scheduler, post: Scheduler) -> bool {
    &&& post.track == pre.track
    &&& post.time_base.origin_ms == pre.time_base.origin_ms
    &&& post.generation == pre.generation
}

/// How one tick at `now_ms` leaves the scheduler.  At most one event runs,
/// the earlier-targeted look-ahead before the fire:
/// - a due look-ahead primes the idle lane with the next loop pass, whose
///   sound onset stays governed by the original absolute fire time;
/// - a due fire advances the iteration count, retires the lane that just
///   finished sounding, and makes the following iteration's events pending;
/// - otherwise — stopped, paused, or nothing due yet — nothing happens.
pub open spec fn tick_rel(pre: Scheduler, post: Scheduler, now_ms: u64, ds: Seq<
    Directive,
>) -> bool {
    let n = pre.next_iteration();
    &&& tick_frame(pre, post)
    &&& if !pre.is_playing() {
        post == pre && ds == Seq::<Directive>::empty()
    } else if !pre.lookahead_done && pre.lookahead_target(n) <= now_ms {
        &&& post.state == pre.state
        &&& post.lookahead_done
        &&& post.fired == pre.fired
        &&& (lane_for(n) == LaneId::A ==> post.lane_a == primed_lane(pre, n) && post.lane_b
            == pre.lane_b)
        &&& (lane_for(n) == LaneId::B ==> post.lane_b == primed_lane(pre, n) && post.lane_a
            == pre.lane_a)
        &&& ds == seq![
            (Directive::EnqueueLoop {
                lane: lane_for(n),
                iteration: n as u64,
                fire_at_ms: pre.fire_time(n) as u64,
            }),
        ]
    } else if pre.fire_time(n) <= now_ms {
        &&& post.state == (SchedState::PlayingLoop { n: n as u64 })
        &&& !post.lookahead_done
        &&& post.fired@ == pre.fired@.push((n, pre.fire_time(n)))
        &&& (lane_for(n) == LaneId::A ==> post.lane_a == pre.lane_a && post.lane_b
            == LaneState::Idle)
        &&& (lane_for(n) == LaneId::B ==> post.lane_b == pre.lane_b && post.lane_a
            == LaneState::Idle)
        &&& ds == Seq::<Directive>::empty()
    } else {
        post == pre && ds == Seq::<Directive>::empty()
    }
}

/// Exec mirror of [`lane_for`].
fn lane_for_exec(n: u64) -> (l: LaneId)
    ensures
        l == lane_for(n as int),
{
    if n % 2 == 0 {
        LaneId::B
    } else {
        LaneId::A
    }
}

/// Exec mirror of [`pause_lane`].
fn pause_lane_exec(l: LaneState) -> (r: LaneState)
    ensures
        r == pause_lane(l),
{
    match l {
        LaneState::Playing { segment, start_offset_ms } => LaneState::Paused {
            segment,
            start_offset_ms,
        },
        _ => l,
    }
}

/// Exec mirror of [`resume_lane`].
fn resume_lane_exec(l: LaneState) -> (r: LaneState)
    ensures
        r == resume_lane(l),
{
    match l {
        LaneState::Paused { segment, start_offset_ms } => LaneState::Playing {
            segment,
            start_offset_ms,
        },
        _ => l,
    }
}

impl Scheduler {
    /// Opens a playback session at `now_ms` — or refuses to, when the
    /// caller's preparation of device and sources failed.
    ///
    /// `preparation` is the outcome of the caller's own work: opening the
    /// output device and readying every segment source ahead of time.  On
    /// `Err` no lane is armed, the scheduler (re-)enters `Stopped`, and the
    /// same error is returned, so a torn-down start never half-plays.  On
    /// `Ok` the previous session (if any) is invalidated, the time base is
    /// captured at `now_ms`, the intro is enqueued on lane A at once, and
    /// iteration 0's look-ahead and fire events become pending.
    pub fn start(&mut self, now_ms: u64, preparation: Result<(), PlayerError>) -> (dr: (
        Vec<Directive>,
        Result<(), PlayerError>,
    ))
        requires
            old(self).wf(),
            old(self).generation < u64::MAX,
        ensures
            final(self).wf(),
            start_rel(*old(self), *final(self), now_ms, preparation, dr.0@, dr.1),
    {
        self.generation = self.generation + 1;
        self.fired = Ghost(Seq::empty());
        self.lookahead_done = false;
        let mut ds: Vec<Directive> = Vec::new();
        ds.push(Directive::ClearLanes);
        match preparation {
            Result::Err(e) => {
                self.state = SchedState::Stopped;
                self.lane_a = LaneState::Idle;
                self.lane_b = LaneState::Idle;
                (ds, Result::Err(e))
            },
            Result::Ok(_) => {
                self.state = SchedState::PlayingIntro;
                self.time_base = TimeBase::capture(now_ms);
                self.lane_b = LaneState::Idle;
                if matches!(self.track.segments[0].role, LoopRole::Intro) {
                    self.lane_a = LaneState::Playing { segment: 0, start_offset_ms: 0 };
                    ds.push(Directive::EnqueueIntro { lane: LaneId::A, fire_at_ms: now_ms });
                    proof {
                        assert(ds@ =~= seq![
                            Directive::ClearLanes,
                            (Directive::EnqueueIntro { lane: LaneId::A, fire_at_ms: now_ms }),
                        ]);
                    }
                } else {
                    self.lane_a = LaneState::Idle;
                }
                (ds, Result::Ok(()))
            },
        }
    }

    /// Pauses playback: captures and freezes the elapsed-since-origin value,
    /// holds both lanes, and suspends — without cancelling — the pending
    /// events.  A no-op unless something is playing.
    pub fn pause(&mut self, now_ms: u64) -> (ds: Vec<Directive>)
        requires
            old(self).wf(),
            old(self).is_playing() ==> now_ms >= old(self).time_base.origin_ms,
        ensures
            final(self).wf(),
            pause_rel(*old(self), *final(self), now_ms, ds@),
    {
        match self.state {
            SchedState::PlayingIntro => {
                self.state = SchedState::Paused {
                    resume: ResumePoint::Intro,
                    frozen_elapsed_ms: self.time_base.elapsed_ms(now_ms),
                };
            },
            SchedState::PlayingLoop { n } => {
                self.state = SchedState::Paused {
                    resume: ResumePoint::Loop { n },
                    frozen_elapsed_ms: self.time_base.elapsed_ms(now_ms),
                };
            },
            _ => {
                return Vec::new();
            },
        }
        self.lane_a = pause_lane_exec(self.lane_a);
        self.lane_b = pause_lane_exec(self.lane_b);
        let mut ds: Vec<Directive> = Vec::new();
        ds.push(Directive::PauseLanes);
        ds
    }

    /// Resumes paused playback: shifts the origin forward by exactly the
    /// paused duration — so every future fire time moves by that much and no
    /// already-fired event is re-triggered or pending one skipped — and lets
    /// both lanes continue.  A no-op unless paused.
    pub fn play(&mut self, now_ms: u64) -> (ds: Vec<Directive>)
        requires
            old(self).wf(),
            old(self).state matches SchedState::Paused { frozen_elapsed_ms, .. } ==> now_ms
                >= frozen_elapsed_ms,
        ensures
            final(self).wf(),
            play_rel(*old(self), *final(self), now_ms, ds@),
    {
        match self.state {
            SchedState::Paused { resume, frozen_elapsed_ms } => {
                self.time_base = TimeBase::rebased(frozen_elapsed_ms, now_ms);
                self.state = match resume {
                    ResumePoint::Intro => SchedState::PlayingIntro,
                    ResumePoint::Loop { n } => SchedState::PlayingLoop { n },
                };
                self.lane_a = resume_lane_exec(self.lane_a);
                self.lane_b = resume_lane_exec(self.lane_b);
                let mut ds: Vec<Directive> = Vec::new();
                ds.push(Directive::PlayLanes);
                ds
            },
            _ => Vec::new(),
        }
    }

    /// Stops playback from any state: both lanes are reset to as-good-as-new
    /// idle, every outstanding scheduled event is discarded — even one whose
    /// look-ahead had already primed a lane — and the time base is given up.
    pub fn stop(&mut self) -> (ds: Vec<Directive>)
        requires
            old(self).wf(),
        ensures
            final(self).wf(),
            stop_rel(*old(self), *final(self), ds@),
            final(self).pending_events() == Seq::<EventModel>::empty(),
    {
        self.state = SchedState::Stopped;
        self.lane_a = LaneState::Idle;
        self.lane_b = LaneState::Idle;
        self.lookahead_done = false;
        let mut ds: Vec<Directive> = Vec::new();
        ds.push(Directive::ClearLanes);
        ds
    }

    /// The loop iteration whose fire event is pending next.
    fn next_iteration_exec(&self) -> (n: u64)
        requires
            self.wf(),
        ensures
            n == self.next_iteration(),
    {
        match self.state {
            SchedState::PlayingIntro => 0,
            SchedState::PlayingLoop { n } => n + 1,
            SchedState::Paused { resume: ResumePoint::Intro, .. } => 0,
            SchedState::Paused { resume: ResumePoint::Loop { n }, .. } => n + 1,
            SchedState::Stopped => 0,
        }
    }

    /// Runs the earliest due scheduled event, if there is one, and says what
    /// the caller must do about it; call again until nothing more is due.
    /// See [`tick_rel`] for the exact transition.  A deferred task from an
    /// older session finds nothing due here, because stopping discards all
    /// pending events: stale timers self-cancel.
    pub fn tick(&mut self, now_ms: u64) -> (ds: Vec<Directive>)
        requires
            old(self).wf(),
            now_ms <= u64::MAX - LOOKAHEAD_MARGIN_MS,
            old(self).is_playing() ==> now_ms >= old(self).time_base.origin_ms,
        ensures
            final(self).wf(),
            tick_rel(*old(self), *final(self), now_ms, ds@),
    {
        match self.state {
            SchedState::PlayingIntro | SchedState::PlayingLoop { .. } => {},
            _ => {
                return Vec::new();
            },
        }
        let n = self.next_iteration_exec();
        proof {
            assert((n as int) * (self.track.loop_ms as int) >= n as int) by (nonlinear_arith)
                requires
                    self.track.loop_ms >= 1,
                    n >= 0,
            ;
        }
        let ft = wide_fire_time(self.time_base.origin_ms, self.track.intro_ms, self.track.loop_ms, n);
        let la: u128 = if ft >= self.time_base.origin_ms as u128 + LOOKAHEAD_MARGIN_MS as u128 {
            ft - LOOKAHEAD_MARGIN_MS as u128
        } else {
            self.time_base.origin_ms as u128
        };
        if !self.lookahead_done && la <= now_ms as u128 {
            let fire_at = ft as u64;
            let lane = lane_for_exec(n);
            let seg: usize = if matches!(self.track.segments[0].role, LoopRole::Intro) {
                1
            } else {
                0
            };
            let primed = LaneState::Playing { segment: seg, start_offset_ms: fire_at - self.time_base.origin_ms };
            match lane {
                LaneId::A => {
                    self.lane_a = primed;
                },
                LaneId::B => {
                    self.lane_b = primed;
                },
            }
            self.lookahead_done = true;
            let mut ds: Vec<Directive> = Vec::new();
            ds.push(Directive::EnqueueLoop { lane, iteration: n, fire_at_ms: fire_at });
            ds
        } else if ft <= now_ms as u128 {
            let lane = lane_for_exec(n);
            match lane {
                LaneId::A => {
                    self.lane_b = LaneState::Idle;
                },
                LaneId::B => {
                    self.lane_a = LaneState::Idle;
                },
            }
            self.state = SchedState::PlayingLoop { n };
            self.lookahead_done = false;
            self.fired = Ghost(
                self.fired@.push(
                    (
                        n as int,
                        self.time_base.origin_ms + fire_offset(
                            self.track.intro_ms as int,
                            self.track.loop_ms as int,
                            n as int,
                        ),
                    ),
                ),
            );
            Vec::new()
        } else {
            Vec::new()
        }
    }

    /// Absolute fire time of loop iteration `n` in the current session, or
    /// `None` when the instant no longer fits in 64-bit milliseconds.
    pub fn fire_time_ms(&self, n: u64) -> (r: Option<u64>)
        ensures
            match r {
                Some(t) => t == self.fire_time(n as int),
                None => self.fire_time(n as int) > u64::MAX,
            },
    {
        checked_fire_time(self.time_base.origin_ms, self.track.intro_ms, self.track.loop_ms, n)
    }

    /// The instant by which [`Scheduler::tick`] next has work: the target of
    /// the earliest pending event.  `None` while stopped — nothing is
    /// scheduled — and while paused, where the pending events are suspended.
    pub fn next_deadline_ms(&self) -> (r: Option<u64>)
        requires
            self.wf(),
        ensures
            ({
                let n = self.next_iteration();
                let target = if self.lookahead_done {
                    self.fire_time(n)
                } else {
                    self.lookahead_target(n)
                };
                if self.is_playing() && target <= u64::MAX {
                    r == Some(target as u64)
                } else {
                    r is None
                }
            }),
    {
        match self.state {
            SchedState::PlayingIntro | SchedState::PlayingLoop { .. } => {},
            _ => {
                return None;
            },
        }
        let n = self.next_iteration_exec();
        proof {
            assert((n as int) * (self.track.loop_ms as int) >= 0) by (nonlinear_arith)
                requires
                    self.track.loop_ms >= 0,
                    n >= 0,
            ;
        }
        let ft = wide_fire_time(self.time_base.origin_ms, self.track.intro_ms, self.track.loop_ms, n);
        let target: u128 = if self.lookahead_done {
            ft
        } else if ft >= self.time_base.origin_ms as u128 + LOOKAHEAD_MARGIN_MS as u128 {
            ft - LOOKAHEAD_MARGIN_MS as u128
        } else {
            self.time_base.origin_ms as u128
        };
        if target <= u64::MAX as u128 {
            Some(target as u64)
        } else {
            None
        }
    }

    /// Handles one message from the command channel: the four user intents,
    /// dispatched to the transition each stands for.  `preparation` is the
    /// outcome of the caller's device-and-source preparation and is read
    /// only by `Start`.
    pub fn handle_command(
        &mut self,
        action: Action,
        now_ms: u64,
        preparation: Result<(), PlayerError>,
    ) -> (dr: (Vec<Directive>, Result<(), PlayerError>))
        requires
            old(self).wf(),
            action == Action::Start ==> old(self).generation < u64::MAX,
            action == Action::Pause && old(self).is_playing() ==> now_ms >= old(self).time_base.origin_ms,
            action == Action::Play ==> (match old(self).state {
                SchedState::Paused { frozen_elapsed_ms, .. } => now_ms >= frozen_elapsed_ms,
                _ => true,
            }),
        ensures
            final(self).wf(),
            match action {
                Action::Start => start_rel(
                    *old(self),
                    *final(self),
                    now_ms,
                    preparation,
                    dr.0@,
                    dr.1,
                ),
                Action::Play => play_rel(*old(self), *final(self), now_ms, dr.0@) && dr.1
                    == Result::<(), PlayerError>::Ok(()),
                Action::Pause => pause_rel(*old(self), *final(self), now_ms, dr.0@) && dr.1
                    == Result::<(), PlayerError>::Ok(()),
                Action::Stop => stop_rel(*old(self), *final(self), dr.0@) && dr.1 == Result::<
                    (),
                    PlayerError,
                >::Ok(()),
            },
    {
        match action {
            Action::Start => self.start(now_ms, preparation),
            Action::Play => (self.play(now_ms), Result::Ok(())),
            Action::Pause => (self.pause(now_ms), Result::Ok(())),
            Action::Stop => (self.stop(), Result::Ok(())),
        }
    }
}

/// Law: absolute fire times never drift.  For every iteration count `n`,
/// the fire time recomputed from the origin as `origin + intro + n * loop`
/// equals what a running sum of `n` successive loop durations after the
/// intro would have accumulated — so the two can never come apart, however
/// many iterations have played.
pub proof fn lemma_fire_times_never_drift(s: Scheduler, n: nat)
    ensures
        s.fire_time(n as int) == s.time_base.origin_ms + fire_offset_running_sum(
            s.track.intro_ms as int,
            s.track.loop_ms as int,
            n,
        ),
{
    lemma_fire_offset_closed_form(s.track.intro_ms as int, s.track.loop_ms as int, n);
}

/// Law (idempotence under a zero-duration pause): pausing and resuming at
/// the very same instant leaves the scheduler exactly as it was — in
/// particular every future fire time is untouched.
pub proof fn lemma_zero_pause_resume_is_noop(
    s: Scheduler,
    p: Scheduler,
    q: Scheduler,
    now_ms: u64,
    ds_pause: Seq<Directive>,
    ds_play: Seq<Directive>,
)
    requires
        s.wf(),
        s.is_playing(),
        now_ms >= s.time_base.origin_ms,
        pause_rel(s, p, now_ms, ds_pause),
        play_rel(p, q, now_ms, ds_play),
    ensures
        q == s,
        forall|n: int| #[trigger] q.fire_time(n) == s.fire_time(n),
{
    assert(resume_lane(pause_lane(s.lane_a)) == s.lane_a);
    assert(resume_lane(pause_lane(s.lane_b)) == s.lane_b);
    assert(playing_state(resume_point(s.state)) == s.state);
    assert(q =~= s);
}

/// One pending event after a pause-and-resume, held against its counterpart
/// from before: the same kind of work, on the same lane, for the same
/// iteration, due exactly `shift_ms` later.
pub open spec fn event_shifted(before: EventModel, after: EventModel, shift_ms: int) -> bool {
    &&& after.kind == before.kind
    &&& after.lane == before.lane
    &&& after.iteration == before.iteration
    &&& after.fire_at_ms == before.fire_at_ms + shift_ms
}

/// Law: a pause of duration `d` shifts every future fire time by exactly
/// `d`; already-fired events keep their recorded instants, and the pending
/// events survive unconsumed — same kind, lane and iteration — shifted with
/// the origin rather than rewritten.
pub proof fn lemma_pause_shifts_future_fire_times(
    s: Scheduler,
    p: Scheduler,
    q: Scheduler,
    pause_at_ms: u64,
    resume_at_ms: u64,
    ds_pause: Seq<Directive>,
    ds_play: Seq<Directive>,
)
    requires
        s.wf(),
        s.is_playing(),
        s.time_base.origin_ms <= pause_at_ms <= resume_at_ms,
        pause_rel(s, p, pause_at_ms, ds_pause),
        play_rel(p, q, resume_at_ms, ds_play),
    ensures
        q.state == s.state,
        q.time_base.origin_ms == s.time_base.origin_ms + (resume_at_ms - pause_at_ms),
        forall|n: int| #[trigger] q.fire_time(n) == s.fire_time(n) + (resume_at_ms - pause_at_ms),
        q.fired == s.fired,
        q.pending_events().len() == s.pending_events().len(),
        forall|i: int|
            0 <= i < s.pending_events().len() ==> event_shifted(
                s.pending_events()[i],
                #[trigger] q.pending_events()[i],
                resume_at_ms - pause_at_ms,
            ),
{
    assert(playing_state(resume_point(s.state)) == s.state);
    let d = resume_at_ms - pause_at_ms;
    assert forall|n: int| #[trigger] q.fire_time(n) == s.fire_time(n) + d by {
        assert(q.time_base.origin_ms == s.time_base.origin_ms + d);
    }
    let n0 = s.next_iteration();
    assert(q.next_iteration() == n0);
    assert(q.lookahead_target(n0) == s.lookahead_target(n0) + d);
}

} // verus!
