use jukebox::scheduler::{
    Directive, LaneId, LaneState, PlayerError, ResumePoint, SchedState, Scheduler,
};
use jukebox::track::{LoopRole, Segment, Track};
use jukebox::util::{Action, Mode};

fn seg(source: &str, duration_ms: u64, role: LoopRole) -> Segment {
    Segment { source: source.to_string(), duration_ms, role }
}

/// The track of the reference scenario: intro 5.581 s, loop 65.581 s.
fn challenge_track() -> Track {
    Track::new(vec![
        seg("muChallenge2-i.ogg", 5581, LoopRole::Intro),
        seg("muChallenge2.ogg", 65581, LoopRole::LoopBody),
    ])
    .unwrap()
}

fn loop_only_track() -> Track {
    Track::new(vec![seg("muChallenge2.ogg", 65581, LoopRole::LoopBody)]).unwrap()
}

#[test]
fn start_enqueues_intro_at_origin() {
    let mut s = Scheduler::new(challenge_track());
    let (ds, r) = s.start(0, Ok(()));
    assert_eq!(r, Ok(()));
    assert_eq!(
        ds,
        vec![
            Directive::ClearLanes,
            Directive::EnqueueIntro { lane: LaneId::A, fire_at_ms: 0 },
        ]
    );
    assert_eq!(s.state, SchedState::PlayingIntro);
    assert_eq!(s.lane_a, LaneState::Playing { segment: 0, start_offset_ms: 0 });
    assert_eq!(s.lane_b, LaneState::Idle);
    assert_eq!(s.generation, 1);
}

#[test]
fn fire_times_match_reference_scenario() {
    let mut s = Scheduler::new(challenge_track());
    let (_, r) = s.start(0, Ok(()));
    assert_eq!(r, Ok(()));
    assert_eq!(s.fire_time_ms(0), Some(5581));
    assert_eq!(s.fire_time_ms(1), Some(71162));
    assert_eq!(s.fire_time_ms(2), Some(136743));
}

#[test]
fn fire_times_do_not_drift_from_running_sum() {
    let mut s = Scheduler::new(challenge_track());
    s.start(0, Ok(()));
    let mut running: u64 = 5581;
    for n in 0..10_000u64 {
        assert_eq!(s.fire_time_ms(n), Some(running));
        running += 65581;
    }
}

#[test]
fn lookahead_primes_idle_lane_before_fire_time() {
    let mut s = Scheduler::new(challenge_track());
    s.start(0, Ok(()));
    assert_eq!(s.next_deadline_ms(), Some(5531));
    // Nothing is due before the look-ahead target.
    assert_eq!(s.tick(5530), vec![]);
    assert_eq!(s.state, SchedState::PlayingIntro);
    // The look-ahead pre-enqueues the loop body on the idle lane B.
    assert_eq!(
        s.tick(5531),
        vec![Directive::EnqueueLoop { lane: LaneId::B, iteration: 0, fire_at_ms: 5581 }]
    );
    assert_eq!(s.lane_b, LaneState::Playing { segment: 1, start_offset_ms: 5581 });
    // The lane is primed, but the state machine still plays the intro.
    assert_eq!(s.state, SchedState::PlayingIntro);
    assert_eq!(s.next_deadline_ms(), Some(5581));
}

#[test]
fn lanes_alternate_every_iteration() {
    let mut s = Scheduler::new(challenge_track());
    s.start(0, Ok(()));
    // Iteration 0: primed on lane B, fires at the end of the intro.
    assert_eq!(
        s.tick(5531),
        vec![Directive::EnqueueLoop { lane: LaneId::B, iteration: 0, fire_at_ms: 5581 }]
    );
    assert_eq!(s.tick(5581), vec![]);
    assert_eq!(s.state, SchedState::PlayingLoop { n: 0 });
    // The intro lane is retired once the loop body sounds.
    assert_eq!(s.lane_a, LaneState::Idle);
    // Iteration 1: primed on lane A one margin ahead of 71162.
    assert_eq!(s.next_deadline_ms(), Some(71112));
    assert_eq!(
        s.tick(71112),
        vec![Directive::EnqueueLoop { lane: LaneId::A, iteration: 1, fire_at_ms: 71162 }]
    );
    assert_eq!(s.tick(71162), vec![]);
    assert_eq!(s.state, SchedState::PlayingLoop { n: 1 });
    assert_eq!(s.lane_b, LaneState::Idle);
    // Iteration 2 goes back to lane B.
    assert_eq!(
        s.tick(136693),
        vec![Directive::EnqueueLoop { lane: LaneId::B, iteration: 2, fire_at_ms: 136743 }]
    );
}

#[test]
fn pause_freezes_and_resume_shifts_fire_times() {
    let mut s = Scheduler::new(challenge_track());
    s.start(0, Ok(()));
    assert_eq!(s.pause(3000), vec![Directive::PauseLanes]);
    assert_eq!(
        s.state,
        SchedState::Paused { resume: ResumePoint::Intro, frozen_elapsed_ms: 3000 }
    );
    assert_eq!(s.lane_a, LaneState::Paused { segment: 0, start_offset_ms: 0 });
    // Timers are suspended while paused: nothing is due, nothing fires.
    assert_eq!(s.next_deadline_ms(), None);
    assert_eq!(s.tick(4000), vec![]);
    assert_eq!(
        s.state,
        SchedState::Paused { resume: ResumePoint::Intro, frozen_elapsed_ms: 3000 }
    );
    // Resume after a real 2.0 s delay: every future fire time moves by 2.0 s.
    assert_eq!(s.play(5000), vec![Directive::PlayLanes]);
    assert_eq!(s.state, SchedState::PlayingIntro);
    assert_eq!(s.lane_a, LaneState::Playing { segment: 0, start_offset_ms: 0 });
    assert_eq!(s.time_base.origin_ms, 2000);
    assert_eq!(s.fire_time_ms(0), Some(7581));
    assert_eq!(s.fire_time_ms(1), Some(73162));
}

#[test]
fn zero_duration_pause_changes_nothing() {
    let mut s = Scheduler::new(challenge_track());
    s.start(0, Ok(()));
    s.pause(3000);
    s.play(3000);
    assert_eq!(s.state, SchedState::PlayingIntro);
    assert_eq!(s.time_base.origin_ms, 0);
    assert_eq!(s.lane_a, LaneState::Playing { segment: 0, start_offset_ms: 0 });
    assert_eq!(s.fire_time_ms(0), Some(5581));
    assert_eq!(s.next_deadline_ms(), Some(5531));
}

#[test]
fn pause_while_stopped_is_a_no_op() {
    let mut s = Scheduler::new(challenge_track());
    assert_eq!(s.pause(100), vec![]);
    assert_eq!(s.state, SchedState::Stopped);
}

#[test]
fn play_while_playing_is_a_no_op() {
    let mut s = Scheduler::new(challenge_track());
    s.start(0, Ok(()));
    assert_eq!(s.play(100), vec![]);
    assert_eq!(s.state, SchedState::PlayingIntro);
    assert_eq!(s.time_base.origin_ms, 0);
}

#[test]
fn stop_discards_primed_lane_and_next_start_is_clean() {
    let mut s = Scheduler::new(challenge_track());
    s.start(0, Ok(()));
    // The look-ahead has fired: lane B is primed with iteration 0...
    s.tick(5531);
    assert_eq!(s.lane_b, LaneState::Playing { segment: 1, start_offset_ms: 5581 });
    // ...but its fire time has not arrived when the stop lands.
    assert_eq!(s.stop(), vec![Directive::ClearLanes]);
    assert_eq!(s.state, SchedState::Stopped);
    assert_eq!(s.lane_a, LaneState::Idle);
    assert_eq!(s.lane_b, LaneState::Idle);
    assert_eq!(s.next_deadline_ms(), None);
    // A stale timer from the old session finds nothing due.
    assert_eq!(s.tick(5581), vec![]);
    assert_eq!(s.state, SchedState::Stopped);
    // The next session begins with both lanes clean and fresh events only.
    let (ds, r) = s.start(10000, Ok(()));
    assert_eq!(r, Ok(()));
    assert_eq!(
        ds,
        vec![
            Directive::ClearLanes,
            Directive::EnqueueIntro { lane: LaneId::A, fire_at_ms: 10000 },
        ]
    );
    assert_eq!(s.lane_b, LaneState::Idle);
    assert_eq!(s.generation, 2);
    assert_eq!(s.fire_time_ms(0), Some(15581));
}

#[test]
fn stop_while_paused_resets_both_lanes() {
    let mut s = Scheduler::new(challenge_track());
    s.start(0, Ok(()));
    s.pause(3000);
    assert_eq!(s.stop(), vec![Directive::ClearLanes]);
    assert_eq!(s.state, SchedState::Stopped);
    assert_eq!(s.lane_a, LaneState::Idle);
    assert_eq!(s.lane_b, LaneState::Idle);
}

#[test]
fn unreadable_source_aborts_start() {
    let mut s = Scheduler::new(challenge_track());
    let (ds, r) = s.start(0, Err(PlayerError::SourceUnreadable));
    assert_eq!(r, Err(PlayerError::SourceUnreadable));
    // No lane was armed: the intro never begins.
    assert_eq!(ds, vec![Directive::ClearLanes]);
    assert_eq!(s.state, SchedState::Stopped);
    assert_eq!(s.lane_a, LaneState::Idle);
    assert_eq!(s.lane_b, LaneState::Idle);
    assert_eq!(s.next_deadline_ms(), None);
}

#[test]
fn missing_device_aborts_start() {
    let mut s = Scheduler::new(challenge_track());
    let (_, r) = s.start(0, Err(PlayerError::DeviceUnavailable));
    assert_eq!(r, Err(PlayerError::DeviceUnavailable));
    assert_eq!(s.state, SchedState::Stopped);
}

#[test]
fn track_without_intro_fires_iteration_zero_at_origin() {
    let mut s = Scheduler::new(loop_only_track());
    let (ds, r) = s.start(1000, Ok(()));
    assert_eq!(r, Ok(()));
    // No intro to enqueue: only the reset directive.
    assert_eq!(ds, vec![Directive::ClearLanes]);
    assert_eq!(s.lane_a, LaneState::Idle);
    // The look-ahead target is clamped to the origin.
    assert_eq!(s.next_deadline_ms(), Some(1000));
    assert_eq!(
        s.tick(1000),
        vec![Directive::EnqueueLoop { lane: LaneId::B, iteration: 0, fire_at_ms: 1000 }]
    );
    assert_eq!(s.tick(1000), vec![]);
    assert_eq!(s.state, SchedState::PlayingLoop { n: 0 });
    assert_eq!(s.fire_time_ms(1), Some(66581));
}

#[test]
fn fire_times_past_the_clock_range_are_refused() {
    let mut s = Scheduler::new(challenge_track());
    s.start(u64::MAX - 5000, Ok(()));
    assert_eq!(s.fire_time_ms(0), None);
    assert_eq!(s.next_deadline_ms(), None);
}

#[test]
fn commands_dispatch_like_the_direct_calls() {
    let mut s = Scheduler::new(challenge_track());
    let (ds, r) = s.handle_command(Action::Start, 0, Ok(()));
    assert_eq!(r, Ok(()));
    assert_eq!(
        ds,
        vec![
            Directive::ClearLanes,
            Directive::EnqueueIntro { lane: LaneId::A, fire_at_ms: 0 },
        ]
    );
    let (ds, r) = s.handle_command(Action::Pause, 3000, Ok(()));
    assert_eq!(r, Ok(()));
    assert_eq!(ds, vec![Directive::PauseLanes]);
    let (ds, r) = s.handle_command(Action::Play, 5000, Ok(()));
    assert_eq!(r, Ok(()));
    assert_eq!(ds, vec![Directive::PlayLanes]);
    assert_eq!(s.fire_time_ms(0), Some(7581));
    let (ds, r) = s.handle_command(Action::Stop, 6000, Ok(()));
    assert_eq!(r, Ok(()));
    assert_eq!(ds, vec![Directive::ClearLanes]);
    assert_eq!(s.state, SchedState::Stopped);
}

#[test]
fn front_end_mode_defaults_to_the_main_screen() {
    assert_eq!(Mode::default(), Mode::Default);
}
