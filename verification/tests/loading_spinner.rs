use bloom::widgets::loading_spinner::{
    CircularAnimation, Progress, Timing, BASE_ROTATION_SPEED, WRAP_ROTATION,
};

#[test]
fn the_default_timing_is_a_600ms_cycle_and_a_2s_turn() {
    let timing = Timing::new();
    assert_eq!(timing.cycle, 600_000_000);
    assert_eq!(timing.rotation, 2_000_000_000);
}

#[test]
fn the_cycle_duration_is_split_between_the_two_phases() {
    let timing = Timing::new().cycle_duration(1_000_000_000);
    assert_eq!(timing.cycle, 500_000_000);
    assert_eq!(timing.rotation, 2_000_000_000);
    assert_eq!(Timing::new().cycle_duration(3).cycle, 1);
}

#[test]
fn the_rotation_duration_is_kept_as_given() {
    let timing = Timing::new().rotation_duration(5_000_000_000);
    assert_eq!(timing.rotation, 5_000_000_000);
    assert_eq!(timing.cycle, 600_000_000);
}

#[test]
fn the_constants_are_an_eightieth_and_seven_eighths_of_a_turn() {
    assert_eq!(BASE_ROTATION_SPEED, u32::MAX / 80);
    assert_eq!(WRAP_ROTATION as u64, (u32::MAX as u64 * 7) / 8);
}

#[test]
fn a_new_spinner_expands_from_nothing() {
    let a = CircularAnimation::new(5, 7);
    assert_eq!(a, CircularAnimation::Expanding { start: 5, progress: Progress::Start, rotation: 0, last: 7 });
    assert_eq!(a.start(), 5);
    assert_eq!(a.last(), 7);
    assert_eq!(a.rotation(), 0);
}

#[test]
fn a_frame_within_the_cycle_records_the_elapsed_time() {
    let a = CircularAnimation::new(100, 100);
    let b = a.timed_transition(1_000, 25, 400);
    assert_eq!(b, CircularAnimation::Expanding {
        start: 100,
        progress: Progress::Eased { elapsed: 300, cycle: 1_000 },
        rotation: 25,
        last: 400,
    });
}

#[test]
fn a_frame_exactly_at_the_cycle_end_stays_in_the_phase() {
    let a = CircularAnimation::new(0, 0);
    let b = a.timed_transition(1_000, 1, 1_000);
    assert_eq!(b, CircularAnimation::Expanding {
        start: 0,
        progress: Progress::Eased { elapsed: 1_000, cycle: 1_000 },
        rotation: 1,
        last: 1_000,
    });
}

#[test]
fn a_frame_past_the_cycle_starts_contracting() {
    let a = CircularAnimation::new(0, 0);
    let b = a.timed_transition(1_000, 40, 1_001);
    assert_eq!(b, CircularAnimation::Contracting {
        start: 1_001,
        progress: Progress::Start,
        rotation: 40,
        last: 1_001,
    });
}

#[test]
fn ending_a_contraction_turns_by_the_phase_turn() {
    let a = CircularAnimation::Contracting { start: 0, progress: Progress::Start, rotation: 10, last: 0 };
    let b = a.timed_transition(1_000, 99, 2_000);
    assert_eq!(b, CircularAnimation::Expanding {
        start: 2_000,
        progress: Progress::Start,
        rotation: 10 + 3_811_783_474,
        last: 2_000,
    });
}

#[test]
fn the_rotation_wraps_around() {
    let a = CircularAnimation::Contracting { start: 0, progress: Progress::Start, rotation: 1_000_000_000, last: 0 };
    let b = a.next(0, 5);
    assert_eq!(b.rotation(), ((1_000_000_000u64 + 3_811_783_474u64) % (1u64 << 32)) as u32);
    let c = CircularAnimation::Expanding { start: 0, progress: Progress::Start, rotation: u32::MAX, last: 0 };
    assert_eq!(c.next(2, 9).rotation(), 1);
}

#[test]
fn a_frame_before_the_start_counts_as_no_time() {
    let a = CircularAnimation::new(500, 500);
    let b = a.timed_transition(1_000, 0, 200);
    assert_eq!(b.start(), 500);
    assert_eq!(b.last(), 200);
    assert!(matches!(b, CircularAnimation::Expanding { progress: Progress::Eased { elapsed: 0, cycle: 1_000 }, .. }));
}

#[test]
fn dropped_frames_do_not_change_the_motion() {
    let a = CircularAnimation::new(0, 0);
    let two = a.timed_transition(1_000, 3, 200).timed_transition(1_000, 4, 700);
    let one = a.timed_transition(1_000, 7, 700);
    assert_eq!(two, one);
}

#[test]
fn with_elapsed_keeps_the_phase_and_start() {
    let a = CircularAnimation::Contracting { start: 10, progress: Progress::Start, rotation: 1, last: 10 };
    let b = a.with_elapsed(100, 2, 50, 60);
    assert_eq!(b, CircularAnimation::Contracting {
        start: 10,
        progress: Progress::Eased { elapsed: 50, cycle: 100 },
        rotation: 3,
        last: 60,
    });
}

#[test]
fn the_progress_is_read_back() {
    let a = CircularAnimation::new(0, 0);
    assert_eq!(a.progress(), Progress::Start);
    let b = a.timed_transition(10, 0, 4);
    assert_eq!(b.progress(), Progress::Eased { elapsed: 4, cycle: 10 });
}
