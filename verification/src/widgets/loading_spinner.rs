//! Indeterminate circular progress indicator.
//!
//! Animates from wall-clock time rather than a frame counter, so the motion
//! stays correct when frames are dropped or the window is occluded.
//!
//! The arc grows through an expanding phase and shrinks through a contracting
//! one, while the whole figure turns. Times are nanoseconds on the caller's
//! monotonic clock; the turn is a `u32` fraction of a full circle that wraps
//! around. The caller turns the elapsed time since the previous frame into
//! the extra turn for that frame, and the stored progress into the eased arc
//! length; both are floating point and stay with it.

use vstd::prelude::*;

verus! {

/// A full turn, in the units of [`CircularAnimation`]'s rotation.
pub open spec fn full_turn() -> int {
    0x1_0000_0000
}

/// Part of the turn the whole figure makes at the end of each contraction,
/// on top of the frames' own: an eightieth of a full turn.
pub const BASE_ROTATION_SPEED: u32 = 53687091;

/// The sweep of the arc at full length beyond its minimum: seven eighths of a
/// full turn (`u32::MAX * 7 / 8`, rounded down).
pub const WRAP_ROTATION: u32 = 3758096383;

/// Turning `rotation` by `amount`, modulo a full turn.
pub open spec fn turned(rotation: u32, amount: int) -> u32 {
    ((rotation + amount) % full_turn()) as u32
}

/// The turn added when a contracting phase ends and the next expansion
/// begins, so that the new arc starts where the shrunken one ends.
pub open spec fn phase_turn() -> int {
    BASE_ROTATION_SPEED + WRAP_ROTATION
}

/// The durations of a spinner, in nanoseconds.
#[derive(Debug, Clone, Copy, PartialEq, Eq, Structural)]
pub struct Timing {
    /// How long one phase (expanding or contracting) lasts.
    pub cycle: u128,
    /// How long a full turn takes from the frames' own rotation.
    pub rotation: u128,
}

impl Timing {
    /// 600 ms per phase, a full turn every 2 s.
    pub fn new() -> (r: Timing)
        ensures
            r.cycle == 600_000_000,
            r.rotation == 2_000_000_000,
    {
        Timing { cycle: 600_000_000, rotation: 2_000_000_000 }
    }

    /// Sets the length of a full cycle, expanding then contracting: each
    /// phase takes half of `duration` (rounded down to the nanosecond).
    pub fn cycle_duration(self, duration: u128) -> (r: Timing)
        ensures
            r.cycle == duration / 2,
            r.cycle * 2 <= duration <= r.cycle * 2 + 1,
            r.rotation == self.rotation,
    {
        Timing { cycle: duration / 2, ..self }
    }

    /// Sets how long a full turn takes.
    pub fn rotation_duration(self, duration: u128) -> (r: Timing)
        ensures
            r.rotation == duration,
            r.cycle == self.cycle,
    {
        Timing { rotation: duration, ..self }
    }
}

/// How far the current phase has gone.
#[derive(Debug, Clone, Copy, PartialEq, Eq, Structural)]
pub enum Progress {
    /// The phase has just begun: nothing of it has run.
    Start,
    /// `elapsed` of a phase lasting `cycle` has run; the arc is eased by the
    /// fraction `elapsed / cycle`.
    Eased { elapsed: u128, cycle: u128 },
}

/// The animation state, kept between frames.
#[derive(Debug, Clone, Copy, PartialEq, Eq, Structural)]
pub enum CircularAnimation {
    /// The arc grows from its minimum towards its full sweep.
    Expanding { start: u128, progress: Progress, rotation: u32, last: u128 },
    /// The arc shrinks from its full sweep towards its minimum.
    Contracting { start: u128, progress: Progress, rotation: u32, last: u128 },
}

impl CircularAnimation {
    /// When the current phase began.
    pub open spec fn start_spec(self) -> u128 {
        match self {
            CircularAnimation::Expanding { start, .. } => start,
            CircularAnimation::Contracting { start, .. } => start,
        }
    }

    /// The latest frame.
    pub open spec fn last_spec(self) -> u128 {
        match self {
            CircularAnimation::Expanding { last, .. } => last,
            CircularAnimation::Contracting { last, .. } => last,
        }
    }

    pub open spec fn rotation_spec(self) -> u32 {
        match self {
            CircularAnimation::Expanding { rotation, .. } => rotation,
            CircularAnimation::Contracting { rotation, .. } => rotation,
        }
    }

    pub open spec fn progress_spec(self) -> Progress {
        match self {
            CircularAnimation::Expanding { progress, .. } => progress,
            CircularAnimation::Contracting { progress, .. } => progress,
        }
    }

    pub open spec fn expanding(self) -> bool {
        self is Expanding
    }

    /// An animation in `expanding` phase with the given fields.
    pub open spec fn phase_of(
        expanding: bool,
        start: u128,
        progress: Progress,
        rotation: u32,
        last: u128,
    ) -> CircularAnimation {
        if expanding {
            CircularAnimation::Expanding { start, progress, rotation, last }
        } else {
            CircularAnimation::Contracting { start, progress, rotation, last }
        }
    }

    /// A fresh spinner: expanding from nothing, unturned.
    pub fn new(start: u128, last: u128) -> (r: CircularAnimation)
        ensures
            r == (CircularAnimation::Expanding { start, progress: Progress::Start, rotation: 0, last }),
    {
        CircularAnimation::Expanding { start, progress: Progress::Start, rotation: 0, last }
    }

    /// The next phase, beginning at `now`. An ending expansion adds the
    /// frame's `additional_rotation`; an ending contraction instead turns the
    /// figure by [`BASE_ROTATION_SPEED`] plus [`WRAP_ROTATION`].
    pub fn next(&self, additional_rotation: u32, now: u128) -> (r: CircularAnimation)
        ensures
            r.expanding() == !self.expanding(),
            r.start_spec() == now,
            r.last_spec() == now,
            r.progress_spec() == Progress::Start,
            r.rotation_spec() == (if self.expanding() {
                turned(self.rotation_spec(), additional_rotation as int)
            } else {
                turned(self.rotation_spec(), phase_turn())
            }),
            r == self.next_spec(additional_rotation, now),
    {
        match self {
            CircularAnimation::Expanding { rotation, .. } => CircularAnimation::Contracting {
                start: now,
                progress: Progress::Start,
                rotation: rotation.wrapping_add(additional_rotation),
                last: now,
            },
            CircularAnimation::Contracting { rotation, .. } => CircularAnimation::Expanding {
                start: now,
                progress: Progress::Start,
                rotation: rotation.wrapping_add(BASE_ROTATION_SPEED.wrapping_add(WRAP_ROTATION)),
                last: now,
            },
        }
    }

    /// When the current phase began.
    pub fn start(&self) -> (r: u128)
        ensures
            r == self.start_spec(),
    {
        match self {
            CircularAnimation::Expanding { start, .. } | CircularAnimation::Contracting {
                start,
                ..
            } => *start,
        }
    }

    /// When the latest frame was.
    pub fn last(&self) -> (r: u128)
        ensures
            r == self.last_spec(),
    {
        match self {
            CircularAnimation::Expanding { last, .. } | CircularAnimation::Contracting {
                last,
                ..
            } => *last,
        }
    }

    /// How far the current phase has gone.
    pub fn progress(&self) -> (r: Progress)
        ensures
            r == self.progress_spec(),
    {
        match self {
            CircularAnimation::Expanding { progress, .. } | CircularAnimation::Contracting {
                progress,
                ..
            } => *progress,
        }
    }

    /// The turn of the whole figure, as a fraction of a full turn in units of
    /// `2^-32`.
    pub fn rotation(&self) -> (r: u32)
        ensures
            r == self.rotation_spec(),
    {
        match self {
            CircularAnimation::Expanding { rotation, .. } | CircularAnimation::Contracting {
                rotation,
                ..
            } => *rotation,
        }
    }

    /// The same phase, `elapsed` into a phase of length `cycle_duration`, at
    /// frame `now`, turned by the frame's `additional_rotation`.
    pub fn with_elapsed(
        &self,
        cycle_duration: u128,
        additional_rotation: u32,
        elapsed: u128,
        now: u128,
    ) -> (r: CircularAnimation)
        ensures
            r == Self::phase_of(
                self.expanding(),
                self.start_spec(),
                Progress::Eased { elapsed, cycle: cycle_duration },
                turned(self.rotation_spec(), additional_rotation as int),
                now,
            ),
    {
        match self {
            CircularAnimation::Expanding { start, rotation, .. } => CircularAnimation::Expanding {
                start: *start,
                progress: Progress::Eased { elapsed, cycle: cycle_duration },
                rotation: rotation.wrapping_add(additional_rotation),
                last: now,
            },
            CircularAnimation::Contracting { start, rotation, .. } => {
                CircularAnimation::Contracting {
                    start: *start,
                    progress: Progress::Eased { elapsed, cycle: cycle_duration },
                    rotation: rotation.wrapping_add(additional_rotation),
                    last: now,
                }
            },
        }
    }

    /// The time since the current phase began, as of `now` (zero when `now`
    /// is not later).
    pub open spec fn elapsed_at(self, now: u128) -> u128 {
        if now >= self.start_spec() {
            (now - self.start_spec()) as u128
        } else {
            0
        }
    }

    /// The frame at `now`: once more than `cycle_duration` has passed since
    /// the phase began, the next phase begins; otherwise the phase goes on
    /// with the time elapsed in it. Either way the frame's
    /// `additional_rotation` (the turn made since the previous frame) applies
    /// as [`CircularAnimation::next`] and [`CircularAnimation::with_elapsed`] say.
    pub fn timed_transition(
        &self,
        cycle_duration: u128,
        additional_rotation: u32,
        now: u128,
    ) -> (r: CircularAnimation)
        ensures
            r == self.timed_spec(cycle_duration, additional_rotation, now),
    {
        let elapsed = now.saturating_sub(self.start());
        if elapsed > cycle_duration {
            self.next(additional_rotation, now)
        } else {
            self.with_elapsed(cycle_duration, additional_rotation, elapsed, now)
        }
    }

    /// What [`CircularAnimation::timed_transition`] returns: past the cycle,
    /// the next phase; within it, the same phase with its elapsed time.
    pub open spec fn timed_spec(
        self,
        cycle_duration: u128,
        additional_rotation: u32,
        now: u128,
    ) -> CircularAnimation {
        if self.elapsed_at(now) > cycle_duration {
            self.next_spec(additional_rotation, now)
        } else {
            Self::phase_of(
                self.expanding(),
                self.start_spec(),
                Progress::Eased { elapsed: self.elapsed_at(now), cycle: cycle_duration },
                turned(self.rotation_spec(), additional_rotation as int),
                now,
            )
        }
    }

    /// What [`CircularAnimation::next`] returns.
    pub open spec fn next_spec(self, additional_rotation: u32, now: u128) -> CircularAnimation {
        Self::phase_of(
            !self.expanding(),
            now,
            Progress::Start,
            if self.expanding() {
                turned(self.rotation_spec(), additional_rotation as int)
            } else {
                turned(self.rotation_spec(), phase_turn())
            },
            now,
        )
    }
}

/// The constants mean what their documentation says: the base turn is an
/// eightieth of a full turn, the wrap seven eighths of it, and together they
/// stay under a full turn.
pub proof fn lemma_rotation_constants()
    ensures
        BASE_ROTATION_SPEED == u32::MAX / 80,
        WRAP_ROTATION == (u32::MAX as int * 7) / 8,
        phase_turn() < full_turn(),
        full_turn() == u32::MAX + 1,
{
}

/// Turning by `a` then by `b` is turning by `a + b`, modulo a full turn.
pub proof fn lemma_turns_compose(rotation: u32, a: int, b: int)
    requires
        a >= 0,
        b >= 0,
    ensures
        turned(turned(rotation, a), b) == turned(rotation, a + b),
{
    vstd::arithmetic::div_mod::lemma_add_mod_noop(rotation + a, b, full_turn());
    vstd::arithmetic::div_mod::lemma_mod_twice(b, full_turn());
    vstd::arithmetic::div_mod::lemma_add_mod_noop(rotation + a, b % full_turn(), full_turn());
    assert(0 <= (rotation + a) % full_turn() < full_turn()) by {
        vstd::arithmetic::div_mod::lemma_mod_bound(rotation + a, full_turn());
    }
    vstd::arithmetic::div_mod::lemma_add_mod_noop((rotation + a) % full_turn(), b, full_turn());
    vstd::arithmetic::div_mod::lemma_mod_twice(rotation + a, full_turn());
}

/// The phases alternate: a phase ends in the other one, and two endings
/// in a row return to the first, each new phase starting from nothing.
pub proof fn lemma_phases_alternate(
    animation: CircularAnimation,
    first_rotation: u32,
    first_end: u128,
    second_rotation: u32,
    second_end: u128,
)
    ensures
        animation.next_spec(first_rotation, first_end).expanding() != animation.expanding(),
        animation.next_spec(first_rotation, first_end).next_spec(second_rotation, second_end).expanding()
            == animation.expanding(),
        animation.next_spec(first_rotation, first_end).progress_spec() == Progress::Start,
{
}

/// Over one full cycle, expanding then contracting, the figure turns by the
/// frame's turn at the end of the expansion plus [`phase_turn`] at the end of
/// the contraction; the frame's turn at the end of the contraction is not
/// added.
pub proof fn lemma_full_cycle_turn(
    animation: CircularAnimation,
    expansion_turn: u32,
    expansion_end: u128,
    contraction_turn: u32,
    contraction_end: u128,
)
    requires
        animation.expanding(),
    ensures
        ({
            let after = animation.next_spec(expansion_turn, expansion_end).next_spec(
                contraction_turn,
                contraction_end,
            );
            &&& after.expanding()
            &&& after.start_spec() == contraction_end
            &&& after.rotation_spec() == turned(
                animation.rotation_spec(),
                expansion_turn + phase_turn(),
            )
        }),
{
    lemma_turns_compose(animation.rotation_spec(), expansion_turn as int, phase_turn());
}

/// Dropped frames do not change the motion: within a phase, a frame at `t1`
/// followed by one at `t2` leaves the spinner as a single frame at `t2` would,
/// with the two frames' turns added together (modulo a full turn).
pub proof fn lemma_frames_dropped(
    animation: CircularAnimation,
    cycle_duration: u128,
    turn1: u32,
    t1: u128,
    turn2: u32,
    t2: u128,
)
    requires
        t1 <= t2,
        animation.elapsed_at(t2) <= cycle_duration,
    ensures
        ({
            let two_frames = animation.timed_spec(cycle_duration, turn1, t1).timed_spec(
                cycle_duration,
                turn2,
                t2,
            );
            let one_frame = animation.timed_spec(cycle_duration, turn1, t2);
            &&& two_frames.expanding() == one_frame.expanding()
            &&& two_frames.start_spec() == one_frame.start_spec()
            &&& two_frames.progress_spec() == one_frame.progress_spec()
            &&& two_frames.last_spec() == t2
            &&& two_frames.rotation_spec() == turned(animation.rotation_spec(), turn1 + turn2)
        }),
{
    lemma_turns_compose(animation.rotation_spec(), turn1 as int, turn2 as int);
}

/// A phase never ends early: until more than the cycle has passed since it
/// began, a frame keeps the phase and its start, and records how far it has
/// gone; after that, the next frame begins the other phase.
pub proof fn lemma_phase_lasts_one_cycle(
    animation: CircularAnimation,
    cycle_duration: u128,
    turn: u32,
    now: u128,
)
    ensures
        animation.elapsed_at(now) <= cycle_duration ==> {
            let r = animation.timed_spec(cycle_duration, turn, now);
            &&& r.expanding() == animation.expanding()
            &&& r.start_spec() == animation.start_spec()
            &&& r.progress_spec() == (Progress::Eased {
                elapsed: animation.elapsed_at(now),
                cycle: cycle_duration,
            })
            &&& r.last_spec() == now
            &&& r.rotation_spec() as int == (animation.rotation_spec() + turn) % full_turn()
        },
        animation.elapsed_at(now) > cycle_duration ==> {
            let r = animation.timed_spec(cycle_duration, turn, now);
            &&& r.expanding() != animation.expanding()
            &&& r.start_spec() == now
            &&& r.last_spec() == now
            &&& r.progress_spec() == Progress::Start
        },
        now >= animation.start_spec() ==> animation.elapsed_at(now) + animation.start_spec() == now,
        now < animation.start_spec() ==> animation.elapsed_at(now) == 0,
{
}

/// How each phase ends, at `now`: the other phase begins at `now`, from
/// nothing. The end of an expansion turns the figure by that frame's turn;
/// the end of a contraction turns it by the base turn plus the wrap (seven
/// eighths of a turn plus an eightieth), whatever that frame's turn was.
pub proof fn lemma_how_phases_end(animation: CircularAnimation, turn: u32, now: u128)
    ensures
        ({
            let r = animation.next_spec(turn, now);
            &&& r.expanding() == !animation.expanding()
            &&& r.start_spec() == now
            &&& r.last_spec() == now
            &&& r.progress_spec() == Progress::Start
            &&& animation.expanding() ==> r.rotation_spec() as int == (animation.rotation_spec()
                + turn) % full_turn()
            &&& !animation.expanding() ==> r.rotation_spec() as int == (animation.rotation_spec()
                + u32::MAX / 80 + (u32::MAX as int * 7) / 8) % full_turn()
        }),
{
}

/// A phase built from its parts has those parts.
pub proof fn lemma_phase_of_has_its_parts(
    expanding: bool,
    start: u128,
    progress: Progress,
    rotation: u32,
    last: u128,
)
    ensures
        ({
            let r = CircularAnimation::phase_of(expanding, start, progress, rotation, last);
            &&& r.expanding() == expanding
            &&& r.start_spec() == start
            &&& r.progress_spec() == progress
            &&& r.rotation_spec() == rotation
            &&& r.last_spec() == last
        }),
{
}

/// Turning is addition modulo a full turn: turning by nothing, or by a full
/// turn, changes nothing.
pub proof fn lemma_turning_is_addition(rotation: u32, amount: int)
    requires
        amount >= 0,
    ensures
        turned(rotation, amount) as int == (rotation + amount) % full_turn(),
        turned(rotation, 0) == rotation,
        turned(rotation, full_turn()) == rotation,
{
}

} // verus!
