use crate::physics::{
    advance, fits_i64, scale_by_time, scaled, Gravity, Velocity, VelocityRotator,
};
use crate::timer::{
    lemma_short_tick_fires_at_most_once, step_elapsed, step_firings, RepeatingTimer, U32_MODULUS,
};
use vstd::arithmetic::div_mod::{lemma_fundamental_div_mod, lemma_fundamental_div_mod_converse};
use vstd::prelude::*;

verus! {

/// Vertical speed that a jump gives on top of the jump force, in milli-units
/// per second: four hundred units per second.
pub const JUMP_BASE: i64 = 400_000;

/// The jump force the game starts with, in milli-units.
pub const DEFAULT_JUMP_FORCE: i64 = 300_000;

/// How often the jump key is polled, in nanoseconds.
pub const INPUT_POLL_NS: u64 = 20_000_000;

/// How long each frame of the bird's animation shows, in nanoseconds.
pub const FRAME_TIME_NS: u64 = 150_000_000;

/// The bird's gravity, in milli-units per second squared.
pub const BIRD_GRAVITY: i64 = 300_000;

/// The bird's initial upward speed, in milli-units per second.
pub const BIRD_START_SPEED: i64 = 10_000;

/// A quarter turn's half, in micro-radians: the bird's tilt angle.
pub const BIRD_TILT_URAD: i32 = 785_398;

/// The bird's rotation speed, as a multiple of its tilt angle per second.
pub const BIRD_ROTATE_VEL: i32 = 20;

/// Frames on the bird's sprite sheet (a two by two grid).
pub const BIRD_FRAMES: usize = 4;

/// The scale the bird is drawn at, in thousandths.
pub const BIRD_SCALE_MILLI: i64 = 2000;

/// The first and last frame of a sprite-sheet animation, both included.
#[derive(Clone, Copy, Debug, PartialEq, Eq)]
pub struct AnimationIndices {
    pub first: usize,
    pub last: usize,
}

impl AnimationIndices {
    pub open spec fn wf(&self) -> bool {
        self.first <= self.last
    }

    pub open spec fn contains(&self, index: int) -> bool {
        self.first <= index <= self.last
    }
}

/// The repeating timer that moves an animation on by one frame.
#[derive(Clone, Copy, Debug, PartialEq, Eq)]
pub struct AnimationTimer(pub RepeatingTimer);

/// The repeating timer that paces the polling of the jump key.
#[derive(Clone, Copy, Debug, PartialEq, Eq)]
pub struct DelayTimer(pub RepeatingTimer);

/// The jump force, in milli-units.
#[derive(Clone, Copy, Debug, PartialEq, Eq)]
pub struct JumpForce(pub i64);

/// The frame after `index`: the first one after the last, else the next.
pub open spec fn frame_after(indices: AnimationIndices, index: int) -> int {
    if index == indices.last {
        indices.first as int
    } else {
        index + 1
    }
}

/// Whether the engine reports a period as ended in a tick of `delta` from
/// `elapsed`: its count of ended periods, modulo `U32_MODULUS`, is not zero.
pub open spec fn fires_this_tick(duration: nat, elapsed: nat, delta: nat) -> bool {
    step_firings(duration, elapsed, delta) % (U32_MODULUS as nat) > 0
}

/// The frame reached from `index` after `n` advances.
pub open spec fn frame_after_n(indices: AnimationIndices, index: int, n: nat) -> int
    decreases n,
{
    if n == 0 {
        index
    } else {
        frame_after(indices, frame_after_n(indices, index, (n - 1) as nat))
    }
}

/// The vertical speed a jump sets, in milli-units per second.
pub open spec fn jump_speed(force: int, dt_ns: nat) -> int {
    scaled(force, dt_ns) + JUMP_BASE
}

/// The angle the bird turns toward, in micro-radians: up while it rises or
/// hangs, down while it falls.
pub open spec fn tilt_target(vy: int, rotator: VelocityRotator, dt_ns: nat) -> int {
    let k = rotator.max_rotate_vel * rotator.rotation_angle_urad;
    if vy >= 0 {
        scaled(k, dt_ns)
    } else {
        scaled(-k, dt_ns)
    }
}

/// The frame that follows `index` in the animation.
pub fn next_frame(indices: &AnimationIndices, index: usize) -> (r: usize)
    requires
        index < usize::MAX || index == indices.last,
    ensures
        r == frame_after(*indices, index as int),
{
    if index == indices.last {
        indices.first
    } else {
        index + 1
    }
}

/// Frames stay within the animation: from any frame in `[first, last]` the
/// next one is in it too, and the last is followed by the first.
pub proof fn lemma_frames_cycle_in_range(indices: AnimationIndices, index: int)
    requires
        indices.wf(),
        indices.contains(index),
    ensures
        indices.contains(frame_after(indices, index)),
        index == indices.last ==> frame_after(indices, index) == indices.first,
        index < indices.last ==> frame_after(indices, index) == index + 1,
{
}

/// Frames go round the animation in order: after `n` advances from a frame
/// in `[first, last]` the frame is `first + (index - first + n) % count`, so
/// `count` advances visit every frame once and come back to the start.
pub proof fn lemma_frames_go_round(indices: AnimationIndices, index: int, n: nat)
    requires
        indices.wf(),
        indices.contains(index),
    ensures
        frame_after_n(indices, index, n) == indices.first + (index - indices.first + n) % (
        indices.last - indices.first + 1),
    decreases n,
{
    let k = indices.last - indices.first + 1;
    if n == 0 {
        lemma_fundamental_div_mod_converse(index - indices.first, k, 0, index - indices.first);
    } else {
        lemma_frames_go_round(indices, index, (n - 1) as nat);
        let a = index - indices.first + n - 1;
        lemma_fundamental_div_mod(a, k);
        let q = a / k;
        let m = a % k;
        if m + 1 < k {
            lemma_fundamental_div_mod_converse(a + 1, k, q, m + 1);
        } else {
            assert(a + 1 == k * (q + 1)) by (nonlinear_arith)
                requires
                    a == k * q + m,
                    m + 1 == k,
            ;
            lemma_fundamental_div_mod_converse(a + 1, k, q + 1, 0);
        }
    }
}

/// With ticks shorter than the frame time, the engine reports a period as
/// ended exactly when the elapsed time reached the frame time, so the frame
/// advances exactly then.
pub proof fn lemma_short_tick_advances_on_period_end(duration: nat, elapsed: nat, delta: nat)
    requires
        elapsed < duration,
        delta < duration,
    ensures
        fires_this_tick(duration, elapsed, delta) == (elapsed + delta >= duration),
{
    lemma_short_tick_fires_at_most_once(duration, elapsed, delta);
    let d = duration as int;
    let x = (elapsed + delta) as int;
    lemma_fundamental_div_mod(x, d);
    if x >= d {
        assert(x / d >= 1) by (nonlinear_arith)
            requires
                x == d * (x / d) + x % d,
                x % d < d,
                x >= d,
        ;
    } else {
        lemma_fundamental_div_mod_converse(x, d, 0, x);
    }
}

/// Lets `delta_ns` pass on the animation timer and moves the frame on by one
/// when a period ended in this tick.
pub fn animate_sprite(
    indices: &AnimationIndices,
    timer: &mut AnimationTimer,
    index: &mut usize,
    delta_ns: u64,
)
    requires
        old(timer).0.wf(),
        *old(index) < usize::MAX || *old(index) == indices.last,
    ensures
        final(timer).0.wf(),
        final(timer).0.duration_ns == old(timer).0.duration_ns,
        final(timer).0.elapsed_ns as nat == step_elapsed(
            old(timer).0.duration_ns as nat,
            old(timer).0.elapsed_ns as nat,
            delta_ns as nat,
        ),
        final(timer).0.finished == (step_firings(
            old(timer).0.duration_ns as nat,
            old(timer).0.elapsed_ns as nat,
            delta_ns as nat,
        ) >= 1),
        final(timer).0.times_finished as nat == step_firings(
            old(timer).0.duration_ns as nat,
            old(timer).0.elapsed_ns as nat,
            delta_ns as nat,
        ) % (U32_MODULUS as nat),
        *final(index) == (if fires_this_tick(
            old(timer).0.duration_ns as nat,
            old(timer).0.elapsed_ns as nat,
            delta_ns as nat,
        ) {
            frame_after(*indices, *old(index) as int)
        } else {
            *old(index) as int
        }),
{
    timer.0.tick(delta_ns);
    if timer.0.just_finished() {
        *index = next_frame(indices, *index);
    }
}

/// Moves a body's height along its vertical speed for `dt_ns`.
pub fn animate_physic(y: &mut i64, velocity: &Velocity, dt_ns: u64)
    requires
        fits_i64(*old(y) + scaled(velocity.y as int, dt_ns as nat)),
    ensures
        *final(y) == *old(y) + scaled(velocity.y as int, dt_ns as nat),
{
    *y = advance(*y, velocity.y, dt_ns);
}

/// The angle a body turns toward this tick, from the sign of its vertical
/// speed.
pub fn rotation_target(velocity: &Velocity, rotator: &VelocityRotator, dt_ns: u64) -> (r: i64)
    requires
        fits_i64(tilt_target(velocity.y as int, *rotator, dt_ns as nat)),
    ensures
        r == tilt_target(velocity.y as int, *rotator, dt_ns as nat),
{
    let a = rotator.max_rotate_vel as i64;
    let b = rotator.rotation_angle_urad as i64;
    assert(-0x4000_0000_0000_0000 <= a * b <= 0x4000_0000_0000_0000) by (nonlinear_arith)
        requires
            -0x8000_0000 <= a <= 0x7fff_ffff,
            -0x8000_0000 <= b <= 0x7fff_ffff,
    ;
    let k: i64 = a * b;
    let t = if velocity.y >= 0 {
        scale_by_time(k, dt_ns)
    } else {
        scale_by_time(-k, dt_ns)
    };
    t as i64
}

/// The vertical speed a jump sets after `dt_ns` of the frame.
pub fn jump_velocity(force: &JumpForce, dt_ns: u64) -> (r: i64)
    requires
        fits_i64(jump_speed(force.0 as int, dt_ns as nat)),
    ensures
        r == jump_speed(force.0 as int, dt_ns as nat),
{
    let s = scale_by_time(force.0, dt_ns);
    (s + JUMP_BASE as i128) as i64
}

/// Lets `dt_ns` pass on the poll timer; when it finished and the jump key was
/// just pressed, sets the vertical speed of every body to the jump speed.
/// The speed is set, not added to. Returns whether the jump happened.
pub fn player_input(
    timer: &mut DelayTimer,
    force: &JumpForce,
    just_pressed: bool,
    dt_ns: u64,
    velocities: &mut Vec<Velocity>,
) -> (jumped: bool)
    requires
        old(timer).0.wf(),
        just_pressed && step_firings(
            old(timer).0.duration_ns as nat,
            old(timer).0.elapsed_ns as nat,
            dt_ns as nat,
        ) >= 1 ==> fits_i64(jump_speed(force.0 as int, dt_ns as nat)),
    ensures
        final(timer).0.wf(),
        final(timer).0.duration_ns == old(timer).0.duration_ns,
        final(timer).0.elapsed_ns as nat == step_elapsed(
            old(timer).0.duration_ns as nat,
            old(timer).0.elapsed_ns as nat,
            dt_ns as nat,
        ),
        final(timer).0.finished == (step_firings(
            old(timer).0.duration_ns as nat,
            old(timer).0.elapsed_ns as nat,
            dt_ns as nat,
        ) >= 1),
        final(timer).0.times_finished as nat == step_firings(
            old(timer).0.duration_ns as nat,
            old(timer).0.elapsed_ns as nat,
            dt_ns as nat,
        ) % (U32_MODULUS as nat),
        jumped == (just_pressed && step_firings(
            old(timer).0.duration_ns as nat,
            old(timer).0.elapsed_ns as nat,
            dt_ns as nat,
        ) >= 1),
        final(velocities)@.len() == old(velocities)@.len(),
        forall|i: int|
            0 <= i < old(velocities)@.len() ==> (#[trigger] final(velocities)@[i]).x == old(
                velocities,
            )@[i].x && final(velocities)@[i].y == (if jumped {
                jump_speed(force.0 as int, dt_ns as nat)
            } else {
                old(velocities)@[i].y as int
            }),
{
    timer.0.tick(dt_ns);
    if !(timer.0.finished && just_pressed) {
        return false;
    }
    let speed = jump_velocity(force, dt_ns);
    let n = velocities.len();
    let mut i: usize = 0;
    while i < n
        invariant
            n == velocities@.len(),
            n == old(velocities)@.len(),
            0 <= i <= n,
            speed == jump_speed(force.0 as int, dt_ns as nat),
            forall|j: int| i <= j < n ==> #[trigger] velocities@[j] == old(velocities)@[j],
            forall|j: int|
                0 <= j < i ==> (#[trigger] velocities@[j]).x == old(velocities)@[j].x
                    && velocities@[j].y == speed,
        decreases n - i,
    {
        let v = velocities[i];
        velocities.set(i, Velocity { x: v.x, y: speed });
        i = i + 1;
    }
    true
}

/// What the bird is made of when it appears.
#[derive(Clone, Copy, Debug, PartialEq, Eq)]
pub struct BirdSpawn {
    pub indices: AnimationIndices,
    pub frame: usize,
    pub timer: AnimationTimer,
    pub velocity: Velocity,
    pub gravity: Gravity,
    pub rotator: VelocityRotator,
    pub scale_milli: i64,
}

/// The bird as it appears at startup: all four frames of its sheet, a frame
/// every 150 ms, rising at ten units per second, gravity 300, tilting by an
/// eighth of a turn.
pub fn spawn_bird() -> (r: BirdSpawn)
    ensures
        r.indices == (AnimationIndices { first: 0, last: (BIRD_FRAMES - 1) as usize }),
        r.frame == r.indices.first,
        r.timer.0.wf(),
        r.timer.0.duration_ns == FRAME_TIME_NS,
        r.timer.0.elapsed_ns == 0,
        r.velocity == (Velocity { x: 0, y: BIRD_START_SPEED }),
        r.gravity == Gravity(BIRD_GRAVITY),
        r.rotator == (VelocityRotator {
            rotation_angle_urad: BIRD_TILT_URAD,
            lerp_factor_milli: 1000,
            max_rotate_vel: BIRD_ROTATE_VEL,
        }),
        r.scale_milli == BIRD_SCALE_MILLI,
{
    let indices = AnimationIndices { first: 0, last: BIRD_FRAMES - 1 };
    BirdSpawn {
        indices,
        frame: indices.first,
        timer: AnimationTimer(RepeatingTimer::new(FRAME_TIME_NS)),
        velocity: Velocity { x: 0, y: BIRD_START_SPEED },
        gravity: Gravity(BIRD_GRAVITY),
        rotator: VelocityRotator {
            rotation_angle_urad: BIRD_TILT_URAD,
            lerp_factor_milli: 1000,
            max_rotate_vel: BIRD_ROTATE_VEL,
        },
        scale_milli: BIRD_SCALE_MILLI,
    }
}

} // verus!
