use vstd::arithmetic::div_mod::{lemma_fundamental_div_mod, lemma_fundamental_div_mod_converse};
use vstd::prelude::*;

verus! {

/// Nanoseconds in one second: time deltas are given in nanoseconds.
pub const NANOS_PER_SEC: i128 = 1_000_000_000;

/// Milli-units in one world unit: positions, velocities and accelerations
/// are held in thousandths.
pub const MILLI: i64 = 1000;

/// The fixed loss of vertical speed in every gravity tick, beside gravity
/// itself: ten units per second, in milli-units.
pub const BASELINE_DRAG: i64 = 10_000;

/// What a quantity changing at `rate` per second amounts to over `dt_ns`
/// nanoseconds, rounded down.
pub open spec fn scaled(rate: int, dt_ns: nat) -> int {
    (rate * dt_ns) / (NANOS_PER_SEC as int)
}

/// How much vertical speed a body of gravity `g` loses in a tick of `dt_ns`.
pub open spec fn gravity_drop(g: int, dt_ns: nat) -> int {
    scaled(g, dt_ns) + BASELINE_DRAG
}

/// Whether `x` fits in an `i64`.
pub open spec fn fits_i64(x: int) -> bool {
    i64::MIN <= x <= i64::MAX
}

/// A 2D velocity, in milli-units per second.
#[derive(Clone, Copy, Debug, PartialEq, Eq)]
pub struct Velocity {
    pub x: i64,
    pub y: i64,
}

/// The magnitude of the downward acceleration on a body, in milli-units per
/// second squared.
#[derive(Clone, Copy, Debug, PartialEq, Eq)]
pub struct Gravity(pub i64);

/// Tuning of the tilt that a body shows from the sign of its vertical speed:
/// the angle in micro-radians, the interpolation factor in thousandths and
/// the rotation speed, a whole multiple of the angle per second.
#[derive(Clone, Copy, Debug, PartialEq, Eq)]
pub struct VelocityRotator {
    pub rotation_angle_urad: i32,
    pub lerp_factor_milli: i32,
    pub max_rotate_vel: i32,
}

/// `rate * dt_ns / NANOS_PER_SEC`, rounded down.
pub fn scale_by_time(rate: i64, dt_ns: u64) -> (r: i128)
    ensures
        r as int == scaled(rate as int, dt_ns as nat),
{
    let n = NANOS_PER_SEC;
    assert(-0x8000_0000_0000_0000 * 0xffff_ffff_ffff_ffff <= rate as int * dt_ns as int
        <= 0x7fff_ffff_ffff_ffff * 0xffff_ffff_ffff_ffff) by (nonlinear_arith)
        requires
            -0x8000_0000_0000_0000 <= rate <= 0x7fff_ffff_ffff_ffff,
            0 <= dt_ns <= 0xffff_ffff_ffff_ffff,
    ;
    let p: i128 = rate as i128 * dt_ns as i128;
    assert(p as int == rate as int * dt_ns as int);
    if p >= 0 {
        let q: i128 = p / n;
        q
    } else {
        let m: i128 = -p;
        let c: i128 = (m + (n - 1)) / n;
        proof {
            let mi = m as int;
            let ni = n as int;
            lemma_fundamental_div_mod(mi + ni - 1, ni);
            let s = (mi + ni - 1) % ni;
            assert(p as int == ni * (-(c as int)) + (ni - 1 - s)) by (nonlinear_arith)
                requires
                    mi + ni - 1 == ni * (c as int) + s,
                    p as int == -mi,
            ;
            lemma_fundamental_div_mod_converse(p as int, ni, -(c as int), ni - 1 - s);
        }
        -c
    }
}

/// A negative rate never moves a quantity up, and over any positive time it
/// moves it strictly down.
pub proof fn lemma_negative_rate_moves_down(rate: int, dt_ns: nat)
    requires
        rate < 0,
    ensures
        scaled(rate, dt_ns) <= 0,
        dt_ns > 0 ==> scaled(rate, dt_ns) < 0,
{
    let ni = NANOS_PER_SEC as int;
    let p = rate * dt_ns;
    assert(p <= 0 && (dt_ns > 0 ==> p < 0)) by (nonlinear_arith)
        requires
            rate < 0,
            dt_ns >= 0,
            p == rate * dt_ns,
    ;
    lemma_fundamental_div_mod(p, ni);
    assert(p / ni <= 0 && (p < 0 ==> p / ni < 0)) by (nonlinear_arith)
        requires
            p == ni * (p / ni) + p % ni,
            0 <= p % ni < ni,
            p <= 0,
    ;
}

/// A rate that is not negative never moves a quantity down.
pub proof fn lemma_nonnegative_rate_moves_up(rate: int, dt_ns: nat)
    requires
        rate >= 0,
    ensures
        scaled(rate, dt_ns) >= 0,
{
    let ni = NANOS_PER_SEC as int;
    let p = rate * dt_ns;
    assert(p >= 0) by (nonlinear_arith)
        requires
            rate >= 0,
            dt_ns >= 0,
            p == rate * dt_ns,
    ;
    lemma_fundamental_div_mod(p, ni);
    assert(p / ni >= 0) by (nonlinear_arith)
        requires
            p == ni * (p / ni) + p % ni,
            0 <= p % ni < ni,
            p >= 0,
    ;
}

/// Moves `pos` along `rate` for `dt_ns`.
pub fn advance(pos: i64, rate: i64, dt_ns: u64) -> (r: i64)
    requires
        fits_i64(pos + scaled(rate as int, dt_ns as nat)),
    ensures
        r == pos + scaled(rate as int, dt_ns as nat),
{
    let s = scale_by_time(rate, dt_ns);
    (pos as i128 + s) as i64
}

/// Applies one tick of gravity to a velocity: its vertical part loses
/// `gravity_drop`, its horizontal part stays.
pub fn apply_gravity(velocity: &mut Velocity, gravity: &Gravity, dt_ns: u64)
    requires
        fits_i64(old(velocity).y - gravity_drop(gravity.0 as int, dt_ns as nat)),
    ensures
        final(velocity).x == old(velocity).x,
        final(velocity).y == old(velocity).y - gravity_drop(gravity.0 as int, dt_ns as nat),
{
    let s = scale_by_time(gravity.0, dt_ns);
    velocity.y = (velocity.y as i128 - (s + BASELINE_DRAG as i128)) as i64;
}

/// One gravity tick over every body: the body at `i` has velocity
/// `velocities[i]` and gravity `gravities[i]`.
pub fn gravity_system(velocities: &mut Vec<Velocity>, gravities: &Vec<Gravity>, dt_ns: u64)
    requires
        old(velocities)@.len() == gravities@.len(),
        forall|i: int|
            0 <= i < gravities@.len() ==> fits_i64(
                #[trigger] old(velocities)@[i].y - gravity_drop(gravities@[i].0 as int, dt_ns as nat),
            ),
    ensures
        final(velocities)@.len() == old(velocities)@.len(),
        forall|i: int|
            0 <= i < gravities@.len() ==> (#[trigger] final(velocities)@[i]).x == old(velocities)@[i].x
                && final(velocities)@[i].y == old(velocities)@[i].y - gravity_drop(
                gravities@[i].0 as int,
                dt_ns as nat,
            ),
{
    let n = velocities.len();
    let mut i: usize = 0;
    while i < n
        invariant
            n == velocities@.len(),
            n == gravities@.len(),
            0 <= i <= n,
            forall|j: int|
                i <= j < n ==> #[trigger] velocities@[j] == old(velocities)@[j],
            forall|j: int|
                0 <= j < i ==> (#[trigger] velocities@[j]).x == old(velocities)@[j].x
                    && velocities@[j].y == old(velocities)@[j].y - gravity_drop(
                    gravities@[j].0 as int,
                    dt_ns as nat,
                ),
            forall|j: int|
                0 <= j < n ==> fits_i64(
                    #[trigger] old(velocities)@[j].y - gravity_drop(gravities@[j].0 as int, dt_ns as nat),
                ),
        decreases n - i,
    {
        let mut v = velocities[i];
        apply_gravity(&mut v, &gravities[i], dt_ns);
        velocities.set(i, v);
        i = i + 1;
    }
}

/// Under a gravity that is not negative, every tick takes vertical speed
/// strictly down: by `g * dt` plus the baseline drag, so by at least the drag.
pub proof fn lemma_gravity_strictly_slows(gravity: Gravity, dt_ns: u64)
    requires
        gravity.0 >= 0,
    ensures
        gravity_drop(gravity.0 as int, dt_ns as nat) >= BASELINE_DRAG,
        gravity_drop(gravity.0 as int, dt_ns as nat) > 0,
{
    lemma_nonnegative_rate_moves_up(gravity.0 as int, dt_ns as nat);
}

} // verus!
