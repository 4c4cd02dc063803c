use crate::physics::{advance, fits_i64, lemma_negative_rate_moves_down, scaled, Velocity};
use crate::timer::{step_elapsed, step_firings, RepeatingTimer, U32_MODULUS};
use vstd::prelude::*;

verus! {

/// How often a cloud appears, in nanoseconds: once a second.
pub const CLOUD_PERIOD_NS: u64 = 1_000_000_000;

/// Where clouds appear across, in milli-units: just past the right edge.
pub const CLOUD_SPAWN_X: i64 = 1_030_000;

/// The depth clouds are drawn at, in milli-units.
pub const CLOUD_DEPTH: i64 = 2_000;

/// Heights clouds appear at, in milli-units: from the low bound, below the
/// high one.
pub const CLOUD_Y_LOW: i64 = 0;
pub const CLOUD_Y_HIGH: i64 = 200_000;

/// Scales clouds are drawn at, in thousandths.
pub const CLOUD_SCALE_LOW: i64 = 2_000;
pub const CLOUD_SCALE_HIGH: i64 = 4_000;

/// Horizontal speeds of clouds, in milli-units per second: always leftward.
pub const CLOUD_VX_LOW: i64 = -70_000;
pub const CLOUD_VX_HIGH: i64 = -40_000;

/// Vertical speeds of clouds, in milli-units per second.
pub const CLOUD_VY_LOW: i64 = -50_000;
pub const CLOUD_VY_HIGH: i64 = 50_000;

/// Marks an entity as a background cloud.
#[derive(Clone, Copy, Debug, PartialEq, Eq)]
pub struct Cloud;

/// The repeating timer that paces cloud spawning.
#[derive(Clone, Copy, Debug, PartialEq, Eq)]
pub struct SpawnTimer(pub RepeatingTimer);

impl SpawnTimer {
    /// A spawn timer of one second that has not run yet.
    pub fn new() -> (r: SpawnTimer)
        ensures
            r.0.wf(),
            r.0.duration_ns == CLOUD_PERIOD_NS,
            r.0.elapsed_ns == 0,
            !r.0.finished,
            r.0.times_finished == 0,
    {
        SpawnTimer(RepeatingTimer::new(CLOUD_PERIOD_NS))
    }
}

/// Which of the two cloud pictures a cloud shows.
#[derive(Clone, Copy, Debug, PartialEq, Eq)]
pub enum CloudTexture {
    First,
    Second,
}

/// A cloud about to appear: its picture, position, scale and velocity, in
/// milli-units.
#[derive(Clone, Copy, Debug, PartialEq, Eq)]
pub struct CloudSpawn {
    pub texture: CloudTexture,
    pub x: i64,
    pub y: i64,
    pub z: i64,
    pub scale_milli: i64,
    pub velocity: Velocity,
}

impl CloudSpawn {
    /// Every field stands where cloud spawning puts it.
    pub open spec fn in_ranges(&self) -> bool {
        &&& self.x == CLOUD_SPAWN_X
        &&& self.z == CLOUD_DEPTH
        &&& CLOUD_Y_LOW <= self.y < CLOUD_Y_HIGH
        &&& CLOUD_SCALE_LOW <= self.scale_milli < CLOUD_SCALE_HIGH
        &&& CLOUD_VX_LOW <= self.velocity.x < CLOUD_VX_HIGH
        &&& CLOUD_VY_LOW <= self.velocity.y < CLOUD_VY_HIGH
    }
}

/// Relies on rand's `Rng::gen_range` on `thread_rng()`: a value drawn from the
/// half-open range `[low, high)`; it panics on an empty range.
#[verifier::external_body]
fn random_in(low: i64, high: i64) -> (r: i64)
    requires
        low < high,
    ensures
        low <= r < high,
{
    rand::Rng::gen_range(&mut rand::thread_rng(), low..high)
}

/// Relies on rand's `random::<bool>()`: a fair coin; nothing is known of the
/// outcome.
#[verifier::external_body]
fn random_bool() -> bool {
    rand::random::<bool>()
}

/// The cloud made of drawn values, one per field that varies.
pub fn cloud_from_draws(first_texture: bool, y: i64, scale_milli: i64, vx: i64, vy: i64) -> (r:
    CloudSpawn)
    ensures
        r.texture == (if first_texture {
            CloudTexture::First
        } else {
            CloudTexture::Second
        }),
        r.x == CLOUD_SPAWN_X,
        r.z == CLOUD_DEPTH,
        r.y == y,
        r.scale_milli == scale_milli,
        r.velocity == (Velocity { x: vx, y: vy }),
{
    let texture = if first_texture {
        CloudTexture::First
    } else {
        CloudTexture::Second
    };
    CloudSpawn {
        texture,
        x: CLOUD_SPAWN_X,
        y,
        z: CLOUD_DEPTH,
        scale_milli,
        velocity: Velocity { x: vx, y: vy },
    }
}

/// Lets `delta_ns` pass on the spawn timer and makes one cloud for each
/// period that ended in this tick, each with its own random picture,
/// height, scale and velocity.
pub fn cloud_spawn(timer: &mut SpawnTimer, delta_ns: u64) -> (r: Vec<CloudSpawn>)
    requires
        old(timer).0.wf(),
    ensures
        final(timer).0.wf(),
        final(timer).0.duration_ns == old(timer).0.duration_ns,
        final(timer).0.elapsed_ns as nat == step_elapsed(
            old(timer).0.duration_ns as nat,
            old(timer).0.elapsed_ns as nat,
            delta_ns as nat,
        ),
        final(timer).0.finished == (step_firings(
            old(timer).0.duration_ns as nat,
            old(timer).0.elapsed_ns as nat,
            delta_ns as nat,
        ) >= 1),
        final(timer).0.times_finished as nat == step_firings(
            old(timer).0.duration_ns as nat,
            old(timer).0.elapsed_ns as nat,
            delta_ns as nat,
        ) % (U32_MODULUS as nat),
        r@.len() == step_firings(
            old(timer).0.duration_ns as nat,
            old(timer).0.elapsed_ns as nat,
            delta_ns as nat,
        ),
        forall|i: int| 0 <= i < r@.len() ==> (#[trigger] r@[i]).in_ranges(),
{
    let total: u128 = timer.0.elapsed_ns as u128 + delta_ns as u128;
    let count: u128 = total / (timer.0.duration_ns as u128);
    timer.0.tick(delta_ns);
    let mut clouds: Vec<CloudSpawn> = Vec::new();
    let mut i: u128 = 0;
    while i < count
        invariant
            0 <= i <= count,
            clouds@.len() == i,
            forall|j: int| 0 <= j < clouds@.len() ==> (#[trigger] clouds@[j]).in_ranges(),
        decreases count - i,
    {
        let first_texture = random_bool();
        let y = random_in(CLOUD_Y_LOW, CLOUD_Y_HIGH);
        let scale = random_in(CLOUD_SCALE_LOW, CLOUD_SCALE_HIGH);
        let vx = random_in(CLOUD_VX_LOW, CLOUD_VX_HIGH);
        let vy = random_in(CLOUD_VY_LOW, CLOUD_VY_HIGH);
        clouds.push(cloud_from_draws(first_texture, y, scale, vx, vy));
        i = i + 1;
    }
    clouds
}

/// Scrolls every cloud across along its horizontal speed; the vertical
/// speed is not applied. The cloud at `i` stands at `xs[i]` and moves at
/// `velocities[i]`.
pub fn moving_background(xs: &mut Vec<i64>, velocities: &Vec<Velocity>, dt_ns: u64)
    requires
        old(xs)@.len() == velocities@.len(),
        forall|i: int|
            0 <= i < velocities@.len() ==> fits_i64(
                #[trigger] old(xs)@[i] + scaled(velocities@[i].x as int, dt_ns as nat),
            ),
    ensures
        final(xs)@.len() == old(xs)@.len(),
        forall|i: int|
            0 <= i < velocities@.len() ==> #[trigger] final(xs)@[i] == old(xs)@[i] + scaled(
                velocities@[i].x as int,
                dt_ns as nat,
            ),
{
    let n = xs.len();
    let mut i: usize = 0;
    while i < n
        invariant
            n == xs@.len(),
            n == velocities@.len(),
            0 <= i <= n,
            forall|j: int| i <= j < n ==> #[trigger] xs@[j] == old(xs)@[j],
            forall|j: int|
                0 <= j < i ==> #[trigger] xs@[j] == old(xs)@[j] + scaled(
                    velocities@[j].x as int,
                    dt_ns as nat,
                ),
            forall|j: int|
                0 <= j < n ==> fits_i64(
                    #[trigger] old(xs)@[j] + scaled(velocities@[j].x as int, dt_ns as nat),
                ),
        decreases n - i,
    {
        let x = advance(xs[i], velocities[i].x, dt_ns);
        xs.set(i, x);
        i = i + 1;
    }
}

/// A cloud as spawning makes it only ever drifts left: a scroll tick never
/// moves it right, and one of positive length moves it strictly left.
pub proof fn lemma_clouds_drift_left(cloud: CloudSpawn, x: int, dt_ns: nat)
    requires
        cloud.in_ranges(),
    ensures
        cloud.velocity.x < 0,
        x + scaled(cloud.velocity.x as int, dt_ns) <= x,
        dt_ns > 0 ==> x + scaled(cloud.velocity.x as int, dt_ns) < x,
{
    lemma_negative_rate_moves_down(cloud.velocity.x as int, dt_ns);
}

/// Where a cloud stands after scroll ticks of `dts`, one after another, from
/// `x` at horizontal speed `vx`.
pub open spec fn scrolled(x: int, vx: int, dts: Seq<nat>) -> int
    decreases dts.len(),
{
    if dts.len() == 0 {
        x
    } else {
        scrolled(x, vx, dts.drop_last()) + scaled(vx, dts.last())
    }
}

/// Over any run of scroll ticks a cloud with a leftward speed never moves
/// right: its position after `j` ticks is at most its position after `i`
/// ticks, for every `i <= j`.
pub proof fn lemma_scroll_never_moves_right(x: int, vx: int, dts: Seq<nat>, i: int, j: int)
    requires
        vx < 0,
        0 <= i <= j <= dts.len(),
    ensures
        scrolled(x, vx, dts.take(j)) <= scrolled(x, vx, dts.take(i)),
    decreases j - i,
{
    if i < j {
        lemma_scroll_never_moves_right(x, vx, dts, i, j - 1);
        assert(dts.take(j).drop_last() =~= dts.take(j - 1));
        lemma_negative_rate_moves_down(vx, dts[j - 1]);
    }
}

} // verus!
