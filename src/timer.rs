use vstd::arithmetic::div_mod::{lemma_fundamental_div_mod, lemma_fundamental_div_mod_converse};
use vstd::prelude::*;

verus! {

/// Number of values a `u32` holds; the engine's count of firings in one tick
/// is kept modulo this.
pub const U32_MODULUS: u64 = 0x1_0000_0000;

/// How far a repeating timer stands into its current period after it was at
/// `elapsed` and `delta` more time passed.
pub open spec fn step_elapsed(duration: nat, elapsed: nat, delta: nat) -> nat {
    (elapsed + delta) % duration
}

/// How many whole periods end in one tick of `delta` from `elapsed`.
pub open spec fn step_firings(duration: nat, elapsed: nat, delta: nat) -> nat {
    (elapsed + delta) / duration
}

/// Where a repeating timer stands after the ticks of `deltas`, one after another.
pub open spec fn elapsed_after(duration: nat, elapsed: nat, deltas: Seq<nat>) -> nat
    decreases deltas.len(),
{
    if deltas.len() == 0 {
        elapsed
    } else {
        elapsed_after(duration, step_elapsed(duration, elapsed, deltas[0]), deltas.drop_first())
    }
}

/// How many periods end, in all, over the ticks of `deltas`.
pub open spec fn firings_over(duration: nat, elapsed: nat, deltas: Seq<nat>) -> nat
    decreases deltas.len(),
{
    if deltas.len() == 0 {
        0
    } else {
        step_firings(duration, elapsed, deltas[0]) + firings_over(
            duration,
            step_elapsed(duration, elapsed, deltas[0]),
            deltas.drop_first(),
        )
    }
}

/// The time that the ticks of `deltas` add up to.
pub open spec fn total_time(deltas: Seq<nat>) -> nat
    decreases deltas.len(),
{
    if deltas.len() == 0 {
        0
    } else {
        deltas[0] + total_time(deltas.drop_first())
    }
}

/// A repeating timer, in nanoseconds. It fires each time its elapsed time
/// reaches its duration, and keeps what is left over for the next period.
#[derive(Clone, Copy, Debug, PartialEq, Eq)]
pub struct RepeatingTimer {
    pub duration_ns: u64,
    pub elapsed_ns: u64,
    /// Whether the last tick reached the end of a period.
    pub finished: bool,
    /// How many periods ended in the last tick, modulo `U32_MODULUS`.
    pub times_finished: u32,
}

/// Relies on bevy's `Timer::tick` in repeating mode: the elapsed time grows by
/// `delta`; when it reaches the duration, the timer is finished, counts the
/// quotient (cast to `u32`) as its firings and keeps the remainder; otherwise
/// it is not finished and counts none.
#[verifier::external_body]
fn engine_tick(timer: &RepeatingTimer, delta_ns: u64) -> (r: RepeatingTimer)
    requires
        0 < timer.duration_ns,
        timer.elapsed_ns < timer.duration_ns,
    ensures
        r.duration_ns == timer.duration_ns,
        r.elapsed_ns as nat == step_elapsed(
            timer.duration_ns as nat,
            timer.elapsed_ns as nat,
            delta_ns as nat,
        ),
        r.finished == (timer.elapsed_ns + delta_ns >= timer.duration_ns),
        r.times_finished as nat == step_firings(
            timer.duration_ns as nat,
            timer.elapsed_ns as nat,
            delta_ns as nat,
        ) % (U32_MODULUS as nat),
{
    let d = std::time::Duration::from_nanos(timer.duration_ns);
    let mut t = bevy::time::Timer::new(d, bevy::time::TimerMode::Repeating);
    t.set_elapsed(std::time::Duration::from_nanos(timer.elapsed_ns));
    t.tick(std::time::Duration::from_nanos(delta_ns));
    RepeatingTimer {
        duration_ns: timer.duration_ns,
        elapsed_ns: t.elapsed().as_nanos() as u64,
        finished: t.finished(),
        times_finished: t.times_finished_this_tick(),
    }
}

impl RepeatingTimer {
    /// The timer holds a positive period and stands inside it.
    pub open spec fn wf(&self) -> bool {
        0 < self.duration_ns && self.elapsed_ns < self.duration_ns
    }

    /// A timer of the given period that has not run yet.
    pub fn new(duration_ns: u64) -> (r: RepeatingTimer)
        requires
            0 < duration_ns,
        ensures
            r.wf(),
            r.duration_ns == duration_ns,
            r.elapsed_ns == 0,
            !r.finished,
            r.times_finished == 0,
    {
        RepeatingTimer { duration_ns, elapsed_ns: 0, finished: false, times_finished: 0 }
    }

    /// Lets `delta_ns` pass.
    pub fn tick(&mut self, delta_ns: u64)
        requires
            old(self).wf(),
        ensures
            final(self).wf(),
            final(self).duration_ns == old(self).duration_ns,
            final(self).elapsed_ns as nat == step_elapsed(
                old(self).duration_ns as nat,
                old(self).elapsed_ns as nat,
                delta_ns as nat,
            ),
            final(self).finished == (step_firings(
                old(self).duration_ns as nat,
                old(self).elapsed_ns as nat,
                delta_ns as nat,
            ) >= 1),
            final(self).times_finished as nat == step_firings(
                old(self).duration_ns as nat,
                old(self).elapsed_ns as nat,
                delta_ns as nat,
            ) % (U32_MODULUS as nat),
    {
        let next = engine_tick(self, delta_ns);
        proof {
            let dur = self.duration_ns as int;
            let x = self.elapsed_ns as int + delta_ns as int;
            lemma_fundamental_div_mod(x, dur);
            if x >= dur {
                assert(x / dur >= 1) by (nonlinear_arith)
                    requires
                        x == dur * (x / dur) + x % dur,
                        x % dur < dur,
                        x >= dur,
                ;
            } else {
                lemma_fundamental_div_mod_converse(x, dur, 0, x);
            }
        }
        *self = next;
    }

    /// Whether at least one period ended in the last tick, as the engine
    /// reports it.
    pub fn just_finished(&self) -> (r: bool)
        ensures
            r == (self.times_finished > 0),
    {
        self.times_finished > 0
    }
}

/// A tick shorter than the period ends at most one period: the timer then
/// fires once or not at all, and it is finished exactly when it fired.
pub proof fn lemma_short_tick_fires_at_most_once(duration: nat, elapsed: nat, delta: nat)
    requires
        elapsed < duration,
        delta < duration,
    ensures
        step_firings(duration, elapsed, delta) <= 1,
{
    let x = elapsed + delta;
    lemma_fundamental_div_mod(x as int, duration as int);
    assert(x / duration <= 1) by (nonlinear_arith)
        requires
            x == duration * (x / duration) + x % duration,
            x % duration >= 0,
            x < 2 * duration,
    ;
}

/// A repeating timer fires once for each whole period of time that has
/// accumulated, however that time was cut into ticks, and keeps the rest.
pub proof fn lemma_fires_once_per_period(duration: nat, elapsed: nat, deltas: Seq<nat>)
    requires
        0 < duration,
        elapsed < duration,
    ensures
        firings_over(duration, elapsed, deltas) == (elapsed + total_time(deltas)) / duration,
        elapsed_after(duration, elapsed, deltas) == (elapsed + total_time(deltas)) % duration,
    decreases deltas.len(),
{
    let d = duration as int;
    if deltas.len() == 0 {
        lemma_fundamental_div_mod_converse(elapsed as int, d, 0, elapsed as int);
    } else {
        let x = elapsed + deltas[0];
        let rest = deltas.drop_first();
        lemma_fundamental_div_mod(x as int, d);
        let q = x / duration;
        let r = x % duration;
        lemma_fires_once_per_period(duration, r, rest);
        let y = r + total_time(rest);
        lemma_fundamental_div_mod(y as int, d);
        let q2 = y / duration;
        let r2 = y % duration;
        assert(elapsed + total_time(deltas) == (q + q2) * d + r2) by (nonlinear_arith)
            requires
                x == d * q + r,
                y == d * q2 + r2,
                y == r + total_time(rest),
                x == elapsed + deltas[0],
                total_time(deltas) == deltas[0] + total_time(rest),
        ;
        lemma_fundamental_div_mod_converse(
            (elapsed + total_time(deltas)) as int,
            d,
            (q + q2) as int,
            r2 as int,
        );
    }
}

} // verus!
