//! Pluggable per-particle rules: velocity updates and position/fade
//! updates, each a pure function of the particle's spawn parameters and the
//! elapsed time.
//!
//! Velocities follow an exponential step function: each started 100 ms
//! bucket multiplies the starting velocity by the rule's ratio once more,
//! with the result truncated and clamped into `i64` at every step.

use vstd::prelude::*;
use crate::num::{SCALE, clamp_i64, lemma_tdiv_abs_upper, lemma_tdiv_bounds, lemma_tdiv_mul_upper,
    tdiv, tdiv_i128};
use crate::particle::ParticlePixel;
use crate::shapes::Point2d;

verus! {

/// How a particle's velocity evolves over time.
#[derive(Clone, Copy, PartialEq, Eq, Structural, Debug)]
pub enum VelocityRule {
    /// Multiply by 11/10 per bucket: the fixed-point form of 1.10.
    Increasing,
    /// Multiply by 19/20 per bucket: the fixed-point form of 0.95.
    Decreasing,
}

/// How a particle's pixel evolves over time.
#[derive(Clone, Copy, PartialEq, Eq, Structural, Debug)]
pub enum TickRule {
    /// Advance the position by one velocity step per tick, at full opacity.
    Move,
    /// Advance like `Move`, and scale opacity down linearly over the
    /// particle's lifetime.
    MoveAndFadeOut,
}

/// Numerator of a velocity rule's multiplier.
pub open spec fn mult_num(rule: VelocityRule) -> int {
    match rule {
        VelocityRule::Increasing => 11,
        VelocityRule::Decreasing => 19,
    }
}

/// Denominator of a velocity rule's multiplier.
pub open spec fn mult_den(rule: VelocityRule) -> int {
    match rule {
        VelocityRule::Increasing => 10,
        VelocityRule::Decreasing => 20,
    }
}

/// One velocity step: multiply, truncate, clamp into `i64`.
pub open spec fn vel_step(v: int, rule: VelocityRule) -> int {
    clamp_i64(tdiv(v * mult_num(rule), mult_den(rule)))
}

/// The velocity after `steps` applications of the rule to `v0`.
pub open spec fn vel_after(v0: int, steps: nat, rule: VelocityRule) -> int
    decreases steps,
{
    if steps == 0 {
        v0
    } else {
        vel_step(vel_after(v0, (steps - 1) as nat, rule), rule)
    }
}

/// The velocity a rule yields at `elapsed_ms` since spawn: the starting
/// velocity stepped once per started 100 ms bucket, plus once.
pub open spec fn spec_velocity(v0: int, elapsed_ms: int, rule: VelocityRule) -> int {
    vel_after(v0, (elapsed_ms / 100 + 1) as nat, rule)
}

/// Stepped velocities stay in the `i64` range whenever the start does.
pub proof fn lemma_vel_after_in_range(v0: int, steps: nat, rule: VelocityRule)
    requires
        i64::MIN <= v0 <= i64::MAX,
    ensures
        i64::MIN <= vel_after(v0, steps, rule) <= i64::MAX,
    decreases steps,
{
    if steps > 0 {
        lemma_vel_after_in_range(v0, (steps - 1) as nat, rule);
    }
}

/// Once a velocity is a fixed point of its rule, further steps keep it.
proof fn lemma_vel_fixpoint(v0: int, k: nat, m: nat, rule: VelocityRule)
    requires
        k <= m,
        vel_step(vel_after(v0, k, rule), rule) == vel_after(v0, k, rule),
    ensures
        vel_after(v0, m, rule) == vel_after(v0, k, rule),
    decreases m,
{
    if m > k {
        lemma_vel_fixpoint(v0, k, (m - 1) as nat, rule);
    }
}

/// One exact velocity step.
fn vel_step_exec(v: i64, rule: VelocityRule) -> (r: i64)
    ensures
        r == vel_step(v as int, rule),
{
    let num: i128 = match rule {
        VelocityRule::Increasing => 11,
        VelocityRule::Decreasing => 19,
    };
    let den: i128 = match rule {
        VelocityRule::Increasing => 10,
        VelocityRule::Decreasing => 20,
    };
    let q: i128 = tdiv_i128((v as i128) * num, den);
    proof {
        lemma_tdiv_bounds((v as i128) * num, den as int);
    }
    if q > i64::MAX as i128 {
        i64::MAX
    } else if q < i64::MIN as i128 {
        i64::MIN
    } else {
        q as i64
    }
}

/// The velocity at `elapsed_ms`, computed by stepping until the bucket
/// count is exhausted or the velocity stops changing.
fn apply_velocity(v0: i64, elapsed_ms: u64, rule: VelocityRule) -> (r: i64)
    ensures
        r == spec_velocity(v0 as int, elapsed_ms as int, rule),
{
    let steps: u64 = elapsed_ms / 100 + 1;
    let mut v: i64 = v0;
    let mut k: u64 = 0;
    while k < steps
        invariant
            k <= steps,
            v == vel_after(v0 as int, k as nat, rule),
        ensures
            v == vel_after(v0 as int, steps as nat, rule),
        decreases steps - k,
    {
        let nv = vel_step_exec(v, rule);
        if nv == v {
            proof {
                lemma_vel_fixpoint(v0 as int, k as nat, steps as nat, rule);
            }
            break;
        }
        v = nv;
        k = k + 1;
    }
    v
}

/// The increasing velocity rule applied to a starting velocity, as a plain
/// function.
pub fn particle_velocity_increasing(velocity: i64, elapsed_ms: u64) -> (r: i64)
    ensures
        r == spec_velocity(velocity as int, elapsed_ms as int, VelocityRule::Increasing),
{
    apply_velocity(velocity, elapsed_ms, VelocityRule::Increasing)
}

/// The decreasing velocity rule applied to a starting velocity, as a plain
/// function.
pub fn particle_velocity_decreasing(velocity: i64, elapsed_ms: u64) -> (r: i64)
    ensures
        r == spec_velocity(velocity as int, elapsed_ms as int, VelocityRule::Decreasing),
{
    apply_velocity(velocity, elapsed_ms, VelocityRule::Decreasing)
}

/// A pixel advanced by one velocity step along a direction: each
/// coordinate gains `direction * velocity / SCALE`, truncated, and the
/// result saturates at the `i64` range; opacity returns to full.
pub open spec fn spec_move_pixel(px: ParticlePixel, direction: Point2d, velocity: int) -> ParticlePixel {
    ParticlePixel {
        position: Point2d {
            x: clamp_i64(px.position.x + tdiv(direction.x * velocity, SCALE as int)) as i64,
            y: clamp_i64(px.position.y + tdiv(direction.y * velocity, SCALE as int)) as i64,
        },
        color: px.color,
        alpha: SCALE,
    }
}

/// The `Move` rule: expire strictly after the lifetime has passed,
/// otherwise advance the current pixel (or, for a particle that never
/// rendered, the starting pixel).
pub open spec fn spec_tick_move(
    start: ParticlePixel,
    current: Option<ParticlePixel>,
    direction: Point2d,
    velocity: int,
    elapsed_ms: int,
    lifetime: int,
) -> Option<ParticlePixel> {
    if elapsed_ms > lifetime {
        None
    } else {
        let px = match current {
            Some(p) => p,
            None => start,
        };
        Some(spec_move_pixel(px, direction, velocity))
    }
}

/// The opacity of a fading particle at `elapsed_ms`: the starting opacity
/// scaled by the lifetime's remaining fraction; meaningful while
/// `elapsed_ms <= lifetime`.
pub open spec fn spec_fade_alpha(start_alpha: int, elapsed_ms: int, lifetime: int) -> int {
    if elapsed_ms > 0 {
        clamp_i64(tdiv(start_alpha * (SCALE - tdiv(elapsed_ms * SCALE, lifetime)), SCALE as int))
    } else {
        start_alpha
    }
}

/// The `MoveAndFadeOut` rule: move, then scale opacity down linearly.
pub open spec fn spec_tick_move_and_fade(
    start: ParticlePixel,
    current: Option<ParticlePixel>,
    direction: Point2d,
    velocity: int,
    elapsed_ms: int,
    lifetime: int,
) -> Option<ParticlePixel> {
    match spec_tick_move(start, current, direction, velocity, elapsed_ms, lifetime) {
        None => None,
        Some(px) => Some(
            ParticlePixel {
                position: px.position,
                color: px.color,
                alpha: spec_fade_alpha(start.alpha as int, elapsed_ms, lifetime) as i64,
            },
        ),
    }
}

/// One coordinate advanced by a scaled velocity step, saturating.
fn add_scaled(base: i64, dir: i64, vel: i64) -> (r: i64)
    ensures
        r == clamp_i64(base + tdiv(dir * vel, SCALE as int)),
{
    proof {
        assert(-0x4000_0000_0000_0000_0000_0000_0000_0000 <= (dir as int) * (vel as int)
            <= 0x4000_0000_0000_0000_0000_0000_0000_0000) by (nonlinear_arith)
            requires
                i64::MIN <= dir <= i64::MAX,
                i64::MIN <= vel <= i64::MAX,
        ;
    }
    let q: i128 = tdiv_i128((dir as i128) * (vel as i128), SCALE as i128);
    proof {
        lemma_tdiv_bounds((dir as i128) * (vel as i128), SCALE as int);
    }
    let s: i128 = (base as i128) + q;
    if s > i64::MAX as i128 {
        i64::MAX
    } else if s < i64::MIN as i128 {
        i64::MIN
    } else {
        s as i64
    }
}

/// The `Move` rule as a plain function: `None` once the lifetime has
/// passed, otherwise one position step at full opacity.
pub fn particle_tick_move(
    start_pixel: &ParticlePixel,
    current_pixel: Option<ParticlePixel>,
    direction: &Point2d,
    velocity: i64,
    elapsed_ms: u64,
    lifetime: u32,
) -> (r: Option<ParticlePixel>)
    ensures
        r == spec_tick_move(
            *start_pixel,
            current_pixel,
            *direction,
            velocity as int,
            elapsed_ms as int,
            lifetime as int,
        ),
{
    if elapsed_ms > lifetime as u64 {
        return None;
    }
    let pixel: ParticlePixel = match current_pixel {
        Some(p) => p,
        None => *start_pixel,
    };
    Some(
        ParticlePixel {
            position: Point2d {
                x: add_scaled(pixel.position.x, direction.x, velocity),
                y: add_scaled(pixel.position.y, direction.y, velocity),
            },
            color: pixel.color,
            alpha: SCALE,
        },
    )
}

/// The remaining opacity while `elapsed_ms` is within the lifetime.
fn fade_alpha(start_alpha: i64, elapsed_ms: u64, lifetime: u32) -> (r: i64)
    requires
        elapsed_ms <= lifetime,
    ensures
        r == spec_fade_alpha(start_alpha as int, elapsed_ms as int, lifetime as int),
{
    if elapsed_ms == 0 {
        return start_alpha;
    }
    proof {
        assert(0 <= (elapsed_ms as int) * (SCALE as int) <= 4_294_967_295 * 1_000_000)
            by (nonlinear_arith)
            requires
                0 <= elapsed_ms <= 4_294_967_295,
                SCALE == 1_000_000,
        ;
    }
    let spent: i128 = tdiv_i128((elapsed_ms as i128) * (SCALE as i128), lifetime as i128);
    proof {
        lemma_tdiv_mul_upper((elapsed_ms as int) * (SCALE as int), lifetime as int, SCALE as int);
    }
    let perc: i128 = (SCALE as i128) - spent;
    proof {
        assert(-0x2000_0000_0000_0000_0000_0000 <= (start_alpha as int) * (perc as int)
            <= 0x2000_0000_0000_0000_0000_0000) by (nonlinear_arith)
            requires
                i64::MIN <= start_alpha <= i64::MAX,
                0 <= perc <= 1_000_000,
        ;
    }
    let q: i128 = tdiv_i128((start_alpha as i128) * perc, SCALE as i128);
    proof {
        lemma_tdiv_bounds((start_alpha as i128) * perc, SCALE as int);
    }
    if q > i64::MAX as i128 {
        i64::MAX
    } else if q < i64::MIN as i128 {
        i64::MIN
    } else {
        q as i64
    }
}

/// The `MoveAndFadeOut` rule as a plain function: move, then fade.
pub fn particle_tick_move_and_fade_out(
    start_pixel: &ParticlePixel,
    current_pixel: Option<ParticlePixel>,
    direction: &Point2d,
    velocity: i64,
    elapsed_ms: u64,
    lifetime: u32,
) -> (r: Option<ParticlePixel>)
    ensures
        r == spec_tick_move_and_fade(
            *start_pixel,
            current_pixel,
            *direction,
            velocity as int,
            elapsed_ms as int,
            lifetime as int,
        ),
{
    let pixel = particle_tick_move(start_pixel, current_pixel, direction, velocity, elapsed_ms, lifetime);
    match pixel {
        None => None,
        Some(px) => {
            let alpha = fade_alpha(start_pixel.alpha, elapsed_ms, lifetime);
            Some(ParticlePixel { position: px.position, color: px.color, alpha })
        },
    }
}

} // verus!
