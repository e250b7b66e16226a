//! One animated entity: immutable spawn parameters plus a mutable current
//! velocity and pixel, driven by its assigned rules once per tick.
//!
//! A particle is a two-state machine: Alive (`current_pixel` is `Some`) and
//! Expired (`current_pixel` is `None`).  The only transition is
//! Alive-to-Expired, taken inside `tick` when the position rule reports the
//! lifetime as passed; Expired is terminal.

use vstd::prelude::*;
use crate::clock::current_time_ms;
use crate::particle_animation::{TickRule, VelocityRule, lemma_vel_after_in_range,
    particle_tick_move, particle_tick_move_and_fade_out, spec_tick_move, spec_tick_move_and_fade,
    spec_velocity};
use crate::shapes::{Point2d, Rgb};

verus! {

/// The renderable snapshot of a particle: a position, a color, and an
/// opacity in fixed-point units (`SCALE` is fully opaque).
#[derive(Clone, Copy, PartialEq, Eq, Structural, Debug)]
pub struct ParticlePixel {
    pub position: Point2d,
    pub color: Rgb,
    pub alpha: i64,
}

/// One animated entity.
#[derive(Clone, Copy, Debug)]
pub struct Particle {
    /// The pixel the particle was spawned with.
    pub start_pixel: ParticlePixel,
    /// Spawn time, in milliseconds.
    pub start_time: u64,
    /// The velocity the particle was spawned with.
    pub start_velocity: i64,
    /// The direction the particle travels in.
    pub direction: Point2d,
    /// How long the particle lives, in milliseconds.
    pub lifetime: u32,
    /// The velocity rule applied on every tick.
    pub update_velocity: VelocityRule,
    /// The position rule applied on every tick.
    pub tick_rule: TickRule,
    /// The velocity of the most recent tick.
    pub current_velocity: i64,
    /// The pixel of the most recent tick; `None` means expired, terminally.
    pub current_pixel: Option<ParticlePixel>,
}

impl PartialEq for Particle {
    /// Particles are compared by where and when they were spawned, their
    /// direction and color, and their current velocity.
    fn eq(&self, other: &Self) -> (r: bool) {
        self.start_pixel.position == other.start_pixel.position
            && self.start_time == other.start_time
            && self.direction == other.direction
            && self.current_velocity == other.current_velocity
            && self.start_pixel.color == other.start_pixel.color
    }
}

impl vstd::std_specs::cmp::PartialEqSpecImpl for Particle {
    open spec fn obeys_eq_spec() -> bool {
        true
    }

    open spec fn eq_spec(&self, other: &Particle) -> bool {
        &&& self.start_pixel.position == other.start_pixel.position
        &&& self.start_time == other.start_time
        &&& self.direction == other.direction
        &&& self.current_velocity == other.current_velocity
        &&& self.start_pixel.color == other.start_pixel.color
    }
}

/// Time elapsed since the particle's spawn; a clock reading from before the
/// spawn counts as no time passed.
pub open spec fn spec_elapsed(p: Particle, now: int) -> int {
    if now >= p.start_time {
        now - p.start_time
    } else {
        0
    }
}

/// The pixel a rule produces for one tick.
pub open spec fn spec_rule_tick(
    rule: TickRule,
    start: ParticlePixel,
    current: Option<ParticlePixel>,
    direction: Point2d,
    velocity: int,
    elapsed_ms: int,
    lifetime: int,
) -> Option<ParticlePixel> {
    match rule {
        TickRule::Move => spec_tick_move(start, current, direction, velocity, elapsed_ms, lifetime),
        TickRule::MoveAndFadeOut => spec_tick_move_and_fade(
            start,
            current,
            direction,
            velocity,
            elapsed_ms,
            lifetime,
        ),
    }
}

/// The particle after one tick at `now`: the velocity rule is applied to
/// the starting velocity, and the position rule to the current pixel — but
/// an expired particle stays expired, whatever the clock says.
pub open spec fn spec_ticked(p: Particle, now: int) -> Particle {
    let elapsed = spec_elapsed(p, now);
    let v = spec_velocity(p.start_velocity as int, elapsed, p.update_velocity);
    let px = if p.current_pixel is None {
        None
    } else {
        spec_rule_tick(p.tick_rule, p.start_pixel, p.current_pixel, p.direction, v, elapsed, p.lifetime as int)
    };
    Particle { current_velocity: v as i64, current_pixel: px, ..p }
}

/// Expiry is terminal: once a particle's pixel is gone, a tick at any
/// time whatsoever leaves it gone; there is no resurrection.
pub proof fn lemma_expired_is_terminal(p: Particle, now: int)
    requires
        p.current_pixel is None,
    ensures
        spec_ticked(p, now).current_pixel is None,
{
}

/// A particle ticked strictly past its lifetime expires, under either
/// position rule.
pub proof fn lemma_lifetime_expiry(p: Particle, now: int)
    requires
        spec_elapsed(p, now) > p.lifetime,
    ensures
        spec_ticked(p, now).current_pixel is None,
{
}

impl Particle {
    /// A particle spawned at an explicit time: alive, at its starting
    /// pixel and velocity.
    pub fn new_at(
        pixel: ParticlePixel,
        direction: Point2d,
        velocity: i64,
        lifetime: u32,
        update_velocity: VelocityRule,
        tick: TickRule,
        start_time: u64,
    ) -> (r: Self)
        ensures
            r == (Particle {
                start_pixel: pixel,
                start_time,
                start_velocity: velocity,
                direction,
                lifetime,
                update_velocity,
                tick_rule: tick,
                current_velocity: velocity,
                current_pixel: Some(pixel),
            }),
    {
        Particle {
            start_pixel: pixel,
            start_time,
            start_velocity: velocity,
            direction,
            lifetime,
            update_velocity,
            tick_rule: tick,
            current_velocity: velocity,
            current_pixel: Some(pixel),
        }
    }

    /// A particle spawned now, by the wall clock.
    pub fn new(
        pixel: ParticlePixel,
        direction: Point2d,
        velocity: i64,
        lifetime: u32,
        update_velocity: VelocityRule,
        tick: TickRule,
    ) -> (r: Self)
        ensures
            r.start_pixel == pixel,
            r.start_velocity == velocity,
            r.direction == direction,
            r.lifetime == lifetime,
            r.update_velocity == update_velocity,
            r.tick_rule == tick,
            r.current_velocity == velocity,
            r.current_pixel == Some(pixel),
    {
        Self::new_at(pixel, direction, velocity, lifetime, update_velocity, tick, current_time_ms())
    }

    /// Milliseconds since this particle's spawn, clamped at zero.
    pub fn delta(&self, time: u64) -> (r: u64)
        ensures
            r == spec_elapsed(*self, time as int),
    {
        if time >= self.start_time {
            time - self.start_time
        } else {
            0
        }
    }

    /// The velocity of the most recent tick.
    pub fn velocity(&self) -> (r: i64)
        ensures
            r == self.current_velocity,
    {
        self.current_velocity
    }

    /// The pixel of the most recent tick; `None` once expired.
    pub fn pixel(&self) -> (r: Option<ParticlePixel>)
        ensures
            r == self.current_pixel,
    {
        self.current_pixel
    }

    /// One tick at `time`: update the velocity from the starting velocity
    /// and the elapsed time, then the pixel from the position rule, and
    /// return the new pixel.
    pub fn tick(&mut self, time: u64) -> (r: Option<ParticlePixel>)
        ensures
            *final(self) == spec_ticked(*old(self), time as int),
            r == final(self).current_pixel,
    {
        let elapsed = self.delta(time);
        let v = match self.update_velocity {
            VelocityRule::Increasing => crate::particle_animation::particle_velocity_increasing(
                self.start_velocity,
                elapsed,
            ),
            VelocityRule::Decreasing => crate::particle_animation::particle_velocity_decreasing(
                self.start_velocity,
                elapsed,
            ),
        };
        proof {
            lemma_vel_after_in_range(
                self.start_velocity as int,
                (spec_elapsed(*self, time as int) / 100 + 1) as nat,
                self.update_velocity,
            );
        }
        self.current_velocity = v;
        let px = match self.current_pixel {
            None => None,
            Some(_) => match self.tick_rule {
                TickRule::Move => particle_tick_move(
                    &self.start_pixel,
                    self.current_pixel,
                    &self.direction,
                    v,
                    elapsed,
                    self.lifetime,
                ),
                TickRule::MoveAndFadeOut => particle_tick_move_and_fade_out(
                    &self.start_pixel,
                    self.current_pixel,
                    &self.direction,
                    v,
                    elapsed,
                    self.lifetime,
                ),
            },
        };
        self.current_pixel = px;
        px
    }
}

} // verus!
