use ray_particles::num::SCALE;
use ray_particles::particle::{Particle, ParticlePixel};
use ray_particles::particle_animation::{TickRule, VelocityRule, particle_tick_move,
    particle_tick_move_and_fade_out, particle_velocity_decreasing, particle_velocity_increasing};
use ray_particles::shapes::{Point2d, Rgb};

fn red() -> Rgb {
    Rgb { r: 255, g: 0, b: 0 }
}

fn pixel_at(x: i64, y: i64) -> ParticlePixel {
    ParticlePixel { position: Point2d { x, y }, color: red(), alpha: SCALE }
}

#[test]
fn velocity_increasing_steps_exactly() {
    // Bucket 0 applies the multiplier once: 1.0 * 1.1.
    assert_eq!(particle_velocity_increasing(1_000_000, 0), 1_100_000);
    assert_eq!(particle_velocity_increasing(1_000_000, 99), 1_100_000);
    // Bucket 2 applies it three times: 1.331, each step truncated.
    assert_eq!(particle_velocity_increasing(1_000_000, 250), 1_331_000);
    // Zero stays zero.
    assert_eq!(particle_velocity_increasing(0, 1_000), 0);
}

#[test]
fn velocity_decreasing_steps_exactly() {
    assert_eq!(particle_velocity_decreasing(1_000_000, 0), 950_000);
    assert_eq!(particle_velocity_decreasing(1_000_000, 100), 902_500);
    // A long-dead clock drains the velocity to nothing.
    assert_eq!(particle_velocity_decreasing(1_000_000, 100_000_000), 0);
}

#[test]
fn tick_move_advances_by_velocity_step() {
    let start = pixel_at(0, 0);
    let dir = Point2d { x: SCALE, y: 0 };
    let moved = particle_tick_move(&start, Some(start), &dir, 2 * SCALE, 100, 1_500)
        .expect("alive");
    assert_eq!(moved.position, Point2d { x: 2 * SCALE, y: 0 });
    assert_eq!(moved.alpha, SCALE);
    assert_eq!(moved.color, red());
}

#[test]
fn tick_move_expires_strictly_after_lifetime() {
    let start = pixel_at(0, 0);
    let dir = Point2d { x: SCALE, y: 0 };
    assert!(particle_tick_move(&start, Some(start), &dir, SCALE, 1_500, 1_500).is_some());
    assert!(particle_tick_move(&start, Some(start), &dir, SCALE, 1_501, 1_500).is_none());
}

#[test]
fn tick_fade_scales_alpha_linearly() {
    let start = pixel_at(0, 0);
    let dir = Point2d { x: SCALE, y: 0 };
    // Halfway through the lifetime, half the starting opacity is left.
    let faded = particle_tick_move_and_fade_out(&start, Some(start), &dir, SCALE, 750, 1_500)
        .expect("alive");
    assert_eq!(faded.alpha, SCALE / 2);
    // At no elapsed time the starting opacity is untouched.
    let fresh = particle_tick_move_and_fade_out(&start, Some(start), &dir, SCALE, 0, 1_500)
        .expect("alive");
    assert_eq!(fresh.alpha, SCALE);
    // Past the lifetime the particle is gone, fade or no fade.
    assert!(particle_tick_move_and_fade_out(&start, Some(start), &dir, SCALE, 1_501, 1_500)
        .is_none());
}

#[test]
fn particle_lifecycle_is_terminal() {
    // Spawned at t0 with a 1500 ms lifetime: alive at t0, expired at
    // t0 + 1501, and still expired afterwards, whatever the clock says.
    let t0: u64 = 10_000;
    let mut p = Particle::new_at(
        pixel_at(0, 0),
        Point2d { x: SCALE, y: 0 },
        SCALE,
        1_500,
        VelocityRule::Increasing,
        TickRule::MoveAndFadeOut,
        t0,
    );
    assert!(p.tick(t0).is_some());
    assert!(p.pixel().is_some());
    assert!(p.tick(t0 + 1_501).is_none());
    assert!(p.pixel().is_none());
    // No resurrection, not even for a clock running backwards.
    assert!(p.tick(t0).is_none());
    assert!(p.tick(t0 + 100).is_none());
}

#[test]
fn tick_updates_velocity_from_start_velocity() {
    let t0: u64 = 0;
    let mut p = Particle::new_at(
        pixel_at(0, 0),
        Point2d { x: SCALE, y: 0 },
        1_000_000,
        100_000,
        VelocityRule::Increasing,
        TickRule::Move,
        t0,
    );
    assert_eq!(p.velocity(), 1_000_000);
    p.tick(0);
    assert_eq!(p.velocity(), 1_100_000);
    // The velocity rule reads the starting velocity, not the current one:
    // ticking twice at the same time gives the same velocity.
    p.tick(0);
    assert_eq!(p.velocity(), 1_100_000);
    p.tick(250);
    assert_eq!(p.velocity(), 1_331_000);
}

#[test]
fn tick_moves_from_current_position() {
    let t0: u64 = 0;
    let mut p = Particle::new_at(
        pixel_at(0, 0),
        Point2d { x: SCALE, y: 0 },
        1_000_000,
        100_000,
        VelocityRule::Increasing,
        TickRule::Move,
        t0,
    );
    p.tick(0);
    let first = p.pixel().expect("alive").position.x;
    assert_eq!(first, 1_100_000);
    p.tick(0);
    // The step is applied to the current position, so the particle keeps
    // moving even at a frozen clock.
    assert_eq!(p.pixel().expect("alive").position.x, 2_200_000);
}

#[test]
fn delta_clamps_before_spawn() {
    let p = Particle::new_at(
        pixel_at(0, 0),
        Point2d { x: SCALE, y: 0 },
        SCALE,
        1_500,
        VelocityRule::Decreasing,
        TickRule::Move,
        1_000,
    );
    assert_eq!(p.delta(1_000), 0);
    assert_eq!(p.delta(1_250), 250);
    assert_eq!(p.delta(500), 0);
}

#[test]
fn particle_equality_follows_spawn_state() {
    let a = Particle::new_at(
        pixel_at(1, 2),
        Point2d { x: SCALE, y: 0 },
        SCALE,
        1_500,
        VelocityRule::Increasing,
        TickRule::Move,
        42,
    );
    let b = Particle::new_at(
        pixel_at(1, 2),
        Point2d { x: SCALE, y: 0 },
        SCALE,
        1_500,
        VelocityRule::Increasing,
        TickRule::MoveAndFadeOut,
        42,
    );
    // The position rule takes no part in equality.
    assert!(a == b);
    let c = Particle::new_at(
        pixel_at(3, 2),
        Point2d { x: SCALE, y: 0 },
        SCALE,
        1_500,
        VelocityRule::Increasing,
        TickRule::Move,
        42,
    );
    assert!(a != c);
}

#[test]
fn new_spawns_alive_at_start_pixel() {
    let px = pixel_at(7, 9);
    let p = Particle::new(
        px,
        Point2d { x: 0, y: SCALE },
        400_000,
        1_500,
        VelocityRule::Increasing,
        TickRule::MoveAndFadeOut,
    );
    assert_eq!(p.pixel(), Some(px));
    assert_eq!(p.velocity(), 400_000);
}
