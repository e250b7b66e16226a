use ray_particles::num::SCALE;
use ray_particles::particle::{Particle, ParticlePixel};
use ray_particles::particle_animation::{TickRule, VelocityRule};
use ray_particles::particle_system::{ParticleContainer, ParticleSystem};
use ray_particles::shapes::{Point2d, Rgb};

fn colored(c: u8) -> Rgb {
    Rgb { r: c, g: 0, b: 0 }
}

fn particle_spawned_at(t0: u64, lifetime: u32, tag: u8) -> Particle {
    Particle::new_at(
        ParticlePixel {
            position: Point2d { x: 0, y: 0 },
            color: colored(tag),
            alpha: SCALE,
        },
        Point2d { x: SCALE, y: 0 },
        SCALE,
        lifetime,
        VelocityRule::Increasing,
        TickRule::Move,
        t0,
    )
}

#[test]
fn overflow_evicts_the_oldest() {
    // 2001 spawns into the default capacity of 2000: exactly 2000 stay,
    // the first one spawned is gone, the newest is present.
    let mut system = ParticleSystem::default();
    for i in 0..2001u64 {
        system.add_particle(particle_spawned_at(i, 1_500, 0));
    }
    assert_eq!(system.container.particles.len(), 2000);
    assert_eq!(system.container.particles[0].start_time, 1);
    assert_eq!(system.container.particles[1999].start_time, 2000);
}

#[test]
fn add_keeps_insertion_order() {
    let mut system = ParticleSystem::with_capacity(10);
    for i in 0..5u64 {
        system.add_particle(particle_spawned_at(i, 1_500, 0));
    }
    assert_eq!(system.container.particles.len(), 5);
    for i in 0..5usize {
        assert_eq!(system.container.particles[i].start_time, i as u64);
    }
}

#[test]
fn advance_draws_live_in_spawn_order_and_removes_expired() {
    let mut system = ParticleSystem::with_capacity(10);
    // Spawned at 0; the middle one expires by `now`, the others live on.
    system.add_particle(particle_spawned_at(0, 10_000, 1));
    system.add_particle(particle_spawned_at(0, 100, 2));
    system.add_particle(particle_spawned_at(0, 10_000, 3));
    let drawn = system.advance(1_000);
    // Only the live pixels are reported, in the original spawn order.
    assert_eq!(drawn.len(), 2);
    assert_eq!(drawn[0].color, colored(1));
    assert_eq!(drawn[1].color, colored(3));
    // The expired member is removed; the survivors keep their order.
    assert_eq!(system.container.particles.len(), 2);
    assert_eq!(system.container.particles[0].start_pixel.color, colored(1));
    assert_eq!(system.container.particles[1].start_pixel.color, colored(3));
    // What was drawn is what the survivors now show.
    assert_eq!(system.container.particles[0].pixel().unwrap(), drawn[0]);
    assert_eq!(system.container.particles[1].pixel().unwrap(), drawn[1]);
}

#[test]
fn advance_never_adds() {
    let mut system = ParticleSystem::with_capacity(10);
    for i in 0..5u64 {
        system.add_particle(particle_spawned_at(i, 10_000, 0));
    }
    let before = system.container.particles.len();
    system.advance(100);
    assert!(system.container.particles.len() <= before);
    system.advance(1_000_000);
    assert_eq!(system.container.particles.len(), 0);
}

#[test]
fn advance_on_empty_draws_nothing() {
    let mut system = ParticleSystem::default();
    let drawn = system.advance(12_345);
    assert!(drawn.is_empty());
    assert!(system.container.particles.is_empty());
}

#[test]
fn expired_stay_out_across_frames() {
    let mut system = ParticleSystem::with_capacity(10);
    system.add_particle(particle_spawned_at(0, 100, 1));
    assert_eq!(system.advance(50).len(), 1);
    assert_eq!(system.advance(200).len(), 0);
    assert_eq!(system.container.particles.len(), 0);
    // A later frame at an earlier clock still finds nothing.
    assert_eq!(system.advance(50).len(), 0);
}

#[test]
fn remove_particles_is_index_stable() {
    let mut container = ParticleContainer { particles: Vec::new() };
    for i in 0..5u64 {
        container.particles.push(particle_spawned_at(i, 1_500, i as u8));
    }
    // Removing positions 1 and 3 keeps 0, 2, 4 in order, the later
    // positions adjusted for the removals before them.
    let marks: Vec<usize> = vec![1, 3];
    ParticleSystem::remove_particles(&mut container, &marks);
    assert_eq!(container.particles.len(), 3);
    assert_eq!(container.particles[0].start_time, 0);
    assert_eq!(container.particles[1].start_time, 2);
    assert_eq!(container.particles[2].start_time, 4);
}

#[test]
fn wall_clock_tick_runs_a_frame() {
    // `tick` reads the real clock; a particle spawned by the wall clock
    // with a long lifetime must survive the frame and be drawn once.
    let mut system = ParticleSystem::default();
    system.add_particle(Particle::new(
        ParticlePixel {
            position: Point2d { x: 0, y: 0 },
            color: colored(9),
            alpha: SCALE,
        },
        Point2d { x: SCALE, y: 0 },
        400_000,
        u32::MAX,
        VelocityRule::Increasing,
        TickRule::MoveAndFadeOut,
    ));
    let drawn = system.tick();
    assert_eq!(drawn.len(), 1);
    assert_eq!(drawn[0].color, colored(9));
    assert_eq!(system.container.particles.len(), 1);
}
