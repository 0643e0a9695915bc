use particula_rs::{
    Aging, BaseParticle, BaseParticleSystem, Fountain, MaxAging, Particle, ParticleEmitter,
    ParticleSystem, Point,
};

type System = BaseParticleSystem<BaseParticle, Fountain>;

fn origin() -> Point {
    Point { x: 0, y: 0 }
}

fn still() -> Point {
    Point { x: 0, y: 0 }
}

#[test]
fn update_and_draw_on_empty_system_do_nothing() {
    let mut system = System::new();
    system.update(1);
    system.draw();
    system.update(0);
    assert!(system.iter_particles().is_empty());
    assert!(system.iter_emitters().is_empty());
}

#[test]
fn default_system_is_empty() {
    let system = System::default();
    assert_eq!(system.iter_particles().len(), 0);
    assert_eq!(system.iter_emitters().len(), 0);
}

#[test]
fn clean_particles_keeps_survivors_in_order() {
    let mut system = System::new();
    let a = BaseParticle::new(Point { x: 1, y: 1 }, still(), 5);
    let b = BaseParticle::new(Point { x: 2, y: 2 }, still(), 0);
    let c = BaseParticle::new(Point { x: 3, y: 3 }, still(), 5);
    system.add_particle(a);
    system.add_particle(b);
    system.add_particle(c);
    system.clean_particles();
    assert_eq!(system.iter_particles(), &[a, c][..]);
}

#[test]
fn clean_emitters_keeps_survivors_in_order() {
    let mut system = System::new();
    let a = Fountain::new(origin(), still(), 2, 3);
    let b = Fountain::new(origin(), still(), 2, 0);
    let c = Fountain::new(Point { x: 9, y: 9 }, still(), 2, 1);
    system.add_emitter(a);
    system.add_emitter(b);
    system.add_emitter(c);
    system.clean_emitters();
    assert_eq!(system.iter_emitters(), &[a, c][..]);
}

#[test]
fn emitted_particle_is_integrated_in_its_own_frame() {
    let dt: u64 = 3;
    let mut system = System::new();
    system.add_emitter(Fountain::new(Point { x: 10, y: 0 }, Point { x: 2, y: -1 }, 2 * dt, 1));
    system.update(dt);
    let particles = system.iter_particles();
    assert_eq!(particles.len(), 1);
    assert_eq!(particles[0].get_age(), dt);
    assert_eq!(particles[0].get_position(), Point { x: 16, y: -3 });
    assert!(Particle::is_alive(&particles[0]));
    system.update(dt);
    assert!(system.iter_particles().is_empty());
}

#[test]
fn final_batch_of_dying_emitter_is_admitted() {
    let mut system = System::new();
    system.add_emitter(Fountain::new(origin(), still(), 4, 1));
    system.update(1);
    assert!(system.iter_emitters().is_empty());
    assert_eq!(system.iter_particles().len(), 1);
    assert_eq!(system.iter_particles()[0].get_age(), 1);
}

#[test]
fn end_to_end_one_particle_per_frame() {
    let mut system = System::new();
    system.add_emitter(Fountain::new(origin(), still(), 2, u64::MAX));
    system.update(1);
    assert_eq!(system.iter_particles().len(), 1);
    assert!(Particle::is_alive(&system.iter_particles()[0]));
    assert_eq!(system.iter_particles()[0].get_age(), 1);
    system.update(1);
    assert_eq!(system.iter_particles().len(), 1);
    assert_eq!(system.iter_particles()[0].get_age(), 1);
    assert_eq!(system.iter_particles()[0].get_position(), origin());
    assert_eq!(system.iter_emitters().len(), 1);
    assert_eq!(system.iter_emitters()[0].remaining, u64::MAX - 2);
}

#[test]
fn dead_particle_added_stays_until_next_cleanup() {
    let mut system = System::new();
    system.add_particle(BaseParticle::new(origin(), still(), 0));
    assert_eq!(system.iter_particles().len(), 1);
    system.draw();
    system.update(1);
    assert!(system.iter_particles().is_empty());
}

#[test]
fn dead_particle_reports_dead_every_time() {
    let mut p = BaseParticle::new(origin(), still(), 5);
    p.set_age(7);
    assert!(!Particle::is_alive(&p));
    assert!(!Particle::is_alive(&p));
    Particle::update(&mut p, 1);
    assert!(!Particle::is_alive(&p));
    assert_eq!(p.get_age(), 8);
}

#[test]
fn particle_dies_when_age_reaches_max_age() {
    let mut p = BaseParticle::new(origin(), still(), 2);
    Particle::update(&mut p, 1);
    assert!(Particle::is_alive(&p));
    Particle::update(&mut p, 1);
    assert!(!Particle::is_alive(&p));
    assert!(!MaxAging::is_alive(&p));
}

#[test]
fn zero_max_age_is_dead_from_the_start() {
    let p = BaseParticle::new(origin(), still(), 0);
    assert!(!Particle::is_alive(&p));
    assert_eq!(p.get_age_percent(), u128::MAX);
}

#[test]
fn age_percent_values() {
    let mut p = BaseParticle::new(origin(), still(), 4);
    assert_eq!(p.get_age_percent(), 0);
    p.set_age(1);
    assert_eq!(p.get_age_percent(), 25);
    p.set_age(8);
    assert_eq!(p.get_age_percent(), 200);
    p.set_age(u64::MAX);
    assert_eq!(p.get_age_percent(), (u64::MAX as u128) * 100 / 4);
    assert_eq!(p.get_max_age(), 4);
}

#[test]
fn particle_moves_by_velocity_times_dt() {
    let mut p = BaseParticle::new(Point { x: 1, y: 2 }, Point { x: 3, y: -4 }, 100);
    Particle::update(&mut p, 5);
    assert_eq!(p.get_position(), Point { x: 16, y: -18 });
    assert_eq!(p.get_age(), 5);
}

#[test]
fn particle_position_and_age_saturate() {
    let mut p = BaseParticle::new(Point { x: -5, y: 5 }, Point { x: i64::MAX, y: i64::MIN }, 3);
    p.set_age(u64::MAX - 1);
    Particle::update(&mut p, 2);
    assert_eq!(p.get_position(), Point { x: i64::MAX, y: i64::MIN });
    assert_eq!(p.get_age(), u64::MAX);
    let mut q = BaseParticle::new(Point { x: -10, y: 0 }, Point { x: i64::MAX, y: 0 }, 3);
    Particle::update(&mut q, 1);
    assert_eq!(q.get_position(), Point { x: i64::MAX - 10, y: 0 });
}

#[test]
fn fountain_emits_until_exhausted() {
    let mut f = Fountain::new(Point { x: 4, y: 5 }, Point { x: 1, y: 1 }, 9, 2);
    assert!(ParticleEmitter::is_alive(&f));
    let first = ParticleEmitter::update(&mut f, 1);
    assert_eq!(first, vec![BaseParticle::new(Point { x: 4, y: 5 }, Point { x: 1, y: 1 }, 9)]);
    let second = ParticleEmitter::update(&mut f, 1);
    assert_eq!(second.len(), 1);
    assert!(!ParticleEmitter::is_alive(&f));
    let third = ParticleEmitter::update(&mut f, 1);
    assert!(third.is_empty());
}

#[test]
fn update_emitters_returns_batches_in_emitter_order() {
    let mut system = System::new();
    system.add_emitter(Fountain::new(Point { x: 1, y: 0 }, still(), 3, 1));
    system.add_emitter(Fountain::new(Point { x: 2, y: 0 }, still(), 3, 0));
    system.add_emitter(Fountain::new(Point { x: 3, y: 0 }, still(), 3, 5));
    let batch = system.update_emitters(1);
    assert_eq!(batch.len(), 2);
    assert_eq!(batch[0].get_position(), Point { x: 1, y: 0 });
    assert_eq!(batch[1].get_position(), Point { x: 3, y: 0 });
    assert!(system.iter_particles().is_empty());
    assert_eq!(system.iter_emitters().len(), 3);
}

#[test]
fn update_particles_advances_each_once() {
    let mut system = System::new();
    system.add_particle(BaseParticle::new(origin(), Point { x: 1, y: 0 }, 10));
    system.add_particle(BaseParticle::new(origin(), Point { x: 0, y: 2 }, 10));
    system.update_particles(3);
    let particles = system.iter_particles();
    assert_eq!(particles[0].get_position(), Point { x: 3, y: 0 });
    assert_eq!(particles[1].get_position(), Point { x: 0, y: 6 });
    assert_eq!(particles[0].get_age(), 3);
}

#[test]
fn particles_changed_in_place_are_culled_by_next_cleanup() {
    let mut system = System::new();
    system.add_particle(BaseParticle::new(origin(), still(), 5));
    system.add_particle(BaseParticle::new(Point { x: 1, y: 0 }, still(), 5));
    for p in system.iter_particles_mut().iter_mut() {
        p.set_age(2);
    }
    system.iter_particles_mut()[0].set_age(5);
    system.iter_emitters_mut();
    system.clean_particles();
    assert_eq!(system.iter_particles().len(), 1);
    assert_eq!(system.iter_particles()[0].get_position(), Point { x: 1, y: 0 });
    assert_eq!(system.iter_particles()[0].get_age(), 2);
}
