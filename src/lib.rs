//! Particle effects: particles, the emitters that spawn them, and a system
//! that drives both through an emit, admit, integrate and cull cycle per frame.
//!
//! Time is measured in ticks, a unit the application chooses (for example
//! microseconds); every duration is a `u64` count of ticks.
mod particle;
mod system;
mod base;
mod shapes;
mod laws;

pub use particle::{Aging, MaxAging, Particle, ParticleEmitter};
pub use system::{ParticleSystem, advance_all, live_particles, live_emitters, harvest, frame};
pub use base::BaseParticleSystem;
pub use shapes::{BaseParticle, Fountain, Point, clamp_i64, saturating_sum, lemma_dead_particle_stays_dead};
pub use laws::{lemma_update_leaves_only_live, lemma_empty_system_stays_empty, lemma_final_batch_admitted};
