use vstd::prelude::*;
use crate::particle::{Particle, ParticleEmitter};

verus! {

/// Each particle of `s` advanced by `dt` ticks, in order.
pub open spec fn advance_all<P: Particle>(s: Seq<P>, dt: u64) -> Seq<P> {
    s.map_values(|p: P| p.advanced(dt))
}

/// The particles of `s` that are alive, in their relative order.
pub open spec fn live_particles<P: Particle>(s: Seq<P>) -> Seq<P> {
    s.filter(|p: P| p.alive())
}

/// The emitters of `s` that are alive, in their relative order.
pub open spec fn live_emitters<E: ParticleEmitter>(s: Seq<E>) -> Seq<E> {
    s.filter(|e: E| e.alive())
}

/// Advancing each emitter of `before` by `dt` ticks may give the emitters of
/// `after`, one for one, with their batches handed out in emitter order as
/// `batch`.
pub open spec fn harvest<E: ParticleEmitter>(
    before: Seq<E>,
    dt: u64,
    after: Seq<E>,
    batch: Seq<E::ParticleType>,
) -> bool {
    &&& before.len() == after.len()
    &&& exists|batches: Seq<Seq<E::ParticleType>>|
        {
            &&& batches.len() == before.len()
            &&& forall|i: int|
                0 <= i < before.len() ==> #[trigger] before[i].emits(dt, after[i], batches[i])
            &&& batch == batches.flatten()
        }
}

/// One update cycle of `dt` ticks may lead from the particles and emitters
/// `particles`, `emitters` to `next_particles`, `next_emitters`: the emitters
/// are advanced and their batches appended to the particles, every particle is
/// then advanced, and finally the dead particles and the dead emitters are
/// removed.
pub open spec fn frame<E: ParticleEmitter>(
    particles: Seq<E::ParticleType>,
    emitters: Seq<E>,
    dt: u64,
    next_particles: Seq<E::ParticleType>,
    next_emitters: Seq<E>,
) -> bool {
    exists|advanced_emitters: Seq<E>, batch: Seq<E::ParticleType>|
        {
            &&& #[trigger] harvest(emitters, dt, advanced_emitters, batch)
            &&& next_particles == live_particles(advance_all(particles + batch, dt))
            &&& next_emitters == live_emitters(advanced_emitters)
        }
}

/// The elements of `v` in reverse order.
pub(crate) fn reversed<T>(v: Vec<T>) -> (r: Vec<T>)
    ensures
        r@.len() == v@.len(),
        forall|j: int| 0 <= j < r@.len() ==> r@[j] == v@[v@.len() - 1 - j],
{
    let ghost s = v@;
    let mut rest = v;
    let mut r: Vec<T> = Vec::new();
    while rest.len() > 0
        invariant
            rest@ == s.subrange(0, rest@.len() as int),
            r@.len() == s.len() - rest@.len(),
            forall|j: int| 0 <= j < r@.len() ==> r@[j] == s[s.len() - 1 - j],
        decreases rest@.len(),
    {
        let x = rest.pop().unwrap();
        r.push(x);
    }
    r
}

/// A collection of particles and emitters.
pub trait ParticleSystem: Sized {
    /// The type of particle that this system contains.
    type ParticleType: Particle;

    /// The type of emitter that this system contains.
    type EmitterType: ParticleEmitter<ParticleType = Self::ParticleType>;

    /// The particles held, in container order.
    spec fn particles(&self) -> Seq<Self::ParticleType>;

    /// The emitters held, in container order.
    spec fn emitters(&self) -> Seq<Self::EmitterType>;

    /// The particles currently in the system, in container order.
    fn iter_particles(&self) -> (r: &[Self::ParticleType])
        ensures
            r@ == self.particles(),
    ;

    /// The emitters currently in the system, in container order.
    fn iter_emitters(&self) -> (r: &[Self::EmitterType])
        ensures
            r@ == self.emitters(),
    ;

    /// The particles currently in the system, in container order, open to
    /// change in place.
    fn iter_particles_mut(&mut self) -> (r: &mut [Self::ParticleType])
        ensures
            r@ == old(self).particles(),
            final(r)@ == final(self).particles(),
            final(self).emitters() == old(self).emitters(),
    ;

    /// The emitters currently in the system, in container order, open to
    /// change in place.
    fn iter_emitters_mut(&mut self) -> (r: &mut [Self::EmitterType])
        ensures
            r@ == old(self).emitters(),
            final(r)@ == final(self).emitters(),
            final(self).particles() == old(self).particles(),
    ;

    /// Adds a particle to the system.
    fn add_particle(&mut self, particle: Self::ParticleType)
        ensures
            final(self).particles() == old(self).particles().push(particle),
            final(self).emitters() == old(self).emitters(),
    ;

    /// Adds an emitter to the system.
    fn add_emitter(&mut self, emitter: Self::EmitterType)
        ensures
            final(self).particles() == old(self).particles(),
            final(self).emitters() == old(self).emitters().push(emitter),
    ;

    /// Advances every particle in the system by `dt` ticks.
    fn update_particles(&mut self, dt: u64)
        ensures
            final(self).particles() == advance_all(old(self).particles(), dt),
            final(self).emitters() == old(self).emitters(),
    ;

    /// Advances every emitter by `dt` ticks and returns, in emitter order, the
    /// particles they spawned; the particles are not yet added.
    fn update_emitters(&mut self, dt: u64) -> (r: Vec<Self::ParticleType>)
        ensures
            harvest(old(self).emitters(), dt, final(self).emitters(), r@),
            final(self).particles() == old(self).particles(),
    ;

    /// Removes the dead particles, keeping the order of the others.
    fn clean_particles(&mut self)
        ensures
            final(self).particles() == live_particles(old(self).particles()),
            final(self).emitters() == old(self).emitters(),
    ;

    /// Removes the dead emitters, keeping the order of the others.
    fn clean_emitters(&mut self)
        ensures
            final(self).particles() == old(self).particles(),
            final(self).emitters() == live_emitters(old(self).emitters()),
    ;

    /// Runs one update cycle of `dt` ticks: the emitters are advanced and
    /// what they spawned is added, then every particle (the new ones too) is
    /// advanced, then the dead particles and the dead emitters are removed.
    fn update(&mut self, dt: u64)
        ensures
            frame(
                old(self).particles(),
                old(self).emitters(),
                dt,
                final(self).particles(),
                final(self).emitters(),
            ),
    {
        let new_particles = self.update_emitters(dt);
        let ghost emitters = self.emitters();
        let ghost batch = new_particles@;
        let ghost held = self.particles();
        let n = new_particles.len();
        let mut pending = reversed(new_particles);
        while pending.len() > 0
            invariant
                n == batch.len(),
                pending@.len() <= n,
                forall|j: int| 0 <= j < pending@.len() ==> pending@[j] == batch[n - 1 - j],
                self.emitters() == emitters,
                self.particles() == held + batch.subrange(0, n - pending@.len()),
            decreases pending@.len(),
        {
            let ghost k = n - pending@.len();
            let p = pending.pop().unwrap();
            self.add_particle(p);
            assert(batch.subrange(0, k + 1) =~= batch.subrange(0, k).push(batch[k]));
        }
        assert(batch.subrange(0, n as int) =~= batch);
        self.update_particles(dt);
        self.clean_particles();
        self.clean_emitters();
    }

    /// Draws every particle in the system, in container order.
    fn draw(&self) {
        let particles = self.iter_particles();
        let mut i: usize = 0;
        while i < particles.len()
            invariant
                particles@ == self.particles(),
            decreases particles.len() - i,
        {
            particles[i].draw();
            i = i + 1;
        }
    }
}

} // verus!
