use vstd::prelude::*;
use crate::particle::{Particle, ParticleEmitter};
use crate::system::{ParticleSystem, advance_all, live_particles, live_emitters, harvest, reversed};

verus! {

/// A particle system that keeps its particles and emitters in vectors.
pub struct BaseParticleSystem<P, E> {
    particles: Vec<P>,
    emitters: Vec<E>,
}

impl<P: Particle, E: ParticleEmitter<ParticleType = P>> BaseParticleSystem<P, E> {
    /// An empty system.
    pub fn new() -> (r: Self)
        ensures
            r.particles() == Seq::<P>::empty(),
            r.emitters() == Seq::<E>::empty(),
    {
        BaseParticleSystem { particles: Vec::new(), emitters: Vec::new() }
    }
}

impl<P: Particle, E: ParticleEmitter<ParticleType = P>> Default for BaseParticleSystem<P, E> {
    /// An empty system.
    fn default() -> (r: Self)
        ensures
            r.particles() == Seq::<P>::empty(),
            r.emitters() == Seq::<E>::empty(),
    {
        BaseParticleSystem::new()
    }
}

impl<P: Particle, E: ParticleEmitter<ParticleType = P>> ParticleSystem for BaseParticleSystem<P, E> {
    type ParticleType = P;

    type EmitterType = E;

    closed spec fn particles(&self) -> Seq<P> {
        self.particles@
    }

    closed spec fn emitters(&self) -> Seq<E> {
        self.emitters@
    }

    fn iter_particles(&self) -> (r: &[P]) {
        self.particles.as_slice()
    }

    fn iter_emitters(&self) -> (r: &[E]) {
        self.emitters.as_slice()
    }

    fn iter_particles_mut(&mut self) -> (r: &mut [P]) {
        self.particles.as_mut_slice()
    }

    fn iter_emitters_mut(&mut self) -> (r: &mut [E]) {
        self.emitters.as_mut_slice()
    }

    fn add_particle(&mut self, particle: P) {
        self.particles.push(particle);
    }

    fn add_emitter(&mut self, emitter: E) {
        self.emitters.push(emitter);
    }

    fn update_particles(&mut self, dt: u64) {
        let ghost s = self.particles@;
        let n = self.particles.len();
        let mut held = Vec::new();
        std::mem::swap(&mut self.particles, &mut held);
        let mut pending = reversed(held);
        let mut done: Vec<P> = Vec::new();
        while pending.len() > 0
            invariant
                n == s.len(),
                pending@.len() <= n,
                forall|j: int| 0 <= j < pending@.len() ==> pending@[j] == s[n - 1 - j],
                done@ == advance_all(s.subrange(0, n - pending@.len()), dt),
            decreases pending@.len(),
        {
            let ghost k = n - pending@.len();
            let mut p = pending.pop().unwrap();
            p.update(dt);
            done.push(p);
            assert(advance_all(s.subrange(0, k + 1), dt) =~= advance_all(s.subrange(0, k), dt).push(
                s[k].advanced(dt),
            ));
        }
        assert(s.subrange(0, n as int) =~= s);
        self.particles = done;
    }

    fn update_emitters(&mut self, dt: u64) -> (r: Vec<P>) {
        let ghost s = self.emitters@;
        let n = self.emitters.len();
        let mut held = Vec::new();
        std::mem::swap(&mut self.emitters, &mut held);
        let mut pending = reversed(held);
        let mut done: Vec<E> = Vec::new();
        let mut out: Vec<P> = Vec::new();
        let ghost mut batches: Seq<Seq<P>> = Seq::empty();
        while pending.len() > 0
            invariant
                n == s.len(),
                pending@.len() <= n,
                forall|j: int| 0 <= j < pending@.len() ==> pending@[j] == s[n - 1 - j],
                done@.len() == n - pending@.len(),
                batches.len() == done@.len(),
                forall|i: int| 0 <= i < done@.len() ==> #[trigger] s[i].emits(dt, done@[i], batches[i]),
                out@ == batches.flatten(),
            decreases pending@.len(),
        {
            let ghost k = n - pending@.len();
            let mut e = pending.pop().unwrap();
            let mut b = e.update(dt);
            proof {
                batches.lemma_flatten_push(b@);
                batches = batches.push(b@);
            }
            out.append(&mut b);
            done.push(e);
        }
        self.emitters = done;
        out
    }

    fn clean_particles(&mut self) {
        let ghost s = self.particles@;
        let n = self.particles.len();
        let mut held = Vec::new();
        std::mem::swap(&mut self.particles, &mut held);
        let mut pending = reversed(held);
        let mut kept: Vec<P> = Vec::new();
        while pending.len() > 0
            invariant
                n == s.len(),
                pending@.len() <= n,
                forall|j: int| 0 <= j < pending@.len() ==> pending@[j] == s[n - 1 - j],
                kept@ == live_particles(s.subrange(0, n - pending@.len())),
            decreases pending@.len(),
        {
            let ghost k = n - pending@.len();
            let p = pending.pop().unwrap();
            assert(s.subrange(0, k + 1).drop_last() =~= s.subrange(0, k));
            proof {
                reveal(Seq::filter);
            }
            if p.is_alive() {
                kept.push(p);
            }
        }
        assert(s.subrange(0, n as int) =~= s);
        self.particles = kept;
    }

    fn clean_emitters(&mut self) {
        let ghost s = self.emitters@;
        let n = self.emitters.len();
        let mut held = Vec::new();
        std::mem::swap(&mut self.emitters, &mut held);
        let mut pending = reversed(held);
        let mut kept: Vec<E> = Vec::new();
        while pending.len() > 0
            invariant
                n == s.len(),
                pending@.len() <= n,
                forall|j: int| 0 <= j < pending@.len() ==> pending@[j] == s[n - 1 - j],
                kept@ == live_emitters(s.subrange(0, n - pending@.len())),
            decreases pending@.len(),
        {
            let ghost k = n - pending@.len();
            let e = pending.pop().unwrap();
            assert(s.subrange(0, k + 1).drop_last() =~= s.subrange(0, k));
            proof {
                reveal(Seq::filter);
            }
            if e.is_alive() {
                kept.push(e);
            }
        }
        assert(s.subrange(0, n as int) =~= s);
        self.emitters = kept;
    }
}

} // verus!
