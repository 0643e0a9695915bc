use vstd::prelude::*;
use crate::particle::{Particle, ParticleEmitter};
use crate::system::{advance_all, frame, harvest, live_emitters, live_particles};

verus! {

/// After an update cycle every particle and every emitter left in the
/// system is alive, so neither drawing nor the next cycle's integration ever
/// reaches one that was dead when that next step began.
pub proof fn lemma_update_leaves_only_live<E: ParticleEmitter>(
    particles: Seq<E::ParticleType>,
    emitters: Seq<E>,
    dt: u64,
    next_particles: Seq<E::ParticleType>,
    next_emitters: Seq<E>,
)
    requires
        frame(particles, emitters, dt, next_particles, next_emitters),
    ensures
        forall|i: int| 0 <= i < next_particles.len() ==> (#[trigger] next_particles[i]).alive(),
        forall|i: int| 0 <= i < next_emitters.len() ==> (#[trigger] next_emitters[i]).alive(),
{
    broadcast use Seq::lemma_filter_pred;

    let (es, batch) = choose|es: Seq<E>, batch: Seq<E::ParticleType>|
        {
            &&& #[trigger] harvest(emitters, dt, es, batch)
            &&& next_particles == live_particles(advance_all(particles + batch, dt))
            &&& next_emitters == live_emitters(es)
        };
    assert forall|i: int| 0 <= i < next_particles.len() implies (#[trigger] next_particles[i]).alive() by {
        advance_all(particles + batch, dt).lemma_filter_pred(|p: E::ParticleType| p.alive(), i);
    }
    assert forall|i: int| 0 <= i < next_emitters.len() implies (#[trigger] next_emitters[i]).alive() by {
        es.lemma_filter_pred(|e: E| e.alive(), i);
    }
}

/// An update cycle on a system with no particles and no emitters leaves it
/// empty.
pub proof fn lemma_empty_system_stays_empty<E: ParticleEmitter>(
    dt: u64,
    next_particles: Seq<E::ParticleType>,
    next_emitters: Seq<E>,
)
    requires
        frame(Seq::<E::ParticleType>::empty(), Seq::<E>::empty(), dt, next_particles, next_emitters),
    ensures
        next_particles.len() == 0,
        next_emitters.len() == 0,
{
    let (es, batch) = choose|es: Seq<E>, batch: Seq<E::ParticleType>|
        {
            &&& #[trigger] harvest(Seq::<E>::empty(), dt, es, batch)
            &&& next_particles == live_particles(
                advance_all(Seq::<E::ParticleType>::empty() + batch, dt),
            )
            &&& next_emitters == live_emitters(es)
        };
    let batches = choose|batches: Seq<Seq<E::ParticleType>>|
        {
            &&& batches.len() == 0
            &&& forall|i: int| 0 <= i < 0 ==> #[trigger] Seq::<E>::empty()[i].emits(dt, es[i], batches[i])
            &&& batch == batches.flatten()
        };
    assert(batches =~= Seq::<Seq<E::ParticleType>>::empty());
    assert(advance_all(Seq::<E::ParticleType>::empty() + batch, dt).len() == 0);
    advance_all(Seq::<E::ParticleType>::empty() + batch, dt).lemma_filter_len(
        |p: E::ParticleType| p.alive(),
    );
    es.lemma_filter_len(|e: E| e.alive());
}

/// A system with one emitter and no particles: whatever the emitter hands out
/// in the cycle is advanced and admitted, whether or not the emitter itself
/// dies in that cycle; the emitter stays only if it is still alive.
pub proof fn lemma_final_batch_admitted<E: ParticleEmitter>(
    emitter: E,
    dt: u64,
    next_particles: Seq<E::ParticleType>,
    next_emitters: Seq<E>,
)
    requires
        frame(Seq::<E::ParticleType>::empty(), seq![emitter], dt, next_particles, next_emitters),
    ensures
        exists|next: E, batch: Seq<E::ParticleType>|
            {
                &&& #[trigger] emitter.emits(dt, next, batch)
                &&& next_particles == live_particles(advance_all(batch, dt))
                &&& next_emitters == if next.alive() {
                    seq![next]
                } else {
                    Seq::<E>::empty()
                }
            },
{
    broadcast use Seq::lemma_flatten_singleton;

    let (es, batch) = choose|es: Seq<E>, batch: Seq<E::ParticleType>|
        {
            &&& #[trigger] harvest(seq![emitter], dt, es, batch)
            &&& next_particles == live_particles(
                advance_all(Seq::<E::ParticleType>::empty() + batch, dt),
            )
            &&& next_emitters == live_emitters(es)
        };
    let batches = choose|batches: Seq<Seq<E::ParticleType>>|
        {
            &&& batches.len() == 1
            &&& forall|i: int| 0 <= i < 1 ==> #[trigger] seq![emitter][i].emits(dt, es[i], batches[i])
            &&& batch == batches.flatten()
        };
    assert(seq![emitter][0] == emitter);
    assert(emitter.emits(dt, es[0], batches[0]));
    assert(batch == batches[0]);
    assert(Seq::<E::ParticleType>::empty() + batch =~= batch);
    let next = es[0];
    assert(es =~= seq![next]);
    reveal_with_fuel(Seq::filter, 2);
    if next.alive() {
        assert(live_emitters(es) =~= seq![next]);
    } else {
        assert(live_emitters(es) =~= Seq::<E>::empty());
    }
}

} // verus!
