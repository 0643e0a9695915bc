use vstd::prelude::*;

verus! {

/// A simulated point that moves, ages and is drawn.
pub trait Particle: Sized {
    /// The position type of the particle.
    type Position;

    /// Whether the particle should stay in its system.
    spec fn alive(&self) -> bool;

    /// The particle's state after it has been advanced by `dt` ticks.
    spec fn advanced(&self, dt: u64) -> Self;

    /// The particle's position.
    spec fn position(&self) -> Self::Position;

    /// The position of the particle in space.
    fn get_position(&self) -> (r: Self::Position)
        ensures
            r == self.position(),
    ;

    /// Advances the particle by `dt` ticks.
    fn update(&mut self, dt: u64)
        ensures
            *final(self) == old(self).advanced(dt),
    ;

    /// Renders the particle; the simulation state is left as it is.
    fn draw(&self);

    /// Returns false if the particle should be removed from its system.
    fn is_alive(&self) -> (r: bool)
        ensures
            r == self.alive(),
    ;
}

/// A spawner that creates particles as time passes.
pub trait ParticleEmitter: Sized {
    /// The type of the particles emitted.
    type ParticleType: Particle;

    /// Whether the emitter should stay in its system.
    spec fn alive(&self) -> bool;

    /// Whether advancing by `dt` ticks may turn this emitter into `next` and
    /// hand out `batch`. A relation, so that emission may depend on chance.
    spec fn emits(&self, dt: u64, next: Self, batch: Seq<Self::ParticleType>) -> bool;

    /// Advances the emitter by `dt` ticks and returns the particles it spawned.
    fn update(&mut self, dt: u64) -> (r: Vec<Self::ParticleType>)
        ensures
            old(self).emits(dt, *final(self), r@),
    ;

    /// Returns false if the emitter should be removed from its system.
    fn is_alive(&self) -> (r: bool)
        ensures
            r == self.alive(),
    ;
}

/// Tracks the age of a particle, in ticks.
pub trait Aging {
    spec fn age(&self) -> u64;

    /// The current age.
    fn get_age(&self) -> (r: u64)
        ensures
            r == self.age(),
    ;

    /// Sets the current age.
    fn set_age(&mut self, age: u64)
        ensures
            final(self).age() == age,
    ;
}

/// A particle that dies once its age reaches a maximum.
pub trait MaxAging: Aging {
    spec fn max_age(&self) -> u64;

    /// The age at which the particle dies.
    fn get_max_age(&self) -> (r: u64)
        ensures
            r == self.max_age(),
    ;

    /// The age as a whole percentage of the maximum age (100 and above once
    /// dead); `u128::MAX` stands for an unbounded ratio when the maximum is 0.
    fn get_age_percent(&self) -> (r: u128)
        ensures
            self.max_age() == 0 ==> r == u128::MAX,
            self.max_age() > 0 ==> r == (self.age() as int) * 100 / (self.max_age() as int),
    {
        let max_age = self.get_max_age();
        if max_age == 0 {
            u128::MAX
        } else {
            let age = self.get_age();
            assert(age as u128 * 100 <= u64::MAX as u128 * 100) by (nonlinear_arith)
                requires age <= u64::MAX;
            (age as u128 * 100) / (max_age as u128)
        }
    }

    /// Returns false once the age has reached the maximum age; a maximum age
    /// of 0 means dead from the start.
    fn is_alive(&self) -> (r: bool)
        ensures
            r == (self.age() < self.max_age()),
    {
        self.get_age() < self.get_max_age()
    }
}

} // verus!
