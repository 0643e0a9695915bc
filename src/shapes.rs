use vstd::prelude::*;
use crate::particle::{Aging, MaxAging, Particle, ParticleEmitter};

verus! {

/// A point, or a velocity in units per tick, on a 2-dimensional integer grid.
#[derive(Clone, Copy, Debug, PartialEq, Eq, Structural)]
pub struct Point {
    pub x: i64,
    pub y: i64,
}

/// `v` held to the range of `i64`.
pub open spec fn clamp_i64(v: int) -> i64 {
    if v < i64::MIN {
        i64::MIN
    } else if v > i64::MAX {
        i64::MAX
    } else {
        v as i64
    }
}

/// `a + b`, held to `u64::MAX`.
pub open spec fn saturating_sum(a: u64, b: u64) -> u64 {
    if a + b > u64::MAX {
        u64::MAX
    } else {
        (a + b) as u64
    }
}

/// The coordinate `x` moved at speed `v` for `dt` ticks, held to the range of `i64`.
fn drift(x: i64, v: i64, dt: u64) -> (r: i64)
    ensures
        r == clamp_i64(x + v * dt),
{
    assert(v * dt <= i64::MAX * u64::MAX) by (nonlinear_arith)
        requires
            v <= i64::MAX,
            0 <= dt <= u64::MAX,
    ;
    assert(v * dt >= i64::MIN * u64::MAX) by (nonlinear_arith)
        requires
            v >= i64::MIN,
            0 <= dt <= u64::MAX,
    ;
    let step: i128 = v as i128 * dt as i128;
    if step > 36893488147419103232i128 {
        i64::MAX
    } else if step < -36893488147419103232i128 {
        i64::MIN
    } else {
        let sum: i128 = x as i128 + step;
        if sum > i64::MAX as i128 {
            i64::MAX
        } else if sum < i64::MIN as i128 {
            i64::MIN
        } else {
            sum as i64
        }
    }
}

/// A particle that moves at a constant velocity and dies once its age
/// reaches its maximum age.
#[derive(Clone, Copy, Debug, PartialEq, Eq, Structural)]
pub struct BaseParticle {
    pub position: Point,
    pub velocity: Point,
    pub age: u64,
    pub max_age: u64,
}

impl BaseParticle {
    /// A particle of age 0.
    pub fn new(position: Point, velocity: Point, max_age: u64) -> (r: Self)
        ensures
            r == (BaseParticle { position, velocity, age: 0, max_age }),
    {
        BaseParticle { position, velocity, age: 0, max_age }
    }
}

impl Aging for BaseParticle {
    open spec fn age(&self) -> u64 {
        self.age
    }

    fn get_age(&self) -> (r: u64) {
        self.age
    }

    fn set_age(&mut self, age: u64) {
        self.age = age;
    }
}

impl MaxAging for BaseParticle {
    open spec fn max_age(&self) -> u64 {
        self.max_age
    }

    fn get_max_age(&self) -> (r: u64) {
        self.max_age
    }
}

impl Particle for BaseParticle {
    type Position = Point;

    open spec fn alive(&self) -> bool {
        self.age < self.max_age
    }

    open spec fn advanced(&self, dt: u64) -> Self {
        BaseParticle {
            position: Point {
                x: clamp_i64(self.position.x + self.velocity.x * dt),
                y: clamp_i64(self.position.y + self.velocity.y * dt),
            },
            velocity: self.velocity,
            age: saturating_sum(self.age, dt),
            max_age: self.max_age,
        }
    }

    open spec fn position(&self) -> Point {
        self.position
    }

    fn get_position(&self) -> (r: Point) {
        self.position
    }

    fn update(&mut self, dt: u64) {
        self.position = Point {
            x: drift(self.position.x, self.velocity.x, dt),
            y: drift(self.position.y, self.velocity.y, dt),
        };
        self.age = if self.age > u64::MAX - dt {
            u64::MAX
        } else {
            self.age + dt
        };
    }

    /// A base particle has no appearance of its own: a renderer reads its
    /// position through the system's particles instead.
    fn draw(&self) {
    }

    fn is_alive(&self) -> (r: bool) {
        MaxAging::is_alive(self)
    }
}

/// An emitter that spawns one `BaseParticle` at `origin` on each update
/// while it has updates `remaining`, and dies when none are left.
#[derive(Clone, Copy, Debug, PartialEq, Eq, Structural)]
pub struct Fountain {
    pub origin: Point,
    pub velocity: Point,
    pub max_age: u64,
    pub remaining: u64,
}

impl Fountain {
    /// A fountain that emits on `remaining` updates.
    pub fn new(origin: Point, velocity: Point, max_age: u64, remaining: u64) -> (r: Self)
        ensures
            r == (Fountain { origin, velocity, max_age, remaining }),
    {
        Fountain { origin, velocity, max_age, remaining }
    }
}

impl ParticleEmitter for Fountain {
    type ParticleType = BaseParticle;

    open spec fn alive(&self) -> bool {
        self.remaining > 0
    }

    open spec fn emits(&self, dt: u64, next: Self, batch: Seq<BaseParticle>) -> bool {
        if self.remaining > 0 {
            &&& next == (Fountain { remaining: (self.remaining - 1) as u64, ..*self })
            &&& batch == seq![
                BaseParticle { position: self.origin, velocity: self.velocity, age: 0, max_age: self.max_age },
            ]
        } else {
            &&& next == *self
            &&& batch == Seq::<BaseParticle>::empty()
        }
    }

    fn update(&mut self, dt: u64) -> (r: Vec<BaseParticle>) {
        if self.remaining > 0 {
            self.remaining = self.remaining - 1;
            let mut batch = Vec::new();
            batch.push(BaseParticle::new(self.origin, self.velocity, self.max_age));
            batch
        } else {
            Vec::new()
        }
    }

    fn is_alive(&self) -> (r: bool) {
        self.remaining > 0
    }
}

/// Once a base particle is dead, advancing it never brings it back: its age
/// only grows.
pub proof fn lemma_dead_particle_stays_dead(p: BaseParticle, dt: u64)
    requires
        !p.alive(),
    ensures
        !p.advanced(dt).alive(),
{
}

} // verus!
