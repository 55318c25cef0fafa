//! The body of the simulation, and the rules that change it: gravity,
//! collision, movement and the border of the world.
//!
//! Each rule is written twice. On [`Body`], the plain-data model, it is a
//! formula; on [`Object`] it is the code that the formula describes. The
//! formulas fix the order of every operation, because a scalar's arithmetic
//! need not be associative.

use vstd::prelude::*;
use vstd::std_specs::ops::{AddSpec, SubSpec, MulSpec, DivSpec};
use vstd::std_specs::cmp::{PartialEqSpec, PartialOrdIs};
use crate::scalar::{exact, root, safe, spec_root, Scalar};
use crate::vector::{can_normalize, normalize, spec_normalize, Vector2};
use crate::world::World;

verus! {

/// What a body is, as plain data: the mathematical model of an [`Object`].
pub struct Body<S> {
    /// Where the body is, in world coordinates.
    pub position: Vector2<S>,
    /// How far the body moves per unit of time.
    pub velocity: Vector2<S>,
    /// Its weight in gravity and collisions, and the measure of its size.
    pub mass: S,
}

/// Circle object. Has position, velocity and mass.
///
/// The fields are private: once made, an object changes only through the
/// `perform_*` methods. The force rules change nothing but the velocity, the
/// position rules nothing but the position, and none of them the mass, which
/// has to be positive wherever a force rule is applied.
#[derive(Debug)]
pub struct Object<S> {
    /// Position
    p: Vector2<S>,
    /// Velocity
    v: Vector2<S>,
    /// Mass
    m: S,
}

impl<S> View for Object<S> {
    type V = Body<S>;

    closed spec fn view(&self) -> Body<S> {
        Body { position: self.p, velocity: self.v, mass: self.m }
    }
}

impl<S: Copy> Clone for Object<S> {
    fn clone(&self) -> (o: Self)
        ensures
            o == *self,
    {
        *self
    }
}

impl<S: Copy> Copy for Object<S> {

}

/// The models of a collection of objects, in their order.
pub open spec fn bodies<S>(objects: Seq<Object<S>>) -> Seq<Body<S>> {
    objects.map_values(|o: Object<S>| o@)
}

/// Every one of `bodies` has a positive mass.
pub open spec fn all_have_mass<S: Scalar, R: Fn(S) -> S>(
    world: World<S, R>,
    bodies: Seq<Body<S>>,
) -> bool {
    forall|k: int| 0 <= k < bodies.len() ==> (#[trigger] bodies[k]).has_mass(world)
}

impl<S: Scalar> Body<S> {
    /// The mass is positive, as the mass of every body has to be: the rules
    /// divide by it.
    pub open spec fn has_mass<R: Fn(S) -> S>(self, world: World<S, R>) -> bool {
        self.mass.is_gt(&world.zero)
    }

    /// Momentum: velocity times mass.
    pub open spec fn momentum(self) -> Vector2<S> {
        self.velocity.spec_times(self.mass)
    }

    /// Radius: the square root of the mass, times the world's scale.
    pub open spec fn radius<R: Fn(S) -> S>(self, world: World<S, R>) -> S {
        spec_root(world.sqrt, self.mass).mul_spec(world.radius_scale)
    }

    /// The vector from this body to `o`.
    pub open spec fn offset_to(self, o: Body<S>) -> Vector2<S> {
        o.position.spec_minus(self.position)
    }

    /// `o` is at distance zero: it exerts no force.
    pub open spec fn coincides_with<R: Fn(S) -> S>(self, world: World<S, R>, o: Body<S>) -> bool {
        self.offset_to(o).spec_length_sq().eq_spec(&world.zero)
    }

    /// The force with which `o` pulls at this body: towards `o`, with the
    /// strength `mass * o.mass / distance² * G`.
    pub open spec fn pull_of<R: Fn(S) -> S>(self, world: World<S, R>, o: Body<S>) -> Vector2<S> {
        let d = self.offset_to(o);
        spec_normalize(d, world.sqrt).spec_times(
            self.mass.mul_spec(o.mass).div_spec(d.spec_length_sq()).mul_spec(
                world.gravitational_constant,
            ),
        )
    }

    /// The sum of the forces of `others`, added up in their order from the
    /// zero vector, leaving out those at distance zero.
    pub open spec fn force_sum<R: Fn(S) -> S>(
        self,
        world: World<S, R>,
        others: Seq<Body<S>>,
    ) -> Vector2<S>
        decreases others.len(),
    {
        if others.len() == 0 {
            world.spec_origin()
        } else {
            let sum = self.force_sum(world, others.drop_last());
            if self.coincides_with(world, others.last()) {
                sum
            } else {
                sum.spec_plus(self.pull_of(world, others.last()))
            }
        }
    }

    /// The body after gravity has acted for `dt`: the velocity has grown by
    /// `force_sum / mass * dt`.
    pub open spec fn pulled<R: Fn(S) -> S>(
        self,
        world: World<S, R>,
        others: Seq<Body<S>>,
        dt: S,
    ) -> Body<S> {
        Body {
            velocity: self.velocity.spec_plus(
                self.force_sum(world, others).spec_over(self.mass).spec_times(dt),
            ),
            ..self
        }
    }

    /// The circles of this body and of `o` overlap: their centres are closer
    /// than the sum of their radii.
    pub open spec fn overlaps<R: Fn(S) -> S>(self, world: World<S, R>, o: Body<S>) -> bool {
        spec_root(world.sqrt, self.offset_to(o).spec_length_sq()).is_lt(
            &o.radius(world).add_spec(self.radius(world)),
        )
    }

    /// The body after an elastic collision with `o`: its velocity becomes
    /// `(velocity * (mass - o.mass) - o.momentum * 2) / (mass + o.mass)`.
    pub open spec fn bounced_off<R: Fn(S) -> S>(self, world: World<S, R>, o: Body<S>) -> Body<S> {
        Body {
            velocity: self.velocity.spec_times(self.mass.sub_spec(o.mass)).spec_minus(
                o.momentum().spec_times(world.two),
            ).spec_over(self.mass.add_spec(o.mass)),
            ..self
        }
    }

    /// The body after an inelastic collision with `o`: its velocity becomes
    /// `(momentum + o.momentum) / (mass + o.mass)`.
    pub open spec fn stuck_to(self, o: Body<S>) -> Body<S> {
        Body {
            velocity: self.momentum().spec_plus(o.momentum()).spec_over(
                self.mass.add_spec(o.mass),
            ),
            ..self
        }
    }

    /// The body after it has bounced off each of `others` that it overlaps,
    /// one after the other in their order.
    pub open spec fn collided<R: Fn(S) -> S>(
        self,
        world: World<S, R>,
        others: Seq<Body<S>>,
    ) -> Body<S>
        decreases others.len(),
    {
        if others.len() == 0 {
            self
        } else {
            let before = self.collided(world, others.drop_last());
            if before.overlaps(world, others.last()) {
                before.bounced_off(world, others.last())
            } else {
                before
            }
        }
    }

    /// The body after it has stuck to each of `others` that it overlaps, one
    /// after the other in their order.
    pub open spec fn stuck<R: Fn(S) -> S>(
        self,
        world: World<S, R>,
        others: Seq<Body<S>>,
    ) -> Body<S>
        decreases others.len(),
    {
        if others.len() == 0 {
            self
        } else {
            let before = self.stuck(world, others.drop_last());
            if before.overlaps(world, others.last()) {
                before.stuck_to(others.last())
            } else {
                before
            }
        }
    }

    /// The body after the force pass of a step: gravity first, then the
    /// elastic collisions, which see the velocity that gravity left.
    pub open spec fn forced<R: Fn(S) -> S>(
        self,
        world: World<S, R>,
        others: Seq<Body<S>>,
        dt: S,
    ) -> Body<S> {
        self.pulled(world, others, dt).collided(world, others)
    }

    /// The body after it has moved for `dt`: the position has grown by
    /// `velocity * dt`.
    pub open spec fn moved(self, dt: S) -> Body<S> {
        Body { position: self.position.spec_plus(self.velocity.spec_times(dt)), ..self }
    }

    /// The body lies strictly outside the world on some axis.
    pub open spec fn is_out_border<R: Fn(S) -> S>(self, world: World<S, R>) -> bool {
        world.spec_is_outside(self.position)
    }

    /// The body after the send-to-centre policy: a body out of the border is
    /// put on the centre of the world.
    pub open spec fn sent<R: Fn(S) -> S>(self, world: World<S, R>) -> Body<S> {
        if self.is_out_border(world) {
            Body { position: world.spec_center(), ..self }
        } else {
            self
        }
    }

    /// The body after the mirror policy: a body out of the border is put at
    /// `center - (position - center) * damping`, on the other side of the
    /// centre and a little closer to it.
    pub open spec fn mirrored<R: Fn(S) -> S>(self, world: World<S, R>) -> Body<S> {
        if self.is_out_border(world) {
            Body {
                position: world.spec_center().spec_minus(
                    self.position.spec_minus(world.spec_center()).spec_times(
                        world.mirror_damping,
                    ),
                ),
                ..self
            }
        } else {
            self
        }
    }

    /// The body after the position pass of a step: movement first, then the
    /// mirror policy.
    pub open spec fn positioned<R: Fn(S) -> S>(self, world: World<S, R>, dt: S) -> Body<S> {
        self.moved(dt).mirrored(world)
    }
}

/// When the formulas can be computed: for each formula above, the operations
/// that it is made of accept their operands.
impl<S: Scalar> Body<S> {
    /// The momentum can be computed.
    pub open spec fn can_momentum(self) -> bool {
        self.velocity.can_times(self.mass)
    }

    /// The radius can be computed.
    pub open spec fn can_radius<R: Fn(S) -> S>(self, world: World<S, R>) -> bool {
        &&& world.sqrt.requires((self.mass,))
        &&& spec_root(world.sqrt, self.mass).mul_req(world.radius_scale)
    }

    /// The squared distance to `o` can be computed.
    pub open spec fn can_measure(self, o: Body<S>) -> bool {
        &&& o.position.can_minus(self.position)
        &&& self.offset_to(o).can_length_sq()
    }

    /// The force of `o` can be computed.
    pub open spec fn can_pull_of<R: Fn(S) -> S>(self, world: World<S, R>, o: Body<S>) -> bool {
        let d = self.offset_to(o);
        &&& can_normalize(d, world.sqrt)
        &&& self.mass.mul_req(o.mass)
        &&& self.mass.mul_spec(o.mass).div_req(d.spec_length_sq())
        &&& self.mass.mul_spec(o.mass).div_spec(d.spec_length_sq()).mul_req(
            world.gravitational_constant,
        )
        &&& spec_normalize(d, world.sqrt).can_times(
            self.mass.mul_spec(o.mass).div_spec(d.spec_length_sq()).mul_spec(
                world.gravitational_constant,
            ),
        )
    }

    /// The sum of the forces of `others` can be computed.
    pub open spec fn can_force_sum<R: Fn(S) -> S>(
        self,
        world: World<S, R>,
        others: Seq<Body<S>>,
    ) -> bool
        decreases others.len(),
    {
        others.len() > 0 ==> {
            &&& self.can_force_sum(world, others.drop_last())
            &&& self.can_measure(others.last())
            &&& !self.coincides_with(world, others.last()) ==> {
                &&& self.can_pull_of(world, others.last())
                &&& self.force_sum(world, others.drop_last()).can_plus(
                    self.pull_of(world, others.last()),
                )
            }
        }
    }

    /// Gravity can be applied.
    pub open spec fn can_be_pulled<R: Fn(S) -> S>(
        self,
        world: World<S, R>,
        others: Seq<Body<S>>,
        dt: S,
    ) -> bool {
        let sum = self.force_sum(world, others);
        &&& self.can_force_sum(world, others)
        &&& sum.can_over(self.mass)
        &&& sum.spec_over(self.mass).can_times(dt)
        &&& self.velocity.can_plus(sum.spec_over(self.mass).spec_times(dt))
    }

    /// Whether the body overlaps `o` can be computed.
    pub open spec fn can_overlap<R: Fn(S) -> S>(self, world: World<S, R>, o: Body<S>) -> bool {
        &&& self.can_measure(o)
        &&& world.sqrt.requires((self.offset_to(o).spec_length_sq(),))
        &&& o.can_radius(world)
        &&& self.can_radius(world)
        &&& o.radius(world).add_req(self.radius(world))
    }

    /// The velocity after an elastic collision with `o` can be computed.
    pub open spec fn can_bounce_off<R: Fn(S) -> S>(self, world: World<S, R>, o: Body<S>) -> bool {
        let mine = self.velocity.spec_times(self.mass.sub_spec(o.mass));
        let theirs = o.momentum().spec_times(world.two);
        &&& self.mass.sub_req(o.mass)
        &&& self.velocity.can_times(self.mass.sub_spec(o.mass))
        &&& o.can_momentum()
        &&& o.momentum().can_times(world.two)
        &&& mine.can_minus(theirs)
        &&& self.mass.add_req(o.mass)
        &&& mine.spec_minus(theirs).can_over(self.mass.add_spec(o.mass))
    }

    /// The velocity after an inelastic collision with `o` can be computed.
    pub open spec fn can_stick_to(self, o: Body<S>) -> bool {
        &&& self.can_momentum()
        &&& o.can_momentum()
        &&& self.momentum().can_plus(o.momentum())
        &&& self.mass.add_req(o.mass)
        &&& self.momentum().spec_plus(o.momentum()).can_over(self.mass.add_spec(o.mass))
    }

    /// The elastic collisions with `others` can be computed.
    pub open spec fn can_collide<R: Fn(S) -> S>(
        self,
        world: World<S, R>,
        others: Seq<Body<S>>,
    ) -> bool
        decreases others.len(),
    {
        others.len() > 0 ==> {
            let before = self.collided(world, others.drop_last());
            &&& self.can_collide(world, others.drop_last())
            &&& before.can_overlap(world, others.last())
            &&& before.overlaps(world, others.last()) ==> before.can_bounce_off(
                world,
                others.last(),
            )
        }
    }

    /// The inelastic collisions with `others` can be computed.
    pub open spec fn can_stick<R: Fn(S) -> S>(
        self,
        world: World<S, R>,
        others: Seq<Body<S>>,
    ) -> bool
        decreases others.len(),
    {
        others.len() > 0 ==> {
            let before = self.stuck(world, others.drop_last());
            &&& self.can_stick(world, others.drop_last())
            &&& before.can_overlap(world, others.last())
            &&& before.overlaps(world, others.last()) ==> before.can_stick_to(others.last())
        }
    }

    /// Where the forces of all of `others` can be added up, those of the first
    /// `n` of them can.
    proof fn lemma_can_force_sum_prefix<R: Fn(S) -> S>(
        self,
        world: World<S, R>,
        others: Seq<Body<S>>,
        n: int,
    )
        requires
            self.can_force_sum(world, others),
            0 <= n <= others.len(),
        ensures
            self.can_force_sum(world, others.take(n)),
        decreases others.len(),
    {
        if n < others.len() {
            self.lemma_can_force_sum_prefix(world, others.drop_last(), n);
            assert(others.drop_last().take(n) =~= others.take(n));
        } else {
            assert(others.take(n) =~= others);
        }
    }

    /// The same of the elastic collisions.
    proof fn lemma_can_collide_prefix<R: Fn(S) -> S>(
        self,
        world: World<S, R>,
        others: Seq<Body<S>>,
        n: int,
    )
        requires
            self.can_collide(world, others),
            0 <= n <= others.len(),
        ensures
            self.can_collide(world, others.take(n)),
        decreases others.len(),
    {
        if n < others.len() {
            self.lemma_can_collide_prefix(world, others.drop_last(), n);
            assert(others.drop_last().take(n) =~= others.take(n));
        } else {
            assert(others.take(n) =~= others);
        }
    }

    /// The same of the inelastic collisions.
    proof fn lemma_can_stick_prefix<R: Fn(S) -> S>(
        self,
        world: World<S, R>,
        others: Seq<Body<S>>,
        n: int,
    )
        requires
            self.can_stick(world, others),
            0 <= n <= others.len(),
        ensures
            self.can_stick(world, others.take(n)),
        decreases others.len(),
    {
        if n < others.len() {
            self.lemma_can_stick_prefix(world, others.drop_last(), n);
            assert(others.drop_last().take(n) =~= others.take(n));
        } else {
            assert(others.take(n) =~= others);
        }
    }

    /// The force pass can be computed.
    pub open spec fn can_be_forced<R: Fn(S) -> S>(
        self,
        world: World<S, R>,
        others: Seq<Body<S>>,
        dt: S,
    ) -> bool {
        &&& self.can_be_pulled(world, others, dt)
        &&& self.pulled(world, others, dt).can_collide(world, others)
    }

    /// The movement can be computed.
    pub open spec fn can_move(self, dt: S) -> bool {
        &&& self.velocity.can_times(dt)
        &&& self.position.can_plus(self.velocity.spec_times(dt))
    }

    /// The send-to-centre policy can be applied.
    pub open spec fn can_be_sent<R: Fn(S) -> S>(self, world: World<S, R>) -> bool {
        self.is_out_border(world) ==> world.can_center()
    }

    /// The mirror policy can be applied.
    pub open spec fn can_be_mirrored<R: Fn(S) -> S>(self, world: World<S, R>) -> bool {
        let center = world.spec_center();
        self.is_out_border(world) ==> {
            &&& world.can_center()
            &&& self.position.can_minus(center)
            &&& self.position.spec_minus(center).can_times(world.mirror_damping)
            &&& center.can_minus(self.position.spec_minus(center).spec_times(world.mirror_damping))
        }
    }

    /// The position pass can be computed.
    pub open spec fn can_be_positioned<R: Fn(S) -> S>(self, world: World<S, R>, dt: S) -> bool {
        &&& self.can_move(dt)
        &&& self.moved(dt).can_be_mirrored(world)
    }
}

impl<S: Scalar> Object<S> {
    /// Make an object with given position, velocity and mass. Position and
    /// velocity are whatever `into` makes of `p` and `v`: a pair `(x, y)`
    /// becomes the vector with these coordinates.
    pub fn new<T: Into<Vector2<S>>>(p: T, v: T, m: S) -> (o: Self)
        ensures
            call_ensures(T::into, (p,), o@.position),
            call_ensures(T::into, (v,), o@.velocity),
            o@.mass == m,
    {
        Object { p: p.into(), v: v.into(), m }
    }

    /// Position
    pub fn position(&self) -> (p: Vector2<S>)
        ensures
            p == self@.position,
    {
        self.p
    }

    /// Velocity
    pub fn velocity(&self) -> (v: Vector2<S>)
        ensures
            v == self@.velocity,
    {
        self.v
    }

    /// Mass
    pub fn mass(&self) -> (m: S)
        ensures
            m == self@.mass,
    {
        self.m
    }

    /// Whether the mass is positive. Every object that takes part in a force
    /// pass has to pass this test.
    pub fn has_mass<R: Fn(S) -> S>(&self, world: &World<S, R>) -> (positive: bool)
        ensures
            exact::<S>() ==> positive == self@.has_mass(*world),
    {
        self.m > world.zero
    }

    /// Gets radius. The object is a circle and its area means its mass.
    pub fn radius<R: Fn(S) -> S>(&self, world: &World<S, R>) -> (r: S)
        requires
            world.safe(self@.can_radius(*world)),
        ensures
            world.exact() ==> r == self@.radius(*world),
    {
        root(&world.sqrt, self.m) * world.radius_scale
    }

    /// Momentum
    pub fn p(&self) -> (momentum: Vector2<S>)
        requires
            self@.can_momentum(),
        ensures
            exact::<S>() ==> momentum == self@.momentum(),
    {
        self.v.times(self.m)
    }

    /// Newton's gravity: every other object pulls with a force that grows
    /// with both masses and falls with the square of the distance. An object at
    /// distance zero is passed over.
    pub fn perform_gravity<R: Fn(S) -> S>(
        &mut self,
        other: &Vec<Object<S>>,
        dt: S,
        world: &World<S, R>,
    )
        requires
            world.safe(old(self)@.can_be_pulled(*world, bodies(other@), dt)),
            old(self)@.has_mass(*world),
            all_have_mass(*world, bodies(other@)),
        ensures
            final(self)@.position == old(self)@.position,
            final(self)@.mass == old(self)@.mass,
            world.exact() ==> final(self)@ == old(self)@.pulled(*world, bodies(other@), dt),
    {
        let mut sum_f = world.origin();
        let mut k: usize = 0;
        while k < other.len()
            invariant
                k <= other.len(),
                world.safe(self@.can_be_pulled(*world, bodies(other@), dt)),
                *self == *old(self),
                world.exact() ==> sum_f == self@.force_sum(*world, bodies(other@).take(k as int)),
            decreases other.len() - k,
        {
            let o = &other[k];
            proof {
                let seen = bodies(other@).take(k + 1);
                assert(seen.drop_last() =~= bodies(other@).take(k as int));
                assert(seen.last() == o@);
                if self@.can_force_sum(*world, bodies(other@)) {
                    self@.lemma_can_force_sum_prefix(*world, bodies(other@), k + 1);
                }
            }
            let distance = o.p.minus(self.p);
            if distance.length_sq() != world.zero {
                let distance_normal = normalize(&distance, &world.sqrt);
                let distance_len_sq = distance.length_sq();
                let f = self.m * o.m / distance_len_sq * world.gravitational_constant;
                sum_f = sum_f.plus(distance_normal.times(f));
            }
            k += 1;
        }
        assert(bodies(other@).take(other@.len() as int) =~= bodies(other@));
        let a = sum_f.over(self.m);
        self.v = self.v.plus(a.times(dt));
    }

    /// Whether the circles of this object and of `o` overlap.
    pub fn overlaps<R: Fn(S) -> S>(&self, o: &Object<S>, world: &World<S, R>) -> (hit: bool)
        requires
            world.safe(self@.can_overlap(*world, o@)),
        ensures
            world.exact() ==> hit == self@.overlaps(*world, o@),
    {
        let distance = o.p.minus(self.p);
        root(&world.sqrt, distance.length_sq()) < o.radius(world) + self.radius(world)
    }

    /// Inelastic collision: with each overlapping object in turn, this one
    /// takes the velocity of the two momenta together.
    pub fn perform_stick<R: Fn(S) -> S>(&mut self, other: &Vec<Object<S>>, world: &World<S, R>)
        requires
            world.safe(old(self)@.can_stick(*world, bodies(other@))),
            old(self)@.has_mass(*world),
            all_have_mass(*world, bodies(other@)),
        ensures
            final(self)@.position == old(self)@.position,
            final(self)@.mass == old(self)@.mass,
            world.exact() ==> final(self)@ == old(self)@.stuck(*world, bodies(other@)),
    {
        let mut k: usize = 0;
        while k < other.len()
            invariant
                k <= other.len(),
                world.safe(old(self)@.can_stick(*world, bodies(other@))),
                self@.position == old(self)@.position,
                self@.mass == old(self)@.mass,
                world.exact() ==> self@ == old(self)@.stuck(
                    *world,
                    bodies(other@).take(k as int),
                ),
            decreases other.len() - k,
        {
            let o = &other[k];
            proof {
                let seen = bodies(other@).take(k + 1);
                assert(seen.drop_last() =~= bodies(other@).take(k as int));
                assert(seen.last() == o@);
                if old(self)@.can_stick(*world, bodies(other@)) {
                    old(self)@.lemma_can_stick_prefix(*world, bodies(other@), k + 1);
                }
            }
            if self.overlaps(o, world) {
                self.v = self.p().plus(o.p()).over(self.m + o.m);
            }
            k += 1;
        }
        assert(bodies(other@).take(other@.len() as int) =~= bodies(other@));
    }

    /// Elastic collision: this object bounces off each overlapping object in
    /// turn.
    pub fn perform_collision<R: Fn(S) -> S>(
        &mut self,
        other: &Vec<Object<S>>,
        world: &World<S, R>,
    )
        requires
            world.safe(old(self)@.can_collide(*world, bodies(other@))),
            old(self)@.has_mass(*world),
            all_have_mass(*world, bodies(other@)),
        ensures
            final(self)@.position == old(self)@.position,
            final(self)@.mass == old(self)@.mass,
            world.exact() ==> final(self)@ == old(self)@.collided(*world, bodies(other@)),
    {
        let mut k: usize = 0;
        while k < other.len()
            invariant
                k <= other.len(),
                world.safe(old(self)@.can_collide(*world, bodies(other@))),
                self@.position == old(self)@.position,
                self@.mass == old(self)@.mass,
                world.exact() ==> self@ == old(self)@.collided(
                    *world,
                    bodies(other@).take(k as int),
                ),
            decreases other.len() - k,
        {
            let o = &other[k];
            proof {
                let seen = bodies(other@).take(k + 1);
                assert(seen.drop_last() =~= bodies(other@).take(k as int));
                assert(seen.last() == o@);
                if old(self)@.can_collide(*world, bodies(other@)) {
                    old(self)@.lemma_can_collide_prefix(*world, bodies(other@), k + 1);
                }
            }
            if self.overlaps(o, world) {
                self.v = self.v.times(self.m - o.m).minus(o.p().times(world.two)).over(
                    self.m + o.m,
                );
            }
            k += 1;
        }
        assert(bodies(other@).take(other@.len() as int) =~= bodies(other@));
    }

    /// Change velocity by interaction with the other objects: gravity first,
    /// then elastic collision.
    pub fn perform_force<R: Fn(S) -> S>(
        &mut self,
        other: Vec<Object<S>>,
        dt: S,
        world: &World<S, R>,
    )
        requires
            world.safe(old(self)@.can_be_forced(*world, bodies(other@), dt)),
            old(self)@.has_mass(*world),
            all_have_mass(*world, bodies(other@)),
        ensures
            final(self)@.position == old(self)@.position,
            final(self)@.mass == old(self)@.mass,
            world.exact() ==> final(self)@ == old(self)@.forced(*world, bodies(other@), dt),
    {
        self.perform_gravity(&other, dt, world);
        self.perform_collision(&other, world);
    }

    /// Move to a new position based on speed and elapsed time.
    pub fn perform_movement(&mut self, dt: S)
        requires
            safe::<S>(old(self)@.can_move(dt)),
        ensures
            final(self)@.velocity == old(self)@.velocity,
            final(self)@.mass == old(self)@.mass,
            exact::<S>() ==> final(self)@ == old(self)@.moved(dt),
    {
        self.p = self.p.plus(self.v.times(dt));
    }

    /// Whether the object lies strictly outside the world on some axis.
    pub fn is_out_border<R: Fn(S) -> S>(&self, world: &World<S, R>) -> (out: bool)
        ensures
            exact::<S>() ==> out == self@.is_out_border(*world),
    {
        world.is_outside(self.p)
    }

    /// Sends body from border to center
    pub fn perform_border_send<R: Fn(S) -> S>(&mut self, world: &World<S, R>)
        requires
            safe::<S>(old(self)@.can_be_sent(*world)),
        ensures
            final(self)@.velocity == old(self)@.velocity,
            final(self)@.mass == old(self)@.mass,
            exact::<S>() ==> final(self)@ == old(self)@.sent(*world),
    {
        if self.is_out_border(world) {
            self.p = world.center();
        }
    }

    /// Sends body to the opposite position.
    ///
    /// Not quite opposite: a body mirrored at full distance would leave the
    /// world again at once, so the offset from the centre is damped.
    pub fn perform_border_mirror<R: Fn(S) -> S>(&mut self, world: &World<S, R>)
        requires
            safe::<S>(old(self)@.can_be_mirrored(*world)),
        ensures
            final(self)@.velocity == old(self)@.velocity,
            final(self)@.mass == old(self)@.mass,
            exact::<S>() ==> final(self)@ == old(self)@.mirrored(*world),
    {
        if self.is_out_border(world) {
            let center = world.center();
            self.p = center.minus(self.p.minus(center).times(world.mirror_damping));
        }
    }

    /// Change position: move, then come back into the world if the move has
    /// led out of it.
    pub fn perform_position<R: Fn(S) -> S>(&mut self, dt: S, world: &World<S, R>)
        requires
            safe::<S>(old(self)@.can_be_positioned(*world, dt)),
        ensures
            final(self)@.velocity == old(self)@.velocity,
            final(self)@.mass == old(self)@.mass,
            exact::<S>() ==> final(self)@ == old(self)@.positioned(*world, dt),
    {
        self.perform_movement(dt);
        self.perform_border_mirror(world);
    }
}

} // verus!
