//! What holds of the rules whatever the bodies are.

use vstd::prelude::*;
use vstd::std_specs::ops::{AddSpec, MulSpec, DivSpec};
use vstd::std_specs::cmp::PartialOrdIs;
use crate::object::Body;
use crate::scalar::{spec_root, Scalar};
use crate::step::stepped;
use crate::world::World;

verus! {

/// With no others there is nothing to add up and nobody to collide with, and
/// all of it can be computed.
pub proof fn lemma_without_others<S: Scalar, R: Fn(S) -> S>(world: World<S, R>, me: Body<S>)
    ensures
        me.force_sum(world, Seq::empty()) == world.spec_origin(),
        me.can_force_sum(world, Seq::empty()),
        me.collided(world, Seq::empty()) == me,
        me.can_collide(world, Seq::empty()),
        me.stuck(world, Seq::empty()) == me,
        me.can_stick(world, Seq::empty()),
{
}

/// What one more body `o` behind `others` adds: its pull to the force sum
/// unless it is at distance zero, a collision to the collisions if it
/// overlaps, and its share to what has to be computable.
pub proof fn lemma_with_one_more<S: Scalar, R: Fn(S) -> S>(
    world: World<S, R>,
    me: Body<S>,
    others: Seq<Body<S>>,
    o: Body<S>,
)
    ensures
        me.force_sum(world, others.push(o)) == if me.coincides_with(world, o) {
            me.force_sum(world, others)
        } else {
            me.force_sum(world, others).spec_plus(me.pull_of(world, o))
        },
        me.can_force_sum(world, others.push(o)) <==> {
            &&& me.can_force_sum(world, others)
            &&& me.can_measure(o)
            &&& !me.coincides_with(world, o) ==> {
                &&& me.can_pull_of(world, o)
                &&& me.force_sum(world, others).can_plus(me.pull_of(world, o))
            }
        },
        me.collided(world, others.push(o)) == if me.collided(world, others).overlaps(world, o) {
            me.collided(world, others).bounced_off(world, o)
        } else {
            me.collided(world, others)
        },
        me.can_collide(world, others.push(o)) <==> {
            &&& me.can_collide(world, others)
            &&& me.collided(world, others).can_overlap(world, o)
            &&& me.collided(world, others).overlaps(world, o) ==> me.collided(
                world,
                others,
            ).can_bounce_off(world, o)
        },
        me.stuck(world, others.push(o)) == if me.stuck(world, others).overlaps(world, o) {
            me.stuck(world, others).stuck_to(o)
        } else {
            me.stuck(world, others)
        },
        me.can_stick(world, others.push(o)) <==> {
            &&& me.can_stick(world, others)
            &&& me.stuck(world, others).can_overlap(world, o)
            &&& me.stuck(world, others).overlaps(world, o) ==> me.stuck(world, others).can_stick_to(
                o,
            )
        },
{
    assert(others.push(o).drop_last() =~= others);
}

/// A body at distance zero contributes nothing to the force on `me`: the sum
/// is what it is without that body.
pub proof fn lemma_zero_distance_pulls_nothing<S: Scalar, R: Fn(S) -> S>(
    world: World<S, R>,
    me: Body<S>,
    others: Seq<Body<S>>,
    o: Body<S>,
)
    requires
        me.coincides_with(world, o),
    ensures
        me.force_sum(world, others.push(o)) == me.force_sum(world, others),
{
    assert(others.push(o).drop_last() =~= others);
}

/// Bodies at distance zero contribute nothing wherever they stand among the
/// others: the force on `me` is the force of those that are apart from it.
pub proof fn lemma_force_sum_skips_zero_distances<S: Scalar, R: Fn(S) -> S>(
    world: World<S, R>,
    me: Body<S>,
    others: Seq<Body<S>>,
)
    ensures
        me.force_sum(world, others) == me.force_sum(
            world,
            others.filter(|o: Body<S>| !me.coincides_with(world, o)),
        ),
    decreases others.len(),
{
    reveal(Seq::filter);
    let apart = |o: Body<S>| !me.coincides_with(world, o);
    if others.len() > 0 {
        lemma_force_sum_skips_zero_distances(world, me, others.drop_last());
        let kept = others.drop_last().filter(apart);
        if apart(others.last()) {
            assert(kept.push(others.last()).drop_last() =~= kept);
        }
    }
}

/// Where every other body is at distance zero, no force acts on `me` at all.
pub proof fn lemma_all_at_zero_distance_pull_nothing<S: Scalar, R: Fn(S) -> S>(
    world: World<S, R>,
    me: Body<S>,
    others: Seq<Body<S>>,
)
    requires
        forall|k: int| 0 <= k < others.len() ==> me.coincides_with(world, #[trigger] others[k]),
    ensures
        me.force_sum(world, others) == world.spec_origin(),
    decreases others.len(),
{
    if others.len() > 0 {
        lemma_all_at_zero_distance_pull_nothing(world, me, others.drop_last());
    }
}

/// Two bodies whose mutual distance is zero exert no force on each other:
/// in a world of these two, the force on either is the zero vector.
pub proof fn lemma_coinciding_pair_pulls_nothing<S: Scalar, R: Fn(S) -> S>(
    world: World<S, R>,
    a: Body<S>,
    b: Body<S>,
)
    requires
        a.coincides_with(world, b),
        b.coincides_with(world, a),
    ensures
        a.force_sum(world, seq![a, b].remove(0)) == world.spec_origin(),
        b.force_sum(world, seq![a, b].remove(1)) == world.spec_origin(),
{
    assert(seq![a, b].remove(0) =~= seq![b]);
    assert(seq![a, b].remove(1) =~= seq![a]);
    lemma_all_at_zero_distance_pull_nothing(world, a, seq![b]);
    lemma_all_at_zero_distance_pull_nothing(world, b, seq![a]);
}

/// Two bodies whose distance is not less than the sum of their radii do not
/// collide, and in particular not two that just touch: the velocity of `me`
/// is what it is without `o`.
pub proof fn lemma_touching_is_no_collision<S: Scalar, R: Fn(S) -> S>(
    world: World<S, R>,
    me: Body<S>,
    others: Seq<Body<S>>,
    o: Body<S>,
)
    requires
        spec_root(world.sqrt, me.offset_to(o).spec_length_sq()).is_ge(
            &o.radius(world).add_spec(me.radius(world)),
        ),
    ensures
        !me.overlaps(world, o),
        me.collided(world, others.push(o)) == me.collided(world, others),
        me.stuck(world, others.push(o)) == me.stuck(world, others),
{
    assert(others.push(o).drop_last() =~= others);
    lemma_collisions_keep_place(world, me, others);
}

/// Two bodies whose distance is less than the sum of their radii collide:
/// `me` leaves with the velocity of the collision formula.
pub proof fn lemma_closer_is_collision<S: Scalar, R: Fn(S) -> S>(
    world: World<S, R>,
    me: Body<S>,
    others: Seq<Body<S>>,
    o: Body<S>,
)
    requires
        spec_root(world.sqrt, me.offset_to(o).spec_length_sq()).is_lt(
            &o.radius(world).add_spec(me.radius(world)),
        ),
    ensures
        me.overlaps(world, o),
        me.collided(world, others.push(o)) == me.collided(world, others).bounced_off(world, o),
        me.stuck(world, others.push(o)) == me.stuck(world, others).stuck_to(o),
{
    assert(others.push(o).drop_last() =~= others);
    lemma_collisions_keep_place(world, me, others);
}

/// Collisions change the velocity only: position and mass stay, and with
/// them the answer to whether two bodies overlap.
pub proof fn lemma_collisions_keep_place<S: Scalar, R: Fn(S) -> S>(
    world: World<S, R>,
    me: Body<S>,
    others: Seq<Body<S>>,
)
    ensures
        me.collided(world, others).position == me.position,
        me.collided(world, others).mass == me.mass,
        me.stuck(world, others).position == me.position,
        me.stuck(world, others).mass == me.mass,
    decreases others.len(),
{
    if others.len() > 0 {
        lemma_collisions_keep_place(world, me, others.drop_last());
    }
}

/// A step changes no mass.
pub proof fn lemma_step_keeps_mass<S: Scalar, R: Fn(S) -> S>(
    world: World<S, R>,
    snapshot: Seq<Body<S>>,
    i: int,
    dt: S,
)
    ensures
        stepped(world, snapshot, i, dt).mass == snapshot[i].mass,
{
    let others = snapshot.remove(i);
    lemma_collisions_keep_place(world, snapshot[i].pulled(world, others, dt), others);
}

/// A body that is alone feels nothing: the force on it is the zero vector and
/// it collides with nobody, so the force pass gives it the velocity
/// `velocity + (0, 0) / mass * dt`.
pub proof fn lemma_lone_body_feels_nothing<S: Scalar, R: Fn(S) -> S>(
    world: World<S, R>,
    snapshot: Seq<Body<S>>,
    dt: S,
)
    requires
        snapshot.len() == 1,
    ensures
        snapshot[0].force_sum(world, snapshot.remove(0)) == world.spec_origin(),
        snapshot[0].forced(world, snapshot.remove(0), dt) == (Body {
            velocity: snapshot[0].velocity.spec_plus(
                world.spec_origin().spec_over(snapshot[0].mass).spec_times(dt),
            ),
            ..snapshot[0]
        }),
{
    assert(snapshot.remove(0).len() == 0);
}

/// A body that is alone, at rest and inside the world stays as it is, for
/// every `dt` with which the scalar's zero behaves as zero: `0 / mass` and
/// `0 * dt` are 0, and adding 0 changes neither 0 nor the body's coordinates.
pub proof fn lemma_lone_body_at_rest_stays<S: Scalar, R: Fn(S) -> S>(
    world: World<S, R>,
    snapshot: Seq<Body<S>>,
    dt: S,
)
    requires
        snapshot.len() == 1,
        snapshot[0].velocity == world.spec_origin(),
        !snapshot[0].is_out_border(world),
        world.zero.div_spec(snapshot[0].mass) == world.zero,
        world.zero.mul_spec(dt) == world.zero,
        world.zero.add_spec(world.zero) == world.zero,
        snapshot[0].position.x.add_spec(world.zero) == snapshot[0].position.x,
        snapshot[0].position.y.add_spec(world.zero) == snapshot[0].position.y,
    ensures
        stepped(world, snapshot, 0, dt) == snapshot[0],
{
    lemma_lone_body_feels_nothing(world, snapshot, dt);
}

} // verus!
