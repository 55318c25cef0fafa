//! The step driver: one advance of the whole world by a time delta.
//!
//! A step has two phases. In the first every body gets a new velocity, worked
//! out from the bodies as they were when the step began; in the second every
//! body gets a new position, worked out from its own new velocity. No body
//! ever sees a neighbour that this step has already touched.

use vstd::prelude::*;
use crate::object::{all_have_mass, bodies, Body, Object};
use crate::scalar::Scalar;
use crate::world::World;

verus! {

/// Body `i` of `snapshot` after one step of length `dt`: forced by all the
/// other bodies of the snapshot, then positioned.
pub open spec fn stepped<S: Scalar, R: Fn(S) -> S>(
    world: World<S, R>,
    snapshot: Seq<Body<S>>,
    i: int,
    dt: S,
) -> Body<S> {
    snapshot[i].forced(world, snapshot.remove(i), dt).positioned(world, dt)
}

/// Body `i` of `snapshot` can be stepped: its force pass can be computed, and
/// the position pass on what the force pass gives.
pub open spec fn can_be_stepped<S: Scalar, R: Fn(S) -> S>(
    world: World<S, R>,
    snapshot: Seq<Body<S>>,
    i: int,
    dt: S,
) -> bool {
    &&& snapshot[i].can_be_forced(world, snapshot.remove(i), dt)
    &&& snapshot[i].forced(world, snapshot.remove(i), dt).can_be_positioned(world, dt)
}

/// Every body of `snapshot` can be stepped.
pub open spec fn can_step<S: Scalar, R: Fn(S) -> S>(
    world: World<S, R>,
    snapshot: Seq<Body<S>>,
    dt: S,
) -> bool {
    forall|i: int| 0 <= i < snapshot.len() ==> #[trigger] can_be_stepped(world, snapshot, i, dt)
}

/// The objects that object `i` interacts with: all of `objects` but the one
/// at index `i`, in their order.
pub fn others<S: Copy>(objects: &Vec<Object<S>>, i: usize) -> (other: Vec<Object<S>>)
    requires
        i < objects.len(),
    ensures
        other@ == objects@.remove(i as int),
{
    let mut other: Vec<Object<S>> = Vec::new();
    let mut j: usize = 0;
    while j < objects.len()
        invariant
            i < objects.len(),
            j <= objects.len(),
            j <= i ==> other@ == objects@.subrange(0, j as int),
            j > i ==> other@ == objects@.subrange(0, j as int).remove(i as int),
        decreases objects.len() - j,
    {
        if j != i {
            other.push(objects[j]);
        }
        j += 1;
    }
    other
}

/// Advance every object by `dt`.
///
/// First each object's velocity is renewed by gravity and collision, both
/// reading the other objects as they were before the step. Only when all
/// velocities are renewed is each object moved and, where it has left the
/// world, mirrored back.
pub fn perform<S: Scalar, R: Fn(S) -> S>(objects: &mut Vec<Object<S>>, dt: S, world: &World<S, R>)
    requires
        world.safe(can_step(*world, bodies(old(objects)@), dt)),
        all_have_mass(*world, bodies(old(objects)@)),
    ensures
        final(objects)@.len() == old(objects)@.len(),
        forall|i: int|
            0 <= i < old(objects)@.len() ==> (#[trigger] final(objects)@[i])@.mass == old(
                objects,
            )@[i]@.mass,
        all_have_mass(*world, bodies(final(objects)@)),
        world.exact() ==> forall|i: int|
            0 <= i < old(objects)@.len() ==> (#[trigger] final(objects)@[i])@ == stepped(
                *world,
                bodies(old(objects)@),
                i,
                dt,
            ),
{
    let ghost snapshot = objects@;
    let n = objects.len();
    let mut forced: Vec<Object<S>> = Vec::new();
    let mut i: usize = 0;
    while i < n
        invariant
            objects@ == snapshot,
            n == snapshot.len(),
            i <= n,
            forced@.len() == i,
            world.safe(can_step(*world, bodies(snapshot), dt)),
            all_have_mass(*world, bodies(snapshot)),
            forall|k: int|
                0 <= k < i ==> {
                    &&& (#[trigger] forced@[k])@.position == snapshot[k]@.position
                    &&& forced@[k]@.mass == snapshot[k]@.mass
                },
            world.exact() ==> forall|k: int|
                0 <= k < i ==> (#[trigger] forced@[k])@ == bodies(snapshot)[k].forced(
                    *world,
                    bodies(snapshot).remove(k),
                    dt,
                ),
        decreases n - i,
    {
        let other = others(objects, i);
        assert(bodies(other@) =~= bodies(snapshot).remove(i as int));
        assert(bodies(snapshot)[i as int].has_mass(*world));
        assert(can_step(*world, bodies(snapshot), dt) ==> can_be_stepped(
            *world,
            bodies(snapshot),
            i as int,
            dt,
        ));
        let mut o = objects[i];
        o.perform_force(other, dt, world);
        forced.push(o);
        i += 1;
    }
    let mut k: usize = 0;
    while k < n
        invariant
            objects@.len() == n,
            n == snapshot.len(),
            k <= n,
            forced@.len() == n,
            world.safe(can_step(*world, bodies(snapshot), dt)),
            all_have_mass(*world, bodies(snapshot)),
            forall|j: int|
                0 <= j < n ==> {
                    &&& (#[trigger] forced@[j])@.position == snapshot[j]@.position
                    &&& forced@[j]@.mass == snapshot[j]@.mass
                },
            world.exact() ==> forall|j: int|
                0 <= j < n ==> (#[trigger] forced@[j])@ == bodies(snapshot)[j].forced(
                    *world,
                    bodies(snapshot).remove(j),
                    dt,
                ),
            forall|j: int| 0 <= j < k ==> (#[trigger] objects@[j])@.mass == snapshot[j]@.mass,
            world.exact() ==> forall|j: int|
                0 <= j < k ==> (#[trigger] objects@[j])@ == stepped(
                    *world,
                    bodies(snapshot),
                    j,
                    dt,
                ),
        decreases n - k,
    {
        assert(can_step(*world, bodies(snapshot), dt) ==> can_be_stepped(
            *world,
            bodies(snapshot),
            k as int,
            dt,
        ));
        let mut o = forced[k];
        o.perform_position(dt, world);
        objects.set(k, o);
        k += 1;
    }
    assert forall|j: int| 0 <= j < n implies (#[trigger] bodies(objects@)[j]).has_mass(
        *world,
    ) by {
        assert(objects@[j]@.mass == snapshot[j]@.mass);
        assert(bodies(snapshot)[j].has_mass(*world));
    }
}

} // verus!
