//! How the bodies are to be drawn: one circle per body, with its size, its
//! colours and the place of its top-left corner.
//!
//! Nothing here draws. A [`Shape`] is plain data that a renderer turns into
//! whatever its screen wants.

use vstd::prelude::*;
use vstd::std_specs::ops::SubSpec;
use crate::object::{Body, Object};
use crate::scalar::Scalar;
use crate::vector::Vector2;
use crate::world::World;

verus! {

/// The colours a shape can be filled or outlined with.
#[derive(Clone, Copy, Debug, PartialEq, Eq, Structural)]
pub enum Color {
    Red,
    Blue,
    Green,
    Yellow,
    Cyan,
    Magenta,
}

/// The circle that stands for one body.
#[derive(Debug, PartialEq)]
pub struct Shape<S> {
    /// Radius of the circle.
    pub radius: S,
    /// Number of corners of the polygon that is drawn for the circle.
    pub point_count: usize,
    /// Colour of the disc.
    pub fill_color: Color,
    /// Colour of the ring around the disc.
    pub outline_color: Color,
    /// Width of the ring.
    pub outline_thickness: u32,
    /// Top-left corner of the square around the circle.
    pub position: Vector2<S>,
}

impl<S: Copy> Clone for Shape<S> {
    fn clone(&self) -> (s: Self)
        ensures
            s == *self,
    {
        *self
    }
}

impl<S: Copy> Copy for Shape<S> {

}

/// The colours in the order in which bodies take them.
pub open spec fn palette() -> Seq<Color> {
    seq![Color::Red, Color::Blue, Color::Green, Color::Yellow, Color::Cyan, Color::Magenta]
}

/// The shape of the body at index `i`, given its radius and its place. Fill
/// colours go round the whole palette; outline colours go round the palette
/// without its first entry.
pub open spec fn styled<S>(i: int, radius: S, position: Vector2<S>) -> Shape<S> {
    Shape {
        radius,
        point_count: 10,
        fill_color: palette()[i % 6],
        outline_color: palette()[i % 5 + 1],
        outline_thickness: 3,
        position,
    }
}

/// Where the shape of `body` belongs: left of and above the body's centre by
/// one radius, so that the circle is centred on the body.
pub open spec fn top_left<S: Scalar, R: Fn(S) -> S>(world: World<S, R>, body: Body<S>) -> Vector2<
    S,
> {
    Vector2 {
        x: body.position.x.sub_spec(body.radius(world)),
        y: body.position.y.sub_spec(body.radius(world)),
    }
}

/// The place of the shape of `body` can be computed.
pub open spec fn can_top_left<S: Scalar, R: Fn(S) -> S>(world: World<S, R>, body: Body<S>) -> bool {
    &&& body.can_radius(world)
    &&& body.position.x.sub_req(body.radius(world))
    &&& body.position.y.sub_req(body.radius(world))
}

/// The colours, in the order in which the shapes take them.
pub fn color_list() -> (list: Vec<Color>)
    ensures
        list@ == palette(),
{
    let list = vec![
        Color::Red,
        Color::Blue,
        Color::Green,
        Color::Yellow,
        Color::Cyan,
        Color::Magenta,
    ];
    assert(list@ =~= palette());
    list
}

/// One shape per object, in the order of the objects: sized by the object,
/// coloured by its index, and not yet placed.
pub fn create_shapes_from_objects<S: Scalar, R: Fn(S) -> S>(
    objects: &Vec<Object<S>>,
    world: &World<S, R>,
) -> (shapes: Vec<Shape<S>>)
    requires
        world.safe(
            forall|i: int| 0 <= i < objects@.len() ==> (#[trigger] objects@[i])@.can_radius(*world),
        ),
    ensures
        shapes@.len() == objects@.len(),
        forall|i: int|
            0 <= i < shapes@.len() ==> #[trigger] shapes@[i] == styled(
                i,
                shapes@[i].radius,
                world.spec_origin(),
            ),
        world.exact() ==> forall|i: int|
            0 <= i < shapes@.len() ==> (#[trigger] shapes@[i]).radius == objects@[i]@.radius(
                *world,
            ),
{
    let colors = color_list();
    let mut shapes: Vec<Shape<S>> = Vec::new();
    let mut i: usize = 0;
    while i < objects.len()
        invariant
            i <= objects.len(),
            world.safe(
                forall|i: int|
                    0 <= i < objects@.len() ==> (#[trigger] objects@[i])@.can_radius(*world),
            ),
            colors@ == palette(),
            shapes@.len() == i,
            forall|k: int|
                0 <= k < i ==> #[trigger] shapes@[k] == styled(
                    k,
                    shapes@[k].radius,
                    world.spec_origin(),
                ),
            world.exact() ==> forall|k: int|
                0 <= k < i ==> (#[trigger] shapes@[k]).radius == objects@[k]@.radius(*world),
        decreases objects.len() - i,
    {
        let o = &objects[i];
        shapes.push(
            Shape {
                radius: o.radius(world),
                point_count: 10,
                fill_color: colors[i % 6],
                outline_color: colors[i % 5 + 1],
                outline_thickness: 3,
                position: world.origin(),
            },
        );
        i += 1;
    }
    shapes
}

/// Put each shape where its object is. Shape `i` belongs to object `i`, so
/// there must be as many shapes as objects.
pub fn set_shape_state<S: Scalar, R: Fn(S) -> S>(
    objects: &Vec<Object<S>>,
    shapes: &mut Vec<Shape<S>>,
    world: &World<S, R>,
)
    requires
        objects@.len() == old(shapes)@.len(),
        world.safe(
            forall|i: int| 0 <= i < objects@.len() ==> can_top_left(*world, (#[trigger] objects@[i])@),
        ),
    ensures
        final(shapes)@.len() == old(shapes)@.len(),
        forall|i: int|
            0 <= i < old(shapes)@.len() ==> #[trigger] final(shapes)@[i] == (Shape {
                position: final(shapes)@[i].position,
                ..old(shapes)@[i]
            }),
        world.exact() ==> forall|i: int|
            0 <= i < old(shapes)@.len() ==> (#[trigger] final(shapes)@[i]).position == top_left(
                *world,
                objects@[i]@,
            ),
{
    let mut i: usize = 0;
    while i < objects.len()
        invariant
            i <= objects.len(),
            world.safe(
                forall|i: int|
                    0 <= i < objects@.len() ==> can_top_left(*world, (#[trigger] objects@[i])@),
            ),
            objects@.len() == shapes@.len(),
            shapes@.len() == old(shapes)@.len(),
            forall|k: int|
                0 <= k < i ==> #[trigger] shapes@[k] == (Shape {
                    position: shapes@[k].position,
                    ..old(shapes)@[k]
                }),
            forall|k: int| i <= k < shapes@.len() ==> #[trigger] shapes@[k] == old(shapes)@[k],
            world.exact() ==> forall|k: int|
                0 <= k < i ==> (#[trigger] shapes@[k]).position == top_left(*world, objects@[k]@),
        decreases objects.len() - i,
    {
        let object = &objects[i];
        let mut pos = object.position();
        pos.x = pos.x - object.radius(world);  // Make it to central
        pos.y = pos.y - object.radius(world);
        let mut shape = shapes[i];
        shape.position = pos;
        shapes.set(i, shape);
        i += 1;
    }
}

} // verus!
