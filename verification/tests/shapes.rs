use minephysics::object::Object;
use minephysics::render::{color_list, create_shapes_from_objects, set_shape_state, Color, Shape};
use minephysics::vector::Vector2;
use minephysics::world::World;

/// A square world of side 2000 with the usual constants.
fn standard_world() -> World<f32, fn(f32) -> f32> {
    World {
        gravitational_constant: 10.0,
        border_left: 0.0,
        border_right: 2000.0,
        border_up: 0.0,
        border_down: 2000.0,
        mirror_damping: 0.9,
        radius_scale: std::f32::consts::PI,
        zero: 0.0,
        two: 2.0,
        sqrt: f32::sqrt,
    }
}

fn row_of_objects(count: usize) -> Vec<Object<f32>> {
    let mut objects = Vec::new();
    for i in 0..count {
        objects.push(Object::new((100.0 * i as f32, 50.0), (0.0, 0.0), (i + 1) as f32));
    }
    objects
}

#[test]
fn color_list_has_six_colors_in_order() {
    assert_eq!(
        color_list(),
        vec![Color::Red, Color::Blue, Color::Green, Color::Yellow, Color::Cyan, Color::Magenta]
    );
}

#[test]
fn shapes_take_colors_by_index() {
    let shapes = create_shapes_from_objects(&row_of_objects(10), &standard_world());
    let fills: Vec<Color> = shapes.iter().map(|s| s.fill_color).collect();
    let outlines: Vec<Color> = shapes.iter().map(|s| s.outline_color).collect();
    assert_eq!(
        fills,
        vec![
            Color::Red,
            Color::Blue,
            Color::Green,
            Color::Yellow,
            Color::Cyan,
            Color::Magenta,
            Color::Red,
            Color::Blue,
            Color::Green,
            Color::Yellow,
        ]
    );
    assert_eq!(
        outlines,
        vec![
            Color::Blue,
            Color::Green,
            Color::Yellow,
            Color::Cyan,
            Color::Magenta,
            Color::Blue,
            Color::Green,
            Color::Yellow,
            Color::Cyan,
            Color::Magenta,
        ]
    );
}

#[test]
fn shape_colors_repeat_every_thirty() {
    let shapes = create_shapes_from_objects(&row_of_objects(61), &standard_world());
    let colors = color_list();
    for (i, s) in shapes.iter().enumerate() {
        assert_eq!(s.fill_color, colors[i % 6]);
        assert_eq!(s.outline_color, colors[i % 5 + 1]);
        assert_ne!(s.outline_color, Color::Red);
        if i >= 30 {
            assert_eq!(s.fill_color, shapes[i - 30].fill_color);
            assert_eq!(s.outline_color, shapes[i - 30].outline_color);
        }
    }
    assert_eq!(shapes[25].fill_color, Color::Blue);
    assert_eq!(shapes[25].outline_color, Color::Blue);
}

#[test]
fn shapes_are_sized_by_their_objects() {
    let objects = row_of_objects(4);
    let world = standard_world();
    let shapes = create_shapes_from_objects(&objects, &world);
    assert_eq!(shapes.len(), 4);
    for (o, s) in objects.iter().zip(shapes.iter()) {
        assert_eq!(s.radius, o.radius(&world));
        assert_eq!(s.point_count, 10);
        assert_eq!(s.outline_thickness, 3);
        assert_eq!(s.position, Vector2::new(0.0, 0.0));
    }
    assert_eq!(shapes[3].radius, 2.0 * std::f32::consts::PI);
}

#[test]
fn no_objects_no_shapes() {
    let shapes = create_shapes_from_objects(&row_of_objects(0), &standard_world());
    assert!(shapes.is_empty());
    let mut shapes = shapes;
    set_shape_state(&row_of_objects(0), &mut shapes, &standard_world());
    assert!(shapes.is_empty());
}

#[test]
fn shape_state_centers_the_circle_on_the_object() {
    let objects = row_of_objects(4);
    let world = standard_world();
    let mut shapes = create_shapes_from_objects(&objects, &world);
    let before = shapes.clone();
    set_shape_state(&objects, &mut shapes, &world);
    assert_eq!(shapes.len(), 4);
    for i in 0..4 {
        let r = objects[i].radius(&world);
        assert_eq!(shapes[i].position, Vector2::new(100.0 * i as f32 - r, 50.0 - r));
        assert_eq!(shapes[i], Shape { position: shapes[i].position, ..before[i] });
    }
    assert_eq!(
        shapes[3].position,
        Vector2::new(300.0 - 2.0 * std::f32::consts::PI, 50.0 - 2.0 * std::f32::consts::PI)
    );
}

#[test]
fn shape_state_follows_the_objects() {
    let world = standard_world();
    let mut objects: Vec<Object<f32>> = vec![Object::new((0.0, 0.0), (5.0, 0.0), 1.0)];
    let mut shapes = create_shapes_from_objects(&objects, &world);
    set_shape_state(&objects, &mut shapes, &world);
    let r = objects[0].radius(&world);
    assert_eq!(shapes[0].position, Vector2::new(-r, -r));
    minephysics::step::perform(&mut objects, 2.0, &world);
    set_shape_state(&objects, &mut shapes, &world);
    assert_eq!(shapes[0].position, Vector2::new(10.0 - r, -r));
    assert_eq!(shapes[0].radius, r);
    assert_eq!(shapes[0].fill_color, Color::Red);
}
