use render_harness::fractal::{palette, render, MAX_DEPTH};
use render_harness::geometry::{Color, Point, Triangle};
use render_harness::surface::{DrawCommand, Surface};

fn big() -> Triangle {
    Triangle::new(Point::new(300, 0), Point::new(0, 600), Point::new(600, 600))
}

fn fills(surface: &Surface) -> Vec<(Triangle, Color)> {
    surface
        .commands()
        .iter()
        .map(|c| match c {
            DrawCommand::FillTriangle { triangle, color } => (*triangle, *color),
            other => panic!("not a fill: {:?}", other),
        })
        .collect()
}

#[test]
fn depth_zero_draws_the_triangle_itself() {
    let mut surface = Surface::new();
    let color = Color::new(1, 2, 3);
    render(&mut surface, big(), color, 0);
    assert_eq!(fills(&surface), vec![(big(), color)]);
}

#[test]
fn depth_one_draws_the_three_corner_triangles() {
    let mut surface = Surface::new();
    render(&mut surface, big(), Color::new(1, 2, 3), 1);
    let shade = palette(1);
    let ab = Point::new(150, 300);
    let ac = Point::new(450, 300);
    let bc = Point::new(300, 600);
    assert_eq!(
        fills(&surface),
        vec![
            (Triangle::new(Point::new(300, 0), ab, ac), shade),
            (Triangle::new(ab, Point::new(0, 600), bc), shade),
            (Triangle::new(ac, bc, Point::new(600, 600)), shade),
        ]
    );
}

#[test]
fn fill_count_is_a_power_of_three() {
    for (depth, count) in [(0u8, 1usize), (1, 3), (2, 9), (3, 27), (4, 81), (7, 2187)] {
        let mut surface = Surface::new();
        render(&mut surface, big(), Color::new(9, 9, 9), depth);
        assert_eq!(surface.len(), count);
        assert_eq!(fills(&surface).len(), count);
    }
}

#[test]
fn leaves_take_the_palette_colour_of_the_last_subdivision() {
    let mut surface = Surface::new();
    render(&mut surface, big(), Color::new(9, 9, 9), 3);
    for (_, color) in fills(&surface) {
        assert_eq!(color, palette(1));
    }
}

#[test]
fn render_appends_to_what_was_drawn() {
    let mut surface = Surface::new();
    surface.clear_region(0, 0, 600, 600);
    render(&mut surface, big(), Color::new(0, 0, 0), 2);
    assert_eq!(surface.len(), 10);
    assert_eq!(surface.commands()[0], DrawCommand::ClearRegion { x: 0, y: 0, w: 600, h: 600 });
}

#[test]
fn palette_cycles_through_three_colours() {
    assert_eq!(palette(0), Color::new(0, 255, 0));
    assert_eq!(palette(1), Color::new(255, 0, 0));
    assert_eq!(palette(2), Color::new(0, 0, 255));
    assert_eq!(palette(3), palette(0));
    assert_eq!(palette(MAX_DEPTH), palette(0));
    assert_eq!(palette(255), palette(0));
}

#[test]
fn midpoints_round_down() {
    assert_eq!(Point::new(0, 0).midpoint(Point::new(4, 6)), Point::new(2, 3));
    assert_eq!(Point::new(0, 0).midpoint(Point::new(1, 3)), Point::new(0, 1));
    assert_eq!(Point::new(0, 0).midpoint(Point::new(-1, -3)), Point::new(-1, -2));
    assert_eq!(Point::new(-5, 7).midpoint(Point::new(-2, -8)), Point::new(-4, -1));
    assert_eq!(Point::new(3, 3).midpoint(Point::new(3, 3)), Point::new(3, 3));
}

#[test]
fn midpoints_of_extreme_coordinates() {
    assert_eq!(
        Point::new(i32::MAX, i32::MIN).midpoint(Point::new(i32::MAX, i32::MIN)),
        Point::new(i32::MAX, i32::MIN)
    );
    assert_eq!(
        Point::new(i32::MIN, i32::MAX).midpoint(Point::new(i32::MAX, i32::MIN)),
        Point::new(-1, -1)
    );
    assert_eq!(
        Point::new(i32::MAX, 0).midpoint(Point::new(i32::MAX - 1, -1)),
        Point::new(i32::MAX - 1, -1)
    );
}

#[test]
fn surface_records_in_order_and_drains() {
    let mut surface = Surface::new();
    assert_eq!(surface.len(), 0);
    surface.fill_triangle(big(), Color::new(1, 1, 1));
    surface.clear_region(1, 2, 3, 4);
    assert_eq!(
        surface.commands(),
        &vec![
            DrawCommand::FillTriangle { triangle: big(), color: Color::new(1, 1, 1) },
            DrawCommand::ClearRegion { x: 1, y: 2, w: 3, h: 4 },
        ]
    );
    let list = surface.drain();
    assert_eq!(list.len(), 2);
    assert_eq!(surface.len(), 0);
    assert!(surface.drain().is_empty());
}
