use agar_io::geometry::{overlap, Coordinates, Viewport};

fn point(x: u32, y: u32) -> Coordinates {
    Coordinates { x, y }
}

#[test]
fn dot_rectangle_adds_the_margin_on_the_max_side() {
    let rect = Viewport::for_dots(point(1000, 2000), point(1000, 600));
    assert_eq!(rect, Viewport { min_x: 600, max_x: 1600, min_y: 1800, max_y: 2400 });
}

#[test]
fn dot_rectangle_halves_an_odd_viewport_downwards() {
    let rect = Viewport::for_dots(point(1000, 1000), point(1001, 999));
    assert_eq!(rect, Viewport { min_x: 600, max_x: 1600, min_y: 601, max_y: 1599 });
}

#[test]
fn dot_rectangle_clamps_to_zero() {
    let rect = Viewport::for_dots(point(0, 0), point(1000, 1000));
    assert_eq!(rect, Viewport { min_x: 0, max_x: 600, min_y: 0, max_y: 600 });
    let rect = Viewport::for_dots(point(399, 400), point(1000, 1000));
    assert_eq!(rect, Viewport { min_x: 0, max_x: 999, min_y: 0, max_y: 1000 });
    let rect = Viewport::for_dots(point(401, 450), point(1000, 1000));
    assert_eq!(rect, Viewport { min_x: 1, max_x: 1001, min_y: 50, max_y: 1050 });
    let rect = Viewport::for_dots(point(0, 0), point(u32::MAX, u32::MAX));
    assert_eq!(rect, Viewport { min_x: 0, max_x: 2147483747, min_y: 0, max_y: 2147483747 });
}

#[test]
fn dot_rectangle_of_an_empty_viewport() {
    let rect = Viewport::for_dots(point(50, 60), point(0, 0));
    assert_eq!(rect, Viewport { min_x: 150, max_x: 150, min_y: 160, max_y: 160 });
    assert!(!rect.contains_dot(point(150, 160)));
}

#[test]
fn dot_rectangle_at_the_end_of_the_number_range() {
    let rect = Viewport::for_dots(point(u32::MAX, u32::MAX), point(u32::MAX, 0));
    assert_eq!(
        rect,
        Viewport { min_x: 2147483748, max_x: 6442451042, min_y: 4294967395, max_y: 4294967395 }
    );
}

#[test]
fn player_rectangle_has_no_margin() {
    let rect = Viewport::for_players(point(1000, 2000), point(1000, 600));
    assert_eq!(rect, Viewport { min_x: 500, max_x: 1500, min_y: 1700, max_y: 2300 });
}

#[test]
fn player_rectangle_clamps_to_zero() {
    let rect = Viewport::for_players(point(100, 499), point(1000, 1000));
    assert_eq!(rect, Viewport { min_x: 0, max_x: 600, min_y: 0, max_y: 999 });
    let rect = Viewport::for_players(point(500, 501), point(1000, 1000));
    assert_eq!(rect, Viewport { min_x: 0, max_x: 1000, min_y: 1, max_y: 1001 });
    let rect = Viewport::for_players(point(u32::MAX, 0), point(u32::MAX, u32::MAX));
    assert_eq!(rect, Viewport { min_x: 2147483648, max_x: 6442450942, min_y: 0, max_y: 2147483647 });
}

#[test]
fn dot_is_inside_from_the_min_side_up_to_below_the_max_side() {
    let rect = Viewport { min_x: 100, max_x: 200, min_y: 300, max_y: 400 };
    assert!(rect.contains_dot(point(100, 300)));
    assert!(!rect.contains_dot(point(99, 300)));
    assert!(!rect.contains_dot(point(100, 299)));
    assert!(rect.contains_dot(point(189, 389)));
    assert!(!rect.contains_dot(point(190, 389)));
    assert!(!rect.contains_dot(point(189, 390)));
    let wide = Viewport { min_x: 0, max_x: u64::MAX, min_y: 0, max_y: u64::MAX };
    assert!(wide.contains_dot(point(u32::MAX, u32::MAX)));
}

#[test]
fn square_meets_the_rectangle_when_it_reaches_the_min_side() {
    let rect = Viewport { min_x: 100, max_x: 200, min_y: 300, max_y: 400 };
    assert!(rect.intersects(point(90, 350), 10));
    assert!(!rect.intersects(point(90, 350), 9));
    assert!(rect.intersects(point(199, 350), 0));
    assert!(!rect.intersects(point(200, 350), 50));
    assert!(rect.intersects(point(150, 290), 10));
    assert!(!rect.intersects(point(150, 289), 10));
    assert!(rect.intersects(point(150, 399), 1));
    assert!(!rect.intersects(point(150, 400), 1));
    assert!(rect.intersects(point(0, 0), u32::MAX));
}

#[test]
fn translation_is_relative_to_the_min_corner() {
    let rect = Viewport { min_x: 100, max_x: 200, min_y: 300, max_y: 400 };
    assert_eq!(rect.translate(point(100, 300)), point(0, 0));
    assert_eq!(rect.translate(point(150, 1300)), point(50, 1000));
    let origin = Viewport { min_x: 0, max_x: 1, min_y: 0, max_y: 1 };
    assert_eq!(origin.translate(point(u32::MAX, 7)), point(u32::MAX, 7));
}

#[test]
fn squares_overlap_only_with_an_area_in_common() {
    assert!(overlap(point(0, 0), 10, point(9, 9), 10));
    assert!(!overlap(point(0, 0), 10, point(10, 0), 10));
    assert!(!overlap(point(0, 0), 10, point(0, 10), 10));
    assert!(overlap(point(10, 10), 10, point(1, 1), 10));
    assert!(!overlap(point(10, 10), 10, point(0, 0), 10));
    assert!(overlap(point(5, 5), 1, point(0, 0), 10));
    assert!(overlap(point(0, 0), 10, point(5, 5), 1));
    assert!(!overlap(point(5, 5), 0, point(5, 5), 0));
    assert!(overlap(point(u32::MAX, u32::MAX), u32::MAX, point(u32::MAX, u32::MAX), 1));
    assert!(!overlap(point(0, 0), u32::MAX, point(u32::MAX, 0), u32::MAX));
}

#[test]
fn checked_move_reports_what_does_not_fit() {
    assert_eq!(point(1, 2).checked_move(point(3, 4)), Some(point(4, 6)));
    assert_eq!(point(u32::MAX - 1, 0).checked_move(point(1, u32::MAX)), Some(point(u32::MAX, u32::MAX)));
    assert_eq!(point(u32::MAX, 0).checked_move(point(1, 0)), None);
    assert_eq!(point(0, u32::MAX).checked_move(point(0, 1)), None);
}
