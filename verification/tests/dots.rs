use std::collections::HashMap;

use agar_io::consts::MAX_DOTS_AMOUNT;
use agar_io::dots::{DeleteDots, Dots, GetDots};
use agar_io::geometry::Coordinates;
use uuid::Uuid;

fn dot_id(text: &str) -> u128 {
    u128::from_be_bytes(*Uuid::parse_str(text).unwrap().as_bytes())
}

fn twelve_dots() -> HashMap<u128, Coordinates> {
    vec![
        (dot_id("f9168c5e-ceb2-4faa-b6bf-329bf39fa1e4"), Coordinates { x: 0, y: 0 }),
        (dot_id("e0183a5f-92af-4379-8d8d-cfd729d77d59"), Coordinates { x: 100, y: 0 }),
        (dot_id("20066e7c-5dec-434f-97d1-663de407b05e"), Coordinates { x: 200, y: 0 }),
        (dot_id("a0e3c51b-23a5-4809-b635-3eb6b3b1f794"), Coordinates { x: 0, y: 100 }),
        (dot_id("77d40cd1-be99-44d2-9bcf-7450f736fdba"), Coordinates { x: 0, y: 200 }),
        (dot_id("be196b9b-6a85-4ba3-b7ac-c1dd02d6178a"), Coordinates { x: 0, y: 900 }),
        (dot_id("018f87db-b89d-40f1-ab21-c1ba584fbca3"), Coordinates { x: 100, y: 900 }),
        (dot_id("ffe016bf-a99e-470f-aaab-1c5f1eb1c04b"), Coordinates { x: 200, y: 900 }),
        (dot_id("1f4c367c-f35f-4eda-8cb1-c4494fb542ab"), Coordinates { x: 900, y: 0 }),
        (dot_id("1ff42309-6266-470a-9e4d-09babbc715f3"), Coordinates { x: 900, y: 100 }),
        (dot_id("04679508-e52e-4038-8c45-9550e193265e"), Coordinates { x: 900, y: 200 }),
        (dot_id("9bea8e0c-5d0a-4018-be7d-2ae9af088a0c"), Coordinates { x: 900, y: 900 }),
    ]
    .into_iter()
    .collect()
}

fn field_of_twelve() -> Dots {
    let mut field = Dots::default();
    assert!(field.add_dots(&twelve_dots()));
    field
}

fn query(x: u32, y: u32) -> GetDots {
    GetDots {
        id: dot_id("78a40100-4dc3-46e4-8a91-00e0316586e4"),
        coordinates: Coordinates { x, y },
        viewport_size: Coordinates { x: 1000, y: 1000 },
    }
}

#[test]
fn test_dots_actor_get_dots() {
    let field = field_of_twelve();
    assert_eq!(field.len(), 12);
    assert_eq!(field.dots_count(), 12);
    assert_eq!(field.max_dots_amount(), MAX_DOTS_AMOUNT);

    let result = field.get_dots(query(0, 0));
    let dots_id = vec![
        "f9168c5e-ceb2-4faa-b6bf-329bf39fa1e4",
        "e0183a5f-92af-4379-8d8d-cfd729d77d59",
        "20066e7c-5dec-434f-97d1-663de407b05e",
        "a0e3c51b-23a5-4809-b635-3eb6b3b1f794",
        "77d40cd1-be99-44d2-9bcf-7450f736fdba",
    ];
    assert_eq!(result.dots.len(), 5);
    for id in dots_id {
        assert_eq!(result.dots.contains_key(&dot_id(id)), true);
    }

    let result = field.get_dots(query(1000, 1000));
    let dots_id = vec!["9bea8e0c-5d0a-4018-be7d-2ae9af088a0c"];
    assert_eq!(result.dots.len(), 1);
    for id in dots_id {
        assert_eq!(result.dots.contains_key(&dot_id(id)), true);
    }

    let result = field.get_dots(query(0, 600));
    let dots_id = vec![
        "77d40cd1-be99-44d2-9bcf-7450f736fdba",
        "be196b9b-6a85-4ba3-b7ac-c1dd02d6178a",
        "018f87db-b89d-40f1-ab21-c1ba584fbca3",
        "ffe016bf-a99e-470f-aaab-1c5f1eb1c04b",
    ];
    assert_eq!(result.dots.len(), 4);
    for id in dots_id {
        assert_eq!(result.dots.contains_key(&dot_id(id)), true);
    }
}

#[test]
fn test_dots_actor_delete_dots() {
    let mut field = field_of_twelve();
    assert_eq!(field.len(), 12);
    assert_eq!(field.dots_count(), 12);
    assert_eq!(field.max_dots_amount(), MAX_DOTS_AMOUNT);

    field.delete_dots(DeleteDots(vec![
        dot_id("f9168c5e-ceb2-4faa-b6bf-329bf39fa1e4"),
        dot_id("e0183a5f-92af-4379-8d8d-cfd729d77d59"),
        dot_id("20066e7c-5dec-434f-97d1-663de407b05e"),
        dot_id("a0e3c51b-23a5-4809-b635-3eb6b3b1f794"),
        dot_id("77d40cd1-be99-44d2-9bcf-7450f736fdba"),
    ]));
    assert_eq!(field.len(), 7);
    assert_eq!(field.dots_count(), 7);
}

#[test]
fn query_result_names_the_player_that_asked() {
    let field = field_of_twelve();
    let result = field.get_dots(query(0, 0));
    assert_eq!(result.player_id, dot_id("78a40100-4dc3-46e4-8a91-00e0316586e4"));
}

#[test]
fn visible_dots_are_relative_to_the_min_corner() {
    let field = field_of_twelve();

    // min corner (0, 0): the world coordinates themselves.
    let at_origin = field.find_viewport_dots(Coordinates { x: 1000, y: 1000 }, Coordinates { x: 0, y: 0 });
    let expected: HashMap<u128, Coordinates> = vec![
        (dot_id("f9168c5e-ceb2-4faa-b6bf-329bf39fa1e4"), Coordinates { x: 0, y: 0 }),
        (dot_id("e0183a5f-92af-4379-8d8d-cfd729d77d59"), Coordinates { x: 100, y: 0 }),
        (dot_id("20066e7c-5dec-434f-97d1-663de407b05e"), Coordinates { x: 200, y: 0 }),
        (dot_id("a0e3c51b-23a5-4809-b635-3eb6b3b1f794"), Coordinates { x: 0, y: 100 }),
        (dot_id("77d40cd1-be99-44d2-9bcf-7450f736fdba"), Coordinates { x: 0, y: 200 }),
    ]
    .into_iter()
    .collect();
    assert_eq!(at_origin, expected);

    // min corner (600, 600).
    let far = field.find_viewport_dots(Coordinates { x: 1000, y: 1000 }, Coordinates { x: 1000, y: 1000 });
    let expected: HashMap<u128, Coordinates> =
        vec![(dot_id("9bea8e0c-5d0a-4018-be7d-2ae9af088a0c"), Coordinates { x: 300, y: 300 })]
            .into_iter()
            .collect();
    assert_eq!(far, expected);

    // min corner (0, 200).
    let below = field.find_viewport_dots(Coordinates { x: 1000, y: 1000 }, Coordinates { x: 0, y: 600 });
    let expected: HashMap<u128, Coordinates> = vec![
        (dot_id("77d40cd1-be99-44d2-9bcf-7450f736fdba"), Coordinates { x: 0, y: 0 }),
        (dot_id("be196b9b-6a85-4ba3-b7ac-c1dd02d6178a"), Coordinates { x: 0, y: 700 }),
        (dot_id("018f87db-b89d-40f1-ab21-c1ba584fbca3"), Coordinates { x: 100, y: 700 }),
        (dot_id("ffe016bf-a99e-470f-aaab-1c5f1eb1c04b"), Coordinates { x: 200, y: 700 }),
    ]
    .into_iter()
    .collect();
    assert_eq!(below, expected);
}

#[test]
fn viewport_is_closed_on_the_min_side_and_open_on_the_max_side() {
    // Rectangle of the query: x in [600, 1600), y in [600, 1600).
    let dots: HashMap<u128, Coordinates> = vec![
        (1, Coordinates { x: 600, y: 600 }),
        (2, Coordinates { x: 599, y: 600 }),
        (3, Coordinates { x: 600, y: 599 }),
        (4, Coordinates { x: 1589, y: 1589 }),
        (5, Coordinates { x: 1590, y: 1589 }),
        (6, Coordinates { x: 1589, y: 1590 }),
    ]
    .into_iter()
    .collect();
    let mut field = Dots::new(10);
    assert!(field.add_dots(&dots));
    let seen = field.find_viewport_dots(Coordinates { x: 1000, y: 1000 }, Coordinates { x: 1000, y: 1000 });
    let expected: HashMap<u128, Coordinates> =
        vec![(1, Coordinates { x: 0, y: 0 }), (4, Coordinates { x: 989, y: 989 })].into_iter().collect();
    assert_eq!(seen, expected);
}

#[test]
fn query_near_the_end_of_the_number_range_does_not_overflow() {
    let dots: HashMap<u128, Coordinates> = vec![
        (1, Coordinates { x: u32::MAX, y: u32::MAX }),
        (2, Coordinates { x: u32::MAX - 10, y: u32::MAX - 10 }),
    ]
    .into_iter()
    .collect();
    let mut field = Dots::new(10);
    assert!(field.add_dots(&dots));
    // Rectangle: min = MAX - 2^31 + 1 + 100, max = MAX + 2^31 - 1 + 100.
    let seen = field.find_viewport_dots(
        Coordinates { x: u32::MAX, y: u32::MAX },
        Coordinates { x: u32::MAX, y: u32::MAX },
    );
    assert_eq!(seen.len(), 2);
    assert_eq!(seen[&1], Coordinates { x: 2147483547, y: 2147483547 });
    assert_eq!(seen[&2], Coordinates { x: 2147483537, y: 2147483537 });
}

#[test]
fn narrow_viewport_keeps_its_min_side_beyond_the_origin() {
    // Half the viewport is less than the margin: min = 500 - 10 + 100 = 590.
    let dots: HashMap<u128, Coordinates> = vec![
        (1, Coordinates { x: 589, y: 590 }),
        (2, Coordinates { x: 590, y: 590 }),
        (3, Coordinates { x: 599, y: 599 }),
        (4, Coordinates { x: 600, y: 599 }),
    ]
    .into_iter()
    .collect();
    let mut field = Dots::new(10);
    assert!(field.add_dots(&dots));
    let seen = field.find_viewport_dots(Coordinates { x: 20, y: 20 }, Coordinates { x: 500, y: 500 });
    let expected: HashMap<u128, Coordinates> =
        vec![(2, Coordinates { x: 0, y: 0 }), (3, Coordinates { x: 9, y: 9 })].into_iter().collect();
    assert_eq!(seen, expected);
}

#[test]
fn deleting_existing_dots_lowers_map_and_count_together() {
    let mut field = field_of_twelve();
    let gone = vec![
        dot_id("1f4c367c-f35f-4eda-8cb1-c4494fb542ab"),
        dot_id("1ff42309-6266-470a-9e4d-09babbc715f3"),
        dot_id("04679508-e52e-4038-8c45-9550e193265e"),
    ];
    field.delete_dots(DeleteDots(gone.clone()));
    assert_eq!(field.len(), 9);
    assert_eq!(field.dots_count(), 9);
    for id in gone {
        assert_eq!(field.get(id), None);
    }
    assert_eq!(
        field.get(dot_id("9bea8e0c-5d0a-4018-be7d-2ae9af088a0c")),
        Some(Coordinates { x: 900, y: 900 })
    );
    // The deleted dots are no longer visible either.
    let seen = field.find_viewport_dots(Coordinates { x: 1000, y: 1000 }, Coordinates { x: 900, y: 0 });
    assert_eq!(seen.len(), 0);
}

#[test]
fn deleting_unknown_or_repeated_dots_counts_once() {
    let mut field = field_of_twelve();
    field.delete_dots(DeleteDots(vec![dot_id("00000000-0000-0000-0000-000000000001")]));
    assert_eq!(field.len(), 12);
    assert_eq!(field.dots_count(), 12);

    let twice = dot_id("f9168c5e-ceb2-4faa-b6bf-329bf39fa1e4");
    field.delete_dots(DeleteDots(vec![twice, twice, dot_id("00000000-0000-0000-0000-000000000002")]));
    assert_eq!(field.len(), 11);
    assert_eq!(field.dots_count(), 11);

    field.delete_dots(DeleteDots(vec![twice]));
    assert_eq!(field.dots_count(), 11);

    field.delete_dots(DeleteDots(Vec::new()));
    assert_eq!(field.dots_count(), 11);
}

#[test]
fn new_field_is_empty() {
    let field = Dots::new(7);
    assert_eq!(field.len(), 0);
    assert_eq!(field.dots_count(), 0);
    assert_eq!(field.max_dots_amount(), 7);
    let field = Dots::default();
    assert_eq!(field.dots_count(), 0);
    assert_eq!(field.max_dots_amount(), 10_000);
}

#[test]
fn add_dots_keeps_the_dots_that_are_there() {
    let mut field = Dots::new(4);
    let first: HashMap<u128, Coordinates> =
        vec![(1, Coordinates { x: 1, y: 1 }), (2, Coordinates { x: 2, y: 2 })].into_iter().collect();
    assert!(field.add_dots(&first));
    let second: HashMap<u128, Coordinates> =
        vec![(2, Coordinates { x: 20, y: 20 }), (3, Coordinates { x: 3, y: 3 })].into_iter().collect();
    assert!(field.add_dots(&second));
    assert_eq!(field.dots_count(), 3);
    assert_eq!(field.len(), 3);
    assert_eq!(field.get(1), Some(Coordinates { x: 1, y: 1 }));
    assert_eq!(field.get(2), Some(Coordinates { x: 2, y: 2 }));
    assert_eq!(field.get(3), Some(Coordinates { x: 3, y: 3 }));
}

#[test]
fn add_dots_refuses_what_does_not_fit() {
    let mut field = Dots::new(3);
    let first: HashMap<u128, Coordinates> =
        vec![(1, Coordinates { x: 1, y: 1 }), (2, Coordinates { x: 2, y: 2 })].into_iter().collect();
    assert!(field.add_dots(&first));
    let too_many: HashMap<u128, Coordinates> =
        vec![(3, Coordinates { x: 3, y: 3 }), (4, Coordinates { x: 4, y: 4 })].into_iter().collect();
    assert!(!field.add_dots(&too_many));
    assert_eq!(field.dots_count(), 2);
    assert_eq!(field.get(3), None);
    assert_eq!(field.get(4), None);
    let one: HashMap<u128, Coordinates> = vec![(3, Coordinates { x: 3, y: 3 })].into_iter().collect();
    assert!(field.add_dots(&one));
    assert_eq!(field.dots_count(), 3);
    assert_eq!(field.dots_count(), field.max_dots_amount());
}

#[test]
fn field_below_capacity_is_full_after_merging_what_it_lacks() {
    let mut field = field_of_twelve();
    let mut small = Dots::new(12);
    assert!(small.add_dots(&twelve_dots()));
    small.delete_dots(DeleteDots(vec![
        dot_id("f9168c5e-ceb2-4faa-b6bf-329bf39fa1e4"),
        dot_id("e0183a5f-92af-4379-8d8d-cfd729d77d59"),
    ]));
    assert_eq!(small.dots_count(), 10);
    let fresh: HashMap<u128, Coordinates> =
        vec![(7, Coordinates { x: 7, y: 7 }), (8, Coordinates { x: 8, y: 8 })].into_iter().collect();
    assert!(small.add_dots(&fresh));
    assert_eq!(small.dots_count(), 12);
    assert_eq!(small.dots_count(), small.max_dots_amount());
    // The larger field is untouched by what happened to the other.
    field.delete_dots(DeleteDots(Vec::new()));
    assert_eq!(field.dots_count(), 12);
}

#[test]
fn created_field_respects_its_capacity() {
    let field = Dots::create_field(50);
    assert!(field.dots_count() <= 50);
    assert_eq!(field.dots_count() as usize, field.len());
    assert_eq!(field.max_dots_amount(), 50);
    // Identifiers are 122 random bits each: no two of fifty coincide.
    assert_eq!(field.dots_count(), 50);
}

#[test]
fn regeneration_refills_up_to_the_capacity_and_no_further() {
    let mut field = Dots::new(20);
    let first: HashMap<u128, Coordinates> =
        vec![(1, Coordinates { x: 1, y: 1 }), (2, Coordinates { x: 2, y: 2 })].into_iter().collect();
    assert!(field.add_dots(&first));
    for _ in 0..5 {
        field.regenerate();
        assert!(field.dots_count() <= field.max_dots_amount());
        assert_eq!(field.dots_count() as usize, field.len());
        assert_eq!(field.dots_count(), 20);
        assert_eq!(field.get(1), Some(Coordinates { x: 1, y: 1 }));
        assert_eq!(field.get(2), Some(Coordinates { x: 2, y: 2 }));
    }
    field.delete_dots(DeleteDots(vec![1, 2]));
    assert_eq!(field.dots_count(), 18);
    field.regenerate();
    assert_eq!(field.dots_count(), 20);
    assert_eq!(field.get(1), None);
}

#[test]
fn regenerated_dots_lie_in_the_world() {
    let field = Dots::create_field(200);
    let everything = field.find_viewport_dots(
        Coordinates { x: u32::MAX, y: u32::MAX },
        Coordinates { x: 0, y: 0 },
    );
    // The query rectangle starts at (0, 0) and spans the world, so that the
    // relative coordinates are the world coordinates.
    assert_eq!(everything.len(), field.len());
    for (_, dot) in everything.iter() {
        assert!(dot.x < 20_000);
        assert!(dot.y < 20_000);
    }
}

#[test]
fn full_field_is_left_alone_by_regeneration() {
    let mut field = Dots::new(2);
    let first: HashMap<u128, Coordinates> =
        vec![(1, Coordinates { x: 1, y: 1 }), (2, Coordinates { x: 2, y: 2 })].into_iter().collect();
    assert!(field.add_dots(&first));
    field.regenerate();
    assert_eq!(field.dots_count(), 2);
    assert_eq!(field.get(1), Some(Coordinates { x: 1, y: 1 }));
    assert_eq!(field.get(2), Some(Coordinates { x: 2, y: 2 }));

    let mut none = Dots::new(0);
    none.regenerate();
    assert_eq!(none.dots_count(), 0);
}
