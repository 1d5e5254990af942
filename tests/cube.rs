use hexes::{CoordinateError, Cube, Direction};

#[test]
fn creation_of_trivial_coordinate_works() {
    let coord = Cube::new(0, 0, 0);

    assert_eq!(coord, Ok(Cube { q: 0, r: 0, s: 0 }));
}

#[test]
fn creating_invalid_coordinate_fails() {
    let coord = Cube::new(1, 0, 0);

    assert_eq!(coord, Err(CoordinateError::SumNotZero));
}

#[test]
fn subtraction_works() {
    let first = Cube::new(1, 1, -2).unwrap();
    let second = Cube::new(2, 2, -4).unwrap();

    let result = first - second;

    assert_eq!(result, Cube { q: -1, r: -1, s: 2 })
}

#[test]
fn max_component_works() {
    let cube = Cube::new(2, 1, -3).unwrap();

    assert_eq!(cube.max_component(), 2);
}

#[test]
fn distance_same_coord_works() {
    let cube = Cube::new(2, 1, -3).unwrap();

    assert_eq!(cube.distance_to(cube), 0);
}

#[test]
fn distance_neighbour_coord_works() {
    let neighbour = Cube::new(1, 0, -1).unwrap();

    assert_eq!(Cube::origin().distance_to(neighbour), 1);
}

#[test]
fn distance_other_coord_works() {
    let other = Cube::new(1, 2, -3).unwrap();

    assert_eq!(Cube::origin().distance_to(other), 3);
}

#[test]
fn zero_components_equal_origin() {
    assert_eq!(Cube::new(0, 0, 0), Ok(Cube::origin()));
}

#[test]
fn large_components_with_zero_sum_are_accepted() {
    assert_eq!(
        Cube::new(i32::MAX, i32::MIN, 1),
        Ok(Cube { q: i32::MAX, r: i32::MIN, s: 1 })
    );
    assert_eq!(Cube::new(i32::MAX, i32::MAX, i32::MAX), Err(CoordinateError::SumNotZero));
}

#[test]
fn max_component_of_negative_cube() {
    assert_eq!(Cube { q: -5, r: -1, s: 6 }.max_component(), 6);
    assert_eq!(Cube { q: -3, r: -4, s: 7 }.max_component(), 7);
    assert_eq!(Cube { q: 0, r: 0, s: 0 }.max_component(), 0);
}

#[test]
fn distance_is_symmetric() {
    let a = Cube::new(3, -7, 4).unwrap();
    let b = Cube::new(-2, 5, -3).unwrap();
    assert_eq!(a.distance_to(b), 12);
    assert_eq!(b.distance_to(a), 12);
}

#[test]
fn distance_between_extreme_cubes() {
    let a = Cube { q: i32::MAX, r: i32::MIN + 1, s: 0 };
    let b = Cube { q: i32::MIN + 1, r: i32::MAX, s: 0 };
    assert_eq!(a.distance_to(b), u32::MAX - 1);
}

#[test]
fn distance_is_zero_only_on_equal_cubes() {
    let a = Cube::new(1, -1, 0).unwrap();
    let b = Cube::new(1, 0, -1).unwrap();
    assert_eq!(a.distance_to(a), 0);
    assert_ne!(a.distance_to(b), 0);
}

#[test]
fn addition_is_componentwise() {
    let a = Cube { q: 2, r: -5, s: 3 };
    let b = Cube { q: -1, r: 4, s: -3 };
    assert_eq!(a + b, Cube { q: 1, r: -1, s: 0 });
}

#[test]
fn adding_a_direction_steps_to_a_neighbour() {
    let c = Cube::new(2, -1, -1).unwrap();
    assert_eq!(c + Direction::E, Cube { q: 3, r: -1, s: -2 });
    assert_eq!(c + Direction::NE, Cube { q: 3, r: -2, s: -1 });
    assert_eq!(c + Direction::NW, Cube { q: 2, r: -2, s: 0 });
    assert_eq!(c + Direction::W, Cube { q: 1, r: -1, s: 0 });
    assert_eq!(c + Direction::SW, Cube { q: 1, r: 0, s: -1 });
    assert_eq!(c + Direction::SE, Cube { q: 2, r: 0, s: -2 });
}

#[test]
fn direction_unit_vectors() {
    assert_eq!(Cube::from(Direction::E), Cube { q: 1, r: 0, s: -1 });
    assert_eq!(Cube::from(Direction::NE), Cube { q: 1, r: -1, s: 0 });
    assert_eq!(Cube::from(Direction::NW), Cube { q: 0, r: -1, s: 1 });
    assert_eq!(Cube::from(Direction::W), Cube { q: -1, r: 0, s: 1 });
    assert_eq!(Cube::from(Direction::SW), Cube { q: -1, r: 1, s: 0 });
    assert_eq!(Cube::from(Direction::SE), Cube { q: 0, r: 1, s: -1 });
}

#[test]
fn neighbours_of_origin_are_the_six_unit_vectors() {
    let origin = Cube::origin();
    let n = origin.neighbours();
    assert_eq!(
        n,
        vec![
            Cube { q: 1, r: 0, s: -1 },
            Cube { q: 1, r: -1, s: 0 },
            Cube { q: 0, r: -1, s: 1 },
            Cube { q: -1, r: 0, s: 1 },
            Cube { q: -1, r: 1, s: 0 },
            Cube { q: 0, r: 1, s: -1 },
        ]
    );
    for (i, a) in n.iter().enumerate() {
        assert_ne!(*a, origin);
        assert_eq!(origin.distance_to(*a), 1);
        for b in n.iter().skip(i + 1) {
            assert_ne!(a, b);
        }
    }
}

#[test]
fn neighbours_keep_sum_zero_and_distance_one() {
    let c = Cube::new(-40, 17, 23).unwrap();
    for n in c.neighbours() {
        assert_eq!(n.q + n.r + n.s, 0);
        assert_eq!(c.distance_to(n), 1);
        assert_eq!(n.distance_to(c), 1);
    }
}
