use hexes::hex_world::{get_coordinates, HexGrid};
use hexes::{Cube, Offset};

#[test]
fn coordinates_of_radius_one_square() {
    let cells = get_coordinates(1);
    assert_eq!(
        cells,
        vec![
            Offset::new(-1, -1),
            Offset::new(-1, 0),
            Offset::new(-1, 1),
            Offset::new(0, -1),
            Offset::new(0, 0),
            Offset::new(0, 1),
            Offset::new(1, -1),
            Offset::new(1, 0),
            Offset::new(1, 1),
        ]
    );
}

#[test]
fn coordinates_of_radius_zero_and_default_world() {
    assert_eq!(get_coordinates(0), vec![Offset::new(0, 0)]);
    let world = get_coordinates(25);
    assert_eq!(world.len(), 51 * 51);
    assert_eq!(world[0], Offset::new(-25, -25));
    assert_eq!(world[51 * 51 - 1], Offset::new(25, 25));
}

#[test]
fn grid_holds_each_cell_once() {
    let grid = HexGrid::new(&vec![Offset::new(0, 0), Offset::new(1, 0), Offset::new(0, 0)]);
    assert_eq!(grid.len(), 2);
    assert_eq!(grid.cell(0), Cube::origin());
    assert_eq!(grid.cell(1), Cube { q: 1, r: 0, s: -1 });
}

#[test]
fn empty_grid() {
    let grid = HexGrid::new(&vec![]);
    assert_eq!(grid.len(), 0);
    assert_eq!(grid.index_of(Cube::origin()), None);
    assert!(grid.adjacency().is_empty());
}

#[test]
fn index_of_finds_live_cells_only() {
    let grid = HexGrid::new(&get_coordinates(1));
    let centre = grid.index_of(Cube::origin()).unwrap();
    assert_eq!(grid.cell(centre), Cube::origin());
    assert_eq!(grid.index_of(Cube { q: 5, r: 0, s: -5 }), None);
}

#[test]
fn centre_of_three_by_three_grid_has_six_live_neighbours() {
    let grid = HexGrid::new(&get_coordinates(1));
    assert_eq!(grid.len(), 9);
    let centre = grid.index_of(Cube::origin()).unwrap();
    let mut ns = grid.neighbour_indices(centre);
    assert_eq!(ns.len(), 6);
    ns.sort();
    ns.dedup();
    assert_eq!(ns.len(), 6);
    assert!(!ns.contains(&centre));
    for j in ns {
        assert_eq!(grid.cell(centre).distance_to(grid.cell(j)), 1);
    }
}

#[test]
fn corner_cell_has_fewer_live_neighbours() {
    let grid = HexGrid::new(&get_coordinates(1));
    let corner = grid.index_of(Offset::new(-1, -1).to_cube()).unwrap();
    let ns = grid.neighbour_indices(corner);
    // (-1, -1) lies in an odd row: its live neighbours are (0, -1), (-1, 0) and (0, 0).
    assert_eq!(ns.len(), 3);
    for o in [Offset::new(0, -1), Offset::new(-1, 0), Offset::new(0, 0)] {
        assert!(ns.contains(&grid.index_of(o.to_cube()).unwrap()));
    }
}

#[test]
fn adjacency_is_symmetric() {
    let grid = HexGrid::new(&get_coordinates(3));
    let adjacency = grid.adjacency();
    assert_eq!(adjacency.len(), grid.len());
    for (i, ns) in adjacency.iter().enumerate() {
        assert_eq!(*ns, grid.neighbour_indices(i));
        for &j in ns {
            assert!(adjacency[j].contains(&i));
        }
    }
}
