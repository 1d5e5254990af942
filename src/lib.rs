//! Hexagonal grid coordinates and the cell lattice they address.
//!
//! Three interchangeable forms address a hex cell: [`Offset`] (column and row), [`Axial`]
//! (two skewed axes) and [`Cube`] (three axes summing to zero). [`hex_world::HexGrid`] is a
//! fixed set of live cells with its neighbour relation; [`submesh`] holds the index layouts
//! of hexagon meshes.
pub mod axial;
pub mod cube;
pub mod cube_direction;
pub mod hex_world;
pub mod offset;
pub mod submesh;

pub use axial::Axial;
pub use cube::{CoordinateError, Cube};
pub use cube_direction::Direction;
pub use offset::Offset;
pub use submesh::Triangle;
