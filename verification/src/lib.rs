//! A population of growing, colliding wyrms on a bounded grid of tiles.

pub mod bounds;
pub mod color;
pub mod config;
pub mod direction;
pub mod error;
pub mod grid;
pub mod laws;
pub mod model;
pub mod point;
pub mod random;
pub mod tile;
pub mod world;
pub mod wyrm;

pub use color::Color;
pub use direction::{Direction, RelativeDirection};
pub use error::Error;
pub use point::Point;
pub use tile::Tile;
pub use world::{Neighbors, NewWorldParams, SpawnDraw, World};
pub use wyrm::{NewWyrmParams, Wyrm, WyrmView};
