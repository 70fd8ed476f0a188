//! Simulation core of a snake-and-food arcade game on a toroidal grid.
//!
//! The library owns the grid geometry, the four-way direction algebra, the
//! snake state machine (movement, growth, direction buffering, self-collision),
//! the sprite-orientation derivation for rendering a continuous body, food
//! placement, and the fixed-timestep tick decision. Window, input and audio
//! plumbing live outside the library and talk to it through plain values.

pub mod entities;
pub mod game;
pub mod primitives;

pub use entities::Food;
pub use entities::Snake;
pub use game::Game;
pub use primitives::Direction;
pub use primitives::GridPosition;
pub use primitives::GRID_HEIGHT;
pub use primitives::GRID_WIDTH;
