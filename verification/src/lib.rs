//! A verified core for a grid snake simulation.
//!
//! The library owns the discrete-time state machine of the game: a snake
//! moving on a bounded two-dimensional grid, growing when it reaches the
//! food cell, and ending the game on a wall or self collision. A separate
//! clock turns elapsed-time samples into simulation ticks. Rendering,
//! windowing and input decoding are left to an unverified shell that talks
//! to the core through plain values and read-only snapshots.

pub mod geom;
pub mod clock;
pub mod sim;

pub use clock::SimulationClock;
pub use geom::Heading;
pub use geom::Location;
pub use sim::GameState;
pub use sim::GridSimulation;
pub use sim::SimView;
pub use sim::Snapshot;
