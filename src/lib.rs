//! Movement resolution and interaction-zone queries for a top-down 2D game.
//!
//! Positions and displacements are integers in half units (two per world
//! unit); sizes are integers in world units. Rectangles are axis-aligned and
//! described by their center and full size, so every edge falls on a half unit.
pub mod geometry;
pub mod movement;
pub mod interaction;
