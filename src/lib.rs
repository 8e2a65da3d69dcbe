//! Spawning rules for a click-to-drop squares demo: where a new square may
//! appear, how it is coloured, how it falls, and how the tree of visuals grows.

pub mod application;
pub mod color;
pub mod composition_host;
pub mod random;
pub mod square;
pub mod visual_tree;
