//! A verified core for a tilt-the-floor maze game.
//!
//! The library compiles an abstract maze topology into an exact geometric
//! level layout (walls, floor, markers, a goal sensor and a ceiling), maps
//! directional input to per-tick tilt increments for the floor, and watches
//! physics contact events for the one-shot level-completion transition.
//! Scene-graph and physics engines are outside collaborators: the library
//! produces plain placement data and decisions, and the surrounding
//! application feeds them to whatever engine it runs on.

pub mod compiler;
pub mod completion;
pub mod generator;
pub mod geometry;
pub mod maze;
pub mod scene;
pub mod tilt;
