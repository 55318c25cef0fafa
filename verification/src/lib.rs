//! A toy N-body world: bodies that pull at each other, bounce off each other
//! and are kept inside a rectangle.
//!
//! A [`World`] holds the constants of the simulation, an [`Object`] is one of
//! its bodies, and [`perform`] advances all bodies by a time delta. The
//! [`render`] module says how the bodies are to be drawn, without drawing.
//!
//! The library is generic in the scalar type `S` of coordinates, masses and
//! time. It asks nothing of `S` but the four arithmetic operators and the
//! comparisons; the numbers 0 and 2 and the square root come in through the
//! world. Two things are proved of every function:
//!
//! - it cannot fail where its `requires` holds: where the operators of `S`
//!   accept all operands ([`scalar::total`]), or where they are functions and
//!   accept the operands that the function hands them ([`scalar::safe`]);
//! - it computes exactly the stated formula, operation by operation, for any
//!   scalar whose operators are functions of their operands
//!   ([`scalar::exact`]).
//!
//! What holds of the rules whatever the bodies are is collected in [`laws`].

pub mod laws;
pub mod object;
pub mod render;
pub mod scalar;
pub mod step;
pub mod vector;
pub mod world;

pub use object::{Body, Object};
pub use render::{Color, Shape};
pub use step::perform;
pub use vector::Vector2;
pub use world::World;
