//! A small 2D scene of rigid bodies that a pointer can pick up and drag.
//!
//! The crate keeps the bookkeeping of such a scene apart from the things it
//! cannot do itself: solving the physics, drawing, and sleeping. Bodies live
//! in a [`registry::Registry`]. [`simulation::plan_step`] says what a solver
//! is to be given for a step and [`simulation::apply_step`] writes its
//! answers back. Drag gestures go through
//! [`interaction::InteractionController`], [`projector::project`] turns a
//! body into the record a renderer needs, and
//! [`driver::AnimationDriver`] tells the animation loop when to sleep and
//! when to step. [`history`] states what holds of a scene over any run of
//! these.
//!
//! All coordinates are fixed-point integers in one unit that the host picks
//! (a pixel, or a fraction of one). The crate never rescales them.

pub mod body;
pub mod registry;
pub mod simulation;
pub mod projector;
pub mod interaction;
pub mod driver;
pub mod history;
