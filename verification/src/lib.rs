//! A verified model of a rope-shooting platformer mechanic.
//!
//! A player fires webbing segments that extend into a rope while the fire
//! button is held and stick to whatever their catch sensor touches. The
//! crate holds the rules of that mechanic as plain data and total functions:
//! which collision layers meet, what the controls ask of the character, and
//! how the set of segments and joints evolves under each engine callback.
//! Vectors are never inspected here; every type that carries one is generic
//! in it.

pub mod controls;
pub mod history;
pub mod joint;
pub mod layers;
pub mod scene;
pub mod world;
