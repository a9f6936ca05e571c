//! Parameter and uniform bookkeeping for a node-based texture authoring tool.
//!
//! Every operator of the texture graph owns a list of named parameters and a
//! uniform block that the shader reads. This crate holds the rules that tie
//! the two together, the defaults of the editor grid, and the description of
//! the scene that the editor opens with.
//!
//! Single-precision numbers never take part in arithmetic here: they are
//! carried through by their bit patterns (see [`scalar::Scalar`]).

pub mod grid;
pub mod noise;
pub mod param;
pub mod scalar;
pub mod scene;
