//! Decision logic of a Fourier-cosine option pricer: which quantity a request
//! asks for, how many frequency nodes it uses, which evaluation points are
//! shown, and which parameter-constraint table a model name selects.
//!
//! The floating-point series engine itself is provided by outside crates and
//! driven from the command-line front end.
use vstd::prelude::*;

pub mod operation;
pub mod nodes;
pub mod series;
pub mod model;
pub mod plan;
