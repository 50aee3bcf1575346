//! A minimal untyped lambda-calculus core: an immutable term tree with
//! structural sharing, capture-naive substitution, single-step beta
//! reduction under call-by-value and call-by-name strategies, and a
//! canonical renderer.

pub mod term;
pub mod subst;
pub mod reduce;
pub mod render;
