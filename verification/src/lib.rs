//! A free-fly camera controller: per-frame keyboard intent is turned into
//! frame-rate-independent translation along the camera's own forward and
//! right axes.
//!
//! All arithmetic is exact: values live in the field of rationals extended
//! with sqrt(2), which is closed under every operation the controller
//! performs (the sqrt(2) arises from normalizing a diagonal intent vector).

pub mod rational;
pub mod scalar;
pub mod vector;
pub mod controller;
pub mod laws;
