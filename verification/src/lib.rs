//! Normalization of attributed vector-graphics documents into a flat,
//! fully resolved render tree: absolute coordinates, resolved paint servers,
//! resolved clip/mask references, simplified geometry.

pub mod color;
pub mod convert;
pub mod geom;
pub mod model;
pub mod path;
pub mod style;
pub mod tree;

use vstd::prelude::*;

verus! {

} // verus!
