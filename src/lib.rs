//! A typed model of map-style layers and its serialization mapping.
//!
//! A [`Layer`] names a rendering unit, its kind and its data source, and may
//! carry [`Layout`] and [`Paint`] hints. [`Layer::to_tokens`] turns a layer
//! into the flat event stream of a structured document: kebab-case keys,
//! absent optional fields left out, [`LayoutProperty`] values untagged.
use vstd::prelude::*;

pub mod layer;
pub mod token;
pub mod serialize;
pub mod laws;

pub use layer::{Layer, Layout, LayoutProperty, Paint};
pub use token::Token;

