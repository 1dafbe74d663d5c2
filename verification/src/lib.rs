//! A small GPU-resource ownership layer: scoped buffer, vertex-array,
//! shader and program objects whose native handles are tied to object
//! lifetime, plus a declarative vertex-layout description that turns a
//! record shape into attribute-binding calls.
//!
//! All objects are driven through a [`context::Context`], a model of the
//! graphics session that accounts for every handle it hands out and for
//! the global binding slots, so the binding-order and release-exactly-once
//! disciplines are stated and checked rather than assumed.

pub mod buffer;
pub mod context;
pub mod data;
pub mod input;
pub mod resources;
pub mod shader;
pub mod square;
pub mod texture;
pub mod triangle;
pub mod vertex;

pub use context::Context;
pub use shader::{Program, Shader};
pub use texture::Texture;
