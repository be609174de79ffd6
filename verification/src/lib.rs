//! Live-value apply and hot-patch runtime.
//!
//! A registry owns tree-shaped live documents; consumers reach their nodes
//! through generation-checked pointers, report apply failures as positioned
//! diagnostics, register the resources that documents depend on, and patch
//! edited values into the flat buffers of running shader instances.

pub mod apply;
pub mod cx;
pub mod dependency;
pub mod error;
pub mod ids;
pub mod message;
pub mod node;
pub mod registry;
pub mod shader;
pub mod text;
pub mod token;
pub mod value;
