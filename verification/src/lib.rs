//! Bridge layer between a mutable, externally owned document tree and an
//! independently scheduled layout engine.
//!
//! The library provides:
//! - an opaque, comparison-only handle naming a document node (`OpaqueNode`),
//!   constructible from every node view and convertible to an untrusted
//!   address for hit-testing replies;
//! - the per-node side table of layout-derived data (`PrivateLayoutData`)
//!   together with a checked-borrow access discipline (`LayoutDataRef`,
//!   `LayoutDataAccess`);
//! - the node-to-box-range mapping (`ElementMapping`) and the repair
//!   algorithm that re-derives each node's box interval after the box
//!   sequence is regenerated.

pub mod access;
pub mod mapping;
pub mod layout_data;
pub mod node;
pub mod range;
pub mod style;
pub mod wrapper;
