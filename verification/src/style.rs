//! Stand-ins for the data the style system hands to layout.
//!
//! The cascade and selector-matching engine is an external collaborator: this
//! layer only stores its products. A computed-style snapshot and a property
//! declaration are therefore carried as opaque tokens; nothing here reads
//! their contents.

use vstd::prelude::*;

verus! {

/// The computed style of one element or pseudo-element, as published by the
/// style system. Published snapshots are immutable; layout shares them by
/// reference counting and never mutates one in place.
#[derive(Clone, Copy, PartialEq, Eq, Structural, Debug)]
pub struct ComputedValues {
    /// Opaque token standing for the snapshot's contents.
    pub token: usize,
}

/// One style-declaration group entry, as published by the style system.
/// Opaque to this layer: declaration groups are stored and cleared, never
/// inspected.
#[derive(Clone, Copy, PartialEq, Eq, Structural, Debug)]
pub struct PropertyDeclaration {
    /// Opaque token standing for the declaration's contents.
    pub token: usize,
}

/// Which generated pseudo-element of a node is meant.
#[derive(Clone, Copy, PartialEq, Eq, Structural, Debug)]
pub enum PseudoElement {
    /// The `before` pseudo-element.
    Before,
    /// The `after` pseudo-element.
    After,
}

} // verus!
