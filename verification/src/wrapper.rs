//! Layout-facing views of a document node.
//!
//! Layout never holds the document engine's own node representation. It works
//! through thin views: `LayoutNode` for the single-threaded phases (the only
//! view owning access to the node's layout-data slot), `ThreadSafeLayoutNode`
//! for concurrently scheduled traversals, and `LayoutPseudoNode` for nodes
//! that stand in pseudo-element links. Each view exposes the node's identity
//! token, from which an `OpaqueNode` handle is derived.

use vstd::prelude::*;

use crate::access::{AccessConflict, LayoutDataAccess, LayoutDataRef};
use crate::layout_data::LayoutDataWrapper;
use crate::node::AbstractNode;

verus! {

/// A document node as the layout side sees it during single-threaded phases.
/// This is the view that owns access to the node's layout-data slot.
pub struct LayoutNode {
    /// The identity token the engine's reflection accessor reports for this
    /// node.
    pub identity: usize,
    /// The node's layout-data slot, with its checked-borrow bookkeeping.
    pub layout_data: LayoutDataRef,
}

impl LayoutNode {
    /// Makes the layout view of the node with the given identity token, with
    /// an empty layout-data slot and no outstanding views on it.
    pub fn new(identity: usize) -> (r: LayoutNode)
        ensures
            r.identity == identity,
            r.slot().spec_data() is None,
            r.slot().quiescent(),
    {
        LayoutNode { identity, layout_data: LayoutDataRef::new() }
    }

    /// Makes the layout view of the node with the given identity token, with
    /// its layout-data slot already holding `data` and no outstanding views.
    pub fn new_with_data(identity: usize, data: Option<LayoutDataWrapper>) -> (r: LayoutNode)
        ensures
            r.identity == identity,
            r.slot().spec_data() == data,
            r.slot().quiescent(),
    {
        LayoutNode { identity, layout_data: LayoutDataRef::from_data(data) }
    }
}

impl LayoutDataAccess for LayoutNode {
    closed spec fn slot(&self) -> LayoutDataRef {
        self.layout_data
    }

    #[inline(always)]
    fn borrow_layout_data_unchecked(&self) -> (r: &Option<LayoutDataWrapper>) {
        self.layout_data.borrow_unchecked()
    }

    #[inline(always)]
    fn borrow_layout_data(&mut self) -> (r: Result<(), AccessConflict>) {
        self.layout_data.borrow()
    }

    #[inline(always)]
    fn release_layout_data(&mut self) {
        self.layout_data.release()
    }

    #[inline(always)]
    fn mutate_layout_data(&mut self) -> (r: Result<(), AccessConflict>) {
        self.layout_data.borrow_mut()
    }

    #[inline(always)]
    fn release_layout_data_mut(&mut self) {
        self.layout_data.release_mut()
    }

    #[inline(always)]
    fn layout_data(&self) -> (r: &Option<LayoutDataWrapper>) {
        self.layout_data.read()
    }

    #[inline(always)]
    fn replace_layout_data(&mut self, data: Option<LayoutDataWrapper>) -> (r: Option<
        LayoutDataWrapper,
    >) {
        self.layout_data.replace(data)
    }
}

/// A document node as a concurrently scheduled layout traversal sees it.
#[derive(Clone, Copy, PartialEq, Eq, Structural, Debug)]
pub struct ThreadSafeLayoutNode {
    /// The identity token the engine's reflection accessor reports for this
    /// node.
    pub identity: usize,
}

impl ThreadSafeLayoutNode {
    /// Makes the thread-safe view of the node the given layout view names.
    pub fn new(node: &LayoutNode) -> (r: ThreadSafeLayoutNode)
        ensures
            r.identity == node.identity,
    {
        ThreadSafeLayoutNode { identity: node.identity }
    }
}

/// A node captured for a pseudo-element link.
#[derive(Clone, Copy, PartialEq, Eq, Structural, Debug)]
pub struct LayoutPseudoNode {
    /// The captured node.
    pub node: AbstractNode,
}

impl LayoutPseudoNode {
    /// Captures a node for use in a pseudo-element link.
    pub fn from_layout_pseudo(node: AbstractNode) -> (r: LayoutPseudoNode)
        ensures
            r.node == node,
    {
        LayoutPseudoNode { node }
    }

    /// Hands the captured node back.
    pub fn get_abstract(&self) -> (r: AbstractNode)
        ensures
            r == self.node,
    {
        self.node
    }
}

} // verus!
