//! The opaque, comparison-only handle naming a document node.
//!
//! The document engine's garbage collector does not trace layout, so layout
//! data structures must never retain a dereferenceable node reference. An
//! `OpaqueNode` carries only the node's identity token: it supports equality
//! comparison and conversion to an untrusted address, nothing else, and it
//! asserts nothing about the liveness of the node it names.

use vstd::prelude::*;

use crate::wrapper::{LayoutNode, ThreadSafeLayoutNode};

verus! {

/// A document node as the script side of the engine presents it: the general
/// document-engine view. The engine's reflection accessor exposes one
/// identity token per logical node; every view of the same logical node
/// reports the same token. The caller must not present a node whose identity
/// accessor is not yet initialized.
#[derive(Clone, Copy, PartialEq, Eq, Structural, Debug)]
pub struct AbstractNode {
    /// The identity token the engine's reflection accessor reports for this
    /// node.
    pub identity: usize,
}

/// A node address sent back to the document engine, for instance as a
/// hit-testing result. The recipient must re-validate the address before
/// dereferencing it: this value asserts nothing about liveness.
#[derive(Clone, Copy, PartialEq, Eq, Structural, Debug)]
pub struct UntrustedNodeAddress {
    /// The raw address bits.
    pub addr: usize,
}

/// An opaque handle to a node. The only safe operations on it are comparing
/// it to another handle and converting it to an `UntrustedNodeAddress`; the
/// handle owns nothing and is never dereferenced.
#[derive(Clone, Copy, PartialEq, Eq, Structural, Hash, Debug)]
pub struct OpaqueNode {
    /// The identity token of the node this handle names.
    pub value: usize,
}

/// The handle every view of a node with identity token `identity` yields.
pub open spec fn handle_of_identity(identity: usize) -> OpaqueNode {
    OpaqueNode { value: identity }
}

/// The address a handle converts to: a pure bit reinterpretation.
pub open spec fn untrusted_address_of(handle: OpaqueNode) -> UntrustedNodeAddress {
    UntrustedNodeAddress { addr: handle.value }
}

impl OpaqueNode {
    /// Converts a DOM node (layout view) to an `OpaqueNode`.
    pub fn from_layout_node(node: &LayoutNode) -> (r: OpaqueNode)
        ensures
            r == handle_of_identity(node.identity),
    {
        OpaqueNode { value: node.identity }
    }

    /// Converts a thread-safe DOM node (layout view) to an `OpaqueNode`.
    pub fn from_thread_safe_layout_node(node: &ThreadSafeLayoutNode) -> (r: OpaqueNode)
        ensures
            r == handle_of_identity(node.identity),
    {
        OpaqueNode { value: node.identity }
    }

    /// Converts a DOM node (script view) to an `OpaqueNode`.
    pub fn from_script_node(node: &AbstractNode) -> (r: OpaqueNode)
        ensures
            r == handle_of_identity(node.identity),
    {
        OpaqueNode { value: node.identity }
    }

    /// Converts this handle to an `UntrustedNodeAddress`: the shape of node
    /// address the script side expects to receive in a hit test. Total and
    /// side-effect free; the recipient must re-validate the address before
    /// trusting it.
    pub fn to_untrusted_node_address(&self) -> (r: UntrustedNodeAddress)
        ensures
            r == untrusted_address_of(*self),
    {
        UntrustedNodeAddress { addr: self.value }
    }

    /// Returns the raw identity token of this handle, for debugging purposes.
    pub fn id(&self) -> (r: usize)
        ensures
            r == self.value,
    {
        self.value
    }
}

/// Views of the same logical node yield equal handles: the script view, the
/// layout view and the thread-safe layout view agree whenever they report the
/// same identity token.
pub proof fn lemma_handle_agrees_across_views(
    script_view: AbstractNode,
    layout_view: LayoutNode,
    thread_safe_view: ThreadSafeLayoutNode,
)
    requires
        layout_view.identity == script_view.identity,
        thread_safe_view.identity == script_view.identity,
    ensures
        handle_of_identity(layout_view.identity) == handle_of_identity(script_view.identity),
        handle_of_identity(thread_safe_view.identity) == handle_of_identity(script_view.identity),
{
}

/// Converting a handle to an untrusted address is deterministic and
/// injective: two handles built from identity tokens convert to the same
/// address exactly when the tokens are equal.
pub proof fn lemma_untrusted_address_injective(identity_a: usize, identity_b: usize)
    ensures
        (untrusted_address_of(handle_of_identity(identity_a)) == untrusted_address_of(
            handle_of_identity(identity_b),
        )) <==> identity_a == identity_b,
{
}

} // verus!
