//! Tests for the opaque node handle.

use layout_util::node::{AbstractNode, OpaqueNode};
use layout_util::wrapper::{LayoutNode, ThreadSafeLayoutNode};

#[test]
fn same_logical_node_yields_equal_handles() {
    let script_view = AbstractNode { identity: 7001 };
    let layout_view = LayoutNode::new(7001);
    let thread_safe_view = ThreadSafeLayoutNode::new(&layout_view);

    let from_script = OpaqueNode::from_script_node(&script_view);
    let from_layout = OpaqueNode::from_layout_node(&layout_view);
    let from_thread_safe = OpaqueNode::from_thread_safe_layout_node(&thread_safe_view);

    assert_eq!(from_script, from_layout);
    assert_eq!(from_layout, from_thread_safe);
    assert_eq!(from_script.id(), 7001);
}

#[test]
fn different_nodes_yield_different_handles() {
    let a = OpaqueNode::from_script_node(&AbstractNode { identity: 1 });
    let b = OpaqueNode::from_script_node(&AbstractNode { identity: 2 });
    assert_ne!(a, b);
    assert_ne!(a.to_untrusted_node_address(), b.to_untrusted_node_address());
}

#[test]
fn untrusted_address_is_deterministic_and_injective() {
    let node = AbstractNode { identity: 424242 };
    let first = OpaqueNode::from_script_node(&node).to_untrusted_node_address();
    let second = OpaqueNode::from_script_node(&node).to_untrusted_node_address();
    assert_eq!(first, second);
    assert_eq!(first.addr, 424242);

    let other = OpaqueNode::from_script_node(&AbstractNode { identity: 424243 })
        .to_untrusted_node_address();
    assert_ne!(first, other);
}

#[test]
fn handle_id_exposes_raw_value() {
    let layout_view = LayoutNode::new(99);
    let handle = OpaqueNode::from_layout_node(&layout_view);
    assert_eq!(handle.id(), 99);
    assert_eq!(handle.value, 99);
}
