//! Tests for the layout side table and its checked access discipline.

use std::sync::Arc;

use layout_util::access::{LayoutDataAccess, LayoutDataRef};
use layout_util::layout_data::{
    ConstructionResult, LayoutChan, LayoutDataWrapper, PrivateLayoutData, PseudoNode,
};
use layout_util::node::AbstractNode;
use layout_util::style::{ComputedValues, PseudoElement};
use layout_util::wrapper::LayoutNode;

#[test]
fn new_layout_data_is_empty() {
    let mut data = PrivateLayoutData::new();
    assert!(data.style.is_none());
    assert!(data.before_style.is_none());
    assert!(data.after_style.is_none());
    assert!(data.applicable_declarations.is_empty());
    assert!(data.before_applicable_declarations.is_empty());
    assert!(data.after_applicable_declarations.is_empty());
    assert!(!data.is_pseudo(PseudoElement::Before));
    assert!(!data.is_pseudo(PseudoElement::After));
    assert!(!data.is_next_after_sibling());
    assert!(data.restyle_damage.is_none());
    assert_eq!(
        data.flow_construction_result,
        ConstructionResult::NoConstructionResult
    );
    assert_eq!(data.parallel.children_count, 0);
}

#[test]
fn new_with_style_seeds_only_the_main_slot() {
    let style = Arc::new(ComputedValues { token: 5 });
    let data = PrivateLayoutData::new_with_style(Some(style.clone()));
    assert_eq!(data.style.as_ref().map(|s| s.token), Some(5));
    assert!(data.before_style.is_none());
    assert!(data.after_style.is_none());
}

#[test]
fn init_applicable_declarations_clears_only_declaration_groups() {
    let mut data = PrivateLayoutData::new_with_style(Some(Arc::new(ComputedValues { token: 3 })));
    data.applicable_declarations.push(Arc::new(Vec::new()));
    data.before_applicable_declarations.push(Arc::new(Vec::new()));
    data.after_applicable_declarations.push(Arc::new(Vec::new()));
    data.set_pseudo_element(
        AbstractNode { identity: 1 },
        AbstractNode { identity: 2 },
        PseudoElement::Before,
    );
    data.restyle_damage = Some(4);
    data.flow_construction_result = ConstructionResult::FlowConstructionResult(8);

    data.init_applicable_declarations();

    assert!(data.applicable_declarations.is_empty());
    assert!(data.before_applicable_declarations.is_empty());
    assert!(data.after_applicable_declarations.is_empty());
    assert_eq!(data.style.as_ref().map(|s| s.token), Some(3));
    assert!(data.is_pseudo(PseudoElement::Before));
    assert_eq!(data.restyle_damage, Some(4));
    assert_eq!(
        data.flow_construction_result,
        ConstructionResult::FlowConstructionResult(8)
    );
}

#[test]
fn pseudo_link_round_trip() {
    // Setting the before link and reading it back resolves to the generated
    // child's identity; the after link stays absent until set.
    let parent = AbstractNode { identity: 100 };
    let child = AbstractNode { identity: 200 };
    let mut data = PrivateLayoutData::new();

    data.set_pseudo_element(parent, child, PseudoElement::Before);
    let resolved = data.get_pseudo_node(PseudoElement::Before);
    assert_eq!(resolved, Some(child));
    assert_eq!(resolved.unwrap().identity, 200);

    assert!(data.is_pseudo(PseudoElement::Before));
    assert!(!data.is_pseudo(PseudoElement::After));
    assert_eq!(data.get_pseudo_node(PseudoElement::After), None);

    data.set_pseudo_element(parent, AbstractNode { identity: 300 }, PseudoElement::After);
    assert!(data.is_pseudo(PseudoElement::After));
    assert_eq!(
        data.get_pseudo_node(PseudoElement::After),
        Some(AbstractNode { identity: 300 })
    );
}

#[test]
fn pseudo_style_for_hands_back_the_stored_link() {
    let parent = AbstractNode { identity: 1 };
    let child = AbstractNode { identity: 2 };
    let mut data = PrivateLayoutData::new();
    assert_eq!(data.pseudo_style_for(PseudoElement::Before), None);
    assert_eq!(data.pseudo_style_for(PseudoElement::After), None);

    data.set_pseudo_element(parent, child, PseudoElement::Before);
    let link = data.pseudo_style_for(PseudoElement::Before).unwrap();
    assert_eq!(link.parent.node, parent);
    assert_eq!(link.child.node, child);
    assert_eq!(data.pseudo_style_for(PseudoElement::After), None);
}

#[test]
fn node_built_with_data_starts_quiescent() {
    let wrapper = LayoutDataWrapper { chan: None, data: PrivateLayoutData::new() };
    let mut node = LayoutNode::new_with_data(3, Some(wrapper));
    assert!(node.borrow_layout_data_unchecked().is_some());
    assert!(node.mutate_layout_data().is_ok());
    node.release_layout_data_mut();
}

#[test]
fn pseudo_node_resolves_to_child() {
    let parent = AbstractNode { identity: 1 };
    let child = AbstractNode { identity: 2 };
    let mut link = PseudoNode::new_from_parent_and_child(parent, child);
    assert_eq!(link.parent.node, parent);
    assert_eq!(link.child.node, child);
    assert_eq!(link.get_pseudo_node(), child);
}

#[test]
fn next_after_sibling_link() {
    let mut data = PrivateLayoutData::new();
    assert!(!data.is_next_after_sibling());
    assert_eq!(data.get_next_after_sibling(), None);

    let parent = AbstractNode { identity: 7 };
    let generated = AbstractNode { identity: 8 };
    data.set_next_after_sibling(parent, generated);
    assert!(data.is_next_after_sibling());
    assert_eq!(data.get_next_after_sibling(), Some(generated));
}

#[test]
fn exclusive_view_excluded_while_shared_view_outstanding() {
    // Acquiring an exclusive view while a shared view is outstanding fails;
    // releasing the shared view and retrying succeeds.
    let mut slot = LayoutDataRef::new();
    assert!(slot.borrow().is_ok());
    assert!(slot.borrow_mut().is_err());
    slot.release();
    assert!(slot.borrow_mut().is_ok());
    slot.release_mut();
}

#[test]
fn shared_views_may_coexist() {
    let mut slot = LayoutDataRef::new();
    assert!(slot.borrow().is_ok());
    assert!(slot.borrow().is_ok());
    assert!(slot.read().is_none());
    slot.release();
    slot.release();
}

#[test]
fn shared_view_excluded_while_exclusive_view_outstanding() {
    let mut slot = LayoutDataRef::new();
    assert!(slot.borrow_mut().is_ok());
    assert!(slot.borrow().is_err());
    assert!(slot.borrow_mut().is_err());
    slot.release_mut();
    assert!(slot.borrow().is_ok());
    slot.release();
}

#[test]
fn replace_swaps_the_entry_under_exclusive_view() {
    let mut slot = LayoutDataRef::new();
    assert!(slot.borrow_mut().is_ok());
    let wrapper = LayoutDataWrapper {
        chan: Some(LayoutChan { token: 1 }),
        data: PrivateLayoutData::new(),
    };
    let previous = slot.replace(Some(wrapper));
    assert!(previous.is_none());
    let stored = slot.replace(None);
    assert_eq!(stored.unwrap().chan, Some(LayoutChan { token: 1 }));
    slot.release_mut();
    assert!(slot.borrow_unchecked().is_none());
}

#[test]
fn node_access_follows_the_checked_discipline() {
    let mut node = LayoutNode::new(42);
    assert!(node.borrow_layout_data_unchecked().is_none());

    assert!(node.mutate_layout_data().is_ok());
    let wrapper = LayoutDataWrapper { chan: None, data: PrivateLayoutData::new() };
    assert!(node.replace_layout_data(Some(wrapper)).is_none());
    node.release_layout_data_mut();

    assert!(node.borrow_layout_data().is_ok());
    assert!(node.mutate_layout_data().is_err());
    assert!(node.layout_data().is_some());
    node.release_layout_data();

    assert!(node.mutate_layout_data().is_ok());
    node.release_layout_data_mut();
}
