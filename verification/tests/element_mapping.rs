//! Tests for the node-to-box-range mapping and its repair algorithm.

use std::cell::Cell;

use layout_util::mapping::{ElementMapping, LayoutBox, NodeRange};
use layout_util::node::OpaqueNode;
use layout_util::range::IndexRange;

fn handle(value: usize) -> OpaqueNode {
    OpaqueNode { value }
}

fn boxes_of(nodes: &[usize]) -> Vec<LayoutBox> {
    nodes.iter().map(|&value| LayoutBox { node: handle(value) }).collect()
}

fn ranges_of(mapping: &ElementMapping) -> Vec<(usize, NodeRange)> {
    mapping.eachi()
}

#[test]
fn new_mapping_is_empty() {
    let mapping = ElementMapping::new();
    assert_eq!(mapping.eachi().len(), 0);
}

#[test]
fn add_mapping_appends_in_insertion_order() {
    let mut mapping = ElementMapping::new();
    mapping.add_mapping(handle(1), &IndexRange::new(0, 2));
    mapping.add_mapping(handle(2), &IndexRange::new(2, 3));
    let stored = ranges_of(&mapping);
    assert_eq!(stored.len(), 2);
    assert_eq!(stored[0].0, 0);
    assert_eq!(stored[0].1.node, handle(1));
    assert_eq!(stored[0].1.range.begin(), 0);
    assert_eq!(stored[0].1.range.length(), 2);
    assert_eq!(stored[1].0, 1);
    assert_eq!(stored[1].1.node, handle(2));
    assert_eq!(stored[1].1.range.begin(), 2);
    assert_eq!(stored[1].1.range.end(), 5);
}

#[test]
fn each_visits_in_order_and_short_circuits() {
    let mut mapping = ElementMapping::new();
    mapping.add_mapping(handle(1), &IndexRange::new(0, 1));
    mapping.add_mapping(handle(2), &IndexRange::new(1, 1));
    mapping.add_mapping(handle(3), &IndexRange::new(2, 1));

    let visited = Cell::new(0usize);
    let result = mapping.each(|nr| {
        visited.set(visited.get() + 1);
        nr.node != handle(2)
    });
    assert!(result);
    assert_eq!(visited.get(), 2);

    let visited_all = Cell::new(0usize);
    assert!(mapping.each(|_| {
        visited_all.set(visited_all.get() + 1);
        true
    }));
    assert_eq!(visited_all.get(), 3);
}

#[test]
fn repair_shrunken_nested_range_with_trailing_growth() {
    // Old sequence: boxes [A, A, B, B, B, C] with stored ranges
    // (node=A, [0, 2)) and (node=B, [2, 5)). After B's content shrank and a
    // trailing C box appeared twice, the new sequence is [A, A, B, C, C].
    // Repair must leave (A, [0, 2)) unchanged and yield (B, [2, 3)).
    let a = 1;
    let b = 2;
    let c = 3;
    let old_boxes = boxes_of(&[a, a, b, b, b, c]);
    let new_boxes = boxes_of(&[a, a, b, c, c]);

    let mut mapping = ElementMapping::new();
    mapping.add_mapping(handle(a), &IndexRange::new(0, 2));
    mapping.add_mapping(handle(b), &IndexRange::new(2, 3));

    mapping.repair_for_box_changes(&old_boxes, &new_boxes);

    let stored = ranges_of(&mapping);
    assert_eq!(stored.len(), 2);
    assert_eq!(stored[0].1.node, handle(a));
    assert_eq!(stored[0].1.range.begin(), 0);
    assert_eq!(stored[0].1.range.length(), 2);
    assert_eq!(stored[1].1.node, handle(b));
    assert_eq!(stored[1].1.range.begin(), 2);
    assert_eq!(stored[1].1.range.length(), 1);
}

#[test]
fn repair_is_identity_when_boxes_unchanged() {
    // Nested ranges over an unchanged box sequence come back unchanged.
    let a = 10;
    let b = 20;
    let old_boxes = boxes_of(&[a, b, b, a]);
    let new_boxes = boxes_of(&[a, b, b, a]);

    let mut mapping = ElementMapping::new();
    mapping.add_mapping(handle(a), &IndexRange::new(0, 4));
    mapping.add_mapping(handle(b), &IndexRange::new(1, 2));

    mapping.repair_for_box_changes(&old_boxes, &new_boxes);

    let stored = ranges_of(&mapping);
    assert_eq!(stored[0].1.range.begin(), 0);
    assert_eq!(stored[0].1.range.length(), 4);
    assert_eq!(stored[1].1.range.begin(), 1);
    assert_eq!(stored[1].1.range.length(), 2);
}

#[test]
fn repair_keeps_descendant_inside_ancestor() {
    // B is nested inside A before repair; after B's boxes shrank, B's new
    // interval must remain fully contained within A's new interval.
    let a = 10;
    let b = 20;
    let old_boxes = boxes_of(&[a, b, b, a]);
    let new_boxes = boxes_of(&[a, b, a]);

    let mut mapping = ElementMapping::new();
    mapping.add_mapping(handle(a), &IndexRange::new(0, 4));
    mapping.add_mapping(handle(b), &IndexRange::new(1, 2));

    mapping.repair_for_box_changes(&old_boxes, &new_boxes);

    let stored = ranges_of(&mapping);
    let (a_range, b_range) = (stored[0].1.range, stored[1].1.range);
    assert!(a_range.begin() <= b_range.begin());
    assert!(b_range.end() <= a_range.end());
    assert_eq!(a_range.begin(), 0);
    assert_eq!(a_range.length(), 3);
    assert_eq!(b_range.begin(), 1);
    assert_eq!(b_range.length(), 1);
}

#[test]
fn repair_gives_vanished_node_an_empty_range() {
    // B's boxes vanished between the passes: its range degenerates to length
    // zero at the position the scan had reached, and every stored range is
    // still handled (the scan covers the whole old sequence).
    let a = 1;
    let b = 2;
    let old_boxes = boxes_of(&[a, b]);
    let new_boxes = boxes_of(&[a]);

    let mut mapping = ElementMapping::new();
    mapping.add_mapping(handle(a), &IndexRange::new(0, 1));
    mapping.add_mapping(handle(b), &IndexRange::new(1, 1));

    mapping.repair_for_box_changes(&old_boxes, &new_boxes);

    let stored = ranges_of(&mapping);
    assert_eq!(stored[0].1.range.begin(), 0);
    assert_eq!(stored[0].1.range.length(), 1);
    assert_eq!(stored[1].1.range.begin(), 1);
    assert_eq!(stored[1].1.range.length(), 0);
}

#[test]
fn repair_handles_empty_new_sequence() {
    let a = 4;
    let old_boxes = boxes_of(&[a, a]);
    let new_boxes = boxes_of(&[]);

    let mut mapping = ElementMapping::new();
    mapping.add_mapping(handle(a), &IndexRange::new(0, 2));

    mapping.repair_for_box_changes(&old_boxes, &new_boxes);

    let stored = ranges_of(&mapping);
    assert_eq!(stored[0].1.range.begin(), 0);
    assert_eq!(stored[0].1.range.length(), 0);
}

#[test]
fn repair_of_empty_mapping_terminates_and_stores_nothing() {
    let mut mapping = ElementMapping::new();
    let old_boxes = boxes_of(&[1, 2, 3]);
    let new_boxes = boxes_of(&[3, 2, 1]);
    mapping.repair_for_box_changes(&old_boxes, &new_boxes);
    assert_eq!(mapping.eachi().len(), 0);
}

#[test]
fn node_range_new_copies_the_interval() {
    let range = IndexRange::new(3, 4);
    let nr = NodeRange::new(handle(9), &range);
    assert_eq!(nr.node, handle(9));
    assert_eq!(nr.range.begin(), 3);
    assert_eq!(nr.range.length(), 4);
    assert_eq!(nr.range.end(), 7);
}
