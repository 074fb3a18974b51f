//! The node-to-box-range mapping and its repair algorithm.
//!
//! Box generation produces, once per layout pass, an ordered sequence of
//! boxes for a subtree. The mapping records, for each node, the half-open
//! interval of that sequence its boxes occupy. A later pass regenerates the
//! box sequence with no relation in length or grouping to the previous one;
//! `repair_for_box_changes` walks the old and the new sequence together and
//! recomputes every stored interval against the new sequence, using only each
//! box's owning-node identity as the correspondence signal.

use vstd::prelude::*;

use crate::node::OpaqueNode;
use crate::range::IndexRange;

verus! {

/// A generated layout box, as this layer sees it: nothing but the identity of
/// the node that owns it. Box content plays no part in the mapping.
#[derive(Clone, Copy, PartialEq, Eq, Structural, Debug)]
pub struct LayoutBox {
    /// The node whose box generation produced this box.
    pub node: OpaqueNode,
}

/// A range of nodes: an opaque node handle paired with the half-open interval
/// of a box sequence that realizes the node.
#[derive(Clone, Copy, PartialEq, Eq, Structural, Debug)]
pub struct NodeRange {
    /// The node the interval belongs to.
    pub node: OpaqueNode,
    /// The interval of box indices, relative to one box-sequence snapshot.
    pub range: IndexRange,
}

impl NodeRange {
    /// Pairs a node with the interval its boxes occupy.
    pub fn new(node: OpaqueNode, range: &IndexRange) -> (r: NodeRange)
        ensures
            r == (NodeRange { node, range: *range }),
    {
        NodeRange { node, range: *range }
    }
}

/// First index of a stored range, as a mathematical integer.
pub open spec fn nr_begin(e: NodeRange) -> int {
    e.range.begin as int
}

/// One-past-the-end index of a stored range, as a mathematical integer.
pub open spec fn nr_end(e: NodeRange) -> int {
    e.range.begin + e.range.length
}

/// The interval of `outer` contains the interval of `inner`.
pub open spec fn encloses(outer: NodeRange, inner: NodeRange) -> bool {
    nr_begin(outer) <= nr_begin(inner) && nr_end(inner) <= nr_end(outer)
}

/// Internal consistency of the stored ranges against the box sequence their
/// intervals are expressed in, with `old_len` boxes:
/// - every interval is non-empty and lies inside the sequence (a node is
///   recorded only once its generated boxes are known, and it then occupies
///   at least one box);
/// - stored order is visitation order, outer-to-inner: begins never decrease,
///   and two ranges either nest (the earlier one encloses the later one) or
///   are disjoint (the later one starts at or after the earlier one's end).
///
/// The repair scan's stack discipline assumes exactly this and preserves it.
pub open spec fn entries_wf(entries: Seq<NodeRange>, old_len: int) -> bool {
    &&& forall|k: int|
        0 <= k < entries.len() ==> 1 <= (#[trigger] entries[k]).range.length && nr_end(entries[k])
            <= old_len
    &&& forall|k1: int, k2: int|
        0 <= k1 < k2 < entries.len() ==> {
            &&& nr_begin(#[trigger] entries[k1]) <= nr_begin(#[trigger] entries[k2])
            &&& (nr_end(entries[k2]) <= nr_end(entries[k1]) || nr_begin(entries[k2]) >= nr_end(
                entries[k1],
            ))
        }
}

/// The first index at or after `j` whose box belongs to `node`, or
/// `new_boxes.len()` if no box at or after `j` does: how far the repair scan
/// slides through the new sequence past boxes with no counterpart here.
pub open spec fn slide(new_boxes: Seq<LayoutBox>, j: int, node: OpaqueNode) -> int
    decreases new_boxes.len() - j,
{
    if j < 0 || j >= new_boxes.len() {
        j
    } else if new_boxes[j].node == node {
        j
    } else {
        slide(new_boxes, j + 1, node)
    }
}

/// Where the scan cursor stands after handling one old box owned by `node`,
/// starting from cursor position `j`: slide to `node`'s next box and move
/// past it. When no box of `node` remains, the cursor stays where it was:
/// boxes slid over count towards a range only when the slide found the
/// node's counterpart.
pub open spec fn consume(new_boxes: Seq<LayoutBox>, j: int, node: OpaqueNode) -> int {
    let s = slide(new_boxes, j, node);
    if s < new_boxes.len() {
        s + 1
    } else {
        j
    }
}

/// The new-sequence cursor of the repair scan after it has consumed the first
/// `i` old boxes: both scans start at zero, and each old box advances the
/// new-sequence cursor by one `consume` step.
pub open spec fn cursor(old_boxes: Seq<LayoutBox>, new_boxes: Seq<LayoutBox>, i: int) -> int
    decreases i,
{
    if i <= 0 {
        0
    } else {
        consume(new_boxes, cursor(old_boxes, new_boxes, i - 1), old_boxes[i - 1].node)
    }
}

/// The interval the repair scan derives for a stored interval `r`: it begins
/// where the cursor stood when the scan reached `r.begin` old boxes, and ends
/// where the cursor stood when the scan reached `r`'s old end.
pub open spec fn repaired_range(
    old_boxes: Seq<LayoutBox>,
    new_boxes: Seq<LayoutBox>,
    r: IndexRange,
) -> IndexRange {
    let b = cursor(old_boxes, new_boxes, r.begin as int);
    let e = cursor(old_boxes, new_boxes, r.begin + r.length);
    IndexRange { begin: b as usize, length: (e - b) as usize }
}

/// The stored ranges after repair: each keeps its node and has its interval
/// re-derived against the new box sequence.
pub open spec fn repaired(
    old_boxes: Seq<LayoutBox>,
    new_boxes: Seq<LayoutBox>,
    entries: Seq<NodeRange>,
) -> Seq<NodeRange> {
    Seq::new(
        entries.len(),
        |k: int|
            NodeRange {
                node: entries[k].node,
                range: repaired_range(old_boxes, new_boxes, entries[k].range),
            },
    )
}

/// Basic facts about one slide step: the cursor never moves backwards, never
/// leaves the sequence, stops on a box of the sought node if it stops inside
/// the sequence, and slides only past boxes of other nodes.
pub proof fn lemma_slide_props(new_boxes: Seq<LayoutBox>, j: int, node: OpaqueNode)
    requires
        0 <= j <= new_boxes.len(),
    ensures
        j <= slide(new_boxes, j, node) <= new_boxes.len(),
        slide(new_boxes, j, node) < new_boxes.len() ==> new_boxes[slide(
            new_boxes,
            j,
            node,
        )].node == node,
        forall|t: int|
            j <= t < slide(new_boxes, j, node) ==> (#[trigger] new_boxes[t]).node != node,
    decreases new_boxes.len() - j,
{
    if j < new_boxes.len() && new_boxes[j].node != node {
        lemma_slide_props(new_boxes, j + 1, node);
    }
}

/// Total coverage of the scan: however many old boxes have been consumed, the
/// new-sequence cursor stands between zero and the new sequence's length. The
/// scan is defined for every finite, internally consistent pair of sequences.
pub proof fn lemma_cursor_bounds(old_boxes: Seq<LayoutBox>, new_boxes: Seq<LayoutBox>, i: int)
    requires
        0 <= i,
    ensures
        0 <= cursor(old_boxes, new_boxes, i) <= new_boxes.len(),
    decreases i,
{
    if i > 0 {
        lemma_cursor_bounds(old_boxes, new_boxes, i - 1);
        lemma_slide_props(new_boxes, cursor(old_boxes, new_boxes, i - 1), old_boxes[i - 1].node);
    }
}

/// The scan cursor is monotone: consuming more old boxes never moves the
/// new-sequence cursor backwards.
pub proof fn lemma_cursor_monotone(
    old_boxes: Seq<LayoutBox>,
    new_boxes: Seq<LayoutBox>,
    i1: int,
    i2: int,
)
    requires
        0 <= i1 <= i2,
    ensures
        cursor(old_boxes, new_boxes, i1) <= cursor(old_boxes, new_boxes, i2),
    decreases i2 - i1,
{
    if i1 < i2 {
        lemma_cursor_monotone(old_boxes, new_boxes, i1, i2 - 1);
        lemma_cursor_bounds(old_boxes, new_boxes, i2 - 1);
        lemma_slide_props(new_boxes, cursor(old_boxes, new_boxes, i2 - 1), old_boxes[i2 - 1].node);
    }
}

/// When the new sequence has boxes for the same nodes in the same order and
/// count as the old one, the scan cursors move in lockstep.
pub proof fn lemma_cursor_identity(old_boxes: Seq<LayoutBox>, new_boxes: Seq<LayoutBox>, i: int)
    requires
        old_boxes.len() == new_boxes.len(),
        forall|t: int|
            0 <= t < old_boxes.len() ==> (#[trigger] old_boxes[t]).node == new_boxes[t].node,
        0 <= i <= old_boxes.len(),
    ensures
        cursor(old_boxes, new_boxes, i) == i,
    decreases i,
{
    if i > 0 {
        lemma_cursor_identity(old_boxes, new_boxes, i - 1);
        assert(new_boxes[i - 1].node == old_boxes[i - 1].node);
        assert(slide(new_boxes, i - 1, old_boxes[i - 1].node) == i - 1);
    }
}

/// Idempotence under no change: when box regeneration produced boxes for the
/// same nodes in the same relative order and count, repairing leaves every
/// stored range exactly as it was.
pub proof fn lemma_repair_identity_when_unchanged(
    old_boxes: Seq<LayoutBox>,
    new_boxes: Seq<LayoutBox>,
    entries: Seq<NodeRange>,
)
    requires
        entries_wf(entries, old_boxes.len() as int),
        old_boxes.len() == new_boxes.len(),
        forall|t: int|
            0 <= t < old_boxes.len() ==> (#[trigger] old_boxes[t]).node == new_boxes[t].node,
    ensures
        repaired(old_boxes, new_boxes, entries) == entries,
{
    let rep = repaired(old_boxes, new_boxes, entries);
    assert forall|k: int| 0 <= k < entries.len() implies rep[k] == entries[k] by {
        lemma_cursor_identity(old_boxes, new_boxes, nr_begin(entries[k]));
        lemma_cursor_identity(old_boxes, new_boxes, nr_end(entries[k]));
    }
    assert(rep =~= entries);
}

/// Nesting preservation: when the stored range at `a` encloses the stored
/// range at `d` before repair, the repaired interval of `d` remains fully
/// contained within the repaired interval of `a`.
pub proof fn lemma_repair_preserves_nesting(
    old_boxes: Seq<LayoutBox>,
    new_boxes: Seq<LayoutBox>,
    entries: Seq<NodeRange>,
    a: int,
    d: int,
)
    requires
        entries_wf(entries, old_boxes.len() as int),
        new_boxes.len() <= usize::MAX,
        0 <= a < entries.len(),
        0 <= d < entries.len(),
        encloses(entries[a], entries[d]),
    ensures
        encloses(
            repaired(old_boxes, new_boxes, entries)[a],
            repaired(old_boxes, new_boxes, entries)[d],
        ),
{
    lemma_cursor_bounds(old_boxes, new_boxes, nr_begin(entries[a]));
    lemma_cursor_bounds(old_boxes, new_boxes, nr_begin(entries[d]));
    lemma_cursor_bounds(old_boxes, new_boxes, nr_end(entries[a]));
    lemma_cursor_bounds(old_boxes, new_boxes, nr_end(entries[d]));
    lemma_cursor_monotone(old_boxes, new_boxes, nr_begin(entries[a]), nr_begin(entries[d]));
    lemma_cursor_monotone(old_boxes, new_boxes, nr_begin(entries[d]), nr_end(entries[d]));
    lemma_cursor_monotone(old_boxes, new_boxes, nr_begin(entries[a]), nr_end(entries[a]));
    lemma_cursor_monotone(old_boxes, new_boxes, nr_end(entries[d]), nr_end(entries[a]));
}

/// The repair scan preserves the mapping's ordering invariant: repaired
/// begins stay non-decreasing in stored order, and any two repaired ranges
/// still either nest or stay disjoint. Only non-emptiness can be lost: a
/// node whose boxes vanished keeps an empty interval.
pub proof fn lemma_repair_preserves_order(
    old_boxes: Seq<LayoutBox>,
    new_boxes: Seq<LayoutBox>,
    entries: Seq<NodeRange>,
    k1: int,
    k2: int,
)
    requires
        entries_wf(entries, old_boxes.len() as int),
        new_boxes.len() <= usize::MAX,
        0 <= k1 < k2 < entries.len(),
    ensures
        nr_begin(repaired(old_boxes, new_boxes, entries)[k1]) <= nr_begin(
            repaired(old_boxes, new_boxes, entries)[k2],
        ),
        nr_end(repaired(old_boxes, new_boxes, entries)[k2]) <= nr_end(
            repaired(old_boxes, new_boxes, entries)[k1],
        ) || nr_begin(repaired(old_boxes, new_boxes, entries)[k2]) >= nr_end(
            repaired(old_boxes, new_boxes, entries)[k1],
        ),
{
    lemma_cursor_bounds(old_boxes, new_boxes, nr_begin(entries[k1]));
    lemma_cursor_bounds(old_boxes, new_boxes, nr_begin(entries[k2]));
    lemma_cursor_bounds(old_boxes, new_boxes, nr_end(entries[k1]));
    lemma_cursor_bounds(old_boxes, new_boxes, nr_end(entries[k2]));
    lemma_cursor_monotone(old_boxes, new_boxes, nr_begin(entries[k1]), nr_begin(entries[k2]));
    lemma_cursor_monotone(old_boxes, new_boxes, nr_begin(entries[k1]), nr_end(entries[k1]));
    lemma_cursor_monotone(old_boxes, new_boxes, nr_begin(entries[k2]), nr_end(entries[k2]));
    if nr_end(entries[k2]) <= nr_end(entries[k1]) {
        lemma_cursor_monotone(old_boxes, new_boxes, nr_end(entries[k2]), nr_end(entries[k1]));
    } else {
        lemma_cursor_monotone(old_boxes, new_boxes, nr_end(entries[k1]), nr_begin(entries[k2]));
    }
}

/// A work item of the repair scan: a stored range whose begin in the new
/// sequence is known but whose end is not yet.
#[derive(Clone, Copy)]
struct WorkItem {
    /// The new-sequence index at which the range's content started.
    begin_idx: usize,
    /// The index of the stored range in the mapping.
    entry_idx: usize,
}

/// The stored range at index `k` is recorded on the repair stack.
spec fn on_stack(stack: Seq<WorkItem>, k: int) -> bool {
    exists|t: int| 0 <= t < stack.len() && (#[trigger] stack[t]).entry_idx as int == k
}

/// Bookkeeping invariant of the repair stack. The stack holds pushed, not yet
/// finalized ranges in stored order, each carrying the cursor captured when
/// the scan reached the range's old begin. Nesting makes recorded old ends
/// non-increasing towards the top, and every recorded old end lies at or
/// beyond `min_end`.
spec fn stack_ok(
    stack: Seq<WorkItem>,
    orig: Seq<NodeRange>,
    old_boxes: Seq<LayoutBox>,
    new_boxes: Seq<LayoutBox>,
    entries_k: int,
    min_end: int,
) -> bool {
    &&& forall|t: int| 0 <= t < stack.len() ==> (#[trigger] stack[t]).entry_idx < entries_k
    &&& forall|t: int|
        0 <= t < stack.len() ==> (#[trigger] stack[t]).begin_idx as int == cursor(
            old_boxes,
            new_boxes,
            nr_begin(orig[stack[t].entry_idx as int]),
        )
    &&& forall|t1: int, t2: int|
        0 <= t1 < t2 < stack.len() ==> (#[trigger] stack[t1]).entry_idx < (#[trigger] stack[t2]).entry_idx
    &&& forall|t1: int, t2: int|
        0 <= t1 < t2 < stack.len() ==> nr_end(orig[(#[trigger] stack[t2]).entry_idx as int])
            <= nr_end(orig[(#[trigger] stack[t1]).entry_idx as int])
    &&& forall|t: int|
        0 <= t < stack.len() ==> nr_end(orig[(#[trigger] stack[t]).entry_idx as int]) >= min_end
}

/// What the scan has done to the stored ranges so far: ranges not yet reached
/// and ranges still on the stack keep their pre-repair value; ranges pushed and
/// already popped carry their repaired interval.
spec fn entries_state(
    entries: Seq<NodeRange>,
    orig: Seq<NodeRange>,
    stack: Seq<WorkItem>,
    old_boxes: Seq<LayoutBox>,
    new_boxes: Seq<LayoutBox>,
    entries_k: int,
) -> bool {
    &&& entries.len() == orig.len()
    &&& forall|k: int|
        0 <= k < orig.len() && (k >= entries_k || on_stack(stack, k)) ==> (#[trigger] entries[k])
            == orig[k]
    &&& forall|k: int|
        0 <= k < entries_k && k < orig.len() && !on_stack(stack, k) ==> (#[trigger] entries[k])
            == (NodeRange {
            node: orig[k].node,
            range: repaired_range(old_boxes, new_boxes, orig[k].range),
        })
}

/// The ordered collection of node ranges for one layout subtree computation,
/// in insertion order: outer-to-inner for nested ranges, visitation order
/// otherwise.
pub struct ElementMapping {
    entries: Vec<NodeRange>,
}

impl View for ElementMapping {
    type V = Seq<NodeRange>;

    closed spec fn view(&self) -> Seq<NodeRange> {
        self.entries@
    }
}

impl ElementMapping {
    /// Creates an empty mapping.
    pub fn new() -> (r: ElementMapping)
        ensures
            r@ == Seq::<NodeRange>::empty(),
    {
        ElementMapping { entries: Vec::new() }
    }

    /// Appends a new node range; called once per node the first time its
    /// generated boxes are known.
    pub fn add_mapping(&mut self, node: OpaqueNode, range: &IndexRange)
        ensures
            final(self)@ == old(self)@.push(NodeRange { node, range: *range }),
    {
        self.entries.push(NodeRange::new(node, range))
    }

    /// Visits the stored ranges in insertion order, stopping early as soon as
    /// the callback returns false; stored state is never affected. Always
    /// returns true, as a convenience for traversal protocols that thread a
    /// continue flag.
    pub fn each<F: Fn(NodeRange) -> bool>(&self, callback: F) -> (r: bool)
        requires
            forall|i: int|
                0 <= i < self@.len() ==> #[trigger] call_requires(callback, (self@[i],)),
        ensures
            r,
    {
        let mut idx: usize = 0;
        while idx < self.entries.len()
            invariant
                idx <= self@.len(),
                forall|i: int|
                    0 <= i < self@.len() ==> #[trigger] call_requires(callback, (self@[i],)),
            ensures
                idx <= self@.len(),
            decreases self@.len() - idx,
        {
            if !callback(self.entries[idx]) {
                break ;
            }
            idx = idx + 1;
        }
        true
    }

    /// Hands back the stored ranges in insertion order, each paired with its
    /// position, as a read-only snapshot.
    pub fn eachi(&self) -> (r: Vec<(usize, NodeRange)>)
        ensures
            r@.len() == self@.len(),
            forall|i: int|
                0 <= i < self@.len() ==> (#[trigger] r@[i]).0 == i && r@[i].1 == self@[i],
    {
        let mut pairs: Vec<(usize, NodeRange)> = Vec::new();
        let mut idx: usize = 0;
        while idx < self.entries.len()
            invariant
                idx <= self@.len(),
                pairs@.len() == idx,
                forall|i: int|
                    0 <= i < idx ==> (#[trigger] pairs@[i]).0 == i && pairs@[i].1 == self@[i],
            decreases self@.len() - idx,
        {
            pairs.push((idx, self.entries[idx]));
            idx = idx + 1;
        }
        pairs
    }

    /// Recomputes every stored interval after box regeneration. `old_boxes`
    /// is the sequence every stored interval is expressed against;
    /// `new_boxes` is the sequence the pass just completed produced. The scan
    /// walks both sequences left to right in one pass, matching boxes by
    /// owning-node identity only, and rewrites each stored range to
    /// `repaired_range` of its old interval. A node whose boxes vanished
    /// between the passes keeps an empty interval at whatever position the
    /// scan had reached; callers must tolerate empty ranges.
    #[verifier::loop_isolation(false)]
    #[verifier::rlimit(100)]
    pub fn repair_for_box_changes(
        &mut self,
        old_boxes: &Vec<LayoutBox>,
        new_boxes: &Vec<LayoutBox>,
    )
        requires
            entries_wf(old(self)@, old_boxes@.len() as int),
        ensures
            final(self)@ == repaired(old_boxes@, new_boxes@, old(self)@),
    {
        let ghost orig: Seq<NodeRange> = self@;
        let old_len: usize = old_boxes.len();
        let new_len: usize = new_boxes.len();
        let mut old_i: usize = 0;
        let mut new_j: usize = 0;
        // index into entries: how many stored ranges the scan has reached
        let mut entries_k: usize = 0;
        let mut repair_stack: Vec<WorkItem> = Vec::new();

        while old_i < old_len
            invariant
                old_i <= old_len,
                entries_k <= orig.len(),
                new_j as int == cursor(old_boxes@, new_boxes@, old_i as int),
                new_j <= new_len,
                forall|k: int| 0 <= k < entries_k ==> nr_begin(#[trigger] orig[k]) < old_i as int,
                forall|k: int|
                    entries_k <= k < orig.len() ==> nr_begin(#[trigger] orig[k]) >= old_i as int,
                stack_ok(
                    repair_stack@,
                    orig,
                    old_boxes@,
                    new_boxes@,
                    entries_k as int,
                    old_i as int + 1,
                ),
                forall|k: int|
                    0 <= k < entries_k && nr_end(#[trigger] orig[k]) > old_i as int ==> on_stack(
                        repair_stack@,
                        k,
                    ),
                entries_state(
                    self.entries@,
                    orig,
                    repair_stack@,
                    old_boxes@,
                    new_boxes@,
                    entries_k as int,
                ),
            decreases old_len - old_i,
        {
            // push a work item for every stored range whose old interval
            // begins at the current old box
            while entries_k < self.entries.len() && old_i == self.entries[entries_k].range.begin
                invariant
                    entries_k <= orig.len(),
                    forall|k: int|
                        0 <= k < entries_k ==> nr_begin(#[trigger] orig[k]) <= old_i as int,
                    forall|k: int|
                        entries_k <= k < orig.len() ==> nr_begin(#[trigger] orig[k])
                            >= old_i as int,
                    stack_ok(
                        repair_stack@,
                        orig,
                        old_boxes@,
                        new_boxes@,
                        entries_k as int,
                        old_i as int + 1,
                    ),
                    forall|k: int|
                        0 <= k < entries_k && nr_end(#[trigger] orig[k]) > old_i as int
                            ==> on_stack(repair_stack@, k),
                    entries_state(
                        self.entries@,
                        orig,
                        repair_stack@,
                        old_boxes@,
                        new_boxes@,
                        entries_k as int,
                    ),
                decreases orig.len() - entries_k,
            {
                proof {
                    assert(self.entries@[entries_k as int] == orig[entries_k as int]);
                    assert(nr_begin(orig[entries_k as int]) == old_i as int);
                }
                let item = WorkItem { begin_idx: new_j, entry_idx: entries_k };
                let ghost prev_stack = repair_stack@;
                repair_stack.push(item);
                proof {
                    assert forall|k: int| on_stack(prev_stack, k) implies on_stack(
                        repair_stack@,
                        k,
                    ) by {
                        let t = choose|t: int|
                            0 <= t < prev_stack.len() && (#[trigger] prev_stack[t]).entry_idx as int
                                == k;
                        assert(repair_stack@[t].entry_idx as int == k);
                    }
                    assert(repair_stack@[prev_stack.len() as int] == item);
                    assert(on_stack(repair_stack@, entries_k as int));
                    // the new item nests inside every item already on the
                    // stack: its old begin lies strictly inside their old
                    // intervals, so nested-or-disjoint forces nesting
                    assert forall|t: int| 0 <= t < prev_stack.len() implies nr_end(
                        orig[entries_k as int],
                    ) <= nr_end(orig[prev_stack[t].entry_idx as int]) by {
                        let earlier = prev_stack[t].entry_idx as int;
                        assert(nr_begin(orig[earlier]) <= nr_begin(orig[entries_k as int]));
                        assert(nr_end(orig[earlier]) >= old_i as int + 1);
                    }
                }
                entries_k = entries_k + 1;
            }
            proof {
                // every range not yet reached begins strictly after old_i
                if entries_k < orig.len() {
                    assert(self.entries@[entries_k as int] == orig[entries_k as int]);
                    assert forall|k: int| entries_k <= k < orig.len() implies nr_begin(
                        #[trigger] orig[k],
                    ) > old_i as int by {
                        assert(nr_begin(orig[entries_k as int]) != old_i as int);
                        if k > entries_k as int {
                            assert(nr_begin(orig[entries_k as int]) <= nr_begin(orig[k]));
                        }
                    }
                }
            }

            // probe forward for the next new box owned by the current old
            // box's node, sliding past boxes with no counterpart at this
            // point in the old sequence
            let current_node = old_boxes[old_i].node;
            let ghost j0: int = new_j as int;
            let mut probe: usize = new_j;
            while probe < new_len && current_node != new_boxes[probe].node
                invariant
                    j0 <= probe as int,
                    probe <= new_len,
                    slide(new_boxes@, j0, current_node) == slide(
                        new_boxes@,
                        probe as int,
                        current_node,
                    ),
                decreases new_len - probe,
            {
                proof {
                    assert(slide(new_boxes@, probe as int, current_node) == slide(
                        new_boxes@,
                        probe as int + 1,
                        current_node,
                    ));
                }
                probe = probe + 1;
            }
            proof {
                assert(slide(new_boxes@, probe as int, current_node) == probe as int);
            }
            // one old box consumed: move the cursor past its counterpart if
            // one was found; otherwise the cursor stays
            if probe < new_len {
                new_j = probe + 1;
            }
            old_i = old_i + 1;
            proof {
                assert(new_j as int == consume(new_boxes@, j0, current_node));
                assert(new_j as int == cursor(old_boxes@, new_boxes@, old_i as int));
            }

            // pop and finalize every range whose old interval ends at the new
            // old_i; nesting guarantees they sit on top of the stack
            proof {
                if repair_stack@.len() > 0 {
                    assert(on_stack(
                        repair_stack@,
                        repair_stack@[repair_stack@.len() - 1].entry_idx as int,
                    ));
                }
            }
            while repair_stack.len() > 0 && old_i == self.entries[repair_stack[repair_stack.len()
                - 1].entry_idx].range.end()
                invariant
                    stack_ok(
                        repair_stack@,
                        orig,
                        old_boxes@,
                        new_boxes@,
                        entries_k as int,
                        old_i as int,
                    ),
                    forall|k: int|
                        0 <= k < entries_k && nr_end(#[trigger] orig[k]) > old_i as int
                            ==> on_stack(repair_stack@, k),
                    entries_state(
                        self.entries@,
                        orig,
                        repair_stack@,
                        old_boxes@,
                        new_boxes@,
                        entries_k as int,
                    ),
                    repair_stack@.len() > 0 ==> repair_stack@[repair_stack@.len() - 1].entry_idx
                        < self.entries@.len() && self.entries@[repair_stack@[repair_stack@.len()
                        - 1].entry_idx as int] == orig[repair_stack@[repair_stack@.len()
                        - 1].entry_idx as int],
                decreases repair_stack@.len(),
            {
                let ghost prev_stack = repair_stack@;
                let popped = repair_stack.pop().unwrap();
                let ghost kp: int = popped.entry_idx as int;
                proof {
                    assert(popped == prev_stack.last());
                    assert(repair_stack@ == prev_stack.drop_last());
                    assert(on_stack(prev_stack, kp));
                    assert(nr_end(orig[kp]) == old_i as int);
                    assert(nr_begin(orig[kp]) < old_i as int);
                    lemma_cursor_monotone(old_boxes@, new_boxes@, nr_begin(orig[kp]), old_i as int);
                    assert(popped.begin_idx <= new_j);
                    // the popped index appears nowhere else on the stack
                    assert forall|t: int| 0 <= t < repair_stack@.len() implies repair_stack@[t].entry_idx
                        as int != kp by {
                        assert(prev_stack[t].entry_idx < prev_stack[prev_stack.len()
                            - 1].entry_idx);
                    }
                    assert(!on_stack(repair_stack@, kp));
                }
                let length = new_j - popped.begin_idx;
                let new_range = IndexRange::new(popped.begin_idx, length);
                let ghost prev_entries = self.entries@;
                self.entries[popped.entry_idx].range = new_range;
                proof {
                    assert(self.entries@ == prev_entries.update(kp, self.entries@[kp]));
                    assert(self.entries@[kp].node == orig[kp].node);
                    assert(self.entries@[kp].range == repaired_range(
                        old_boxes@,
                        new_boxes@,
                        orig[kp].range,
                    ));
                    // membership in the shrunken stack
                    assert forall|k: int| on_stack(repair_stack@, k) implies on_stack(
                        prev_stack,
                        k,
                    ) && k != kp by {
                        let t = choose|t: int|
                            0 <= t < repair_stack@.len() && (#[trigger] repair_stack@[t]).entry_idx
                                as int == k;
                        assert(prev_stack[t].entry_idx as int == k);
                    }
                    assert forall|k: int| on_stack(prev_stack, k) && k != kp implies on_stack(
                        repair_stack@,
                        k,
                    ) by {
                        let t = choose|t: int|
                            0 <= t < prev_stack.len() && (#[trigger] prev_stack[t]).entry_idx as int
                                == k;
                        assert(t < prev_stack.len() - 1);
                        assert(repair_stack@[t].entry_idx as int == k);
                    }
                    if repair_stack@.len() > 0 {
                        assert(on_stack(
                            repair_stack@,
                            repair_stack@[repair_stack@.len() - 1].entry_idx as int,
                        ));
                    }
                }
            }
            proof {
                // on exit the top, which records the smallest old end still
                // on the stack, ends beyond old_i, so every recorded end does
                if repair_stack@.len() > 0 {
                    assert forall|t: int| 0 <= t < repair_stack@.len() implies nr_end(
                        orig[(#[trigger] repair_stack@[t]).entry_idx as int],
                    ) >= old_i as int + 1 by {
                        if t < repair_stack@.len() - 1 {
                            assert(nr_end(orig[repair_stack@[repair_stack@.len()
                                - 1].entry_idx as int]) <= nr_end(
                                orig[repair_stack@[t].entry_idx as int],
                            ));
                        }
                    }
                }
            }
        }
        proof {
            assert(entries_k == orig.len()) by {
                if entries_k < orig.len() {
                    assert(nr_begin(orig[entries_k as int]) >= old_len as int);
                    assert(nr_end(orig[entries_k as int]) <= old_len as int);
                    assert(orig[entries_k as int].range.length >= 1);
                }
            }
            let rep = repaired(old_boxes@, new_boxes@, orig);
            assert forall|k: int| 0 <= k < orig.len() implies self.entries@[k] == rep[k] by {
                assert(nr_end(orig[k]) <= old_len as int);
                assert(!on_stack(repair_stack@, k)) by {
                    if on_stack(repair_stack@, k) {
                        let t = choose|t: int|
                            0 <= t < repair_stack@.len() && (#[trigger] repair_stack@[t]).entry_idx
                                as int == k;
                        assert(nr_end(orig[k]) >= old_len as int + 1);
                    }
                }
            }
            assert(self.entries@ =~= rep);
        }
    }
}

} // verus!
