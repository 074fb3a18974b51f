//! The per-node side table of layout-derived data.
//!
//! One `PrivateLayoutData` exists per document node, created lazily the first
//! time layout visits the node. It carries the products of the pipeline
//! stages that precede painting: applicable declaration groups from selector
//! matching, computed-style snapshots, pseudo-element links, the
//! restyle-damage classification, the box-construction result and the
//! parallel-traversal bookkeeping.

use std::sync::Arc;

use vstd::prelude::*;

use crate::node::AbstractNode;
use crate::style::{ComputedValues, PropertyDeclaration, PseudoElement};
use crate::wrapper::LayoutPseudoNode;

verus! {

/// An opaque handle on the channel back to the layout task. This layer only
/// stores it alongside the node's layout data; sending on it belongs to the
/// callers.
#[derive(Clone, Copy, PartialEq, Eq, Structural, Debug)]
pub struct LayoutChan {
    /// Opaque token standing for the channel endpoint.
    pub token: usize,
}

/// Bookkeeping the parallel-traversal scheduler keeps on each node. Owned
/// exclusively by the scheduler; opaque to this layer beyond its initial
/// value.
#[derive(Clone, Copy, PartialEq, Eq, Structural, Debug)]
pub struct DomParallelInfo {
    /// How many children of the node the scheduler has still to process.
    pub children_count: usize,
}

impl DomParallelInfo {
    /// Creates the bookkeeping for a node no traversal has visited yet.
    pub fn new() -> (r: DomParallelInfo)
        ensures
            r.children_count == 0,
    {
        DomParallelInfo { children_count: 0 }
    }
}

/// The result of flow construction for one node: either no result yet, or an
/// opaque reference to the flow or construction item the box-generation pass
/// produced. The payloads are opaque tokens; this layer stores and replaces
/// them, never reads them.
#[derive(Clone, Copy, PartialEq, Eq, Structural, Debug)]
pub enum ConstructionResult {
    /// Box generation has not run for the node yet.
    NoConstructionResult,
    /// Box generation produced a flow, named by an opaque token.
    FlowConstructionResult(usize),
    /// Box generation produced a construction item, named by an opaque token.
    ConstructionItemConstructionResult(usize),
}

/// A pseudo-element association: stable handles to the generating parent node
/// and to the generated pseudo child node.
#[derive(Clone, Copy, PartialEq, Eq, Structural, Debug)]
pub struct PseudoNode {
    /// The node whose style generated the pseudo-element.
    pub parent: LayoutPseudoNode,
    /// The generated pseudo node itself.
    pub child: LayoutPseudoNode,
}

/// The pseudo-element link capturing `parent` as the generating node and
/// `child` as the generated pseudo node.
pub open spec fn spec_pseudo_node(parent: AbstractNode, child: AbstractNode) -> PseudoNode {
    PseudoNode {
        parent: LayoutPseudoNode { node: parent },
        child: LayoutPseudoNode { node: child },
    }
}

impl PseudoNode {
    /// Records a pseudo-element association between a generating parent and
    /// its generated pseudo child.
    #[inline(always)]
    pub fn new_from_parent_and_child(parent: AbstractNode, child: AbstractNode) -> (r: PseudoNode)
        ensures
            r == spec_pseudo_node(parent, child),
    {
        PseudoNode {
            parent: LayoutPseudoNode::from_layout_pseudo(parent),
            child: LayoutPseudoNode::from_layout_pseudo(child),
        }
    }

    /// Resolves the association back to a usable reference to the generated
    /// pseudo node.
    #[inline(always)]
    pub fn get_pseudo_node(&mut self) -> (r: AbstractNode)
        ensures
            *final(self) == *old(self),
            r == old(self).child.node,
    {
        self.child.get_abstract()
    }
}

/// Data that layout associates with a node.
pub struct PrivateLayoutData {
    /// The results of CSS styling for this node.
    pub style: Option<Arc<ComputedValues>>,

    /// The results of CSS styling for this node's `before` pseudo-element, if
    /// any.
    pub before_style: Option<Arc<ComputedValues>>,

    /// The results of CSS styling for this node's `after` pseudo-element, if
    /// any.
    pub after_style: Option<Arc<ComputedValues>>,

    /// The applicable declaration groups selector matching found for the node
    /// itself. Each group is a shared, immutable, reference-counted list of
    /// declarations. Rebuilt at the start of each style-matching pass.
    pub applicable_declarations: Vec<Arc<Vec<PropertyDeclaration>>>,

    /// The applicable declaration groups for the node's `before`
    /// pseudo-element.
    pub before_applicable_declarations: Vec<Arc<Vec<PropertyDeclaration>>>,

    /// The applicable declaration groups for the node's `after`
    /// pseudo-element.
    pub after_applicable_declarations: Vec<Arc<Vec<PropertyDeclaration>>>,

    /// The link to the generated `before` pseudo node, if one was decided.
    pub before: Option<PseudoNode>,

    /// The link to the generated `after` pseudo node, if one was decided.
    pub after: Option<PseudoNode>,

    /// The link splicing a generated node into sibling traversal order, if
    /// one was decided.
    pub next_after_sibling: Option<PseudoNode>,

    /// Description of how to account for recent style changes; opaque to this
    /// layer.
    pub restyle_damage: Option<isize>,

    /// The current result of flow construction for this node.
    pub flow_construction_result: ConstructionResult,

    /// Information needed during parallel traversals.
    pub parallel: DomParallelInfo,
}

impl PrivateLayoutData {
    /// True of an entry as construction leaves it: empty declaration groups,
    /// no pseudo-links, no restyle damage, no box result yet, fresh traversal
    /// bookkeeping, and the given main-style seed.
    pub open spec fn is_fresh(self, style: Option<Arc<ComputedValues>>) -> bool {
        &&& self.style == style
        &&& self.before_style is None
        &&& self.after_style is None
        &&& self.applicable_declarations@ == Seq::<Arc<Vec<PropertyDeclaration>>>::empty()
        &&& self.before_applicable_declarations@ == Seq::<Arc<Vec<PropertyDeclaration>>>::empty()
        &&& self.after_applicable_declarations@ == Seq::<Arc<Vec<PropertyDeclaration>>>::empty()
        &&& self.before is None
        &&& self.after is None
        &&& self.next_after_sibling is None
        &&& self.restyle_damage is None
        &&& self.flow_construction_result == ConstructionResult::NoConstructionResult
        &&& self.parallel.children_count == 0
    }

    /// Creates new layout data, with no computed style yet.
    pub fn new() -> (r: PrivateLayoutData)
        ensures
            r.is_fresh(None),
    {
        PrivateLayoutData {
            style: None,
            before_style: None,
            after_style: None,
            applicable_declarations: Vec::new(),
            before_applicable_declarations: Vec::new(),
            after_applicable_declarations: Vec::new(),
            before: None,
            after: None,
            next_after_sibling: None,
            restyle_damage: None,
            flow_construction_result: ConstructionResult::NoConstructionResult,
            parallel: DomParallelInfo::new(),
        }
    }

    /// Creates new layout data, seeding the main computed-style slot.
    pub fn new_with_style(style: Option<Arc<ComputedValues>>) -> (r: PrivateLayoutData)
        ensures
            r.is_fresh(style),
    {
        PrivateLayoutData {
            style,
            before_style: None,
            after_style: None,
            applicable_declarations: Vec::new(),
            before_applicable_declarations: Vec::new(),
            after_applicable_declarations: Vec::new(),
            before: None,
            after: None,
            next_after_sibling: None,
            restyle_damage: None,
            flow_construction_result: ConstructionResult::NoConstructionResult,
            parallel: DomParallelInfo::new(),
        }
    }

    /// Clears the three applicable-declaration groups, in preparation for a
    /// fresh cascade pass. Computed-style snapshots, pseudo-links, restyle
    /// damage and box results belong to later pipeline stages and are left
    /// untouched.
    pub fn init_applicable_declarations(&mut self)
        ensures
            final(self).applicable_declarations@ == Seq::<Arc<Vec<PropertyDeclaration>>>::empty(),
            final(self).before_applicable_declarations@ == Seq::<
                Arc<Vec<PropertyDeclaration>>,
            >::empty(),
            final(self).after_applicable_declarations@ == Seq::<
                Arc<Vec<PropertyDeclaration>>,
            >::empty(),
            final(self).style == old(self).style,
            final(self).before_style == old(self).before_style,
            final(self).after_style == old(self).after_style,
            final(self).before == old(self).before,
            final(self).after == old(self).after,
            final(self).next_after_sibling == old(self).next_after_sibling,
            final(self).restyle_damage == old(self).restyle_damage,
            final(self).flow_construction_result == old(self).flow_construction_result,
            final(self).parallel == old(self).parallel,
    {
        self.applicable_declarations = Vec::new();
        self.before_applicable_declarations = Vec::new();
        self.after_applicable_declarations = Vec::new();
    }

    /// Hands back a copy of the stored pseudo-link of the requested kind, or
    /// `None` if no link of that kind was set. Side-effect free.
    pub fn pseudo_style_for(&self, kind: PseudoElement) -> (r: Option<PseudoNode>)
        ensures
            r == (match kind {
                PseudoElement::Before => self.before,
                PseudoElement::After => self.after,
            }),
    {
        match kind {
            PseudoElement::Before => self.before,
            PseudoElement::After => self.after,
        }
    }

    /// Resolves the stored pseudo-link of the requested kind back to a usable
    /// reference to the generated pseudo node, or `None` if no link of that
    /// kind was set.
    pub fn get_pseudo_node(&mut self, kind: PseudoElement) -> (r: Option<AbstractNode>)
        ensures
            *final(self) == *old(self),
            r == (match kind {
                PseudoElement::Before => match old(self).before {
                    Some(p) => Some(p.child.node),
                    None => None::<AbstractNode>,
                },
                PseudoElement::After => match old(self).after {
                    Some(p) => Some(p.child.node),
                    None => None::<AbstractNode>,
                },
            }),
    {
        match kind {
            PseudoElement::Before => match &mut self.before {
                Some(p) => Some(p.get_pseudo_node()),
                None => None,
            },
            PseudoElement::After => match &mut self.after {
                Some(p) => Some(p.get_pseudo_node()),
                None => None,
            },
        }
    }

    /// Records a pseudo-element association of the given kind, capturing
    /// stable handles to the generating parent and the generated pseudo
    /// child. Overwrites any prior link of that kind: at most one link per
    /// kind exists at a time.
    #[inline(always)]
    pub fn set_pseudo_element(
        &mut self,
        parent: AbstractNode,
        child: AbstractNode,
        kind: PseudoElement,
    )
        ensures
            kind == PseudoElement::Before ==> final(self).before == Some(
                spec_pseudo_node(parent, child),
            ) && final(self).after == old(self).after,
            kind == PseudoElement::After ==> final(self).after == Some(
                spec_pseudo_node(parent, child),
            ) && final(self).before == old(self).before,
            final(self).style == old(self).style,
            final(self).before_style == old(self).before_style,
            final(self).after_style == old(self).after_style,
            final(self).applicable_declarations == old(self).applicable_declarations,
            final(self).before_applicable_declarations == old(
                self,
            ).before_applicable_declarations,
            final(self).after_applicable_declarations == old(self).after_applicable_declarations,
            final(self).next_after_sibling == old(self).next_after_sibling,
            final(self).restyle_damage == old(self).restyle_damage,
            final(self).flow_construction_result == old(self).flow_construction_result,
            final(self).parallel == old(self).parallel,
    {
        match kind {
            PseudoElement::Before => self.before = Some(
                PseudoNode::new_from_parent_and_child(parent, child),
            ),
            PseudoElement::After => self.after = Some(
                PseudoNode::new_from_parent_and_child(parent, child),
            ),
        }
    }

    /// Resolves the stored next-after-sibling link back to a usable reference
    /// to the generated node, or `None` if none was set.
    pub fn get_next_after_sibling(&mut self) -> (r: Option<AbstractNode>)
        ensures
            *final(self) == *old(self),
            r == (match old(self).next_after_sibling {
                Some(p) => Some(p.child.node),
                None => None::<AbstractNode>,
            }),
    {
        match &mut self.next_after_sibling {
            Some(p) => Some(p.get_pseudo_node()),
            None => None,
        }
    }

    /// Records the singleton next-after-sibling link used to splice a
    /// generated node into sibling traversal order. Overwrites any prior
    /// link.
    #[inline(always)]
    pub fn set_next_after_sibling(&mut self, parent: AbstractNode, child: AbstractNode)
        ensures
            final(self).next_after_sibling == Some(spec_pseudo_node(parent, child)),
            final(self).style == old(self).style,
            final(self).before_style == old(self).before_style,
            final(self).after_style == old(self).after_style,
            final(self).applicable_declarations == old(self).applicable_declarations,
            final(self).before_applicable_declarations == old(
                self,
            ).before_applicable_declarations,
            final(self).after_applicable_declarations == old(self).after_applicable_declarations,
            final(self).before == old(self).before,
            final(self).after == old(self).after,
            final(self).restyle_damage == old(self).restyle_damage,
            final(self).flow_construction_result == old(self).flow_construction_result,
            final(self).parallel == old(self).parallel,
    {
        self.next_after_sibling = Some(PseudoNode::new_from_parent_and_child(parent, child));
    }

    /// Presence check for the next-after-sibling link, without resolving it.
    pub fn is_next_after_sibling(&mut self) -> (r: bool)
        ensures
            *final(self) == *old(self),
            r == (old(self).next_after_sibling is Some),
    {
        self.next_after_sibling.is_some()
    }

    /// Presence check for the pseudo-link of the given kind, without
    /// resolving it, for traversal code that must decide branching without
    /// paying the resolution cost.
    pub fn is_pseudo(&self, kind: PseudoElement) -> (r: bool)
        ensures
            r == (match kind {
                PseudoElement::Before => self.before is Some,
                PseudoElement::After => self.after is Some,
            }),
    {
        match kind {
            PseudoElement::Before => self.before.is_some(),
            PseudoElement::After => self.after.is_some(),
        }
    }
}

/// What a node's layout-data slot stores: the side-table entry itself and,
/// optionally, a handle on the channel back to the layout task.
pub struct LayoutDataWrapper {
    /// Channel back to the layout task, if one was attached.
    pub chan: Option<LayoutChan>,
    /// The layout-derived data of the node.
    pub data: PrivateLayoutData,
}

} // verus!
