//! Checked access to a node's layout-data slot.
//!
//! Layout runs as many concurrently scheduled subtree traversals. Each node's
//! side-table entry is private to that node, so traversals touching different
//! nodes never contend; two traversals touching the same node would be a
//! scheduling bug. `LayoutDataRef` catches that bug at run time: a shared or
//! exclusive view must be acquired before the entry is read or written, a
//! conflicting acquisition is refused, and the conflict is reported to the
//! offending caller without corrupting the entry. An unchecked read path
//! exists for phases that have independently proven exclusivity, such as
//! single-threaded setup before the parallel traversal begins.

use vstd::prelude::*;

use crate::layout_data::LayoutDataWrapper;

verus! {

/// A conflicting acquisition of a view on a layout-data slot: a detected
/// programming error in traversal scheduling, never silently tolerated and
/// never retried blindly.
#[derive(Clone, Copy, PartialEq, Eq, Structural, Debug)]
pub struct AccessConflict;

/// A node's layout-data slot: the optional side-table entry (`None` while
/// layout has not computed one yet) together with the run-time bookkeeping of
/// the views outstanding on it.
pub struct LayoutDataRef {
    /// The stored entry.
    data: Option<LayoutDataWrapper>,
    /// How many shared views are outstanding.
    shared: usize,
    /// Whether an exclusive view is outstanding.
    exclusive: bool,
}

impl LayoutDataRef {
    /// The stored side-table entry, `None` while not yet computed.
    pub closed spec fn spec_data(&self) -> Option<LayoutDataWrapper> {
        self.data
    }

    /// How many shared views are outstanding on the slot.
    pub closed spec fn shared_views(&self) -> usize {
        self.shared
    }

    /// Whether an exclusive view is outstanding on the slot.
    pub closed spec fn exclusive_view(&self) -> bool {
        self.exclusive
    }

    /// The bookkeeping invariant: an exclusive view never coexists with a
    /// shared view.
    pub open spec fn wf(&self) -> bool {
        self.exclusive_view() ==> self.shared_views() == 0
    }

    /// No view of any kind is outstanding.
    pub open spec fn quiescent(&self) -> bool {
        !self.exclusive_view() && self.shared_views() == 0
    }

    /// Creates an empty slot with no outstanding views.
    pub fn new() -> (r: LayoutDataRef)
        ensures
            r.spec_data() is None,
            r.quiescent(),
    {
        LayoutDataRef { data: None, shared: 0, exclusive: false }
    }

    /// Creates a slot holding `data`, with no outstanding views.
    pub fn from_data(data: Option<LayoutDataWrapper>) -> (r: LayoutDataRef)
        ensures
            r.spec_data() == data,
            r.quiescent(),
    {
        LayoutDataRef { data, shared: 0, exclusive: false }
    }

    /// Acquires a shared, read-only view. Refused exactly when an exclusive
    /// view is outstanding; a refusal leaves the slot untouched.
    pub fn borrow(&mut self) -> (r: Result<(), AccessConflict>)
        requires
            old(self).wf(),
            old(self).shared_views() < usize::MAX,
        ensures
            final(self).wf(),
            final(self).spec_data() == old(self).spec_data(),
            final(self).exclusive_view() == old(self).exclusive_view(),
            r is Ok <==> !old(self).exclusive_view(),
            r is Ok ==> final(self).shared_views() == old(self).shared_views() + 1,
            r is Err ==> final(self).shared_views() == old(self).shared_views(),
    {
        if self.exclusive {
            Err(AccessConflict)
        } else {
            self.shared = self.shared + 1;
            Ok(())
        }
    }

    /// Releases one shared view. Every acquisition that succeeded must be
    /// released exactly once, on every exit path of the operation that
    /// acquired it.
    pub fn release(&mut self)
        requires
            old(self).wf(),
            old(self).shared_views() > 0,
        ensures
            final(self).wf(),
            final(self).spec_data() == old(self).spec_data(),
            final(self).exclusive_view() == old(self).exclusive_view(),
            final(self).shared_views() == old(self).shared_views() - 1,
    {
        self.shared = self.shared - 1;
    }

    /// Acquires an exclusive, read-write view. Refused exactly when any view,
    /// shared or exclusive, is outstanding; a refusal leaves the slot
    /// untouched.
    pub fn borrow_mut(&mut self) -> (r: Result<(), AccessConflict>)
        requires
            old(self).wf(),
        ensures
            final(self).wf(),
            final(self).spec_data() == old(self).spec_data(),
            final(self).shared_views() == old(self).shared_views(),
            r is Ok <==> old(self).quiescent(),
            r is Ok ==> final(self).exclusive_view(),
            r is Err ==> final(self).exclusive_view() == old(self).exclusive_view(),
    {
        if self.exclusive || self.shared > 0 {
            Err(AccessConflict)
        } else {
            self.exclusive = true;
            Ok(())
        }
    }

    /// Releases the exclusive view.
    pub fn release_mut(&mut self)
        requires
            old(self).wf(),
            old(self).exclusive_view(),
        ensures
            final(self).quiescent(),
            final(self).spec_data() == old(self).spec_data(),
    {
        self.exclusive = false;
    }

    /// Reads the entry under an outstanding view of either kind.
    pub fn read(&self) -> (r: &Option<LayoutDataWrapper>)
        requires
            self.shared_views() > 0 || self.exclusive_view(),
        ensures
            *r == self.spec_data(),
    {
        &self.data
    }

    /// Replaces the entry under the outstanding exclusive view, handing the
    /// previous entry back.
    pub fn replace(&mut self, data: Option<LayoutDataWrapper>) -> (r: Option<LayoutDataWrapper>)
        requires
            old(self).exclusive_view(),
        ensures
            r == old(self).spec_data(),
            final(self).spec_data() == data,
            final(self).shared_views() == old(self).shared_views(),
            final(self).exclusive_view() == old(self).exclusive_view(),
    {
        let mut data = data;
        std::mem::swap(&mut self.data, &mut data);
        data
    }

    /// Reads the entry with no run-time conflict check: the explicitly named
    /// escape hatch for phases that have independently proven exclusivity,
    /// such as single-threaded setup before the parallel traversal begins.
    /// Using it under contention is the caller's responsibility to avoid.
    pub fn borrow_unchecked(&self) -> (r: &Option<LayoutDataWrapper>)
        ensures
            *r == self.spec_data(),
    {
        &self.data
    }
}

/// A trait that allows access to the layout data of a DOM node, under the
/// checked-borrow discipline of `LayoutDataRef`.
pub trait LayoutDataAccess {
    /// The node's layout-data slot, as specification-level state.
    spec fn slot(&self) -> LayoutDataRef;

    /// Borrows the layout data without checks; see
    /// `LayoutDataRef::borrow_unchecked`.
    fn borrow_layout_data_unchecked(&self) -> (r: &Option<LayoutDataWrapper>)
        ensures
            *r == self.slot().spec_data(),
    ;

    /// Acquires a shared view of the layout data. Refused on a conflicting
    /// exclusive view.
    fn borrow_layout_data(&mut self) -> (r: Result<(), AccessConflict>)
        requires
            old(self).slot().wf(),
            old(self).slot().shared_views() < usize::MAX,
        ensures
            final(self).slot().wf(),
            final(self).slot().spec_data() == old(self).slot().spec_data(),
            final(self).slot().exclusive_view() == old(self).slot().exclusive_view(),
            r is Ok <==> !old(self).slot().exclusive_view(),
            r is Ok ==> final(self).slot().shared_views() == old(self).slot().shared_views() + 1,
            r is Err ==> final(self).slot().shared_views() == old(self).slot().shared_views(),
    ;

    /// Releases one shared view acquired with `borrow_layout_data`.
    fn release_layout_data(&mut self)
        requires
            old(self).slot().wf(),
            old(self).slot().shared_views() > 0,
        ensures
            final(self).slot().wf(),
            final(self).slot().spec_data() == old(self).slot().spec_data(),
            final(self).slot().exclusive_view() == old(self).slot().exclusive_view(),
            final(self).slot().shared_views() == old(self).slot().shared_views() - 1,
    ;

    /// Acquires an exclusive view of the layout data. Refused on any
    /// conflicting view, shared or exclusive.
    fn mutate_layout_data(&mut self) -> (r: Result<(), AccessConflict>)
        requires
            old(self).slot().wf(),
        ensures
            final(self).slot().wf(),
            final(self).slot().spec_data() == old(self).slot().spec_data(),
            final(self).slot().shared_views() == old(self).slot().shared_views(),
            r is Ok <==> old(self).slot().quiescent(),
            r is Ok ==> final(self).slot().exclusive_view(),
            r is Err ==> final(self).slot().exclusive_view() == old(self).slot().exclusive_view(),
    ;

    /// Releases the exclusive view acquired with `mutate_layout_data`.
    fn release_layout_data_mut(&mut self)
        requires
            old(self).slot().wf(),
            old(self).slot().exclusive_view(),
        ensures
            final(self).slot().quiescent(),
            final(self).slot().spec_data() == old(self).slot().spec_data(),
    ;

    /// Reads the layout data under an outstanding view of either kind.
    fn layout_data(&self) -> (r: &Option<LayoutDataWrapper>)
        requires
            self.slot().shared_views() > 0 || self.slot().exclusive_view(),
        ensures
            *r == self.slot().spec_data(),
    ;

    /// Replaces the layout data under the outstanding exclusive view, handing
    /// the previous entry back.
    fn replace_layout_data(&mut self, data: Option<LayoutDataWrapper>) -> (r: Option<
        LayoutDataWrapper,
    >)
        requires
            old(self).slot().exclusive_view(),
        ensures
            r == old(self).slot().spec_data(),
            final(self).slot().spec_data() == data,
            final(self).slot().shared_views() == old(self).slot().shared_views(),
            final(self).slot().exclusive_view() == old(self).slot().exclusive_view(),
    ;
}

} // verus!
