//! The popup: a container drawn over the rest, which keeps its children under
//! ids, follows live updates of its document, and hands events on to its
//! children.

use vstd::prelude::*;
use crate::children::{
    apply_plan, before_apply, child_ids, draw_order, draw_plan, ids_of, reorder_children, reorder_run,
    truncated, ApplyFrom, ApplyPlan,
};
use crate::state::ComponentState;
use crate::view::{child_order, dispatch_order, EventOrder, FindCache, ViewEventInfo};

verus! {

/// The state of a popup: it has only one.
#[derive(Clone, Copy, Debug, PartialEq, Eq, Hash)]
pub enum PopupState {
    Basic,
}

impl ComponentState for PopupState {
    open spec fn spec_is_disabled(&self) -> bool {
        false
    }

    fn is_disabled(&self) -> (r: bool) {
        false
    }
}

/// A popup: its children of type `T` under their ids, the order a live
/// update wrote them in, and its cache of searches with results of type `W`.
pub struct GPopup<T, W> {
    pub visible: bool,
    pub block_signal_event: bool,
    pub event_order: EventOrder,
    pub children: Vec<(u64, T)>,
    pub live_update_order: Vec<u64>,
    pub find_cache: FindCache<W>,
}

impl<T, W> GPopup<T, W> {
    /// Before a live update of its document, the popup forgets the order of
    /// the last one and its search cache.
    pub fn before_apply(&mut self, from: ApplyFrom)
        ensures
            final(self).visible == old(self).visible,
            final(self).children@ == old(self).children@,
            from == ApplyFrom::UpdateFromDoc ==> final(self).live_update_order@.len() == 0
                && final(self).find_cache.entries@.len() == 0,
            from != ApplyFrom::UpdateFromDoc ==> final(self).live_update_order@ == old(self).live_update_order@
                && final(self).find_cache.entries@ == old(self).find_cache.entries@,
    {
        if before_apply(&mut self.live_update_order, from) {
            self.find_cache.clear();
        }
    }

    /// Plans the application of a value of its document with id `id`.
    pub fn apply_value_instance(&mut self, from: ApplyFrom, is_instance_prop: bool, id: u64) -> (plan: ApplyPlan)
        ensures
            plan == apply_plan(ids_of(old(self).children@), from, is_instance_prop, id),
            final(self).children@ == old(self).children@,
            final(self).live_update_order@ == (if from == ApplyFrom::UpdateFromDoc && is_instance_prop {
                old(self).live_update_order@.push(id)
            } else {
                old(self).live_update_order@
            }),
    {
        let ids = child_ids(&self.children);
        crate::children::apply_value_instance(&ids, &mut self.live_update_order, from, is_instance_prop, id)
    }

    /// Adds a child made for a value of the document that no child had.
    pub fn push_child(&mut self, id: u64, child: T)
        ensures
            final(self).children@ == old(self).children@.push((id, child)),
            final(self).live_update_order@ == old(self).live_update_order@,
    {
        self.children.push((id, child));
    }

    /// After a live update of its document, the popup puts its children in
    /// the order the update wrote them in and drops the ones it no longer has.
    pub fn after_apply(&mut self, from: ApplyFrom)
        requires
            from == ApplyFrom::UpdateFromDoc ==> reorder_run(old(self).children@, old(self).live_update_order@) is Some,
        ensures
            final(self).live_update_order@ == old(self).live_update_order@,
            from == ApplyFrom::UpdateFromDoc ==> final(self).children@ == truncated(
                reorder_run(old(self).children@, old(self).live_update_order@)->0,
                old(self).live_update_order@.len() as int,
            ),
            from != ApplyFrom::UpdateFromDoc ==> final(self).children@ == old(self).children@,
    {
        if let ApplyFrom::UpdateFromDoc = from {
            reorder_children(&mut self.children, &self.live_update_order);
        }
    }

    /// The children the popup hands an event to, in order, and whether it
    /// drops its search cache: an invisible popup ignores events that need
    /// visibility, and a popup that blocks signals stops at a signal.
    pub fn handle_event_with(&mut self, info: ViewEventInfo) -> (order: Vec<usize>)
        ensures
            final(self).children@ == old(self).children@,
            (!old(self).visible && info.requires_visibility) || (old(self).block_signal_event && info.is_signal)
                ==> order@.len() == 0 && final(self).find_cache.entries@ == old(self).find_cache.entries@,
            !(!old(self).visible && info.requires_visibility) && !(old(self).block_signal_event && info.is_signal) ==> {
                &&& (info.query_invalidated ==> final(self).find_cache.entries@.len() == 0)
                &&& (!info.query_invalidated ==> final(self).find_cache.entries@ == old(self).find_cache.entries@)
                &&& order@.len() == dispatch_order(ids_of(old(self).children@), old(self).event_order).len()
                &&& forall|k: int| 0 <= k < order@.len() ==>
                    order@[k] as int == dispatch_order(ids_of(old(self).children@), old(self).event_order)[k]
            },
    {
        if !self.visible && info.requires_visibility {
            return Vec::new();
        }
        if self.block_signal_event && info.is_signal {
            return Vec::new();
        }
        if info.query_invalidated {
            self.find_cache.clear();
        }
        let ids = child_ids(&self.children);
        child_order(&ids, &self.event_order)
    }

    /// The children the popup draws, in order, given which of them are
    /// visible and which have their walk deferred: none where the popup is
    /// hidden.
    pub fn draw_walk(&self, visible: &Vec<bool>, defers: &Vec<bool>) -> (order: Vec<usize>)
        requires
            visible@.len() == self.children@.len(),
            defers@.len() == self.children@.len(),
        ensures
            !self.visible ==> order@.len() == 0,
            self.visible ==> order@.len() == draw_plan(ids_of(self.children@), visible@, defers@).len()
                && forall|k: int| 0 <= k < order@.len() ==>
                    order@[k] as int == draw_plan(ids_of(self.children@), visible@, defers@)[k],
    {
        if !self.visible {
            return Vec::new();
        }
        let ids = child_ids(&self.children);
        draw_order(&ids, visible, defers)
    }
}

} // verus!
