//! Pages of a router: a page passes the navigation its content asks for on to
//! the router, and asks to go back when its back icon is clicked.

use vstd::prelude::*;
use crate::state::{ComponentState, ViewState};

verus! {

broadcast use vstd::std_specs::vec::group_vec_axioms;

/// The state of a router: it has only one.
#[derive(Clone, Copy, Debug, PartialEq, Eq, Hash)]
pub enum RouterState {
    Basic,
}

impl ComponentState for RouterState {
    open spec fn spec_is_disabled(&self) -> bool {
        false
    }

    fn is_disabled(&self) -> (r: bool) {
        false
    }
}

impl From<RouterState> for ViewState {
    fn from(value: RouterState) -> (r: ViewState) {
        ViewState::Basic
    }
}

impl vstd::std_specs::convert::FromSpecImpl<RouterState> for ViewState {
    open spec fn obeys_from_spec() -> bool {
        true
    }

    open spec fn from_spec(v: RouterState) -> ViewState {
        ViewState::Basic
    }
}

/// What a page asks of its router: to go to the page with an id, or back
/// from the page with an id.
#[derive(Clone, Copy, Debug, PartialEq, Eq)]
pub enum RouterEvent {
    NavTo(u64),
    NavBack(u64),
}

/// What a page does for its router after an event.
#[derive(Clone, Copy, Debug, PartialEq, Eq)]
pub enum PageAction {
    /// Navigate the router to the page with this id.
    NavToPath(u64),
    /// Navigate the router back.
    NavBackPath,
    /// Ask, as the page, to go back from the page with this id.
    SendNavBack(u64),
}

/// The router's work for one asked navigation.
pub open spec fn page_action(e: RouterEvent) -> PageAction {
    match e {
        RouterEvent::NavTo(id) => PageAction::NavToPath(id),
        RouterEvent::NavBack(_) => PageAction::NavBackPath,
    }
}

/// What a page does after an event whose actions asked for the navigations
/// `asked`: each in turn, then its own request to go back (from the page
/// whose id ends its scope) where its back icon was clicked.
pub open spec fn page_actions(asked: Seq<RouterEvent>, back_clicked: bool, last_id: u64) -> Seq<PageAction> {
    Seq::new(asked.len(), |i: int| page_action(asked[i]))
        + (if back_clicked { seq![PageAction::SendNavBack(last_id)] } else { Seq::empty() })
}

/// A page of a router.
#[derive(Clone, Copy, Debug, PartialEq, Eq)]
pub struct GPage {
    pub visible: bool,
}

impl GPage {
    /// What the page does after an event whose actions asked for the
    /// navigations `asked`, where its back icon was clicked or not and its
    /// scope ends with the id `last_id`.
    pub fn handle_event(&self, asked: &Vec<RouterEvent>, back_clicked: bool, last_id: u64) -> (r: Vec<PageAction>)
        ensures
            r@ == page_actions(asked@, back_clicked, last_id),
    {
        let mut r: Vec<PageAction> = Vec::new();
        let mut i: usize = 0;
        while i < asked.len()
            invariant
                i <= asked.len(),
                r@ == Seq::new(i as nat, |k: int| page_action(asked@[k])),
            decreases asked.len() - i,
        {
            let a = match asked[i] {
                RouterEvent::NavTo(id) => PageAction::NavToPath(id),
                RouterEvent::NavBack(_) => PageAction::NavBackPath,
            };
            r.push(a);
            assert(r@ =~= Seq::new((i + 1) as nat, |k: int| page_action(asked@[k])));
            i = i + 1;
        }
        if back_clicked {
            r.push(PageAction::SendNavBack(last_id));
        }
        assert(r@ =~= page_actions(asked@, back_clicked, last_id));
        r
    }

    /// Shows or hides the page; returns that it is to be redrawn.
    pub fn set_visible_and_redraw(&mut self, visible: bool) -> (redraw: bool)
        ensures
            final(self).visible == visible,
            redraw,
    {
        self.visible = visible;
        true
    }
}

} // verus!
