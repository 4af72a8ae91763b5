//! The view: the container every other component is built from. It reacts to
//! the pointer and keys, hands events on to its children in a chosen order,
//! and caches the results of widget searches by path.

use vstd::prelude::*;
use crate::text::is_named;
use crate::children::{first_with_id, position_of};
use crate::state::{Style, ViewState};
use crate::widget::{
    disabled_effects, disabled_state, emit, handle_disabled, opening_effects, push_effect,
    push_emit, push_switch, switch_effects, switched, Effect, Hit, Track,
};

verus! {

broadcast use vstd::std_specs::vec::group_vec_axioms;

/// The styles of a view, one per state.
#[derive(Clone, Copy, Debug, PartialEq, Eq)]
pub struct ViewStyle<B> {
    pub basic: B,
    pub hover: B,
    pub pressed: B,
    pub disabled: B,
}

impl<B> Style for ViewStyle<B> {
    type State = ViewState;
    type Basic = B;

    open spec fn spec_get(&self, state: ViewState) -> B {
        match state {
            ViewState::Basic => self.basic,
            ViewState::Hover => self.hover,
            ViewState::Pressed => self.pressed,
            ViewState::Disabled => self.disabled,
        }
    }

    fn get(&self, state: ViewState) -> (r: &B) {
        match state {
            ViewState::Basic => &self.basic,
            ViewState::Hover => &self.hover,
            ViewState::Pressed => &self.pressed,
            ViewState::Disabled => &self.disabled,
        }
    }

    fn get_mut(&mut self, state: ViewState) -> (r: &mut B) {
        match state {
            ViewState::Basic => &mut self.basic,
            ViewState::Hover => &mut self.hover,
            ViewState::Pressed => &mut self.pressed,
            ViewState::Disabled => &mut self.disabled,
        }
    }
}

/// The events a view sends.
#[derive(Clone, Copy, Debug, PartialEq, Eq)]
pub enum ViewEvent {
    FingerDown,
    FingerUp,
    LongPress,
    Move,
    HoverIn,
    HoverOut,
    HoverOver,
    KeyDown,
    KeyUp,
    Clicked,
}

/// The effects a view asks for.
pub type ViewEffect = Effect<ViewState, ViewEvent>;

/// The order in which a view hands an event on to its children: last to
/// first, first to last, or by a list of child ids.
#[derive(Clone, Debug, PartialEq, Eq)]
pub enum EventOrder {
    Up,
    Down,
    List(Vec<u64>),
}

/// A view: what its event handling reads and changes.
pub struct GView {
    pub visible: bool,
    pub disabled: bool,
    pub grab_key_focus: bool,
    pub event_open: bool,
    pub animation_open: bool,
    /// Whether the view has been drawn into a scope, which its events need.
    pub scoped: bool,
    /// Whether the view drops signal events before its children see them.
    pub block_signal_event: bool,
    pub event_order: EventOrder,
    pub state: ViewState,
}

/// Whether a view's events reach its listeners.
pub open spec fn view_open(v: GView) -> bool {
    v.event_open && v.scoped
}

/// What a view that is not disabled does with a hit: its state and the
/// effects it asks for.
pub open spec fn view_hit(v: GView, hit: Hit) -> (ViewState, Seq<ViewEffect>) {
    let open = view_open(v);
    let anim = v.animation_open;
    let press = switched(anim, v.state, ViewState::Pressed);
    let hover = switched(anim, v.state, ViewState::Hover);
    let basic = switched(anim, v.state, ViewState::Basic);
    let sw = switch_effects::<ViewState, ViewEvent>(anim, false);
    match hit {
        Hit::FingerDown => (
            press,
            sw + (if v.grab_key_focus { seq![Effect::KeyFocus] } else { Seq::empty() }) + emit(open, ViewEvent::FingerDown),
        ),
        Hit::FingerMove => (press, sw + emit(open, ViewEvent::Move)),
        Hit::FingerLongPress => (press, sw + emit(open, ViewEvent::LongPress)),
        Hit::FingerUp(e) => if !e.is_over {
            (basic, sw + emit(open, ViewEvent::FingerUp))
        } else if e.has_hovers {
            (hover, sw + seq![Effect::Animate(Track::HoverOn)] + emit(open, ViewEvent::Clicked))
        } else {
            (basic, sw + seq![Effect::Animate(Track::HoverOff)] + emit(open, ViewEvent::Clicked))
        },
        Hit::FingerHoverIn => (hover, seq![Effect::Cursor(v.state)] + sw + emit(open, ViewEvent::HoverIn)),
        Hit::FingerHoverOut => (basic, sw + emit(open, ViewEvent::HoverOut)),
        Hit::FingerHoverOver => (
            hover,
            seq![Effect::Cursor(v.state)] + sw + seq![Effect::Animate(Track::HoverOn)] + emit(open, ViewEvent::HoverOver),
        ),
        Hit::KeyDown => (press, sw + emit(open, ViewEvent::KeyDown)),
        Hit::KeyUp => (basic, sw + emit(open, ViewEvent::KeyUp)),
        Hit::Nothing => (v.state, Seq::empty()),
    }
}

/// The positions of the children, in the order a view hands them an event.
/// A listed id that no child has is passed over; a child whose id is listed
/// twice gets the event twice; the first child with an id stands for it.
pub open spec fn dispatch_order(ids: Seq<u64>, order: EventOrder) -> Seq<int> {
    match order {
        EventOrder::Up => Seq::new(ids.len(), |i: int| ids.len() - 1 - i),
        EventOrder::Down => Seq::new(ids.len(), |i: int| i),
        EventOrder::List(list) => listed_order(ids, list@),
    }
}

/// The positions of the first children with the listed ids, in list order.
pub open spec fn listed_order(ids: Seq<u64>, list: Seq<u64>) -> Seq<int>
    decreases list.len(),
{
    if list.len() == 0 {
        Seq::empty()
    } else {
        listed_order(ids, list.drop_last()) + match first_with_id(ids, list.last()) {
            Some(i) => seq![i],
            None => Seq::empty(),
        }
    }
}

/// What a view learns of an event besides the hit it makes.
#[derive(Clone, Copy, Debug, PartialEq, Eq)]
pub struct ViewEventInfo {
    /// Whether the event only concerns visible views.
    pub requires_visibility: bool,
    /// Whether the event is a signal.
    pub is_signal: bool,
    /// Whether the widget tree changed so that cached searches are stale.
    pub query_invalidated: bool,
    /// Whether the view has an animator of its own.
    pub has_animator: bool,
}

/// What a view does with an event: the children it hands it to, in order,
/// whether it drops its search cache, and its own effects.
pub struct ViewStep {
    pub children: Vec<usize>,
    pub clear_cache: bool,
    pub effects: Vec<ViewEffect>,
}

/// Whether a view ignores an event outright.
pub open spec fn view_skips(v: GView, info: ViewEventInfo) -> bool {
    !v.visible && info.requires_visibility
}

/// Whether a view stops an event after writing its animator.
pub open spec fn view_blocks(v: GView, info: ViewEventInfo) -> bool {
    v.block_signal_event && info.is_signal
}

/// Whether a view handles the hit of an event itself.
pub open spec fn view_takes_hit(v: GView, info: ViewEventInfo) -> bool {
    v.visible || info.has_animator
}

/// The positions of the children, in the order a view hands them an event.
pub fn child_order(ids: &Vec<u64>, order: &EventOrder) -> (r: Vec<usize>)
    ensures
        r@.len() == dispatch_order(ids@, *order).len(),
        forall|k: int| 0 <= k < r@.len() ==> r@[k] as int == dispatch_order(ids@, *order)[k],
{
    let mut r: Vec<usize> = Vec::new();
    match order {
        EventOrder::Up => {
            let n = ids.len();
            let mut i: usize = 0;
            while i < n
                invariant
                    n == ids@.len(),
                    i <= n,
                    r@.len() == i,
                    forall|k: int| 0 <= k < i ==> r@[k] as int == n - 1 - k,
                decreases n - i,
            {
                r.push(n - 1 - i);
                i = i + 1;
            }
        },
        EventOrder::Down => {
            let n = ids.len();
            let mut i: usize = 0;
            while i < n
                invariant
                    n == ids@.len(),
                    i <= n,
                    r@.len() == i,
                    forall|k: int| 0 <= k < i ==> r@[k] as int == k,
                decreases n - i,
            {
                r.push(i);
                i = i + 1;
            }
        },
        EventOrder::List(list) => {
            let mut j: usize = 0;
            while j < list.len()
                invariant
                    j <= list@.len(),
                    r@.len() == listed_order(ids@, list@.take(j as int)).len(),
                    forall|k: int| 0 <= k < r@.len() ==> r@[k] as int == listed_order(ids@, list@.take(j as int))[k],
                decreases list.len() - j,
            {
                proof {
                    assert(list@.take(j + 1).drop_last() =~= list@.take(j as int));
                    assert(list@.take(j + 1).last() == list@[j as int]);
                }
                let ghost before = r@;
                match position_of(ids, list[j]) {
                    Some(i) => {
                        r.push(i);
                        proof {
                            assert forall|k: int| 0 <= k < r@.len() implies
                                r@[k] as int == listed_order(ids@, list@.take(j + 1))[k] by {
                                if k < before.len() {
                                    assert(r@[k] == before[k]);
                                }
                            }
                        }
                    },
                    None => {
                        proof {
                            assert(listed_order(ids@, list@.take(j + 1)) =~= listed_order(ids@, list@.take(j as int)));
                        }
                    },
                }
                j = j + 1;
            }
            assert(list@.take(list.len() as int) =~= list@);
        },
    }
    r
}

impl GView {
    /// Handles a hit on a view that is not disabled.
    pub fn handle_widget_event(&mut self, hit: Hit) -> (effects: Vec<ViewEffect>)
        ensures
            (final(self).state, effects@) == view_hit(*old(self), hit),
            final(self).visible == old(self).visible,
            final(self).disabled == old(self).disabled,
            final(self).event_order == old(self).event_order,
    {
        let mut effects: Vec<ViewEffect> = Vec::new();
        let open = self.event_open && self.scoped;
        let anim = self.animation_open;
        let cur = self.state;
        match hit {
            Hit::FingerDown => {
                push_switch(&mut effects, anim, false);
                if self.grab_key_focus {
                    push_effect(&mut effects, Effect::KeyFocus);
                }
                push_emit(&mut effects, open, ViewEvent::FingerDown);
                if anim {
                    self.state = ViewState::Pressed;
                }
            },
            Hit::FingerMove => {
                push_switch(&mut effects, anim, false);
                push_emit(&mut effects, open, ViewEvent::Move);
                if anim {
                    self.state = ViewState::Pressed;
                }
            },
            Hit::FingerLongPress => {
                push_switch(&mut effects, anim, false);
                push_emit(&mut effects, open, ViewEvent::LongPress);
                if anim {
                    self.state = ViewState::Pressed;
                }
            },
            Hit::FingerUp(e) => {
                push_switch(&mut effects, anim, false);
                if !e.is_over {
                    push_emit(&mut effects, open, ViewEvent::FingerUp);
                    if anim {
                        self.state = ViewState::Basic;
                    }
                } else {
                    if e.has_hovers {
                        push_effect(&mut effects, Effect::Animate(Track::HoverOn));
                        if anim {
                            self.state = ViewState::Hover;
                        }
                    } else {
                        push_effect(&mut effects, Effect::Animate(Track::HoverOff));
                        if anim {
                            self.state = ViewState::Basic;
                        }
                    }
                    push_emit(&mut effects, open, ViewEvent::Clicked);
                }
            },
            Hit::FingerHoverIn => {
                push_effect(&mut effects, Effect::Cursor(cur));
                push_switch(&mut effects, anim, false);
                push_emit(&mut effects, open, ViewEvent::HoverIn);
                if anim {
                    self.state = ViewState::Hover;
                }
            },
            Hit::FingerHoverOut => {
                push_switch(&mut effects, anim, false);
                push_emit(&mut effects, open, ViewEvent::HoverOut);
                if anim {
                    self.state = ViewState::Basic;
                }
            },
            Hit::FingerHoverOver => {
                push_effect(&mut effects, Effect::Cursor(cur));
                push_switch(&mut effects, anim, false);
                push_effect(&mut effects, Effect::Animate(Track::HoverOn));
                push_emit(&mut effects, open, ViewEvent::HoverOver);
                if anim {
                    self.state = ViewState::Hover;
                }
            },
            Hit::KeyDown => {
                push_switch(&mut effects, anim, false);
                push_emit(&mut effects, open, ViewEvent::KeyDown);
                if anim {
                    self.state = ViewState::Pressed;
                }
            },
            Hit::KeyUp => {
                push_switch(&mut effects, anim, false);
                push_emit(&mut effects, open, ViewEvent::KeyUp);
                if anim {
                    self.state = ViewState::Basic;
                }
            },
            Hit::Nothing => {},
        }
        proof {
            let (s, fx) = view_hit(*old(self), hit);
            assert(effects@ =~= fx);
        }
        effects
    }

    /// Handles a hit on a disabled view.
    pub fn handle_when_disabled(&mut self, hit: Hit) -> (effects: Vec<ViewEffect>)
        ensures
            final(self).state == disabled_state(old(self).state, ViewState::Disabled, hit),
            effects@ == disabled_effects::<ViewState, ViewEvent>(ViewState::Disabled, hit),
            final(self).visible == old(self).visible,
            final(self).disabled == old(self).disabled,
            final(self).event_order == old(self).event_order,
    {
        let mut effects: Vec<ViewEffect> = Vec::new();
        self.state = handle_disabled(self.state, ViewState::Disabled, hit, &mut effects);
        assert(effects@ =~= disabled_effects::<ViewState, ViewEvent>(ViewState::Disabled, hit));
        effects
    }

    /// Handles an event on a view whose children have the ids `ids`: an
    /// invisible view ignores events that need visibility; otherwise the view
    /// writes its animator, stops there on a signal it blocks, drops its
    /// search cache where the tree changed, hands the event to its children
    /// in its event order and then handles the hit itself where it is visible
    /// or animated.
    pub fn handle_event(&mut self, ids: &Vec<u64>, info: ViewEventInfo, hit: Hit) -> (step: ViewStep)
        ensures
            final(self).visible == old(self).visible,
            final(self).disabled == old(self).disabled,
            final(self).event_order == old(self).event_order,
            view_skips(*old(self), info) ==> final(self).state == old(self).state && step.children@.len() == 0
                && !step.clear_cache && step.effects@.len() == 0,
            !view_skips(*old(self), info) && view_blocks(*old(self), info) ==> final(self).state == old(self).state
                && step.children@.len() == 0 && !step.clear_cache && step.effects@ == opening_effects::<ViewState, ViewEvent>(),
            !view_skips(*old(self), info) && !view_blocks(*old(self), info) ==> {
                &&& step.clear_cache == info.query_invalidated
                &&& step.children@.len() == dispatch_order(ids@, old(self).event_order).len()
                &&& forall|k: int| 0 <= k < step.children@.len() ==>
                    step.children@[k] as int == dispatch_order(ids@, old(self).event_order)[k]
                &&& !view_takes_hit(*old(self), info) ==> final(self).state == old(self).state
                    && step.effects@ == opening_effects::<ViewState, ViewEvent>()
                &&& view_takes_hit(*old(self), info) && old(self).disabled ==>
                    final(self).state == disabled_state(old(self).state, ViewState::Disabled, hit)
                    && step.effects@ == opening_effects::<ViewState, ViewEvent>() + disabled_effects::<ViewState, ViewEvent>(ViewState::Disabled, hit)
                &&& view_takes_hit(*old(self), info) && !old(self).disabled ==>
                    final(self).state == view_hit(*old(self), hit).0
                    && step.effects@ == opening_effects::<ViewState, ViewEvent>() + view_hit(*old(self), hit).1
            },
    {
        let mut effects: Vec<ViewEffect> = Vec::new();
        if !self.visible && info.requires_visibility {
            return ViewStep { children: Vec::new(), clear_cache: false, effects };
        }
        effects.push(Effect::SyncAnimator);
        effects.push(Effect::MarkAnimated);
        assert(effects@ =~= opening_effects::<ViewState, ViewEvent>());
        if self.block_signal_event && info.is_signal {
            return ViewStep { children: Vec::new(), clear_cache: false, effects };
        }
        let children = child_order(ids, &self.event_order);
        if self.visible || info.has_animator {
            let mut more = if self.disabled { self.handle_when_disabled(hit) } else { self.handle_widget_event(hit) };
            effects.append(&mut more);
        }
        ViewStep { children, clear_cache: info.query_invalidated, effects }
    }

    /// Shows a disabled view in its disabled state; an enabled one keeps its state.
    pub fn render(&mut self)
        ensures
            final(self).state == (if old(self).disabled { ViewState::Disabled } else { old(self).state }),
            final(self).visible == old(self).visible,
            final(self).disabled == old(self).disabled,
            final(self).event_order == old(self).event_order,
    {
        if self.disabled {
            self.state = ViewState::Disabled;
        }
    }
}

/// The key under which a search for a path is cached: the ids of the path
/// combined by exclusive or.
pub open spec fn path_hash(path: Seq<u64>) -> u64
    decreases path.len(),
{
    if path.len() == 0 { 0 } else { path_hash(path.drop_last()) ^ path.last() }
}

/// The key under which a search for a path is cached.
pub fn hash_path(path: &Vec<u64>) -> (h: u64)
    ensures
        h == path_hash(path@),
{
    let mut h: u64 = 0;
    let mut i: usize = 0;
    while i < path.len()
        invariant
            i <= path.len(),
            h == path_hash(path@.take(i as int)),
        decreases path.len() - i,
    {
        proof {
            assert(path@.take(i + 1).drop_last() =~= path@.take(i as int));
        }
        h = h ^ path[i];
        i = i + 1;
    }
    assert(path@.take(path.len() as int) =~= path@);
    h
}

/// The results of earlier searches, each under the key of its path.
pub struct FindCache<T> {
    pub entries: Vec<(u64, T)>,
}

/// The first cached result under a key, if there is one.
pub open spec fn cached<T>(entries: Seq<(u64, T)>, key: u64) -> Option<T>
    decreases entries.len(),
{
    if entries.len() == 0 {
        None
    } else {
        match cached(entries.drop_last(), key) {
            Some(t) => Some(t),
            None => if entries.last().0 == key { Some(entries.last().1) } else { None },
        }
    }
}

proof fn lemma_cached_prefix<T>(entries: Seq<(u64, T)>, key: u64, k: int)
    requires
        0 <= k <= entries.len(),
        cached(entries.take(k), key) is Some,
    ensures
        cached(entries, key) == cached(entries.take(k), key),
    decreases entries.len() - k,
{
    if k < entries.len() {
        assert(entries.take(k + 1).drop_last() =~= entries.take(k));
        lemma_cached_prefix(entries, key, k + 1);
    } else {
        assert(entries.take(k) =~= entries);
    }
}

/// A later result under a key that is already cached is never found.
pub proof fn lemma_cached_first_wins<T>(entries: Seq<(u64, T)>, key: u64, t: T)
    requires
        cached(entries, key) is Some,
    ensures
        cached(entries.push((key, t)), key) == cached(entries, key),
{
    assert(entries.push((key, t)).drop_last() =~= entries);
}

/// A result cached under a new key is found under it.
pub proof fn lemma_cached_after_insert<T>(entries: Seq<(u64, T)>, key: u64, t: T)
    requires
        cached(entries, key) is None,
    ensures
        cached(entries.push((key, t)), key) == Some(t),
{
    assert(entries.push((key, t)).drop_last() =~= entries);
}

impl<T> FindCache<T> {
    /// An empty cache.
    pub fn new() -> (c: FindCache<T>)
        ensures
            c.entries@.len() == 0,
    {
        FindCache { entries: Vec::new() }
    }

    /// Drops every cached result.
    pub fn clear(&mut self)
        ensures
            final(self).entries@.len() == 0,
    {
        self.entries.clear();
    }

    /// The position of the first result cached under a key.
    pub fn find(&self, key: u64) -> (r: Option<usize>)
        ensures
            match r {
                Some(i) => i < self.entries@.len() && cached(self.entries@, key) == Some(self.entries@[i as int].1),
                None => cached(self.entries@, key) is None,
            },
    {
        let mut i: usize = 0;
        while i < self.entries.len()
            invariant
                i <= self.entries@.len(),
                cached(self.entries@.take(i as int), key) is None,
            decreases self.entries.len() - i,
        {
            proof {
                assert(self.entries@.take(i + 1).drop_last() =~= self.entries@.take(i as int));
                assert(self.entries@.take(i + 1).last() == self.entries@[i as int]);
            }
            if self.entries[i].0 == key {
                proof {
                    lemma_cached_prefix(self.entries@, key, i + 1);
                }
                return Some(i);
            }
            i = i + 1;
        }
        assert(self.entries@.take(self.entries.len() as int) =~= self.entries@);
        None
    }

    /// Caches a result under a key, after the results cached before it.
    pub fn insert(&mut self, key: u64, value: T)
        ensures
            final(self).entries@ == old(self).entries@.push((key, value)),
    {
        self.entries.push((key, value));
    }
}

/// How a search by path uses the cache.
#[derive(Clone, Copy, Debug, PartialEq, Eq)]
pub enum WidgetCache {
    Yes,
    No,
    Clear,
}

/// What a cached search by path does before it searches: nothing where the
/// cache is cleared for an empty path, answer from the cache where the key is
/// cached, or search and cache the result under the key.
#[derive(Clone, Copy, Debug, PartialEq, Eq)]
pub enum FindPlan {
    /// Search without the cache.
    Search,
    /// Stop: the cache was cleared and the path is empty.
    Stop,
    /// Answer with the result cached at this position.
    Cached(usize),
    /// Search, then cache the result under this key.
    SearchAndCache(u64),
}

impl<T> FindCache<T> {
    /// Plans a search for `path` under the cache mode `mode`, clearing the
    /// cache first where the mode asks it.
    pub fn plan(&mut self, path: &Vec<u64>, mode: WidgetCache) -> (p: FindPlan)
        ensures
            mode is No ==> p == FindPlan::Search && final(self).entries@ == old(self).entries@,
            mode is Clear ==> final(self).entries@.len() == 0,
            mode is Clear && path@.len() == 0 ==> p == FindPlan::Stop,
            mode is Yes ==> final(self).entries@ == old(self).entries@,
            (mode is Yes || (mode is Clear && path@.len() > 0)) ==> match p {
                FindPlan::Cached(i) => i < final(self).entries@.len()
                    && cached(final(self).entries@, path_hash(path@)) == Some(final(self).entries@[i as int].1),
                FindPlan::SearchAndCache(h) => h == path_hash(path@) && cached(final(self).entries@, h) is None,
                _ => false,
            },
    {
        match mode {
            WidgetCache::No => FindPlan::Search,
            WidgetCache::Yes | WidgetCache::Clear => {
                if let WidgetCache::Clear = mode {
                    self.clear();
                    if path.len() == 0 {
                        return FindPlan::Stop;
                    }
                }
                let h = hash_path(path);
                match self.find(h) {
                    Some(i) => FindPlan::Cached(i),
                    None => FindPlan::SearchAndCache(h),
                }
            },
        }
    }
}

/// A view whose animation is closed keeps its state under every hit.
pub proof fn lemma_view_closed_animation_keeps_state(v: GView, hit: Hit)
    requires
        !v.animation_open,
    ensures
        view_hit(v, hit).0 == v.state,
{
}

/// Handing an event on last to first visits the children in the reverse of
/// first to last.
pub proof fn lemma_up_reverses_down(ids: Seq<u64>)
    ensures
        dispatch_order(ids, EventOrder::Up) == dispatch_order(ids, EventOrder::Down).reverse(),
{
    assert(dispatch_order(ids, EventOrder::Up) =~= dispatch_order(ids, EventOrder::Down).reverse());
}

/// Two paths made of the same two ids in either order share a search key, so
/// their searches share a cache entry.
pub proof fn lemma_path_hash_swap(a: u64, b: u64)
    ensures
        path_hash(seq![a, b]) == path_hash(seq![b, a]),
{
    assert(seq![a, b].drop_last() =~= seq![a]);
    assert(seq![b, a].drop_last() =~= seq![b]);
    assert(seq![a].drop_last() =~= Seq::<u64>::empty());
    assert(seq![b].drop_last() =~= Seq::<u64>::empty());
    assert(seq![a].last() == a);
    assert(seq![b].last() == b);
    assert(path_hash(Seq::<u64>::empty()) == 0);
    assert(path_hash(seq![a]) == 0u64 ^ a);
    assert(path_hash(seq![b]) == 0u64 ^ b);
    assert(path_hash(seq![a, b]) == path_hash(seq![a]) ^ b);
    assert(path_hash(seq![b, a]) == path_hash(seq![b]) ^ a);
    assert((0u64 ^ a) ^ b == (0u64 ^ b) ^ a) by (bit_vector);
}

/// How a view keeps what it drew: not at all (`Plain`), in a draw list, or
/// in a texture.
#[derive(Clone, Copy, Debug, PartialEq, Eq)]
pub enum ViewOptimize {
    Plain,
    DrawList,
    Texture,
}

/// Whether a view draws into a texture.
pub fn is_texture(optimize: ViewOptimize) -> (r: bool)
    ensures
        r == (optimize is Texture),
{
    match optimize {
        ViewOptimize::Texture => true,
        _ => false,
    }
}

/// Whether a view draws into a draw list of its own.
pub fn is_draw_list(optimize: ViewOptimize) -> (r: bool)
    ensures
        r == (optimize is DrawList),
{
    match optimize {
        ViewOptimize::DrawList => true,
        _ => false,
    }
}

/// Whether a view needs a draw list: every kept drawing does.
pub fn needs_draw_list(optimize: ViewOptimize) -> (r: bool)
    ensures
        r == !(optimize is Plain),
{
    match optimize {
        ViewOptimize::Plain => false,
        _ => true,
    }
}

/// The state whose styles a block of the view's document sets, by the
/// block's name; a block under any other name sets none.
pub open spec fn view_named_state(name: Seq<char>) -> Option<ViewState> {
    if name == "basic"@ {
        Some(ViewState::Basic)
    } else if name == "hover"@ {
        Some(ViewState::Hover)
    } else if name == "pressed"@ {
        Some(ViewState::Pressed)
    } else if name == "disabled"@ {
        Some(ViewState::Disabled)
    } else {
        None
    }
}

impl GView {
    /// After a live update of its document, the view files the styles of each
    /// named block under the state the block names: the state for a block
    /// named `prefix`, if it names one.
    pub fn after_apply(prefix: &String) -> (r: Option<ViewState>)
        ensures
            r == view_named_state(prefix@),
    {
        if is_named(prefix, "basic") {
            Some(ViewState::Basic)
        } else if is_named(prefix, "hover") {
            Some(ViewState::Hover)
        } else if is_named(prefix, "pressed") {
            Some(ViewState::Pressed)
        } else if is_named(prefix, "disabled") {
            Some(ViewState::Disabled)
        } else {
            None
        }
    }
}

/// With its animation open, a view that is not disabled shows what a hit
/// leaves it in: pressed while a finger or key is down, moving or held;
/// hover while the pointer is over it; basic once the pointer has left or a
/// key is released; after a release, hover only where a hovering finger was
/// released over it, basic otherwise. Nothing else changes its state.
pub proof fn lemma_view_hit_states(v: GView, hit: Hit)
    requires
        v.animation_open,
    ensures
        hit is FingerDown || hit is FingerMove || hit is FingerLongPress || hit is KeyDown
            ==> view_hit(v, hit).0 == ViewState::Pressed,
        hit is FingerHoverIn || hit is FingerHoverOver ==> view_hit(v, hit).0 == ViewState::Hover,
        hit is FingerHoverOut || hit is KeyUp ==> view_hit(v, hit).0 == ViewState::Basic,
        hit matches Hit::FingerUp(e) ==> view_hit(v, hit).0 == (if e.is_over && e.has_hovers {
            ViewState::Hover
        } else {
            ViewState::Basic
        }),
        hit is Nothing ==> view_hit(v, hit).0 == v.state,
{
}

/// The pointer leaving a view undoes its entering: an animated view shows its
/// basic state after a hover in and then a hover out.
pub proof fn lemma_view_hover_in_out(v: GView)
    requires
        v.animation_open,
    ensures
        view_hit(GView { state: view_hit(v, Hit::FingerHoverIn).0, ..v }, Hit::FingerHoverOut).0 == ViewState::Basic,
{
}

} // verus!
