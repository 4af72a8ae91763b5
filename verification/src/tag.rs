//! The tag: a label with an icon and a close button; a click on the close
//! button hides the tag.

use vstd::prelude::*;
use crate::text::is_named;
use crate::state::{ComponentState, LabelState, Style, SvgState, ViewState};
use crate::widget::{
    disabled_effects, disabled_state, emit, handle_disabled, opening, opening_effects, push_effect,
    push_emit, push_switch, switch_effects, switched, Effect, Hit, Track,
};

verus! {

/// The state of a tag.
#[derive(Clone, Copy, Debug, PartialEq, Eq, Hash)]
pub enum TagState {
    Basic,
    Hover,
    Pressed,
    Disabled,
}

impl ComponentState for TagState {
    open spec fn spec_is_disabled(&self) -> bool {
        *self is Disabled
    }

    fn is_disabled(&self) -> (r: bool) {
        match self {
            TagState::Disabled => true,
            _ => false,
        }
    }
}

impl TagState {
    /// The animator track whose values show the state.
    pub open spec fn spec_track(self) -> Track {
        match self {
            TagState::Basic => Track::HoverOff,
            TagState::Hover => Track::HoverOn,
            TagState::Pressed => Track::HoverPressed,
            TagState::Disabled => Track::HoverDisabled,
        }
    }

    /// The animator track whose values show the state.
    pub fn track(&self) -> (t: Track)
        ensures
            t == self.spec_track(),
    {
        match self {
            TagState::Basic => Track::HoverOff,
            TagState::Hover => Track::HoverOn,
            TagState::Pressed => Track::HoverPressed,
            TagState::Disabled => Track::HoverDisabled,
        }
    }

    /// The state the tag's container view shows.
    pub open spec fn spec_to_view(self) -> ViewState {
        match self {
            TagState::Basic => ViewState::Basic,
            TagState::Hover => ViewState::Hover,
            TagState::Pressed => ViewState::Pressed,
            TagState::Disabled => ViewState::Disabled,
        }
    }

    /// The state the tag's icons show.
    pub open spec fn spec_to_svg(self) -> SvgState {
        match self {
            TagState::Basic => SvgState::Basic,
            TagState::Hover => SvgState::Hover,
            TagState::Pressed => SvgState::Pressed,
            TagState::Disabled => SvgState::Disabled,
        }
    }

    /// The tag state a view state stands for.
    pub open spec fn spec_from_view(v: ViewState) -> TagState {
        match v {
            ViewState::Basic => TagState::Basic,
            ViewState::Hover => TagState::Hover,
            ViewState::Pressed => TagState::Pressed,
            ViewState::Disabled => TagState::Disabled,
        }
    }
}

impl From<TagState> for ViewState {
    fn from(value: TagState) -> (r: ViewState) {
        match value {
            TagState::Basic => ViewState::Basic,
            TagState::Hover => ViewState::Hover,
            TagState::Pressed => ViewState::Pressed,
            TagState::Disabled => ViewState::Disabled,
        }
    }
}

impl vstd::std_specs::convert::FromSpecImpl<TagState> for ViewState {
    open spec fn obeys_from_spec() -> bool {
        true
    }

    open spec fn from_spec(v: TagState) -> ViewState {
        v.spec_to_view()
    }
}

impl From<ViewState> for TagState {
    fn from(value: ViewState) -> (r: TagState) {
        match value {
            ViewState::Basic => TagState::Basic,
            ViewState::Hover => TagState::Hover,
            ViewState::Pressed => TagState::Pressed,
            ViewState::Disabled => TagState::Disabled,
        }
    }
}

impl vstd::std_specs::convert::FromSpecImpl<ViewState> for TagState {
    open spec fn obeys_from_spec() -> bool {
        true
    }

    open spec fn from_spec(v: ViewState) -> TagState {
        TagState::spec_from_view(v)
    }
}

impl From<TagState> for SvgState {
    fn from(value: TagState) -> (r: SvgState) {
        match value {
            TagState::Basic => SvgState::Basic,
            TagState::Hover => SvgState::Hover,
            TagState::Pressed => SvgState::Pressed,
            TagState::Disabled => SvgState::Disabled,
        }
    }
}

impl vstd::std_specs::convert::FromSpecImpl<TagState> for SvgState {
    open spec fn obeys_from_spec() -> bool {
        true
    }

    open spec fn from_spec(v: TagState) -> SvgState {
        v.spec_to_svg()
    }
}

/// The parts of a tag that carry a style of their own.
#[derive(Clone, Copy, Debug, PartialEq, Eq, Hash)]
pub enum TagPart {
    Icon,
    Text,
    Close,
    Container,
}

/// The styles of a tag, one per state.
#[derive(Clone, Copy, Debug, PartialEq, Eq)]
pub struct TagStyle<B> {
    pub basic: B,
    pub hover: B,
    pub pressed: B,
    pub disabled: B,
}

impl<B> Style for TagStyle<B> {
    type State = TagState;
    type Basic = B;

    open spec fn spec_get(&self, state: TagState) -> B {
        match state {
            TagState::Basic => self.basic,
            TagState::Hover => self.hover,
            TagState::Pressed => self.pressed,
            TagState::Disabled => self.disabled,
        }
    }

    fn get(&self, state: TagState) -> (r: &B) {
        match state {
            TagState::Basic => &self.basic,
            TagState::Hover => &self.hover,
            TagState::Pressed => &self.pressed,
            TagState::Disabled => &self.disabled,
        }
    }

    fn get_mut(&mut self, state: TagState) -> (r: &mut B) {
        match state {
            TagState::Basic => &mut self.basic,
            TagState::Hover => &mut self.hover,
            TagState::Pressed => &mut self.pressed,
            TagState::Disabled => &mut self.disabled,
        }
    }
}

/// The events a tag sends.
#[derive(Clone, Copy, Debug, PartialEq, Eq)]
pub enum TagEvent {
    HoverIn,
    HoverOut,
    FingerDown,
    Clicked,
    Close,
}

/// The effects a tag asks for.
pub type TagEffect = Effect<TagState, TagEvent>;

/// A tag: what its event handling reads and changes.
#[derive(Clone, Copy, Debug, PartialEq, Eq)]
pub struct GTag {
    pub visible: bool,
    pub disabled: bool,
    pub grab_key_focus: bool,
    pub event_open: bool,
    pub animation_open: bool,
    /// Whether the tag has been drawn into a scope, which its events need.
    pub scoped: bool,
    pub state: TagState,
}

/// Whether a tag's events reach its listeners.
pub open spec fn tag_open(t: GTag) -> bool {
    t.event_open && t.scoped
}

/// What a tag that is not disabled does with a hit, where `in_close` says
/// whether a released finger was over its close button: whether it stays
/// visible, its state and the effects it asks for.
pub open spec fn tag_hit(t: GTag, hit: Hit, in_close: bool) -> (bool, TagState, Seq<TagEffect>) {
    let open = tag_open(t);
    let anim = t.animation_open;
    match hit {
        Hit::FingerHoverIn => {
            let st = switched(anim, t.state, TagState::Hover);
            (t.visible, st, switch_effects(anim, false) + seq![Effect::Cursor(st)] + emit(open, TagEvent::HoverIn))
        },
        Hit::FingerHoverOut => (
            t.visible,
            switched(anim, t.state, TagState::Basic),
            switch_effects(anim, false) + emit(open, TagEvent::HoverOut),
        ),
        Hit::FingerDown => (
            t.visible,
            switched(anim, t.state, TagState::Pressed),
            switch_effects(anim, false) + (if t.grab_key_focus { seq![Effect::KeyFocus] } else { Seq::empty() })
                + emit(open, TagEvent::FingerDown),
        ),
        Hit::FingerUp(e) => if !e.is_over {
            (t.visible, switched(anim, t.state, TagState::Basic), switch_effects(anim, false))
        } else {
            let st = switched(anim, t.state, if e.has_hovers { TagState::Hover } else { TagState::Basic });
            let shown = switch_effects(anim, false)
                + seq![Effect::Animate(if e.has_hovers { Track::HoverOn } else { Track::HoverOff })];
            if in_close {
                (false, st, shown + emit(open, TagEvent::Close))
            } else {
                (t.visible, st, shown + emit(open, TagEvent::Clicked))
            }
        },
        _ => (t.visible, t.state, Seq::empty()),
    }
}

impl GTag {
    /// Handles a hit on a tag that is not disabled; `in_close` says whether a
    /// released finger was over the close button.
    pub fn handle_widget_event(&mut self, hit: Hit, in_close: bool) -> (effects: Vec<TagEffect>)
        ensures
            (final(self).visible, final(self).state, effects@) == tag_hit(*old(self), hit, in_close),
            *final(self) == (GTag { visible: final(self).visible, state: final(self).state, ..*old(self) }),
    {
        let mut effects: Vec<TagEffect> = Vec::new();
        let open = self.event_open && self.scoped;
        let anim = self.animation_open;
        match hit {
            Hit::FingerHoverIn => {
                push_switch(&mut effects, anim, false);
                if anim {
                    self.state = TagState::Hover;
                }
                push_effect(&mut effects, Effect::Cursor(self.state));
                push_emit(&mut effects, open, TagEvent::HoverIn);
            },
            Hit::FingerHoverOut => {
                push_switch(&mut effects, anim, false);
                if anim {
                    self.state = TagState::Basic;
                }
                push_emit(&mut effects, open, TagEvent::HoverOut);
            },
            Hit::FingerDown => {
                push_switch(&mut effects, anim, false);
                if anim {
                    self.state = TagState::Pressed;
                }
                if self.grab_key_focus {
                    push_effect(&mut effects, Effect::KeyFocus);
                }
                push_emit(&mut effects, open, TagEvent::FingerDown);
            },
            Hit::FingerUp(e) => {
                push_switch(&mut effects, anim, false);
                if !e.is_over {
                    if anim {
                        self.state = TagState::Basic;
                    }
                } else {
                    if e.has_hovers {
                        if anim {
                            self.state = TagState::Hover;
                        }
                        push_effect(&mut effects, Effect::Animate(Track::HoverOn));
                    } else {
                        if anim {
                            self.state = TagState::Basic;
                        }
                        push_effect(&mut effects, Effect::Animate(Track::HoverOff));
                    }
                    if in_close {
                        self.visible = false;
                        push_emit(&mut effects, open, TagEvent::Close);
                    } else {
                        push_emit(&mut effects, open, TagEvent::Clicked);
                    }
                }
            },
            _ => {},
        }
        proof {
            let (v, s, fx) = tag_hit(*old(self), hit, in_close);
            assert(effects@ =~= fx);
        }
        effects
    }

    /// Handles a hit on a disabled tag.
    pub fn handle_when_disabled(&mut self, hit: Hit) -> (effects: Vec<TagEffect>)
        ensures
            *final(self) == (GTag { state: disabled_state(old(self).state, TagState::Disabled, hit), ..*old(self) }),
            effects@ == disabled_effects::<TagState, TagEvent>(TagState::Disabled, hit),
    {
        let mut effects: Vec<TagEffect> = Vec::new();
        self.state = handle_disabled(self.state, TagState::Disabled, hit, &mut effects);
        assert(effects@ =~= disabled_effects::<TagState, TagEvent>(TagState::Disabled, hit));
        effects
    }

    /// Handles an event on a tag: an invisible tag ignores it; a visible one
    /// writes its animator, then handles the hit as a disabled or as an
    /// enabled tag.
    pub fn handle_event(&mut self, hit: Hit, in_close: bool) -> (effects: Vec<TagEffect>)
        ensures
            !old(self).visible ==> *final(self) == *old(self) && effects@.len() == 0,
            old(self).visible && old(self).disabled ==>
                *final(self) == (GTag { state: disabled_state(old(self).state, TagState::Disabled, hit), ..*old(self) })
                && effects@ == opening_effects::<TagState, TagEvent>() + disabled_effects::<TagState, TagEvent>(TagState::Disabled, hit),
            old(self).visible && !old(self).disabled ==> ({
                let (v, s, fx) = tag_hit(*old(self), hit, in_close);
                *final(self) == (GTag { visible: v, state: s, ..*old(self) })
                    && effects@ == opening_effects::<TagState, TagEvent>() + fx
            }),
    {
        if !self.visible {
            return Vec::new();
        }
        let mut effects = opening();
        let mut more = if self.disabled { self.handle_when_disabled(hit) } else { self.handle_widget_event(hit, in_close) };
        effects.append(&mut more);
        effects
    }

    /// Puts the tag in the state it is drawn in: disabled or basic.
    pub fn render(&mut self)
        ensures
            *final(self) == (GTag { state: if old(self).disabled { TagState::Disabled } else { TagState::Basic }, ..*old(self) }),
    {
        self.state = if self.disabled { TagState::Disabled } else { TagState::Basic };
    }
}

/// A tag hides itself exactly when a finger is released over its close
/// button; it then sends a close and no click.
pub proof fn lemma_tag_close_hides(t: GTag, hit: Hit, in_close: bool)
    requires
        t.visible,
    ensures
        !tag_hit(t, hit, in_close).0 <==> (in_close && (hit matches Hit::FingerUp(e) && e.is_over)),
        !tag_hit(t, hit, in_close).0 ==> !tag_hit(t, hit, in_close).2.contains(Effect::<TagState, TagEvent>::Emit(TagEvent::Clicked)),
{
    let fx = tag_hit(t, hit, in_close).2;
    let c = Effect::<TagState, TagEvent>::Emit(TagEvent::Clicked);
    if !tag_hit(t, hit, in_close).0 && fx.contains(c) {
        let k = choose|k: int| 0 <= k < fx.len() && fx[k] == c;
        assert(fx[k] == c);
    }
}

/// A tag state and the view state it is shown in stand for each other.
pub proof fn lemma_tag_view_roundtrip(s: TagState, v: ViewState)
    ensures
        TagState::spec_from_view(s.spec_to_view()) == s,
        TagState::spec_from_view(v).spec_to_view() == v,
{
}

impl GTag {
    /// Draws the tag where it is visible, which gives it the scope its events
    /// need; a hidden tag is not drawn and gets no scope. Returns whether it
    /// was drawn.
    pub fn draw_walk(&mut self) -> (drawn: bool)
        ensures
            drawn == old(self).visible,
            *final(self) == (GTag { scoped: old(self).scoped || old(self).visible, ..*old(self) }),
    {
        if self.visible {
            self.scoped = true;
        }
        self.visible
    }
}

/// The state whose styles a block of the tag's document sets, by the
/// block's name; a block under any other name sets none.
pub open spec fn tag_named_state(name: Seq<char>) -> Option<TagState> {
    if name == "basic"@ {
        Some(TagState::Basic)
    } else if name == "hover"@ {
        Some(TagState::Hover)
    } else if name == "pressed"@ {
        Some(TagState::Pressed)
    } else if name == "disabled"@ {
        Some(TagState::Disabled)
    } else {
        None
    }
}

impl GTag {
    /// After a live update of its document, the tag files the styles of each
    /// named block under the state the block names: the state for a block
    /// named `prefix`, if it names one.
    pub fn after_apply(prefix: &String) -> (r: Option<TagState>)
        ensures
            r == tag_named_state(prefix@),
    {
        if is_named(prefix, "basic") {
            Some(TagState::Basic)
        } else if is_named(prefix, "hover") {
            Some(TagState::Hover)
        } else if is_named(prefix, "pressed") {
            Some(TagState::Pressed)
        } else if is_named(prefix, "disabled") {
            Some(TagState::Disabled)
        } else {
            None
        }
    }
}

/// The state a tag's text is shown in: disabled with the tag, basic
/// otherwise.
pub open spec fn tag_label(s: TagState) -> LabelState {
    match s {
        TagState::Disabled => LabelState::Disabled,
        _ => LabelState::Basic,
    }
}

impl From<TagState> for LabelState {
    fn from(value: TagState) -> (r: LabelState) {
        match value {
            TagState::Basic | TagState::Hover | TagState::Pressed => LabelState::Basic,
            TagState::Disabled => LabelState::Disabled,
        }
    }
}

impl vstd::std_specs::convert::FromSpecImpl<TagState> for LabelState {
    open spec fn obeys_from_spec() -> bool {
        true
    }

    open spec fn from_spec(v: TagState) -> LabelState {
        tag_label(v)
    }
}

/// Which of a tag's slots answers a search by widget id.
#[derive(Clone, Copy, Debug, PartialEq, Eq)]
pub enum TagLookup {
    /// No slot: the search finds nothing.
    Neither,
    Icon,
    Text,
    Close,
}

/// The slot that answers a search through a tag: the first of its icon, its
/// text and its close button whose lookup found the widget.
pub open spec fn tag_lookup(icon_found: bool, text_found: bool, close_found: bool) -> TagLookup {
    if icon_found {
        TagLookup::Icon
    } else if text_found {
        TagLookup::Text
    } else if close_found {
        TagLookup::Close
    } else {
        TagLookup::Neither
    }
}

impl GTag {
    /// Answers a search by widget id from what the lookups of the tag's
    /// icon, text and close button found (`true` where one found the
    /// widget): the first slot, in that order, that found it.
    pub fn uid_to_widget(icon_found: bool, text_found: bool, close_found: bool) -> (r: TagLookup)
        ensures
            r == tag_lookup(icon_found, text_found, close_found),
    {
        if icon_found {
            TagLookup::Icon
        } else if text_found {
            TagLookup::Text
        } else if close_found {
            TagLookup::Close
        } else {
            TagLookup::Neither
        }
    }
}

/// With its animation open, a tag shows hover while the pointer is over it,
/// pressed while a finger is down on it, basic once the pointer has left it,
/// and after a release hover only where a hovering finger was released over
/// it, basic otherwise.
pub proof fn lemma_tag_hit_states(t: GTag, hit: Hit, in_close: bool)
    requires
        t.animation_open,
    ensures
        hit is FingerHoverIn ==> tag_hit(t, hit, in_close).1 == TagState::Hover,
        hit is FingerDown ==> tag_hit(t, hit, in_close).1 == TagState::Pressed,
        hit is FingerHoverOut ==> tag_hit(t, hit, in_close).1 == TagState::Basic,
        hit matches Hit::FingerUp(e) ==> tag_hit(t, hit, in_close).1 == (if e.is_over && e.has_hovers {
            TagState::Hover
        } else {
            TagState::Basic
        }),
{
}

} // verus!
