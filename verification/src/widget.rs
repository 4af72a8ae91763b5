//! What every component's event handling speaks of: the hit an event makes on
//! a component's area, the animator tracks it plays, and the effects it asks
//! of the host (cursor, key focus, redraw, animator, emitted events).

use vstd::prelude::*;

verus! {

/// How a finger was released over a component.
#[derive(Clone, Copy, Debug, PartialEq, Eq)]
pub struct FingerUp {
    /// Whether the finger was released over the component's area.
    pub is_over: bool,
    /// Whether the device reports hovers (a mouse does, a touch screen does not).
    pub has_hovers: bool,
    /// Whether the release ended a sweep started elsewhere.
    pub is_sweep: bool,
}

/// The hit an event makes on a component's area.
#[derive(Clone, Copy, Debug, PartialEq, Eq)]
pub enum Hit {
    FingerDown,
    FingerMove,
    FingerLongPress,
    FingerUp(FingerUp),
    FingerHoverIn,
    FingerHoverOver,
    FingerHoverOut,
    KeyDown,
    KeyUp,
    Nothing,
}

/// An animator track, named by its group and its state.
#[derive(Clone, Copy, Debug, PartialEq, Eq)]
pub enum Track {
    HoverOff,
    HoverOn,
    HoverActive,
    HoverPressed,
    HoverDisabled,
    ActiveOff,
    ActiveOn,
    ActiveOffHover,
    ActiveOnHover,
    ActiveDisabled,
    DraggingOff,
    DraggingOn,
    DraggingHover,
    DraggingDisabled,
    LoadingOff,
    LoadingOn,
    LoadingDisabled,
}

/// One thing a component asks of its host while it handles an event, in the
/// order it asks: `S` is the component's state type, `E` its event type.
#[derive(Clone, Copy, Debug, PartialEq, Eq)]
pub enum Effect<S, E> {
    /// Write the styles of the states into the animator (see `animation`).
    SyncAnimator,
    /// Record that this kind of component has had its animator written once.
    MarkAnimated,
    /// Set the mouse cursor to the one the style of this state names.
    Cursor(S),
    /// Set the mouse cursor back to the default one.
    DefaultCursor,
    /// Set the mouse cursor to a hand.
    HandCursor,
    /// Give the component's area the key focus.
    KeyFocus,
    /// Redraw the component.
    Redraw,
    /// Play an animator track.
    Animate(Track),
    /// Lock sweeps to the component's area.
    SweepLock,
    /// Release the sweep lock of the component's area.
    SweepUnlock,
    /// Send an event to the component's listeners.
    Emit(E),
}

/// The state a component is in after it asked to switch to `to`: it switches
/// only where its animation is open.
pub open spec fn switched<S>(animation_open: bool, cur: S, to: S) -> S {
    if animation_open { to } else { cur }
}

/// What asking to switch state costs: the animator is written again where the
/// animation is open, and the component redrawn where it redraws on a switch.
pub open spec fn switch_effects<S, E>(animation_open: bool, redraws: bool) -> Seq<Effect<S, E>> {
    if animation_open {
        if redraws { seq![Effect::SyncAnimator, Effect::Redraw] } else { seq![Effect::SyncAnimator] }
    } else {
        Seq::empty()
    }
}

/// An event is sent only where events are open and the component has been
/// drawn into a scope.
pub open spec fn emit<S, E>(open: bool, e: E) -> Seq<Effect<S, E>> {
    if open { seq![Effect::Emit(e)] } else { Seq::empty() }
}

/// The state a disabled component is in after a hit: a hover makes it show
/// its disabled state, every other hit leaves it as it is.
pub open spec fn disabled_state<S>(cur: S, disabled: S, hit: Hit) -> S {
    if hit is FingerHoverIn { disabled } else { cur }
}

/// What a disabled component asks after a hit: on a hover, a redraw and the
/// cursor of its disabled state; nothing otherwise.
pub open spec fn disabled_effects<S, E>(disabled: S, hit: Hit) -> Seq<Effect<S, E>> {
    if hit is FingerHoverIn { seq![Effect::Redraw, Effect::Cursor(disabled)] } else { Seq::empty() }
}

/// Handles a hit on a disabled component: returns its new state and appends
/// its effects.
pub fn handle_disabled<S: Copy, E>(cur: S, disabled: S, hit: Hit, effects: &mut Vec<Effect<S, E>>) -> (s: S)
    ensures
        s == disabled_state(cur, disabled, hit),
        final(effects)@ == old(effects)@ + disabled_effects::<S, E>(disabled, hit),
{
    let ghost start = effects@;
    match hit {
        Hit::FingerHoverIn => {
            effects.push(Effect::Redraw);
            effects.push(Effect::Cursor(disabled));
            assert(effects@ =~= start + seq![Effect::Redraw, Effect::Cursor(disabled)]);
            disabled
        },
        _ => {
            assert(effects@ =~= start + Seq::<Effect<S, E>>::empty());
            cur
        },
    }
}

/// The effects that open the handling of every event by a visible component.
pub open spec fn opening_effects<S, E>() -> Seq<Effect<S, E>> {
    seq![Effect::SyncAnimator, Effect::MarkAnimated]
}

/// Starts the effects of an event on a visible component.
pub fn opening<S, E>() -> (effects: Vec<Effect<S, E>>)
    ensures
        effects@ == opening_effects::<S, E>(),
{
    let mut effects: Vec<Effect<S, E>> = Vec::new();
    effects.push(Effect::SyncAnimator);
    effects.push(Effect::MarkAnimated);
    assert(effects@ =~= opening_effects::<S, E>());
    effects
}

/// Appends one effect.
pub fn push_effect<S, E>(effects: &mut Vec<Effect<S, E>>, e: Effect<S, E>)
    ensures
        final(effects)@ == old(effects)@.push(e),
{
    effects.push(e);
}

/// Appends the effects of asking to switch state.
pub fn push_switch<S, E>(effects: &mut Vec<Effect<S, E>>, animation_open: bool, redraws: bool)
    ensures
        final(effects)@ == old(effects)@ + switch_effects::<S, E>(animation_open, redraws),
{
    let ghost start = effects@;
    if animation_open {
        effects.push(Effect::SyncAnimator);
        if redraws {
            effects.push(Effect::Redraw);
            assert(effects@ =~= start + seq![Effect::SyncAnimator, Effect::Redraw]);
        } else {
            assert(effects@ =~= start + seq![Effect::SyncAnimator]);
        }
    } else {
        assert(effects@ =~= start + Seq::<Effect<S, E>>::empty());
    }
}

/// Appends an event where it is sent.
pub fn push_emit<S, E>(effects: &mut Vec<Effect<S, E>>, open: bool, e: E)
    ensures
        final(effects)@ == old(effects)@ + emit::<S, E>(open, e),
{
    let ghost start = effects@;
    if open {
        effects.push(Effect::Emit(e));
        assert(effects@ =~= start + seq![Effect::Emit(e)]);
    } else {
        assert(effects@ =~= start + Seq::<Effect<S, E>>::empty());
    }
}

} // verus!
