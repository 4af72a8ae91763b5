//! The verification code field: a row of one-character inputs whose values
//! together make the code.

use vstd::prelude::*;
use crate::text::is_named;
use crate::state::{ComponentState, ViewState};

verus! {

broadcast use vstd::std_specs::vec::group_vec_axioms;

/// The state of a verification code field.
#[derive(Clone, Copy, Debug, PartialEq, Eq, Hash)]
pub enum VerificationState {
    Basic,
    Disabled,
}

impl ComponentState for VerificationState {
    open spec fn spec_is_disabled(&self) -> bool {
        false
    }

    fn is_disabled(&self) -> (r: bool) {
        false
    }
}

impl From<VerificationState> for ViewState {
    fn from(value: VerificationState) -> (r: ViewState) {
        match value {
            VerificationState::Basic => ViewState::Basic,
            VerificationState::Disabled => ViewState::Disabled,
        }
    }
}

impl vstd::std_specs::convert::FromSpecImpl<VerificationState> for ViewState {
    open spec fn obeys_from_spec() -> bool {
        true
    }

    open spec fn from_spec(v: VerificationState) -> ViewState {
        match v {
            VerificationState::Basic => ViewState::Basic,
            VerificationState::Disabled => ViewState::Disabled,
        }
    }
}

impl VerificationState {
    /// The verification state a view state stands for; a view that is hovered
    /// or pressed stands for none.
    pub fn from_view(value: ViewState) -> (r: VerificationState)
        requires
            value is Basic || value is Disabled,
        ensures
            value is Basic ==> r is Basic,
            value is Disabled ==> r is Disabled,
    {
        match value {
            ViewState::Disabled => VerificationState::Disabled,
            _ => VerificationState::Basic,
        }
    }
}

/// The parts of a verification code field that carry a style of their own.
#[derive(Clone, Copy, Debug, PartialEq, Eq, Hash)]
pub enum VerificationPart {
    Container,
    Item,
}

/// A change of a verification code: the values of its inputs and how many
/// inputs there are.
#[derive(Clone, Debug, PartialEq, Eq)]
pub struct VerificationChanged {
    pub value: Vec<String>,
    pub length: usize,
}

/// The events a verification code field sends.
#[derive(Clone, Debug, PartialEq, Eq)]
pub enum VerificationEvent {
    Changed(VerificationChanged),
}

/// A verification code field: how many inputs it has and the values it
/// fills them with.
pub struct GVerification {
    pub visible: bool,
    pub disabled: bool,
    /// How many inputs the field has; none where it is not positive.
    pub length: i32,
    /// The values of the inputs, one per input.
    pub value: Vec<String>,
    pub state: VerificationState,
}

/// The value each input of a field gets when the inputs are made again:
/// none (the input keeps the value it is made with) where the field has no
/// values, otherwise the value at the input's place, or an empty one past
/// the end of the values.
pub open spec fn item_values(length: i32, value: Seq<Seq<char>>) -> Seq<Option<Seq<char>>> {
    Seq::new(if length > 0 { length as nat } else { 0 }, |k: int|
        if value.len() == 0 {
            None
        } else if k < value.len() {
            Some(value[k])
        } else {
            Some(Seq::<char>::empty())
        }
    )
}

/// The values of a field kept one per input: the value at each input's
/// place, an empty one past the end of the values; none past the last input.
pub open spec fn fitted_values(length: i32, value: Seq<Seq<char>>) -> Seq<Seq<char>> {
    Seq::new(if length > 0 { length as nat } else { 0 }, |k: int|
        if k < value.len() { value[k] } else { Seq::<char>::empty() }
    )
}

/// Whether a field holds one value per input, as its values are kept.
pub open spec fn values_fit(f: GVerification) -> bool {
    f.value@.len() == (if f.length > 0 { f.length as int } else { 0 })
}

impl GVerification {
    /// Makes the inputs of the field again: returns the value each input gets
    /// (see `item_values`), and keeps the field's values one per input, the
    /// values past the last input dropped and empty ones added up to it.
    pub fn apply_items(&mut self) -> (r: Vec<Option<String>>)
        ensures
            r@.len() == item_values(old(self).length, old(self).value.deep_view()).len(),
            forall|k: int| 0 <= k < r@.len() ==> (match #[trigger] r@[k] {
                Some(s) => Some(s@),
                None => None,
            }) == item_values(old(self).length, old(self).value.deep_view())[k],
            final(self).value.deep_view() == fitted_values(old(self).length, old(self).value.deep_view()),
            values_fit(*final(self)),
            final(self).visible == old(self).visible,
            final(self).disabled == old(self).disabled,
            final(self).length == old(self).length,
            final(self).state == old(self).state,
    {
        let mut r: Vec<Option<String>> = Vec::new();
        let mut kept: Vec<String> = Vec::new();
        let mut k: i32 = 0;
        let ghost want = item_values(self.length, self.value.deep_view());
        let ghost fit = fitted_values(self.length, self.value.deep_view());
        while k < self.length
            invariant
                0 <= k,
                self.length > 0 ==> k <= self.length,
                self.length <= 0 ==> k == 0,
                r@.len() == k,
                kept@.len() == k,
                want == item_values(self.length, self.value.deep_view()),
                fit == fitted_values(self.length, self.value.deep_view()),
                forall|j: int| 0 <= j < r@.len() ==> (match #[trigger] r@[j] {
                    Some(s) => Some(s@),
                    None => None,
                }) == want[j],
                forall|j: int| 0 <= j < kept@.len() ==> #[trigger] kept@[j]@ == fit[j],
            decreases self.length - k,
        {
            let ghost before = r@;
            let ghost kept_before = kept@;
            let idx = k as usize;
            if self.value.len() == 0 {
                r.push(None);
            } else if idx < self.value.len() {
                r.push(Some(self.value[idx].clone()));
            } else {
                r.push(Some(String::new()));
            }
            if idx < self.value.len() {
                kept.push(self.value[idx].clone());
            } else {
                kept.push(String::new());
            }
            proof {
                assert forall|j: int| 0 <= j < r@.len() implies (match #[trigger] r@[j] {
                    Some(s) => Some(s@),
                    None => None,
                }) == want[j] by {
                    if j < before.len() {
                        assert(r@[j] == before[j]);
                    }
                }
                assert forall|j: int| 0 <= j < kept@.len() implies #[trigger] kept@[j]@ == fit[j] by {
                    if j < kept_before.len() {
                        assert(kept@[j] == kept_before[j]);
                    }
                }
            }
            k = k + 1;
        }
        proof {
            assert(kept.deep_view().len() == fit.len());
            assert forall|j: int| 0 <= j < fit.len() implies #[trigger] kept.deep_view()[j] == fit[j] by {
                assert(kept@[j]@ == fit[j]);
            }
            assert(kept.deep_view() =~= fit);
        }
        self.value = kept;
        r
    }

    /// Whether the field hands an event on to its inputs: a visible field that
    /// is not disabled does; an invisible one ignores the event, and a
    /// disabled one does nothing with it.
    pub fn handle_event(&self) -> (to_items: bool)
        ensures
            to_items == (self.visible && !self.disabled),
    {
        self.visible && !self.disabled
    }

    /// Puts a disabled field in its disabled state; an enabled one keeps its state.
    pub fn render(&mut self)
        ensures
            final(self).state == (if old(self).disabled { VerificationState::Disabled } else { old(self).state }),
            final(self).visible == old(self).visible,
            final(self).disabled == old(self).disabled,
            final(self).length == old(self).length,
            final(self).value == old(self).value,
    {
        if self.disabled {
            self.state = VerificationState::Disabled;
        }
    }
}

/// A field makes as many inputs as its length says, and none for a length
/// that is not positive; where it has values, each input shows the value at
/// its place.
pub proof fn lemma_item_values(length: i32, value: Seq<Seq<char>>)
    ensures
        item_values(length, value).len() == (if length > 0 { length as int } else { 0 }),
        value.len() > 0 ==> forall|k: int| 0 <= k < item_values(length, value).len() && k < value.len()
            ==> #[trigger] item_values(length, value)[k] == Some(value[k]),
{
}

/// The state whose styles a block of the field's document sets, by the
/// block's name; a block under any other name sets none.
pub open spec fn verification_named_state(name: Seq<char>) -> Option<VerificationState> {
    if name == "basic"@ {
        Some(VerificationState::Basic)
    } else if name == "disabled"@ {
        Some(VerificationState::Disabled)
    } else {
        None
    }
}

impl GVerification {
    /// After a live update of its document, the field files the styles of each
    /// named block under the state the block names: the state for a block
    /// named `prefix`, if it names one.
    pub fn after_apply(prefix: &String) -> (r: Option<VerificationState>)
        ensures
            r == verification_named_state(prefix@),
    {
        if is_named(prefix, "basic") {
            Some(VerificationState::Basic)
        } else if is_named(prefix, "disabled") {
            Some(VerificationState::Disabled)
        } else {
            None
        }
    }
}

} // verus!
